//! The closed-form threshold formula, written as exact rationals, and the
//! proof that the calculator computes exactly its rounding.
//!
//! The calculator (`crate::calc`) works on a single integer numerator and
//! denominator. Here the formula is instead composed step by step from
//! rational arithmetic, the way it is written on paper:
//!
//! `(0.04/ratio) * ((line+safe)^2 * slope + channel_width * (line+safe))
//!  + channel_width^2 / 4 * slope^2 - channel_width / 2 * slope`
//!
//! with `slope = 1 / ratio` and
//! `channel_width = river_width - 2 * (line+safe) * ratio`. The lemmas below
//! show that the calculator's channel width and threshold agree exactly with
//! these rationals, for every choice of inputs.

use vstd::prelude::*;

use crate::calc::spec_channel_width;
use crate::calc::spec_threshold_slope;
use crate::calc::threshold_den;
use crate::calc::threshold_num;
use crate::fixed::pow10;
use crate::rat::Rat;
use crate::rat::lemma_round_equiv;
use crate::rat::rat_add;
use crate::rat::rat_div;
use crate::rat::rat_eq;
use crate::rat::rat_int;
use crate::rat::rat_mul;
use crate::rat::rat_ok;
use crate::rat::rat_scaled;
use crate::rat::rat_sub;
use crate::rat::round_half_away;

verus! {

/// The channel width as a rational:
/// `river_width - 2 * (line + safe) * ratio`, over the raw fixed-point
/// inputs at four fractional digits.
pub open spec fn channel_width_rat(w: int, l: int, s: int, r: int) -> Rat {
    let wq = rat_scaled(w, 4);
    let lq = rat_scaled(l, 4);
    let sq = rat_scaled(s, 4);
    let rq = rat_scaled(r, 4);
    rat_sub(wq, rat_mul(rat_mul(rat_int(2), rat_add(lq, sq)), rq))
}

/// The threshold as a rational, composed exactly as the formula reads.
pub open spec fn threshold_rat(w: int, l: int, s: int, r: int) -> Rat {
    let lq = rat_scaled(l, 4);
    let sq = rat_scaled(s, 4);
    let rq = rat_scaled(r, 4);
    let ls = rat_add(lq, sq);
    let slope = rat_div(rat_int(1), rq);
    let cw = channel_width_rat(w, l, s, r);
    let t1 = rat_mul(
        rat_div(Rat { num: 4, den: 100 }, rq),
        rat_add(rat_mul(rat_mul(ls, ls), slope), rat_mul(cw, ls)),
    );
    let t2 = rat_mul(rat_div(rat_mul(cw, cw), rat_int(4)), rat_mul(slope, slope));
    let t3 = rat_mul(rat_div(cw, rat_int(2)), slope);
    rat_sub(rat_add(t1, t2), t3)
}

/// The calculator's channel width equals the rational
/// `river_width - 2 * (line + safe) * ratio` exactly, as a value at eight
/// fractional digits.
pub proof fn lemma_channel_width_exact(w: int, l: int, s: int, r: int)
    ensures
        rat_ok(channel_width_rat(w, l, s, r)),
        rat_eq(rat_scaled(spec_channel_width(w, l, s, r), 8), channel_width_rat(w, l, s, r)),
{
    reveal_with_fuel(pow10, 9);
    let lq = rat_scaled(l, 4);
    let sq = rat_scaled(s, 4);
    let rq = rat_scaled(r, 4);
    let wq = rat_scaled(w, 4);
    let i0 = rat_add(lq, sq);
    let i1 = rat_mul(rat_int(2), i0);
    let i2 = rat_mul(i1, rq);
    let cw = rat_sub(wq, i2);
    assert(cw == channel_width_rat(w, l, s, r));
    let c = w * 10_000 - 2 * ((l + s) * r);
    assert(lq.num == l && lq.den == 10_000);
    assert(sq.num == s && sq.den == 10_000);
    assert(rq.num == r && rq.den == 10_000);
    assert(wq.num == w && wq.den == 10_000);
    let lqd = lq.den;
    let sqd = sq.den;
    let rqd = rq.den;
    let wqd = wq.den;
    let i0n = i0.num;
    let i0d = i0.den;
    let i1n = i1.num;
    let i1d = i1.den;
    let i2n = i2.num;
    let i2d = i2.den;
    assert(cw.num == 100_000_000 * c && cw.den == 10_000_000_000_000_000) by (nonlinear_arith)
        requires
            i0n == l * sqd + s * lqd,
            i0d == lqd * sqd,
            i1n == 2 * i0n,
            i1d == 1 * i0d,
            i2n == i1n * r,
            i2d == i1d * rqd,
            cw.num == w * i2d - i2n * wqd,
            cw.den == wqd * i2d,
            lqd == 10_000,
            sqd == 10_000,
            rqd == 10_000,
            wqd == 10_000,
            c == w * 10_000 - 2 * ((l + s) * r),
    ;
    let v = spec_channel_width(w, l, s, r);
    if r == 0 {
        assert(v == w * 10_000);
        assert(v == c) by (nonlinear_arith)
            requires
                v == w * 10_000,
                c == w * 10_000 - 2 * ((l + s) * r),
                r == 0,
        ;
    } else {
        assert(v == c);
    }
    assert(v * cw.den == cw.num * 100_000_000) by (nonlinear_arith)
        requires
            v == c,
            cw.num == 100_000_000 * c,
            cw.den == 10_000_000_000_000_000,
    ;
    assert(rat_scaled(v, 8).den == 100_000_000);
}

/// The calculator's slope-branch threshold is exactly the rounding of the
/// composed rational formula to hundredths, ties away from zero.
pub proof fn lemma_threshold_closed_form(w: int, l: int, s: int, r: int)
    requires
        r != 0,
    ensures
        rat_ok(threshold_rat(w, l, s, r)),
        spec_threshold_slope(w, l, s, r) == round_half_away(
            100 * threshold_rat(w, l, s, r).num,
            threshold_rat(w, l, s, r).den,
        ),
{
    reveal_with_fuel(pow10, 5);
    let sg: int = if r >= 0 {
        1int
    } else {
        -1int
    };
    let ls0 = l + s;
    let c = w * 10_000 - 2 * (ls0 * r);
    let pp = threshold_num(w, l, s, r);
    let dd = threshold_den(r);

    let lq = rat_scaled(l, 4);
    let sq = rat_scaled(s, 4);
    let rq = rat_scaled(r, 4);
    let wq = rat_scaled(w, 4);
    assert(lq.num == l && lq.den == 10_000);
    assert(sq.num == s && sq.den == 10_000);
    assert(rq.num == r && rq.den == 10_000);
    assert(wq.num == w && wq.den == 10_000);

    let lsq = rat_add(lq, sq);
    assert(lsq.num == l * 10_000 + s * 10_000 && lsq.den == 100_000_000);
    assert(lsq.num == ls0 * 10_000) by (nonlinear_arith)
        requires
            lsq.num == l * 10_000 + s * 10_000,
            ls0 == l + s,
    ;

    let slope = rat_div(rat_int(1), rq);
    assert(slope.num == (if r >= 0 { 1 * 10_000int } else { -(1 * 10_000int) }));
    assert(slope.den == (if r >= 0 { 1 * r } else { -(1 * r) }));
    assert(slope.num == sg * 10_000 && slope.den == sg * r) by (nonlinear_arith)
        requires
            sg == (if r >= 0 { 1int } else { -1int }),
            slope.num == (if r >= 0 { 1 * 10_000int } else { -(1 * 10_000int) }),
            slope.den == (if r >= 0 { 1 * r } else { -(1 * r) }),
    ;
    assert(sg * sg == 1 && sg * r >= 1) by (nonlinear_arith)
        requires
            r != 0,
            sg == (if r >= 0 { 1int } else { -1int }),
    ;

    let i1 = rat_mul(rat_int(2), lsq);
    let i2 = rat_mul(i1, rq);
    let cw = rat_sub(wq, i2);
    assert(cw == channel_width_rat(w, l, s, r));
    assert(cw.num == w * ((1 * 100_000_000) * 10_000) - ((2 * lsq.num) * r) * 10_000);
    assert(cw.den == 10_000 * ((1 * 100_000_000) * 10_000));
    assert(cw.num == 100_000_000 * c && cw.den == 10_000_000_000_000_000) by (nonlinear_arith)
        requires
            cw.num == w * ((1 * 100_000_000) * 10_000) - ((2 * (ls0 * 10_000)) * r) * 10_000,
            cw.den == 10_000 * ((1 * 100_000_000) * 10_000),
            c == w * 10_000 - 2 * (ls0 * r),
    ;

    let q004 = rat_div(Rat { num: 4, den: 100 }, rq);
    assert(q004.num == (if r >= 0 { 4 * 10_000int } else { -(4 * 10_000int) }));
    assert(q004.den == (if r >= 0 { 100 * r } else { -(100 * r) }));
    assert(q004.num == sg * (4 * 10_000) && q004.den == sg * (100 * r)) by (nonlinear_arith)
        requires
            sg == (if r >= 0 { 1int } else { -1int }),
            q004.num == (if r >= 0 { 4 * 10_000int } else { -(4 * 10_000int) }),
            q004.den == (if r >= 0 { 100 * r } else { -(100 * r) }),
    ;

    let lsq2 = rat_mul(lsq, lsq);
    assert(lsq2.num == (ls0 * 10_000) * (ls0 * 10_000) && lsq2.den == 100_000_000 * 100_000_000);
    assert(lsq2.num == (ls0 * ls0) * 100_000_000 && lsq2.den == 10_000_000_000_000_000) by (nonlinear_arith)
        requires
            lsq2.num == (ls0 * 10_000) * (ls0 * 10_000),
            lsq2.den == 100_000_000 * 100_000_000,
    ;

    let x1 = rat_mul(lsq2, slope);
    assert(x1.num == ((ls0 * ls0) * 100_000_000) * (sg * 10_000) && x1.den == 10_000_000_000_000_000 * (sg * r));
    assert(x1.num == sg * ((ls0 * ls0) * 1_000_000_000_000) && x1.den == sg * (10_000_000_000_000_000 * r)) by (nonlinear_arith)
        requires
            x1.num == ((ls0 * ls0) * 100_000_000) * (sg * 10_000),
            x1.den == 10_000_000_000_000_000 * (sg * r),
    ;

    let x2 = rat_mul(cw, lsq);
    assert(x2.num == (100_000_000 * c) * (ls0 * 10_000) && x2.den == 10_000_000_000_000_000 * 100_000_000);
    assert(x2.num == (c * ls0) * 1_000_000_000_000 && x2.den == 1_000_000_000_000_000_000_000_000) by (nonlinear_arith)
        requires
            x2.num == (100_000_000 * c) * (ls0 * 10_000),
            x2.den == 10_000_000_000_000_000 * 100_000_000,
    ;

    let aa = rat_add(x1, x2);
    assert(aa.num == (sg * ((ls0 * ls0) * 1_000_000_000_000)) * 1_000_000_000_000_000_000_000_000 + ((c * ls0) * 1_000_000_000_000) * (sg * (10_000_000_000_000_000
        * r)));
    assert(aa.den == (sg * (10_000_000_000_000_000 * r)) * 1_000_000_000_000_000_000_000_000);
    assert(aa.num == sg * (10_000_000_000_000_000_000_000_000_000 * ((ls0 * ls0) * 100_000_000 + (c * ls0) * r)) && aa.den == sg * (10_000_000_000_000_000_000_000_000_000_000_000_000_000
        * r)) by (nonlinear_arith)
        requires
            aa.num == (sg * ((ls0 * ls0) * 1_000_000_000_000)) * 1_000_000_000_000_000_000_000_000 + ((c * ls0) * 1_000_000_000_000) * (sg * (10_000_000_000_000_000
                * r)),
            aa.den == (sg * (10_000_000_000_000_000 * r)) * 1_000_000_000_000_000_000_000_000,
    ;

    let t1 = rat_mul(q004, aa);
    assert(t1.num == (sg * (4 * 10_000)) * (sg * (10_000_000_000_000_000_000_000_000_000 * ((ls0 * ls0) * 100_000_000 + (c * ls0) * r))));
    assert(t1.den == (sg * (100 * r)) * (sg * (10_000_000_000_000_000_000_000_000_000_000_000_000_000 * r)));
    assert(t1.num == 4 * (100_000_000_000_000_000_000_000_000_000_000 * ((ls0 * ls0) * 100_000_000 + (c * ls0) * r)) && t1.den == 100 * (10_000_000_000_000_000_000_000_000_000_000_000_000_000
        * (r * r))) by (nonlinear_arith)
        requires
            t1.num == (sg * (4 * 10_000)) * (sg * (10_000_000_000_000_000_000_000_000_000 * ((ls0 * ls0) * 100_000_000 + (c * ls0) * r))),
            t1.den == (sg * (100 * r)) * (sg * (10_000_000_000_000_000_000_000_000_000_000_000_000_000 * r)),
            sg * sg == 1,
    ;

    let cw2 = rat_mul(cw, cw);
    assert(cw2.num == (100_000_000 * c) * (100_000_000 * c) && cw2.den == 10_000_000_000_000_000 * 10_000_000_000_000_000);
    assert(cw2.num == 10_000_000_000_000_000 * (c * c) && cw2.den == 100_000_000_000_000_000_000_000_000_000_000) by (nonlinear_arith)
        requires
            cw2.num == (100_000_000 * c) * (100_000_000 * c),
            cw2.den == 10_000_000_000_000_000 * 10_000_000_000_000_000,
    ;

    let t2a = rat_div(cw2, rat_int(4));
    assert(t2a.num == (10_000_000_000_000_000 * (c * c)) * 1 && t2a.den == 100_000_000_000_000_000_000_000_000_000_000 * 4);

    let slope2 = rat_mul(slope, slope);
    assert(slope2.num == (sg * 10_000) * (sg * 10_000) && slope2.den == (sg * r) * (sg * r))
        by (nonlinear_arith)
        requires
            slope.num == sg * 10_000,
            slope.den == sg * r,
            slope2.num == slope.num * slope.num,
            slope2.den == slope.den * slope.den,
    ;
    assert(slope2.num == 100_000_000 && slope2.den == r * r) by (nonlinear_arith)
        requires
            slope2.num == (sg * 10_000) * (sg * 10_000),
            slope2.den == (sg * r) * (sg * r),
            sg * sg == 1,
    ;

    let t2 = rat_mul(t2a, slope2);
    assert(t2.num == ((10_000_000_000_000_000 * (c * c)) * 1) * 100_000_000 && t2.den == (100_000_000_000_000_000_000_000_000_000_000 * 4) * (r * r));
    assert(t2.num == 1_000_000_000_000_000_000_000_000 * (c * c) && t2.den == 4 * (100_000_000_000_000_000_000_000_000_000_000 * (r * r))) by (nonlinear_arith)
        requires
            t2.num == ((10_000_000_000_000_000 * (c * c)) * 1) * 100_000_000,
            t2.den == (100_000_000_000_000_000_000_000_000_000_000 * 4) * (r * r),
    ;

    let t3a = rat_div(cw, rat_int(2));
    assert(t3a.num == (100_000_000 * c) * 1 && t3a.den == 10_000_000_000_000_000 * 2);

    let t3 = rat_mul(t3a, slope);
    assert(t3.num == ((100_000_000 * c) * 1) * (sg * 10_000) && t3.den == (10_000_000_000_000_000 * 2) * (sg * r));
    assert(t3.num == sg * (1_000_000_000_000 * c) && t3.den == sg * (2 * (10_000_000_000_000_000 * r))) by (nonlinear_arith)
        requires
            t3.num == ((100_000_000 * c) * 1) * (sg * 10_000),
            t3.den == (10_000_000_000_000_000 * 2) * (sg * r),
    ;

    let uu = rat_add(t1, t2);
    assert(uu.num == (4 * (100_000_000_000_000_000_000_000_000_000_000 * ((ls0 * ls0) * 100_000_000 + (c * ls0) * r))) * (4 * (100_000_000_000_000_000_000_000_000_000_000 * (r
        * r))) + (1_000_000_000_000_000_000_000_000 * (c * c)) * (100 * (10_000_000_000_000_000_000_000_000_000_000_000_000_000 * (r * r))));
    assert(uu.den == (100 * (10_000_000_000_000_000_000_000_000_000_000_000_000_000 * (r * r))) * (4 * (100_000_000_000_000_000_000_000_000_000_000 * (r * r))));
    assert(uu.num == 4 * ((10_000_000_000_000_000_000_000_000_000_000_000_000_000_000_000_000_000_000_000_000_000 * (r * r)) * (4 * ((ls0 * ls0) * 100_000_000 + (c * ls0) * r) + 25 * (c
        * c))) && uu.den == 400 * (1_000_000_000_000_000_000_000_000_000_000_000_000_000_000_000_000_000_000_000_000_000_000_000_000 * ((r * r) * (r * r)))) by (nonlinear_arith)
        requires
            uu.num == (4 * (100_000_000_000_000_000_000_000_000_000_000 * ((ls0 * ls0) * 100_000_000 + (c * ls0) * r))) * (4 * (100_000_000_000_000_000_000_000_000_000_000 * (r
                * r))) + (1_000_000_000_000_000_000_000_000 * (c * c)) * (100 * (10_000_000_000_000_000_000_000_000_000_000_000_000_000 * (r * r))),
            uu.den == (100 * (10_000_000_000_000_000_000_000_000_000_000_000_000_000 * (r * r))) * (4 * (100_000_000_000_000_000_000_000_000_000_000 * (r * r))),
    ;

    let ff = rat_sub(uu, t3);
    assert(ff == threshold_rat(w, l, s, r));
    assert(ff.num == (4 * ((10_000_000_000_000_000_000_000_000_000_000_000_000_000_000_000_000_000_000_000_000_000 * (r * r)) * (4 * ((ls0 * ls0) * 100_000_000 + (c * ls0) * r) + 25 * (c
        * c)))) * (sg * (2 * (10_000_000_000_000_000 * r))) - (sg * (1_000_000_000_000 * c)) * (400 * (1_000_000_000_000_000_000_000_000_000_000_000_000_000_000_000_000_000_000_000_000_000_000_000_000 * ((r * r) * (r
        * r)))));
    assert(ff.den == (400 * (1_000_000_000_000_000_000_000_000_000_000_000_000_000_000_000_000_000_000_000_000_000_000_000_000 * ((r * r) * (r * r)))) * (sg * (2 * (10_000_000_000_000_000 * r))));
    assert(pp == 4 * (ls0 * ls0) * 100_000_000 + 4 * ((c * ls0) * r) + 25 * (c * c) - 50 * ((c * r)
        * 10_000));
    let qq = 4 * ((ls0 * ls0) * 100_000_000 + (c * ls0) * r) + 25 * (c * c);
    assert(ff.den == sg * (800 * (10_000_000_000_000_000_000_000_000_000_000_000_000_000_000_000_000_000_000_000_000_000_000_000_000_000_000_000_000_000 * (((r * r) * (r * r)) * r)))) by (nonlinear_arith)
        requires
            ff.den == (400 * (1_000_000_000_000_000_000_000_000_000_000_000_000_000_000_000_000_000_000_000_000_000_000_000_000 * ((r * r) * (r * r)))) * (sg * (2 * (10_000_000_000_000_000 * r))),
    ;
    let m1 = (4 * ((10_000_000_000_000_000_000_000_000_000_000_000_000_000_000_000_000_000_000_000_000_000 * (r * r)) * qq)) * (sg * (2 * (10_000_000_000_000_000 * r)));
    let m2 = (sg * (1_000_000_000_000 * c)) * (400 * (1_000_000_000_000_000_000_000_000_000_000_000_000_000_000_000_000_000_000_000_000_000_000_000_000 * ((r * r) * (r * r))));
    assert(ff.num == m1 - m2);
    assert(m1 == sg * ((8 * (100_000_000_000_000_000_000_000_000_000_000_000_000_000_000_000_000_000_000_000_000_000_000_000_000_000_000 * ((r * r) * r))) * qq)) by (nonlinear_arith)
        requires
            m1 == (4 * ((10_000_000_000_000_000_000_000_000_000_000_000_000_000_000_000_000_000_000_000_000_000 * (r * r)) * qq)) * (sg * (2 * (10_000_000_000_000_000 * r))),
    ;
    assert(m2 == sg * ((400 * (1_000_000_000_000_000_000_000_000_000_000_000_000_000_000_000_000_000_000_000_000_000_000_000_000_000_000_000_000 * (((r * r) * (r * r)) * c))))) by (nonlinear_arith)
        requires
            m2 == (sg * (1_000_000_000_000 * c)) * (400 * (1_000_000_000_000_000_000_000_000_000_000_000_000_000_000_000_000_000_000_000_000_000_000_000_000 * ((r * r) * (r * r)))),
    ;
    assert(ff.num == sg * ((8 * (100_000_000_000_000_000_000_000_000_000_000_000_000_000_000_000_000_000_000_000_000_000_000_000_000_000_000 * ((r * r) * r))) * qq) - sg * ((400 * (1_000_000_000_000_000_000_000_000_000_000_000_000_000_000_000_000_000_000_000_000_000_000_000_000_000_000_000_000 * (((r * r)
        * (r * r)) * c)))));
    assert(pp == qq - 50 * ((c * r) * 10_000));
    assert(ff.num == sg * ((8 * (100_000_000_000_000_000_000_000_000_000_000_000_000_000_000_000_000_000_000_000_000_000_000_000_000_000_000 * ((r * r) * r))) * pp)) by (nonlinear_arith)
        requires
            ff.num == sg * ((8 * (100_000_000_000_000_000_000_000_000_000_000_000_000_000_000_000_000_000_000_000_000_000_000_000_000_000_000 * ((r * r) * r))) * qq) - sg * ((400 * (1_000_000_000_000_000_000_000_000_000_000_000_000_000_000_000_000_000_000_000_000_000_000_000_000_000_000_000_000 * (((r * r)
                * (r * r)) * c)))),
            pp == qq - 50 * ((c * r) * 10_000),
    ;

    assert(ff.den > 0 && dd > 0) by (nonlinear_arith)
        requires
            ff.den == sg * (800 * (10_000_000_000_000_000_000_000_000_000_000_000_000_000_000_000_000_000_000_000_000_000_000_000_000_000_000_000_000_000 * (((r * r) * (r * r)) * r))),
            dd == (r * r) * 100_000_000,
            r != 0,
            sg == (if r >= 0 { 1int } else { -1int }),
    ;

    assert(pp * ff.den == (100 * ff.num) * dd) by (nonlinear_arith)
        requires
            ff.num == sg * ((8 * (100_000_000_000_000_000_000_000_000_000_000_000_000_000_000_000_000_000_000_000_000_000_000_000_000_000_000 * ((r * r) * r))) * pp),
            ff.den == sg * (800 * (10_000_000_000_000_000_000_000_000_000_000_000_000_000_000_000_000_000_000_000_000_000_000_000_000_000_000_000_000_000 * (((r * r) * (r * r)) * r))),
            dd == (r * r) * 100_000_000,
            sg * sg == 1,
    ;

    lemma_round_equiv(pp, dd, 100 * ff.num, ff.den);
}

} // verus!
