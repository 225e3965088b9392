//! The silt/dredging threshold calculation.
//!
//! Given a channel's jurisdiction tier, side-slope ratio, geometry and
//! measured silt depth — all quantities as exact fixed-point values — the
//! calculator derives the channel width, the dredging threshold, and the
//! verdict. Without a slope ratio the threshold is a fixed constant chosen by
//! tier; with one it is a closed-form function of the geometry, rounded to
//! hundredths, ties away from zero.

use vstd::prelude::*;

use vstd::string::StringExecFns;

use crate::fixed::RAW_IN_MAX;
use crate::rat::round_half_away;
use crate::rat::lemma_round_bound;
use crate::text::contains_sub;
use crate::text::has_sub;

verus! {

/// Raw value of one unit at four fractional digits.
pub const UNIT_IN: i64 = 10_000;

/// The dredging verdict.
#[derive(Clone, Copy, PartialEq, Eq, Structural, Debug)]
pub enum Verdict {
    /// No dredging is needed.
    NotNeeded,
    /// Dredging is recommended.
    Recommended,
    /// Dredging is required.
    Required,
    /// The inputs do not fit any tier; the calculation is refused.
    Invalid,
}

/// The fixed message reported for a verdict.
pub open spec fn verdict_text(v: Verdict) -> Seq<char> {
    match v {
        Verdict::NotNeeded => "不需要清淤."@,
        Verdict::Recommended => "建议对该河道进行清淤."@,
        Verdict::Required => "需要对该河道进行清淤."@,
        Verdict::Invalid => "计算错误，请检查输入数据."@,
    }
}

impl Verdict {
    /// The fixed message of this verdict.
    pub fn text(&self) -> (r: String)
        ensures
            r@ == verdict_text(*self),
    {
        match self {
            Verdict::NotNeeded => String::from_str("不需要清淤."),
            Verdict::Recommended => String::from_str("建议对该河道进行清淤."),
            Verdict::Required => String::from_str("需要对该河道进行清淤."),
            Verdict::Invalid => String::from_str("计算错误，请检查输入数据."),
        }
    }
}

/// The jurisdiction tier read off the district text: a municipal marker
/// gives tier 1, a county or district marker tier 2, anything else tier 3.
pub open spec fn spec_area_tier(a: Seq<char>) -> int {
    if has_sub(a, "市"@) {
        1
    } else if has_sub(a, "县"@) || has_sub(a, "区"@) {
        2
    } else {
        3
    }
}

/// Tier of the district named by `a`.
pub fn area_tier(a: &str) -> (t: u8)
    ensures
        t == spec_area_tier(a@),
        1 <= t <= 3,
{
    if contains_sub(a, "市") {
        1
    } else if contains_sub(a, "县") || contains_sub(a, "区") {
        2
    } else {
        3
    }
}

/// Raw channel width at eight fractional digits: the river width, less twice
/// the flood level plus freeboard scaled by the slope ratio when one is
/// given.
pub open spec fn spec_channel_width(w: int, l: int, s: int, r: int) -> int {
    if r == 0 {
        w * 10_000
    } else {
        w * 10_000 - 2 * ((l + s) * r)
    }
}

/// Numerator of the slope-branch threshold over the denominator
/// `threshold_den`: the closed-form threshold formula brought onto the
/// common denominator `r^2 * 10^8`, with all quantities as raw fixed-point
/// values at four fractional digits.
pub open spec fn threshold_num(w: int, l: int, s: int, r: int) -> int {
    let ls = l + s;
    let c = w * 10_000 - 2 * (ls * r);
    4 * (ls * ls) * 100_000_000 + 4 * ((c * ls) * r) + 25 * (c * c) - 50 * ((c * r) * 10_000)
}

/// Denominator of the slope-branch threshold.
pub open spec fn threshold_den(r: int) -> int {
    (r * r) * 100_000_000
}

/// The slope-branch threshold in hundredths: the formula's value rounded to
/// two decimal places, ties away from zero.
pub open spec fn spec_threshold_slope(w: int, l: int, s: int, r: int) -> int {
    round_half_away(threshold_num(w, l, s, r), threshold_den(r))
}

/// The threshold the calculation reports, in hundredths.
pub open spec fn spec_threshold(tier: int, r: int, w: int, l: int, s: int, depth: int) -> int {
    if r == 0 {
        if tier == 3 {
            if depth <= 470_000 {
                4700
            } else {
                6100
            }
        } else if tier == 2 || tier == 1 {
            1900
        } else {
            if depth <= 470_000 {
                4700
            } else {
                6100
            }
        }
    } else {
        if tier == 3 || tier == 2 || tier == 1 {
            spec_threshold_slope(w, l, s, r)
        } else {
            0
        }
    }
}

/// The verdict the calculation reports.
pub open spec fn spec_verdict(tier: int, r: int, w: int, l: int, s: int, depth: int) -> Verdict {
    if r == 0 {
        if tier == 2 {
            if depth <= 330_000 {
                Verdict::NotNeeded
            } else {
                Verdict::Required
            }
        } else if tier == 1 {
            if depth <= 190_000 {
                Verdict::NotNeeded
            } else {
                Verdict::Required
            }
        } else {
            if depth <= 470_000 {
                Verdict::NotNeeded
            } else if depth <= 610_000 {
                Verdict::Recommended
            } else {
                Verdict::Required
            }
        }
    } else {
        if tier == 3 || tier == 2 || tier == 1 {
            if depth <= 100 * spec_threshold_slope(w, l, s, r) {
                Verdict::NotNeeded
            } else {
                Verdict::Required
            }
        } else {
            Verdict::Invalid
        }
    }
}

/// What the calculator derives: channel width at eight fractional digits,
/// threshold in hundredths, and the verdict.
pub struct CalcResult {
    pub channel_width: i64,
    pub threshold: i64,
    pub verdict: Verdict,
}

/// Derives channel width, dredging threshold and verdict from validated
/// inputs: the jurisdiction tier, the side-slope ratio (zero meaning a
/// rectangular channel), and the river width, design flood level, freeboard
/// and silt depth, all positive raw values at four fractional digits.
pub fn threshold_calc(tier: u8, ratio: i64, river_width: i64, line: i64, safe: i64, depth: i64) -> (
    res: CalcResult)
    requires
        0 < river_width <= RAW_IN_MAX,
        0 < line <= RAW_IN_MAX,
        0 < safe <= RAW_IN_MAX,
        0 < depth <= RAW_IN_MAX,
        -RAW_IN_MAX <= ratio <= RAW_IN_MAX,
    ensures
        res.channel_width == spec_channel_width(river_width as int, line as int, safe as int,
            ratio as int),
        res.threshold == spec_threshold(tier as int, ratio as int, river_width as int, line as int,
            safe as int, depth as int),
        res.verdict == spec_verdict(tier as int, ratio as int, river_width as int, line as int,
            safe as int, depth as int),
{
    if ratio == 0 {
        let channel_width = river_width * UNIT_IN;
        if tier == 2 {
            let verdict = if depth <= 330_000 {
                Verdict::NotNeeded
            } else {
                Verdict::Required
            };
            CalcResult { channel_width, threshold: 1900, verdict }
        } else if tier == 1 {
            let verdict = if depth <= 190_000 {
                Verdict::NotNeeded
            } else {
                Verdict::Required
            };
            CalcResult { channel_width, threshold: 1900, verdict }
        } else {
            if depth <= 470_000 {
                CalcResult { channel_width, threshold: 4700, verdict: Verdict::NotNeeded }
            } else if depth <= 610_000 {
                CalcResult { channel_width, threshold: 6100, verdict: Verdict::Recommended }
            } else {
                CalcResult { channel_width, threshold: 6100, verdict: Verdict::Required }
            }
        }
    } else {
        let channel_width = slope_channel_width(river_width, line, safe, ratio);
        if tier == 1 || tier == 2 || tier == 3 {
            let threshold = slope_threshold(river_width, line, safe, ratio);
            let verdict = if (depth as i128) <= (threshold as i128) * 100 {
                Verdict::NotNeeded
            } else {
                Verdict::Required
            };
            CalcResult { channel_width, threshold, verdict }
        } else {
            CalcResult { channel_width, threshold: 0, verdict: Verdict::Invalid }
        }
    }
}

/// Channel width for a sloped channel, exact at eight fractional digits.
fn slope_channel_width(w: i64, l: i64, s: i64, r: i64) -> (c: i64)
    requires
        0 < w <= RAW_IN_MAX,
        0 < l <= RAW_IN_MAX,
        0 < s <= RAW_IN_MAX,
        r != 0,
        -RAW_IN_MAX <= r <= RAW_IN_MAX,
    ensures
        c == spec_channel_width(w as int, l as int, s as int, r as int),
        -41_000_000_000_000_000 <= c <= 41_000_000_000_000_000,
{
    let ls = l + s;
    proof {
        assert(-(20_000_000_000_000_000int) <= (ls as int) * (r as int) <= 20_000_000_000_000_000)
            by (nonlinear_arith)
            requires
                0 < ls <= 200_000_000,
                -100_000_000 <= r <= 100_000_000,
        ;
    }
    let c128: i128 = (w as i128) * 10_000 - 2 * ((ls as i128) * (r as i128));
    c128 as i64
}

/// Slope-branch threshold in hundredths.
fn slope_threshold(w: i64, l: i64, s: i64, r: i64) -> (t: i64)
    requires
        0 < w <= RAW_IN_MAX,
        0 < l <= RAW_IN_MAX,
        0 < s <= RAW_IN_MAX,
        r != 0,
        -RAW_IN_MAX <= r <= RAW_IN_MAX,
    ensures
        t == spec_threshold_slope(w as int, l as int, s as int, r as int),
        -430_000_000_000_000_001 <= t <= 430_000_000_000_000_001,
{
    let wi: i128 = w as i128;
    let li: i128 = (l + s) as i128;
    let ri: i128 = r as i128;
    proof {
        lemma_slope_bounds(wi as int, li as int, ri as int);
    }
    let c: i128 = wi * 10_000 - 2 * (li * ri);
    let p: i128 = 4 * (li * li) * 100_000_000 + 4 * ((c * li) * ri) + 25 * (c * c) - 50 * ((c * ri)
        * 10_000);
    let d: i128 = (ri * ri) * 100_000_000;
    proof {
        lemma_round_bound(p as int, d as int, 430_000_000_000_000_000);
    }
    let q = round_div_half_away(p, d);
    q as i64
}

/// Every intermediate of the slope-branch formula stays within `i128`, and
/// the formula's value stays within half of `RAW_TH_MAX` hundredths.
proof fn lemma_slope_bounds(w: int, ls: int, r: int)
    requires
        0 < w <= 100_000_000,
        0 < ls <= 200_000_000,
        r != 0,
        -100_000_000 <= r <= 100_000_000,
    ensures
        ({
            let c = w * 10_000 - 2 * (ls * r);
            let p = 4 * (ls * ls) * 100_000_000 + 4 * ((c * ls) * r) + 25 * (c * c) - 50 * ((c * r)
                * 10_000);
            let d = (r * r) * 100_000_000;
            &&& -20_000_000_000_000_000 <= ls * r <= 20_000_000_000_000_000
            &&& -41_000_000_000_000_000 <= c <= 41_000_000_000_000_000
            &&& 0 <= ls * ls <= 40_000_000_000_000_000
            &&& -10_000_000_000_000_000_000_000_000 <= c * ls <= 10_000_000_000_000_000_000_000_000
            &&& -1_000_000_000_000_000_000_000_000_000_000_000 <= (c * ls) * r
                <= 1_000_000_000_000_000_000_000_000_000_000_000
            &&& 0 <= c * c <= 1_700_000_000_000_000_000_000_000_000_000_000
            &&& -4_100_000_000_000_000_000_000_000 <= c * r <= 4_100_000_000_000_000_000_000_000
            &&& 1 <= r * r <= 10_000_000_000_000_000
            &&& 100_000_000 <= d <= 1_000_000_000_000_000_000_000_000
            &&& -(430_000_000_000_000_000 * d) <= p <= 430_000_000_000_000_000 * d
        }),
{
    let c = w * 10_000 - 2 * (ls * r);
    let p = 4 * (ls * ls) * 100_000_000 + 4 * ((c * ls) * r) + 25 * (c * c) - 50 * ((c * r)
        * 10_000);
    let d = (r * r) * 100_000_000;
    let kk = 1_000_400_000_000int;
    assert(r * r >= 1) by (nonlinear_arith)
        requires
            r != 0,
    ;
    assert(r * r <= 10_000_000_000_000_000) by (nonlinear_arith)
        requires
            -100_000_000 <= r <= 100_000_000,
    ;
    assert(-(20_000_000_000_000_000int) <= ls * r <= 20_000_000_000_000_000) by (nonlinear_arith)
        requires
            0 < ls <= 200_000_000,
            -100_000_000 <= r <= 100_000_000,
    ;
    assert(0 <= ls * ls <= 40_000_000_000_000_000) by (nonlinear_arith)
        requires
            0 < ls <= 200_000_000,
    ;
    assert(-10_000_000_000_000_000_000_000_000 <= c * ls <= 10_000_000_000_000_000_000_000_000)
        by (nonlinear_arith)
        requires
            -41_000_000_000_000_000 <= c <= 41_000_000_000_000_000,
            0 < ls <= 200_000_000,
    ;
    assert(-1_000_000_000_000_000_000_000_000_000_000_000 <= (c * ls) * r
        <= 1_000_000_000_000_000_000_000_000_000_000_000) by (nonlinear_arith)
        requires
            -10_000_000_000_000_000_000_000_000 <= c * ls <= 10_000_000_000_000_000_000_000_000,
            -100_000_000 <= r <= 100_000_000,
    ;
    assert(0 <= c * c <= 1_700_000_000_000_000_000_000_000_000_000_000) by (nonlinear_arith)
        requires
            -41_000_000_000_000_000 <= c <= 41_000_000_000_000_000,
    ;
    assert(-4_100_000_000_000_000_000_000_000 <= c * r <= 4_100_000_000_000_000_000_000_000)
        by (nonlinear_arith)
        requires
            -41_000_000_000_000_000 <= c <= 41_000_000_000_000_000,
            -100_000_000 <= r <= 100_000_000,
    ;
    // |c| <= kk * |r|, stated per sign of r.
    assert(c * c <= (kk * kk) * (r * r)) by (nonlinear_arith)
        requires
            c == w * 10_000 - 2 * (ls * r),
            kk == 1_000_400_000_000int,
            0 < w <= 100_000_000,
            0 < ls <= 200_000_000,
            r != 0,
            -100_000_000 <= r <= 100_000_000,
    ;
    // c * r within kk * r^2 either way.
    assert(-(kk * (r * r)) <= c * r <= kk * (r * r)) by (nonlinear_arith)
        requires
            c == w * 10_000 - 2 * (ls * r),
            kk == 1_000_400_000_000int,
            0 < w <= 100_000_000,
            0 < ls <= 200_000_000,
            r != 0,
            -100_000_000 <= r <= 100_000_000,
    ;
    // Term bounds against d.
    assert(4 * (ls * ls) * 100_000_000 <= 160_000_000_000_000_000 * d) by (nonlinear_arith)
        requires
            0 < ls <= 200_000_000,
            r * r >= 1,
            d == (r * r) * 100_000_000,
    ;
    assert(4 * (ls * ls) * 100_000_000 >= 0) by (nonlinear_arith)
        requires
            0 < ls,
    ;
    assert(-(8_010_000_000_000_000int * d) <= 4 * ((c * ls) * r) <= 8_010_000_000_000_000int * d)
        by (nonlinear_arith)
        requires
            -(kk * (r * r)) <= c * r <= kk * (r * r),
            kk == 1_000_400_000_000int,
            0 < ls <= 200_000_000,
            r * r >= 1,
            d == (r * r) * 100_000_000,
    ;
    assert(0 <= 25 * (c * c) <= 260_000_000_000_000_000 * d) by (nonlinear_arith)
        requires
            c * c <= (kk * kk) * (r * r),
            kk == 1_000_400_000_000int,
            r * r >= 1,
            d == (r * r) * 100_000_000,
    ;
    assert(-(5_010_000_000int * d) <= 50 * ((c * r) * 10_000) <= 5_010_000_000int * d)
        by (nonlinear_arith)
        requires
            -(kk * (r * r)) <= c * r <= kk * (r * r),
            kk == 1_000_400_000_000int,
            d == (r * r) * 100_000_000,
            r * r >= 1,
    ;
    assert(-(430_000_000_000_000_000 * d) <= p <= 430_000_000_000_000_000 * d) by (nonlinear_arith)
        requires
            p == 4 * (ls * ls) * 100_000_000 + 4 * ((c * ls) * r) + 25 * (c * c) - 50 * ((c * r)
                * 10_000),
            0 <= 4 * (ls * ls) * 100_000_000 <= 160_000_000_000_000_000 * d,
            -(8_010_000_000_000_000int * d) <= 4 * ((c * ls) * r) <= 8_010_000_000_000_000int * d,
            0 <= 25 * (c * c) <= 260_000_000_000_000_000 * d,
            -(5_010_000_000int * d) <= 50 * ((c * r) * 10_000) <= 5_010_000_000int * d,
            d >= 100_000_000,
    ;
}

/// Rounds `n / d` to the nearest integer, ties away from zero.
fn round_div_half_away(n: i128, d: i128) -> (q: i128)
    requires
        d > 0,
        d <= 1_000_000_000_000_000_000_000_000,
        -50_000_000_000_000_000_000_000_000_000_000_000 <= n
            <= 50_000_000_000_000_000_000_000_000_000_000_000,
    ensures
        q == round_half_away(n as int, d as int),
        n >= 0 ==> q >= 0,
        n < 0 ==> q <= 0,
{
    let du = d as u128;
    if n >= 0 {
        let nu = n as u128;
        let qu = (2 * nu + du) / (2 * du);
        proof {
            lemma_div_le_self(2 * (n as int) + d as int, 2 * (d as int));
        }
        qu as i128
    } else {
        let nu = (-n) as u128;
        let qu = (2 * nu + du) / (2 * du);
        proof {
            lemma_div_le_self(2 * ((-n) as int) + d as int, 2 * (d as int));
        }
        -(qu as i128)
    }
}

/// Without a slope ratio, a tier-three channel is judged against the fixed
/// depths 47 and 61: no dredging up to 47, a recommendation up to 61,
/// dredging required beyond, and the reported threshold is 47 exactly when
/// the depth stays within it, 61 otherwise.
pub proof fn lemma_fixed_tier3(depth: int, w: int, l: int, s: int)
    ensures
        spec_threshold(3, 0, w, l, s, depth) == (if depth <= 470_000 {
            4700int
        } else {
            6100int
        }),
        spec_verdict(3, 0, w, l, s, depth) == (if depth <= 470_000 {
            Verdict::NotNeeded
        } else if depth <= 610_000 {
            Verdict::Recommended
        } else {
            Verdict::Required
        }),
{
}

/// Without a slope ratio, a tier-one channel always reports the threshold
/// 19, and the verdict flips exactly at depth 19.
pub proof fn lemma_fixed_tier1(depth: int, w: int, l: int, s: int)
    ensures
        spec_threshold(1, 0, w, l, s, depth) == 1900,
        spec_verdict(1, 0, w, l, s, depth) == (if depth <= 190_000 {
            Verdict::NotNeeded
        } else {
            Verdict::Required
        }),
{
}

/// Without a slope ratio, a tier-two channel always reports the threshold
/// 19, yet its verdict is judged against the depth 33 — the displayed
/// constant and the comparison constant deliberately disagree, as the
/// surveyed behaviour has it.
pub proof fn lemma_fixed_tier2(depth: int, w: int, l: int, s: int)
    ensures
        spec_threshold(2, 0, w, l, s, depth) == 1900,
        spec_verdict(2, 0, w, l, s, depth) == (if depth <= 330_000 {
            Verdict::NotNeeded
        } else {
            Verdict::Required
        }),
{
}

/// A quotient of nonnegative values is at most the dividend.
proof fn lemma_div_le_self(m: int, d: int)
    requires
        m >= 0,
        d >= 1,
    ensures
        0 <= m / d <= m,
{
    vstd::arithmetic::div_mod::lemma_fundamental_div_mod(m, d);
    vstd::arithmetic::div_mod::lemma_mod_bound(m, d);
    assert(0 <= m / d <= m) by (nonlinear_arith)
        requires
            m == d * (m / d) + m % d,
            0 <= m % d < d,
            d >= 1,
            m >= 0,
    ;
}

} // verus!

