//! Exact rationals and half-away-from-zero rounding, at the specification
//! level.
//!
//! The threshold formula is stated over these rationals; the executable
//! calculator works on integer numerators and denominators and is proved
//! against them.

use vstd::prelude::*;

use vstd::arithmetic::div_mod::lemma_fundamental_div_mod;

verus! {

/// A rational number as a fraction of integers.
pub struct Rat {
    pub num: int,
    pub den: int,
}

/// A well-formed fraction: the denominator is positive.
pub open spec fn rat_ok(x: Rat) -> bool {
    x.den > 0
}

/// The integer `n` as a fraction.
pub open spec fn rat_int(n: int) -> Rat {
    Rat { num: n, den: 1 }
}

/// The raw fixed-point value `raw` at `fd` fractional digits as a fraction.
pub open spec fn rat_scaled(raw: int, fd: nat) -> Rat {
    Rat { num: raw, den: crate::fixed::pow10(fd) }
}

/// Equality of fractions by cross-multiplication.
pub open spec fn rat_eq(a: Rat, b: Rat) -> bool {
    a.num * b.den == b.num * a.den
}

pub open spec fn rat_add(a: Rat, b: Rat) -> Rat {
    Rat { num: a.num * b.den + b.num * a.den, den: a.den * b.den }
}

pub open spec fn rat_sub(a: Rat, b: Rat) -> Rat {
    Rat { num: a.num * b.den - b.num * a.den, den: a.den * b.den }
}

pub open spec fn rat_mul(a: Rat, b: Rat) -> Rat {
    Rat { num: a.num * b.num, den: a.den * b.den }
}

/// Division of fractions; the sign of the divisor's numerator moves into the
/// numerator so that a well-formed divisor with nonzero numerator gives a
/// well-formed quotient.
pub open spec fn rat_div(a: Rat, b: Rat) -> Rat {
    if b.num >= 0 {
        Rat { num: a.num * b.den, den: a.den * b.num }
    } else {
        Rat { num: -(a.num * b.den), den: -(a.den * b.num) }
    }
}

/// Rounds the fraction `n / d` (with `d > 0`) to the nearest integer, ties
/// away from zero.
pub open spec fn round_half_away(n: int, d: int) -> int {
    if n >= 0 {
        (2 * n + d) / (2 * d)
    } else {
        -((2 * (-n) + d) / (2 * d))
    }
}

/// The rounding of `n / d`, characterized without division: `q` is the
/// rounding exactly when `n` lies within half a denominator of `q * d`, with
/// the tie falling away from zero.
pub open spec fn rounds_to(n: int, d: int, q: int) -> bool {
    if n >= 0 {
        2 * d * q - d <= 2 * n < 2 * d * q + d
    } else {
        2 * d * q - d < 2 * n <= 2 * d * q + d
    }
}

/// Only one integer satisfies the rounding characterization.
pub proof fn lemma_round_unique(n: int, d: int, q: int)
    requires
        d > 0,
        rounds_to(n, d, q),
    ensures
        round_half_away(n, d) == q,
{
    if n >= 0 {
        let m = 2 * n + d;
        let qq = m / (2 * d);
        let rr = m % (2 * d);
        lemma_fundamental_div_mod(m, 2 * d);
        assert(0 <= rr < 2 * d) by {
            vstd::arithmetic::div_mod::lemma_mod_bound(m, 2 * d);
        }
        assert(2 * d * q <= 2 * d * qq + rr < 2 * d * q + 2 * d);
        assert(q == qq) by (nonlinear_arith)
            requires
                d > 0,
                0 <= rr < 2 * d,
                2 * d * q <= 2 * d * qq + rr < 2 * d * q + 2 * d,
        ;
    } else {
        let m = 2 * (-n) + d;
        let qq = m / (2 * d);
        let rr = m % (2 * d);
        lemma_fundamental_div_mod(m, 2 * d);
        assert(0 <= rr < 2 * d) by {
            vstd::arithmetic::div_mod::lemma_mod_bound(m, 2 * d);
        }
        // The characterization for n < 0 mirrors into the nonnegative one
        // for -n.
        assert(2 * d * (-q) == -(2 * d * q)) by (nonlinear_arith);
        assert(2 * d * (-q) <= m < 2 * d * (-q) + 2 * d);
        assert(-q == qq) by (nonlinear_arith)
            requires
                d > 0,
                0 <= rr < 2 * d,
                m == 2 * d * qq + rr,
                2 * d * (-q) <= m < 2 * d * (-q) + 2 * d,
        ;
    }
}

/// The rounding satisfies its characterization.
pub proof fn lemma_round_char(n: int, d: int)
    requires
        d > 0,
    ensures
        rounds_to(n, d, round_half_away(n, d)),
{
    if n >= 0 {
        let m = 2 * n + d;
        let q = m / (2 * d);
        let rr = m % (2 * d);
        lemma_fundamental_div_mod(m, 2 * d);
        assert(0 <= rr < 2 * d) by {
            vstd::arithmetic::div_mod::lemma_mod_bound(m, 2 * d);
        }
        assert(2 * n == 2 * d * q + rr - d);
    } else {
        let m = 2 * (-n) + d;
        let q = m / (2 * d);
        let rr = m % (2 * d);
        lemma_fundamental_div_mod(m, 2 * d);
        assert(0 <= rr < 2 * d) by {
            vstd::arithmetic::div_mod::lemma_mod_bound(m, 2 * d);
        }
        assert(2 * (-n) == 2 * d * q + rr - d);
        assert(2 * d * (-q) == -(2 * d * q)) by (nonlinear_arith);
        assert(2 * n == 2 * d * (-q) + d - rr);
    }
}

/// Equal fractions round to the same integer.
pub proof fn lemma_round_equiv(n1: int, d1: int, n2: int, d2: int)
    requires
        d1 > 0,
        d2 > 0,
        n1 * d2 == n2 * d1,
    ensures
        round_half_away(n1, d1) == round_half_away(n2, d2),
{
    let q = round_half_away(n1, d1);
    lemma_round_char(n1, d1);
    assert((n1 >= 0) == (n2 >= 0)) by (nonlinear_arith)
        requires
            d1 > 0,
            d2 > 0,
            n1 * d2 == n2 * d1,
    ;
    if n1 >= 0 {
        assert(2 * d2 * q - d2 <= 2 * n2 < 2 * d2 * q + d2) by (nonlinear_arith)
            requires
                d1 > 0,
                d2 > 0,
                n1 * d2 == n2 * d1,
                2 * d1 * q - d1 <= 2 * n1 < 2 * d1 * q + d1,
        ;
    } else {
        assert(2 * d2 * q - d2 < 2 * n2 <= 2 * d2 * q + d2) by (nonlinear_arith)
            requires
                d1 > 0,
                d2 > 0,
                n1 * d2 == n2 * d1,
                2 * d1 * q - d1 < 2 * n1 <= 2 * d1 * q + d1,
        ;
    }
    lemma_round_unique(n2, d2, q);
}

/// A fraction bounded by `b` in magnitude rounds to an integer bounded by
/// `b`.
pub proof fn lemma_round_bound(n: int, d: int, b: int)
    requires
        d > 0,
        b >= 0,
        -(b * d) <= n <= b * d,
    ensures
        -b <= round_half_away(n, d) <= b,
{
    let q = round_half_away(n, d);
    lemma_round_char(n, d);
    if n >= 0 {
        assert(-b <= q <= b) by (nonlinear_arith)
            requires
                d > 0,
                b >= 0,
                0 <= n <= b * d,
                2 * d * q - d <= 2 * n < 2 * d * q + d,
        ;
    } else {
        assert(-b <= q <= b) by (nonlinear_arith)
            requires
                d > 0,
                b >= 0,
                -(b * d) <= n < 0,
                2 * d * q - d < 2 * n <= 2 * d * q + d,
        ;
    }
}

} // verus!
