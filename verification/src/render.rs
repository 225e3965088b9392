//! Canonical decimal rendering of integers.

use vstd::prelude::*;

use crate::fixed::char_of_digit;
use crate::fixed::digit_val;
use crate::fixed::is_dec_digit;
use crate::text::chars_to_string;

verus! {

/// The digit character of a digit value; values outside 0 to 9 read as `0`.
pub open spec fn digit_char(d: int) -> char {
    if d == 1 {
        '1'
    } else if d == 2 {
        '2'
    } else if d == 3 {
        '3'
    } else if d == 4 {
        '4'
    } else if d == 5 {
        '5'
    } else if d == 6 {
        '6'
    } else if d == 7 {
        '7'
    } else if d == 8 {
        '8'
    } else if d == 9 {
        '9'
    } else {
        '0'
    }
}

/// The canonical decimal rendering of `n`: most significant digit first, no
/// leading zeros.
pub open spec fn dec_digits(n: nat) -> Seq<char>
    decreases n,
{
    if n < 10 {
        seq![digit_char(n as int)]
    } else {
        dec_digits(n / 10).push(digit_char((n % 10) as int))
    }
}

/// Decimal digit characters of `n`, most significant first.
fn u64_dec_chars(n: u64) -> (r: Vec<char>)
    ensures
        r@ == dec_digits(n as nat),
    decreases n,
{
    let d = n % 10;
    let c = char_of_digit(d);
    proof {
        assert(c as int == 48 + d);
        assert(c == digit_char(d as int));
    }
    if n < 10 {
        let mut v: Vec<char> = Vec::new();
        v.push(c);
        proof {
            assert(v@ =~= seq![digit_char(n as int)]);
        }
        v
    } else {
        let mut v = u64_dec_chars(n / 10);
        v.push(c);
        v
    }
}

/// The decimal rendering of `n`.
pub fn u64_to_dec(n: u64) -> (r: String)
    ensures
        r@ == dec_digits(n as nat),
{
    let v = u64_dec_chars(n);
    chars_to_string(&v)
}


/// The canonical rendering is made of digits and reads back as its value.
pub proof fn lemma_dec_digits_wf(n: nat)
    ensures
        crate::fixed::all_digits(dec_digits(n)),
        dec_digits(n).len() >= 1,
        crate::fixed::dec_val(dec_digits(n)) == n,
    decreases n,
{
    if n < 10 {
        assert(dec_digits(n).len() == 1);
        assert(dec_digits(n).drop_last() =~= Seq::<char>::empty());
        assert(dec_digits(n).last() == digit_char(n as int));
        assert(digit_val(digit_char(n as int)) == n && is_dec_digit(digit_char(n as int)));
        assert(crate::fixed::dec_val(dec_digits(n)) == 10 * crate::fixed::dec_val(
            dec_digits(n).drop_last(),
        ) + digit_val(dec_digits(n).last()));
    } else {
        lemma_dec_digits_wf(n / 10);
        let s = dec_digits(n);
        assert(s.drop_last() =~= dec_digits(n / 10));
        assert(s.last() == digit_char((n % 10) as int));
        assert(digit_val(digit_char((n % 10) as int)) == n % 10 && is_dec_digit(
            digit_char((n % 10) as int),
        ));
        assert(crate::fixed::dec_val(s) == 10 * (n / 10) + n % 10);
        assert(forall|i: int| 0 <= i < s.len() ==> crate::fixed::is_dec_digit(#[trigger] s[i])) by {
            assert(forall|i: int|
                0 <= i < s.len() - 1 ==> #[trigger] s[i] == dec_digits(n / 10)[i]);
        }
    }
}

/// Parsing the canonical rendering of `n` at zero fractional digits gives
/// `n` back, under any bound that admits it.
pub proof fn lemma_dec_digits_parse(n: nat, max: int)
    requires
        n <= max,
    ensures
        crate::fixed::spec_parse_scaled(dec_digits(n), 0, max) == Some(n as int),
{
    let s = dec_digits(n);
    lemma_dec_digits_wf(n);
    assert(crate::fixed::is_dec_digit(s[0]));
    assert(s[0] != '-' && s[0] != '+');
    assert(crate::fixed::body_of(s) == s);
    assert(crate::fixed::sign_of(s) == 1);
    crate::fixed::lemma_digits_no_dot(s);
    assert(crate::fixed::int_digits(s) =~= s);
    assert(crate::fixed::frac_digits(s) =~= Seq::<char>::empty());
    assert(crate::fixed::scaled_shape(s, 0));
    assert(crate::fixed::pow10(0) == 1);
    let v = crate::fixed::dec_val(s);
    assert(crate::fixed::scaled_val(s, 0) == 1 * (v * 1 + 0 * 1));
    assert(1 * (v * 1 + 0 * 1) == v) by (nonlinear_arith);
}

} // verus!
