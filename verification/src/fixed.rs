//! Fixed-point decimal quantities.
//!
//! All real-valued survey quantities (widths, levels, depths, ratios) are held
//! as signed integers counting a fixed number of decimal fractional digits, so
//! that arithmetic on them is exact and free of floating point. Entered
//! quantities carry four fractional digits (`FRAC_IN`); the derived channel
//! width carries eight (`FRAC_CW`, the exact product of two entered
//! quantities); the derived threshold carries two (`FRAC_TH`, a value rounded
//! to hundredths).

use vstd::prelude::*;

use crate::text::chars_to_string;

verus! {

/// Fractional digits carried by entered quantities: a raw value `r` stands
/// for the real number `r / 10^4`.
pub const FRAC_IN: u32 = 4;

/// Fractional digits carried by the derived channel width.
pub const FRAC_CW: u32 = 8;

/// Fractional digits carried by the derived threshold.
pub const FRAC_TH: u32 = 2;

/// Largest raw magnitude of an entered quantity: quantities are bounded by
/// 10^4 units, so raw values at four fractional digits are bounded by 10^8.
/// The bound keeps every intermediate of the threshold formula inside `i128`.
pub const RAW_IN_MAX: i64 = 100_000_000;

/// Largest raw magnitude of a derived channel width at eight fractional
/// digits: `|w*10^4 - 2*l*r| <= 10^12 + 2*(2*10^8)*10^8`.
pub const RAW_CW_MAX: i64 = 50_000_000_000_000_000;

/// Largest raw magnitude of a derived threshold at two fractional digits.
pub const RAW_TH_MAX: i64 = 1_000_000_000_000_000_000;

/// 10^k.
pub open spec fn pow10(k: nat) -> int
    decreases k,
{
    if k == 0 {
        1
    } else {
        10 * pow10((k - 1) as nat)
    }
}

pub proof fn lemma_pow10_pos(k: nat)
    ensures
        pow10(k) >= 1,
    decreases k,
{
    if k > 0 {
        lemma_pow10_pos((k - 1) as nat);
    }
}

/// 10^k as a machine integer, for small `k`.
pub fn pow10_i64(k: u32) -> (r: i64)
    requires
        k <= 18,
    ensures
        r == pow10(k as nat),
        r >= 1,
{
    let mut r: i64 = 1;
    let mut j: u32 = 0;
    while j < k
        invariant
            j <= k <= 18,
            r == pow10(j as nat),
            1 <= r,
        decreases k - j,
    {
        proof {
            lemma_pow10_mono(j as nat, 17);
            assert(pow10(17) == 100_000_000_000_000_000) by {
                reveal_with_fuel(pow10, 18);
            }
        }
        r = r * 10;
        j = j + 1;
    }
    r
}

pub proof fn lemma_pow10_mono(a: nat, b: nat)
    requires
        a <= b,
    ensures
        pow10(a) <= pow10(b),
    decreases b,
{
    if a < b {
        lemma_pow10_mono(a, (b - 1) as nat);
        lemma_pow10_pos((b - 1) as nat);
    }
}

/// Whether `c` is a decimal digit.
pub open spec fn is_dec_digit(c: char) -> bool {
    '0' <= c && c <= '9'
}

/// Numeric value of a decimal digit character.
pub open spec fn digit_val(c: char) -> int {
    c as int - '0' as int
}

/// Decimal digit value of `c`, or `None` if `c` is not a digit.
pub fn digit_of_char(c: char) -> (r: Option<u32>)
    ensures
        r is Some <==> is_dec_digit(c),
        r matches Some(d) ==> d == digit_val(c) && d <= 9,
{
    let n = c as u32;
    if 48 <= n && n <= 57 {
        Some(n - 48)
    } else {
        None
    }
}

/// Whether every character of `s` is a decimal digit.
pub open spec fn all_digits(s: Seq<char>) -> bool {
    forall|i: int| 0 <= i < s.len() ==> is_dec_digit(#[trigger] s[i])
}

/// Value of a digit sequence read most-significant first.
pub open spec fn dec_val(s: Seq<char>) -> int
    decreases s.len(),
{
    if s.len() == 0 {
        0
    } else {
        10 * dec_val(s.drop_last()) + digit_val(s.last())
    }
}

pub proof fn lemma_dec_val_nonneg(s: Seq<char>)
    requires
        all_digits(s),
    ensures
        dec_val(s) >= 0,
    decreases s.len(),
{
    if s.len() > 0 {
        assert(all_digits(s.drop_last()));
        lemma_dec_val_nonneg(s.drop_last());
    }
}

/// Value of a digit sequence read least-significant first.
pub open spec fn lsd_val(s: Seq<char>) -> int
    decreases s.len(),
{
    if s.len() == 0 {
        0
    } else {
        digit_val(s[0]) + 10 * lsd_val(s.skip(1))
    }
}

proof fn lemma_lsd_val_snoc(s: Seq<char>, c: char)
    ensures
        lsd_val(s.push(c)) == lsd_val(s) + digit_val(c) * pow10(s.len()),
    decreases s.len(),
{
    let d = digit_val(c);
    if s.len() == 0 {
        assert(s.push(c)[0] == c);
        assert(s.push(c).skip(1) =~= Seq::<char>::empty());
        assert(pow10(0) == 1);
        assert(d * 1 == d) by (nonlinear_arith);
        assert(lsd_val(s) == 0);
        assert(lsd_val(s.push(c)) == digit_val(s.push(c)[0]) + 10 * lsd_val(s.push(c).skip(1)));
        assert(lsd_val(s.push(c)) == lsd_val(s) + d * pow10(s.len()));
    } else {
        assert(s.push(c)[0] == s[0]);
        assert(s.push(c).skip(1) =~= s.skip(1).push(c));
        lemma_lsd_val_snoc(s.skip(1), c);
        let p = pow10((s.len() - 1) as nat);
        assert(pow10(s.len()) == 10 * p);
        assert(lsd_val(s.push(c)) == digit_val(s[0]) + 10 * (lsd_val(s.skip(1)) + d * p));
        assert(10 * (lsd_val(s.skip(1)) + d * p) == 10 * lsd_val(s.skip(1)) + d * (10 * p))
            by (nonlinear_arith);
        assert(lsd_val(s.push(c)) == lsd_val(s) + d * pow10(s.len()));
    }
}

proof fn lemma_dec_val_reverse(s: Seq<char>)
    ensures
        dec_val(s.reverse()) == lsd_val(s),
    decreases s.len(),
{
    if s.len() > 0 {
        assert(s.reverse().drop_last() =~= s.skip(1).reverse());
        assert(s.reverse().last() == s[0]);
        lemma_dec_val_reverse(s.skip(1));
        assert(dec_val(s.reverse()) == 10 * lsd_val(s.skip(1)) + digit_val(s[0]));
    }
}


/// Index of the first `.` in `s`, or `s.len()` if there is none.
pub open spec fn dot_pos(s: Seq<char>) -> int
    decreases s.len(),
{
    if s.len() == 0 {
        0
    } else if s[0] == '.' {
        0
    } else {
        1 + dot_pos(s.skip(1))
    }
}

pub proof fn lemma_dot_pos_range(s: Seq<char>)
    ensures
        0 <= dot_pos(s) <= s.len(),
        forall|i: int| 0 <= i < dot_pos(s) ==> #[trigger] s[i] != '.',
        dot_pos(s) < s.len() ==> s[dot_pos(s)] == '.',
    decreases s.len(),
{
    if s.len() > 0 && s[0] != '.' {
        lemma_dot_pos_range(s.skip(1));
        assert(forall|i: int| 0 <= i < dot_pos(s) ==> #[trigger] s[i] != '.') by {
            assert(forall|i: int| 1 <= i < dot_pos(s) ==> s.skip(1)[i - 1] == #[trigger] s[i]);
        }
    }
}

/// The first position of `s` that holds `.`, and no earlier one, fixes
/// `dot_pos`.
pub proof fn lemma_dot_pos_at(s: Seq<char>, p: int)
    requires
        0 <= p <= s.len(),
        forall|i: int| 0 <= i < p ==> #[trigger] s[i] != '.',
        p < s.len() ==> s[p] == '.',
    ensures
        dot_pos(s) == p,
    decreases s.len(),
{
    if s.len() > 0 && s[0] != '.' {
        assert(forall|i: int| 0 <= i < p - 1 ==> #[trigger] s.skip(1)[i] == s[i + 1]);
        lemma_dot_pos_at(s.skip(1), p - 1);
    }
}

/// The digit run before the first dot of an unsigned literal body.
pub open spec fn int_digits(b: Seq<char>) -> Seq<char> {
    b.take(dot_pos(b))
}

/// The digit run after the first dot of an unsigned literal body.
pub open spec fn frac_digits(b: Seq<char>) -> Seq<char> {
    if dot_pos(b) == b.len() {
        Seq::<char>::empty()
    } else {
        b.skip(dot_pos(b) + 1)
    }
}

/// The literal with any single leading sign removed.
pub open spec fn body_of(s: Seq<char>) -> Seq<char> {
    if s.len() > 0 && (s[0] == '-' || s[0] == '+') {
        s.skip(1)
    } else {
        s
    }
}

/// The sign a literal carries: `-1` under a leading `-`, else `1`.
pub open spec fn sign_of(s: Seq<char>) -> int {
    if s.len() > 0 && s[0] == '-' {
        -1
    } else {
        1
    }
}

/// Whether `s` is a plain decimal literal with at most `fd` fractional
/// digits: an optional sign, then digits with at most one point among them
/// and at least one digit in all.
pub open spec fn scaled_shape(s: Seq<char>, fd: nat) -> bool {
    let b = body_of(s);
    let ip = int_digits(b);
    let fp = frac_digits(b);
    &&& b.len() > 0
    &&& all_digits(ip)
    &&& all_digits(fp)
    &&& dot_pos(fp) == fp.len()
    &&& ip.len() + fp.len() >= 1
    &&& fp.len() <= fd
}

/// Raw value of a well-shaped literal at `fd` fractional digits.
pub open spec fn scaled_val(s: Seq<char>, fd: nat) -> int {
    let b = body_of(s);
    let ip = int_digits(b);
    let fp = frac_digits(b);
    sign_of(s) * (dec_val(ip) * pow10(fd) + dec_val(fp) * pow10((fd - fp.len()) as nat))
}

/// What parsing `s` at `fd` fractional digits under the raw bound `max`
/// yields: the raw value of a well-shaped literal within the bound, nothing
/// otherwise.
pub open spec fn spec_parse_scaled(s: Seq<char>, fd: nat, max: int) -> Option<int> {
    if scaled_shape(s, fd) && -max <= scaled_val(s, fd) <= max {
        Some(scaled_val(s, fd))
    } else {
        None
    }
}

pub proof fn lemma_dec_val_bound(s: Seq<char>)
    requires
        all_digits(s),
    ensures
        0 <= dec_val(s) < pow10(s.len()),
    decreases s.len(),
{
    if s.len() > 0 {
        assert(all_digits(s.drop_last()));
        lemma_dec_val_bound(s.drop_last());
        assert(is_dec_digit(s.last()));
    }
}

/// A digit run holds no point, so its first point sits at its end.
pub proof fn lemma_digits_no_dot(s: Seq<char>)
    requires
        all_digits(s),
    ensures
        dot_pos(s) == s.len(),
{
    assert(forall|i: int| 0 <= i < s.len() ==> #[trigger] s[i] != '.');
    lemma_dot_pos_at(s, s.len() as int);
}

/// A literal whose integer digits already outgrow the bound has no value
/// within it.
proof fn lemma_big_int_part(s: Seq<char>, fd: nat, max: int)
    requires
        max >= 1,
        all_digits(frac_digits(body_of(s))),
        dec_val(int_digits(body_of(s))) > max,
    ensures
        !(-max <= scaled_val(s, fd) <= max),
{
    let ip = int_digits(body_of(s));
    let fp = frac_digits(body_of(s));
    let pf = pow10(fd);
    let pq = pow10((fd - fp.len()) as nat);
    lemma_pow10_pos(fd);
    lemma_pow10_pos((fd - fp.len()) as nat);
    lemma_dec_val_nonneg(fp);
    assert(dec_val(ip) * pf >= dec_val(ip) * 1 == dec_val(ip)) by (nonlinear_arith)
        requires
            pf >= 1,
            dec_val(ip) >= 0,
    ;
    assert(dec_val(fp) * pq >= 0) by (nonlinear_arith)
        requires
            pq >= 1,
            dec_val(fp) >= 0,
    ;
}

/// Parses a plain decimal literal (optional sign, digits, at most one point,
/// at most `fd` fractional digits) into its raw value at `fd` fractional
/// digits, refusing any literal whose raw magnitude exceeds `max`.
#[verifier::rlimit(40)]
pub fn parse_scaled(s: &str, fd: u32, max: i64) -> (r: Option<i64>)
    requires
        fd <= 9,
        0 < max <= 1_000_000_000_000_000_000,
    ensures
        r matches Some(v) ==> spec_parse_scaled(s@, fd as nat, max as int) == Some(v as int),
        r is None ==> spec_parse_scaled(s@, fd as nat, max as int) is None,
{
    let ghost seq = s@;
    let len = s.unicode_len();
    let mut i: usize = 0;
    let mut neg = false;
    if len > 0 {
        let c0 = s.get_char(0);
        if c0 == '-' {
            neg = true;
            i = 1;
        } else if c0 == '+' {
            i = 1;
        }
    }
    let ghost b = body_of(seq);
    proof {
        assert(b =~= seq.skip(i as int));
        assert(neg == (sign_of(seq) == -1));
    }
    if i == len {
        // The body is empty, so the literal has no digits.
        return None;
    }
    // Find where the first point of the body sits.
    let mut p = len;
    let mut t = i;
    while t < len && p == len
        invariant
            seq == s@,
            len == seq.len(),
            i <= t <= len,
            i <= p <= len,
            p == len || p == t,
            p == len ==> forall|u: int| i <= u < t ==> #[trigger] seq[u] != '.',
            p < len ==> seq[p as int] == '.' && forall|u: int| i <= u < p ==> #[trigger] seq[u]
                != '.',
        decreases len - t + (if p == len { 1int } else { 0int }),
    {
        let c = s.get_char(t);
        if c == '.' {
            p = t;
        } else {
            t = t + 1;
        }
    }
    proof {
        assert(forall|u: int| 0 <= u < p - i ==> b[u] == seq[u + i]);
        if p < len {
            assert(b[p - i] == seq[p as int]);
        }
        lemma_dot_pos_at(b, p - i);
        assert(dot_pos(b) == p - i);
    }
    // Scan the integer digit run before the point.
    let mut ival: i64 = 0;
    let mut big = false;
    let mut j = i;
    while j < p
        invariant
            seq == s@,
            len == seq.len(),
            b == body_of(seq),
            b == seq.skip(i as int),
            i <= j <= p <= len,
            i <= 1,
            dot_pos(b) == p - i,
            all_digits(seq.subrange(i as int, j as int)),
            !big ==> ival == dec_val(seq.subrange(i as int, j as int)) && 0 <= ival <= max,
            big ==> dec_val(seq.subrange(i as int, j as int)) > max,
            0 < max <= 1_000_000_000_000_000_000,
        decreases p - j,
    {
        let c = s.get_char(j);
        let ghost pre = seq.subrange(i as int, j as int);
        let ghost post = seq.subrange(i as int, (j + 1) as int);
        proof {
            assert(post.drop_last() =~= pre);
            assert(post.last() == seq[j as int]);
            assert(forall|u: int| 0 <= u < post.len() ==> post[u] == seq[u + i]);
        }
        match digit_of_char(c) {
            None => {
                // A character that is no digit sits in the integer digit run,
                // so the literal is ill-shaped.
                proof {
                    assert(int_digits(b)[j - i] == seq[j as int]);
                    assert(!all_digits(int_digits(b)));
                }
                return None;
            },
            Some(d) => {
                proof {
                    lemma_dec_val_nonneg(pre);
                    assert(dec_val(post) == 10 * dec_val(pre) + digit_val(seq[j as int]));
                    assert(all_digits(post));
                }
                if big {
                } else if ival <= (9_223_372_036_854_775_807i64 - 9) / 10 {
                    ival = ival * 10 + (d as i64);
                    if ival > max {
                        big = true;
                    }
                } else {
                    big = true;
                }
            },
        }
        j = j + 1;
    }
    let ghost ip = int_digits(b);
    proof {
        assert(ip =~= seq.subrange(i as int, p as int));
    }
    // Scan the fractional digit run after the point, if any.
    let mut fval: i64 = 0;
    let mut flen: u32 = 0;
    let ghost fp = frac_digits(b);
    if p < len {
        proof {
            assert(fp =~= seq.subrange((p + 1) as int, len as int));
        }
        let mut k = p + 1;
        while k < len
            invariant
                seq == s@,
                len == seq.len(),
                fd <= 9,
                p + 1 <= k <= len,
                fp == frac_digits(body_of(seq)),
                fp == seq.subrange((p + 1) as int, len as int),
                all_digits(seq.subrange((p + 1) as int, k as int)),
                flen == k - p - 1,
                flen <= fd,
                fval == dec_val(seq.subrange((p + 1) as int, k as int)),
                0 <= fval < pow10(flen as nat),
            decreases len - k,
        {
            let c = s.get_char(k);
            let ghost fpre = seq.subrange((p + 1) as int, k as int);
            let ghost fpost = seq.subrange((p + 1) as int, (k + 1) as int);
            proof {
                assert(fpost.drop_last() =~= fpre);
                assert(fpost.last() == seq[k as int]);
                assert(forall|u: int| 0 <= u < fpost.len() ==> fpost[u] == seq[u + p + 1]);
            }
            match digit_of_char(c) {
                None => {
                    // A character that is no digit sits in the fractional run.
                    proof {
                        assert(fp[k - p - 1] == seq[k as int]);
                        assert(!all_digits(fp));
                    }
                    return None;
                },
                Some(d) => {
                    if flen == fd {
                        // More fractional digits than the quantity can hold.
                        proof {
                            assert(fp.len() > fd);
                        }
                        return None;
                    }
                    proof {
                        lemma_pow10_mono(flen as nat, 8);
                        assert(pow10(8) == 100_000_000) by {
                            reveal_with_fuel(pow10, 9);
                        }
                        assert(pow10((flen + 1) as nat) == 10 * pow10(flen as nat));
                        assert(all_digits(fpost));
                    }
                    fval = fval * 10 + (d as i64);
                    flen = flen + 1;
                },
            }
            k = k + 1;
        }
        proof {
            assert(fp =~= seq.subrange((p + 1) as int, len as int));
        }
    } else {
        proof {
            assert(fp =~= Seq::<char>::empty());
        }
    }
    proof {
        lemma_digits_no_dot(fp);
    }
    if j == i && flen == 0 {
        // No digit at all: not a literal.
        proof {
            assert(ip.len() + fp.len() == 0);
        }
        return None;
    }
    if big {
        proof {
            lemma_big_int_part(seq, fd as nat, max as int);
        }
        return None;
    }
    let p_all = pow10_i64(fd);
    let p_rest = pow10_i64(fd - flen);
    proof {
        lemma_pow10_mono(fd as nat, 9);
        lemma_pow10_mono((fd - flen) as nat, 9);
        lemma_pow10_mono(flen as nat, 9);
        assert(pow10(9) == 1_000_000_000) by {
            reveal_with_fuel(pow10, 10);
        }
        assert(ival * p_all <= max * 1_000_000_000 && ival * p_all >= 0) by (nonlinear_arith)
            requires
                0 <= ival <= max,
                1 <= p_all <= 1_000_000_000,
                max <= 1_000_000_000_000_000_000,
        ;
        assert(0 <= fval * p_rest <= 1_000_000_000 * 1_000_000_000) by (nonlinear_arith)
            requires
                0 <= fval <= 1_000_000_000,
                1 <= p_rest <= 1_000_000_000,
        ;
    }
    let v128: i128 = (ival as i128) * (p_all as i128) + (fval as i128) * (p_rest as i128);
    if v128 > (max as i128) {
        // The magnitude exceeds the raw bound.
        return None;
    }
    let v = v128 as i64;
    if neg {
        Some(-v)
    } else {
        Some(v)
    }
}
/// Digit character of value `d`.
pub fn char_of_digit(d: u64) -> (c: char)
    requires
        d <= 9,
    ensures
        is_dec_digit(c),
        digit_val(c) == d,
{
    (48 + d as u8) as char
}

proof fn lemma_dec_val_zeros(z: Seq<char>)
    requires
        forall|i: int| 0 <= i < z.len() ==> #[trigger] z[i] == '0',
    ensures
        dec_val(z) == 0,
        all_digits(z),
    decreases z.len(),
{
    if z.len() > 0 {
        assert(forall|i: int| 0 <= i < z.drop_last().len() ==> #[trigger] z.drop_last()[i] == '0');
        lemma_dec_val_zeros(z.drop_last());
        assert(z.last() == '0');
    }
}

proof fn lemma_dec_val_zero_pad(z: Seq<char>, s: Seq<char>)
    requires
        forall|i: int| 0 <= i < z.len() ==> #[trigger] z[i] == '0',
    ensures
        dec_val(z + s) == dec_val(s),
    decreases s.len(),
{
    if s.len() == 0 {
        assert(z + s =~= z);
        lemma_dec_val_zeros(z);
    } else {
        assert((z + s).drop_last() =~= z + s.drop_last());
        assert((z + s).last() == s.last());
        lemma_dec_val_zero_pad(z, s.drop_last());
    }
}

/// Decimal digits of `n`, most significant first: no leading zero on more
/// than one digit, and the last digit is the value's own last digit.
fn digits_of(n: u64) -> (r: Vec<char>)
    ensures
        all_digits(r@),
        dec_val(r@) == n,
        r@.len() >= 1,
        r@.len() == 1 || n >= pow10((r@.len() - 1) as nat),
        r@.len() == 1 || r@[0] != '0',
        digit_val(r@[r@.len() - 1]) == n % 10,
{
    let mut tmp: Vec<char> = Vec::new();
    let mut m = n;
    while m > 0
        invariant
            n == m * pow10(tmp@.len()) + lsd_val(tmp@),
            all_digits(tmp@),
            lsd_val(tmp@) >= 0,
            tmp@.len() > 0 ==> n >= pow10((tmp@.len() - 1) as nat),
            tmp@.len() > 0 ==> digit_val(tmp@[0]) == n % 10,
            m == 0 && tmp@.len() > 0 ==> digit_val(tmp@.last()) >= 1,
        decreases m,
    {
        let ghost oldtmp = tmp@;
        let ghost oldm = m as int;
        let d = m % 10;
        let c = char_of_digit(d);
        tmp.push(c);
        m = m / 10;
        proof {
            lemma_lsd_val_snoc(oldtmp, c);
            lemma_pow10_pos(oldtmp.len());
            let pl = pow10(oldtmp.len());
            assert((oldm / 10) * (10 * pl) + (oldm % 10) * pl == oldm * pl) by (nonlinear_arith)
                requires
                    oldm >= 0,
                    pl >= 1,
            ;
            assert(pow10(tmp@.len()) == 10 * pl);
            assert(digit_val(c) * pl >= 0) by (nonlinear_arith)
                requires
                    digit_val(c) >= 0,
                    pl >= 1,
            ;
            assert(oldm * pl >= pl) by (nonlinear_arith)
                requires
                    oldm >= 1,
                    pl >= 1,
            ;
            assert(n >= pow10((tmp@.len() - 1) as nat));
            if oldtmp.len() == 0 {
                // The first digit collected is the value's own last digit.
                assert(oldm * pow10(0) == oldm) by (nonlinear_arith)
                    requires
                        pow10(0) == 1,
                ;
                assert(oldm == n);
                assert(tmp@[0] == c);
            } else {
                assert(tmp@[0] == oldtmp[0]);
            }
            if m == 0 {
                // The last digit collected leads the value, so it is
                // nonzero.
                assert(oldm < 10);
                assert(digit_val(c) == oldm);
                assert(tmp@.last() == c);
            }
        }
    }
    proof {
        lemma_pow10_pos(tmp@.len());
        assert(n == lsd_val(tmp@));
    }
    if tmp.len() == 0 {
        let c0 = char_of_digit(0);
        tmp.push(c0);
        proof {
            assert(tmp@.drop_last() =~= Seq::<char>::empty());
            assert(tmp@.last() == c0);
            assert(dec_val(tmp@) == 10 * dec_val(Seq::<char>::empty()) + digit_val(c0));
            assert(n == 0);
        }
        return tmp;
    }
    // Reverse into most-significant-first order.
    let mut r: Vec<char> = Vec::new();
    let mut q = tmp.len();
    while q > 0
        invariant
            q <= tmp@.len(),
            r@ == tmp@.skip(q as int).reverse(),
        decreases q,
    {
        q = q - 1;
        let c = tmp[q];
        r.push(c);
        proof {
            assert(tmp@.skip(q as int).reverse() =~= tmp@.skip(q + 1).reverse().push(
                tmp@[q as int],
            ));
        }
    }
    proof {
        assert(tmp@.skip(0) =~= tmp@);
        lemma_dec_val_reverse(tmp@);
        assert(forall|i: int| 0 <= i < r@.len() ==> #[trigger] r@[i] == tmp@[tmp@.len() - 1 - i]);
        assert(r@[0] == tmp@.last());
        assert(digit_val(r@[0]) >= 1);
        assert(r@[0] != '0');
        assert(r@[r@.len() - 1] == tmp@[0]);
    }
    r
}

/// The sign prefix of a rendered literal.
spec fn sign_seq(neg: bool) -> Seq<char> {
    if neg {
        seq!['-']
    } else {
        Seq::<char>::empty()
    }
}

/// The point and fractional digits of a rendered literal, empty when there
/// are no fractional digits.
spec fn dot_part(fp: Seq<char>) -> Seq<char> {
    if fp.len() == 0 {
        Seq::<char>::empty()
    } else {
        seq!['.'] + fp
    }
}

/// `n` zero characters.
spec fn pad_zeros(n: nat) -> Seq<char> {
    Seq::<char>::new(n, |i: int| '0')
}

/// A rendered literal in canonical form: no plus sign, a minus sign exactly
/// on a negative value, no leading zero on a multi-digit integer part, and
/// no trailing zero in the fractional part.
pub open spec fn canonical_scaled(s: Seq<char>, fd: nat) -> bool {
    let b = body_of(s);
    let ip = int_digits(b);
    let fp = frac_digits(b);
    &&& s.len() > 0
    &&& s[0] != '+'
    &&& (s[0] == '-' <==> scaled_val(s, fd) < 0)
    &&& (ip.len() > 1 ==> ip[0] != '0')
    &&& (fp.len() > 0 ==> fp.last() != '0')
}

/// A sign, a nonempty integer digit run, and an optional point with
/// fractional digits form a well-shaped literal whose value reads off its
/// parts.
proof fn lemma_literal_parts(full: Seq<char>, neg: bool, ids: Seq<char>, fp: Seq<char>, fd: nat)
    requires
        all_digits(ids),
        ids.len() >= 1,
        all_digits(fp),
        fp.len() <= fd,
        full == sign_seq(neg) + ids + dot_part(fp),
    ensures
        scaled_shape(full, fd),
        scaled_val(full, fd) == (if neg {
            -1int
        } else {
            1int
        }) * (dec_val(ids) * pow10(fd) + dec_val(fp) * pow10((fd - fp.len()) as nat)),
        full.len() > 0,
        full[0] == (if neg {
            '-'
        } else {
            ids[0]
        }),
        int_digits(body_of(full)) == ids,
        frac_digits(body_of(full)) == fp,
{
    let b = ids + dot_part(fp);
    assert(forall|i: int| 0 <= i < ids.len() ==> #[trigger] b[i] == ids[i]);
    if neg {
        assert(full[0] == '-');
        assert(full.skip(1) =~= b);
        assert(body_of(full) == b);
        assert(sign_of(full) == -1);
    } else {
        assert(full =~= b);
        assert(full[0] == ids[0]);
        assert(is_dec_digit(ids[0]));
        assert(full[0] != '-' && full[0] != '+');
        assert(body_of(full) == b);
        assert(sign_of(full) == 1);
    }
    assert(forall|i: int| 0 <= i < ids.len() ==> #[trigger] b[i] != '.');
    if fp.len() > 0 {
        assert(b[ids.len() as int] == '.');
        lemma_dot_pos_at(b, ids.len() as int);
        assert(frac_digits(b) =~= fp);
    } else {
        assert(b.len() == ids.len());
        lemma_dot_pos_at(b, ids.len() as int);
        assert(frac_digits(b) =~= fp);
    }
    assert(int_digits(b) =~= ids);
    lemma_digits_no_dot(fp);
}

/// Renders a raw fixed-point value at `fd` fractional digits as the
/// canonical plain decimal literal: a minus sign exactly when negative, the
/// integer digits without a leading zero, and the fractional digits with
/// trailing zeros trimmed. Parsing the result at `fd` fractional digits
/// gives the value back.
#[verifier::rlimit(40)]
pub fn format_scaled(raw: i64, fd: u32) -> (r: String)
    requires
        fd <= 9,
        -1_000_000_000_000_000_000 <= raw <= 1_000_000_000_000_000_000,
    ensures
        scaled_shape(r@, fd as nat),
        scaled_val(r@, fd as nat) == raw,
        canonical_scaled(r@, fd as nat),
{
    let neg = raw < 0;
    let a: u64 = if neg {
        (-raw) as u64
    } else {
        raw as u64
    };
    let pf64 = pow10_i64(fd);
    proof {
        lemma_pow10_mono(fd as nat, 9);
        assert(pow10(9) == 1_000_000_000) by {
            reveal_with_fuel(pow10, 10);
        }
    }
    let pf = pf64 as u64;
    let ipart = a / pf;
    let fpart0 = a % pf;
    proof {
        vstd::arithmetic::div_mod::lemma_fundamental_div_mod(a as int, pf as int);
    }
    let mut fpart = fpart0;
    let mut flen = fd;
    proof {
        lemma_pow10_pos(0);
        assert(fpart * pow10((fd - flen) as nat) == fpart0) by (nonlinear_arith)
            requires
                fpart == fpart0,
                pow10((fd - flen) as nat) == 1,
        ;
    }
    while flen > 0 && fpart % 10 == 0
        invariant
            fd <= 9,
            flen <= fd,
            fpart * pow10((fd - flen) as nat) == fpart0,
            0 <= fpart < pow10(flen as nat),
        decreases flen,
    {
        let ghost oldf = fpart as int;
        let ghost oldl = flen;
        fpart = fpart / 10;
        flen = flen - 1;
        proof {
            let pr = pow10((fd - oldl) as nat);
            assert(oldf == 10 * (oldf / 10));
            assert((oldf / 10) * (10 * pr) == oldf * pr) by (nonlinear_arith)
                requires
                    oldf == 10 * (oldf / 10),
            ;
            assert(pow10((fd - oldl + 1) as nat) == 10 * pr);
            assert(pow10(oldl as nat) == 10 * pow10((oldl - 1) as nat));
        }
    }
    let mut out: Vec<char> = Vec::new();
    if neg {
        out.push('-');
    }
    proof {
        assert(out@ =~= sign_seq(neg));
    }
    let ids = digits_of(ipart);
    let mut w: usize = 0;
    while w < ids.len()
        invariant
            w <= ids@.len(),
            out@ == sign_seq(neg) + ids@.subrange(0, w as int),
        decreases ids@.len() - w,
    {
        let c = ids[w];
        out.push(c);
        proof {
            assert(sign_seq(neg) + ids@.subrange(0, (w + 1) as int) =~= (sign_seq(neg)
                + ids@.subrange(0, w as int)).push(ids@[w as int]));
        }
        w = w + 1;
    }
    proof {
        assert(ids@.subrange(0, ids@.len() as int) =~= ids@);
        assert(out@ == sign_seq(neg) + ids@);
    }
    if flen > 0 {
        out.push('.');
        let fds = digits_of(fpart);
        proof {
            // The trimmed fraction fits in `flen` digits.
            if fds@.len() > 1 {
                if fds@.len() > flen {
                    lemma_pow10_mono(flen as nat, (fds@.len() - 1) as nat);
                    assert(false);
                }
            }
            assert(fds@.len() <= flen);
        }
        let npad = flen - (fds.len() as u32);
        let mut pad: u32 = 0;
        while pad < npad
            invariant
                pad <= npad,
                out@ == sign_seq(neg) + ids@ + seq!['.'] + pad_zeros(pad as nat),
            decreases npad - pad,
        {
            out.push('0');
            proof {
                assert(sign_seq(neg) + ids@ + seq!['.'] + pad_zeros((pad + 1) as nat) =~= (sign_seq(
                    neg,
                ) + ids@ + seq!['.'] + pad_zeros(pad as nat)).push('0'));
            }
            pad = pad + 1;
        }
        let mut w2: usize = 0;
        while w2 < fds.len()
            invariant
                w2 <= fds@.len(),
                out@ == sign_seq(neg) + ids@ + seq!['.'] + pad_zeros(npad as nat) + fds@.subrange(
                    0,
                    w2 as int,
                ),
            decreases fds@.len() - w2,
        {
            let c = fds[w2];
            out.push(c);
            proof {
                assert(sign_seq(neg) + ids@ + seq!['.'] + pad_zeros(npad as nat) + fds@.subrange(
                    0,
                    (w2 + 1) as int,
                ) =~= (sign_seq(neg) + ids@ + seq!['.'] + pad_zeros(npad as nat) + fds@.subrange(
                    0,
                    w2 as int,
                )).push(fds@[w2 as int]));
            }
            w2 = w2 + 1;
        }
        proof {
            assert(fds@.subrange(0, fds@.len() as int) =~= fds@);
            let padded = pad_zeros(npad as nat) + fds@;
            assert(forall|i: int|
                0 <= i < pad_zeros(npad as nat).len() ==> #[trigger] pad_zeros(npad as nat)[i]
                    == '0');
            lemma_dec_val_zero_pad(pad_zeros(npad as nat), fds@);
            assert(all_digits(padded)) by {
                assert(forall|i: int|
                    0 <= i < padded.len() ==> is_dec_digit(#[trigger] padded[i]));
            }
            assert(padded.len() == flen);
            assert(out@ =~= sign_seq(neg) + ids@ + dot_part(padded));
            lemma_literal_parts(out@, neg, ids@, padded, fd as nat);
            assert(dec_val(ids@) * pow10(fd as nat) + dec_val(padded) * pow10(
                (fd - flen) as nat,
            ) == a);
            assert(scaled_val(out@, fd as nat) == (if neg {
                -1int
            } else {
                1int
            }) * (a as int));
            assert(scaled_val(out@, fd as nat) == raw);
            // Canonical form: sign, leading digit, trailing fraction digit.
            assert(out@[0] != '+' && (out@[0] == '-' <==> raw < 0));
            assert(int_digits(body_of(out@)) == ids@);
            assert(ids@.len() > 1 ==> ids@[0] != '0');
            assert(frac_digits(body_of(out@)) == padded);
            assert(padded.last() == fds@[fds@.len() - 1]);
            assert(fpart % 10 != 0);
            assert(digit_val(padded.last()) == fpart % 10);
            assert(padded.last() != '0');
            assert(canonical_scaled(out@, fd as nat));
        }
    } else {
        proof {
            lemma_pow10_pos(0);
            assert(fpart == 0);
            assert(fpart0 == 0);
            let fp = Seq::<char>::empty();
            assert(out@ =~= sign_seq(neg) + ids@ + dot_part(fp));
            lemma_literal_parts(out@, neg, ids@, fp, fd as nat);
            assert(pf == pow10(fd as nat));
            assert(dec_val(ids@) == ipart);
            assert(a == pf * (ipart as int) + fpart0);
            assert(dec_val(fp) == 0);
            assert(dec_val(ids@) * pow10(fd as nat) + dec_val(fp) * pow10((fd - flen) as nat)
                == a);
            assert(scaled_val(out@, fd as nat) == (if neg {
                -1int
            } else {
                1int
            }) * (a as int));
            assert(scaled_val(out@, fd as nat) == raw);
            // Canonical form: sign and leading digit; there is no fraction.
            assert(out@[0] != '+' && (out@[0] == '-' <==> raw < 0));
            assert(int_digits(body_of(out@)) == ids@);
            assert(ids@.len() > 1 ==> ids@[0] != '0');
            assert(frac_digits(body_of(out@)) == fp);
            assert(canonical_scaled(out@, fd as nat));
        }
    }
    let r = chars_to_string(&out);
    r
}

/// Parsing a rendered value gives the value back.
pub proof fn lemma_format_parse_round_trip(s: Seq<char>, raw: int, fd: nat, max: int)
    requires
        scaled_shape(s, fd),
        scaled_val(s, fd) == raw,
        -max <= raw <= max,
    ensures
        spec_parse_scaled(s, fd, max) == Some(raw),
{
}

} // verus!
