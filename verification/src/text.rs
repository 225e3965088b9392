//! Verified helpers on character sequences and strings.

use vstd::prelude::*;
use vstd::string::StrSliceExecFns;
use vstd::string::StringExecFns;

verus! {

/// Relies on `core::iter::Iterator::collect` (via `String::from_iter`):
/// builds the string holding exactly the given characters.
#[verifier::external_body]
pub fn chars_to_string(v: &Vec<char>) -> (r: String)
    ensures
        r@ == v@,
{
    v.iter().collect()
}

/// Whether two strings hold the same characters.
pub fn str_eq(a: &str, b: &str) -> (r: bool)
    ensures
        r == (a@ == b@),
{
    let la = a.unicode_len();
    let lb = b.unicode_len();
    if la != lb {
        return false;
    }
    let mut i: usize = 0;
    while i < la
        invariant
            la == a@.len() == b@.len(),
            0 <= i <= la,
            forall|j: int| 0 <= j < i ==> a@[j] == b@[j],
        decreases la - i,
    {
        if a.get_char(i) != b.get_char(i) {
            return false;
        }
        i = i + 1;
    }
    proof {
        assert(a@ =~= b@);
    }
    true
}

/// Whether `p` occurs in `s` as a contiguous run.
pub open spec fn has_sub(s: Seq<char>, p: Seq<char>) -> bool {
    exists|i: int| 0 <= i && i + p.len() <= s.len() && #[trigger] s.subrange(i, i + p.len() as int)
        == p
}

/// Whether the characters of `p` stand in `s` starting at `i`.
fn matches_at(s: &str, s_len: usize, p: &str, i: usize) -> (r: bool)
    requires
        s_len == s@.len(),
        i + p@.len() <= s@.len(),
    ensures
        r == (s@.subrange(i as int, i + p@.len() as int) == p@),
{
    let lp = p.unicode_len();
    let mut j: usize = 0;
    while j < lp
        invariant
            s_len == s@.len(),
            lp == p@.len(),
            i + lp <= s_len,
            0 <= j <= lp,
            forall|t: int| 0 <= t < j ==> s@[i + t] == p@[t],
        decreases lp - j,
    {
        if s.get_char(i + j) != p.get_char(j) {
            proof {
                assert(s@.subrange(i as int, i + p@.len() as int)[j as int] == s@[i + j]);
            }
            return false;
        }
        j = j + 1;
    }
    proof {
        assert(s@.subrange(i as int, i + p@.len() as int) =~= p@);
    }
    true
}

/// Whether `p` occurs in `s` as a contiguous run of characters.
pub fn contains_sub(s: &str, p: &str) -> (r: bool)
    ensures
        r == has_sub(s@, p@),
{
    let ls = s.unicode_len();
    let lp = p.unicode_len();
    if lp > ls {
        proof {
            assert(!has_sub(s@, p@));
        }
        return false;
    }
    if lp == 0 {
        proof {
            assert(s@.subrange(0, 0 + p@.len() as int) =~= p@);
            assert(has_sub(s@, p@));
        }
        return true;
    }
    let mut i: usize = 0;
    while i <= ls - lp
        invariant
            ls == s@.len(),
            lp == p@.len(),
            1 <= lp <= ls,
            0 <= i <= ls - lp + 1,
            forall|t: int| 0 <= t < i ==> #[trigger] s@.subrange(t, t + p@.len() as int) != p@,
        decreases ls - lp - i + 1,
    {
        if matches_at(s, ls, p, i) {
            return true;
        }
        i = i + 1;
    }
    false
}

/// The ASCII upper-case form of a character.
pub open spec fn upper_char(c: char) -> char {
    if 'a' <= c && c <= 'z' {
        ((c as u32) - 32) as char
    } else {
        c
    }
}

/// A sequence with every character in ASCII upper case.
pub open spec fn upper_seq(s: Seq<char>) -> Seq<char> {
    s.map(|i: int, c: char| upper_char(c))
}

/// ASCII upper-case form of a string.
pub fn upper_ascii(s: &str) -> (r: String)
    ensures
        r@ == upper_seq(s@),
{
    let len = s.unicode_len();
    let mut out: Vec<char> = Vec::new();
    let mut i: usize = 0;
    while i < len
        invariant
            len == s@.len(),
            i <= len,
            out@ == upper_seq(s@.take(i as int)),
        decreases len - i,
    {
        let c = s.get_char(i);
        let u = c as u32;
        let up: char = if 97 <= u && u <= 122 {
            // ASCII letters map within the one-byte range.
            ((u - 32) as u8) as char
        } else {
            c
        };
        proof {
            assert(up == upper_char(c));
            assert(upper_seq(s@.take(i + 1)) =~= upper_seq(s@.take(i as int)).push(upper_char(c)));
        }
        out.push(up);
        i = i + 1;
    }
    proof {
        assert(s@.take(len as int) =~= s@);
    }
    chars_to_string(&out)
}

/// Whether `c` counts as leading whitespace: space, tab, line feed or
/// carriage return.
pub open spec fn is_ws(c: char) -> bool {
    c == ' ' || c == '\t' || c == '\n' || c == '\r'
}

/// `s` without its leading whitespace.
pub open spec fn trimmed(s: Seq<char>) -> Seq<char>
    decreases s.len(),
{
    if s.len() > 0 && is_ws(s[0]) {
        trimmed(s.skip(1))
    } else {
        s
    }
}

/// The sequence after any run of leading whitespace is what trimming leaves.
proof fn lemma_trimmed_at(s: Seq<char>, p: int)
    requires
        0 <= p <= s.len(),
        forall|i: int| 0 <= i < p ==> is_ws(#[trigger] s[i]),
        p < s.len() ==> !is_ws(s[p]),
    ensures
        trimmed(s) == s.skip(p),
    decreases s.len(),
{
    if s.len() > 0 && is_ws(s[0]) {
        assert(p >= 1);
        assert(forall|i: int| 0 <= i < p - 1 ==> #[trigger] s.skip(1)[i] == s[i + 1]);
        lemma_trimmed_at(s.skip(1), p - 1);
        assert(s.skip(1).skip(p - 1) =~= s.skip(p));
    } else {
        assert(p == 0);
        assert(s.skip(0) =~= s);
    }
}

/// `s` without its leading whitespace.
pub fn trim_start_ws(s: &str) -> (r: String)
    ensures
        r@ == trimmed(s@),
{
    let len = s.unicode_len();
    let mut i: usize = 0;
    let mut p = len;
    while i < len && p == len
        invariant
            len == s@.len(),
            i <= len,
            p == len || p == i,
            p <= len,
            forall|j: int| 0 <= j < i ==> is_ws(#[trigger] s@[j]),
            p < len ==> !is_ws(s@[p as int]),
        decreases len - i + (if p == len { 1int } else { 0int }),
    {
        let c = s.get_char(i);
        if c == ' ' || c == '\t' || c == '\n' || c == '\r' {
            i = i + 1;
        } else {
            p = i;
        }
    }
    proof {
        lemma_trimmed_at(s@, p as int);
    }
    let r = s.substring_char(p, len);
    proof {
        assert(s@.subrange(p as int, len as int) =~= s@.skip(p as int));
    }
    r.to_owned()
}

} // verus!
