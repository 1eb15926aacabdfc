//! Verified plain-text rendering of integers: decimal and upper-case
//! hexadecimal digit sequences, shared by the formatting helpers of the
//! crate.

use vstd::prelude::*;
use vstd::string::StrSliceExecFns;

verus! {

/// The character for a single decimal or hexadecimal digit value.
pub open spec fn spec_digit_char(d: int) -> char
    recommends
        0 <= d < 16,
{
    if d < 10 {
        ((48 + d) as u8) as char
    } else {
        ((55 + d) as u8) as char
    }
}

/// The decimal rendering of a non-negative integer, most significant digit
/// first, without leading zeros (`0` renders as `"0"`).
pub open spec fn spec_dec(n: int) -> Seq<char>
    recommends
        n >= 0,
    decreases n,
{
    if n < 10 {
        seq![spec_digit_char(n)]
    } else {
        spec_dec(n / 10) + seq![spec_digit_char(n % 10)]
    }
}

/// The upper-case hexadecimal rendering of a non-negative integer, most
/// significant digit first, without leading zeros.
pub open spec fn spec_hex(n: int) -> Seq<char>
    recommends
        n >= 0,
    decreases n,
{
    if n < 16 {
        seq![spec_digit_char(n)]
    } else {
        spec_hex(n / 16) + seq![spec_digit_char(n % 16)]
    }
}

/// A one-character string for the given digit value, decimal or hexadecimal.
fn digit_str(d: u8) -> (r: &'static str)
    requires
        d < 16,
    ensures
        r@ == seq![spec_digit_char(d as int)],
{
    proof {
        reveal_strlit("0");
        reveal_strlit("1");
        reveal_strlit("2");
        reveal_strlit("3");
        reveal_strlit("4");
        reveal_strlit("5");
        reveal_strlit("6");
        reveal_strlit("7");
        reveal_strlit("8");
        reveal_strlit("9");
        reveal_strlit("A");
        reveal_strlit("B");
        reveal_strlit("C");
        reveal_strlit("D");
        reveal_strlit("E");
        reveal_strlit("F");
    }
    match d {
        0 => "0",
        1 => "1",
        2 => "2",
        3 => "3",
        4 => "4",
        5 => "5",
        6 => "6",
        7 => "7",
        8 => "8",
        9 => "9",
        10 => "A",
        11 => "B",
        12 => "C",
        13 => "D",
        14 => "E",
        _ => "F",
    }
}

/// Renders a `u128` in decimal.
pub fn u128_to_dec(n: u128) -> (r: String)
    ensures
        r@ == spec_dec(n as int),
    decreases n,
{
    if n < 10 {
        let s = digit_str(n as u8);
        s.to_owned()
    } else {
        let prefix = u128_to_dec(n / 10);
        let last = digit_str((n % 10) as u8);
        prefix.concat(last)
    }
}

/// Renders a `u64` in decimal.
pub fn u64_to_dec(n: u64) -> (r: String)
    ensures
        r@ == spec_dec(n as int),
{
    u128_to_dec(n as u128)
}

/// Renders a `usize` in decimal.
pub fn usize_to_dec(n: usize) -> (r: String)
    ensures
        r@ == spec_dec(n as int),
{
    u128_to_dec(n as u128)
}

/// Renders a `u128` in upper-case hexadecimal.
pub fn u128_to_hex(n: u128) -> (r: String)
    ensures
        r@ == spec_hex(n as int),
    decreases n,
{
    if n < 16 {
        let s = digit_str(n as u8);
        s.to_owned()
    } else {
        let prefix = u128_to_hex(n / 16);
        let last = digit_str((n % 16) as u8);
        prefix.concat(last)
    }
}

/// Renders a `usize` in upper-case hexadecimal.
pub fn usize_to_hex(n: usize) -> (r: String)
    ensures
        r@ == spec_hex(n as int),
{
    u128_to_hex(n as u128)
}

/// An ASCII letter mapped to upper case; any other character unchanged.
pub open spec fn spec_ascii_upper_char(c: char) -> char {
    if 'a' <= c && c <= 'z' {
        ((c as u8) - 32) as char
    } else {
        c
    }
}

/// An ASCII letter mapped to lower case; any other character unchanged.
pub open spec fn spec_ascii_lower_char(c: char) -> char {
    if 'A' <= c && c <= 'Z' {
        ((c as u8) + 32) as char
    } else {
        c
    }
}

/// A text with its ASCII letters mapped to upper case.
pub open spec fn spec_ascii_upper(s: Seq<char>) -> Seq<char> {
    s.map_values(|c: char| spec_ascii_upper_char(c))
}

/// A text with its ASCII letters mapped to lower case.
pub open spec fn spec_ascii_lower(s: Seq<char>) -> Seq<char> {
    s.map_values(|c: char| spec_ascii_lower_char(c))
}

/// Maps the ASCII letters of a text to upper case.
pub fn ascii_uppercase(s: &str) -> (r: String)
    ensures
        r@ == spec_ascii_upper(s@),
{
    let n = s.unicode_len();
    let mut r = String::new();
    let mut i: usize = 0;
    while i < n
        invariant
            n == s@.len(),
            0 <= i <= n,
            r@ == spec_ascii_upper(s@.take(i as int)),
        decreases n - i,
    {
        let c = s.get_char(i);
        let mapped: char = if 'a' <= c && c <= 'z' {
            ((c as u8) - 32) as char
        } else {
            c
        };
        push_char(&mut r, mapped);
        i = i + 1;
        proof {
            assert(r@ =~= spec_ascii_upper(s@.take(i as int)));
        }
    }
    proof {
        assert(s@.take(n as int) =~= s@);
    }
    r
}

/// Maps the ASCII letters of a text to lower case.
pub fn ascii_lowercase(s: &str) -> (r: String)
    ensures
        r@ == spec_ascii_lower(s@),
{
    let n = s.unicode_len();
    let mut r = String::new();
    let mut i: usize = 0;
    while i < n
        invariant
            n == s@.len(),
            0 <= i <= n,
            r@ == spec_ascii_lower(s@.take(i as int)),
        decreases n - i,
    {
        let c = s.get_char(i);
        let mapped: char = if 'A' <= c && c <= 'Z' {
            ((c as u8) + 32) as char
        } else {
            c
        };
        push_char(&mut r, mapped);
        i = i + 1;
        proof {
            assert(r@ =~= spec_ascii_lower(s@.take(i as int)));
        }
    }
    proof {
        assert(s@.take(n as int) =~= s@);
    }
    r
}

/// Relies on `String::push`: appends exactly the given character.
#[verifier::external_body]
pub(crate) fn push_char(s: &mut String, c: char)
    ensures
        final(s)@ == old(s)@ + seq![c],
{
    s.push(c);
}

/// The decimal rendering of a signed 32-bit integer: a minus sign before the
/// digits when negative.
pub open spec fn spec_dec_i32(n: i32) -> Seq<char> {
    if n < 0 {
        seq!['-'] + spec_dec(-(n as int))
    } else {
        spec_dec(n as int)
    }
}

/// Renders an `i32` in decimal, with a leading minus sign when negative.
pub fn i32_to_dec(n: i32) -> (r: String)
    ensures
        r@ == spec_dec_i32(n),
{
    proof {
        reveal_strlit("-");
    }
    if n < 0 {
        let magnitude = (-(n as i64)) as u128;
        let mut r = String::new();
        r.append("-");
        let digits = u128_to_dec(magnitude);
        r.append(digits.as_str());
        proof {
            assert(r@ =~= spec_dec_i32(n));
        }
        r
    } else {
        u128_to_dec(n as u128)
    }
}

/// The decimal rendering of `n` left-padded with zeros to at least `width`
/// digits.
pub open spec fn spec_dec_pad(n: int, width: int) -> Seq<char>
    recommends
        n >= 0,
{
    let digits = spec_dec(n);
    if digits.len() >= width {
        digits
    } else {
        Seq::new((width - digits.len()) as nat, |i: int| (48u8) as char) + digits
    }
}

/// Renders `n` in decimal, left-padded with zeros to at least two digits.
pub fn u64_to_dec_pad2(n: u64) -> (r: String)
    ensures
        r@ == spec_dec_pad(n as int, 2),
{
    proof {
        reveal_strlit("0");
    }
    if n < 10 {
        let mut s = String::new();
        s.append("0");
        let d = u64_to_dec(n);
        s.append(d.as_str());
        proof {
            assert(spec_dec(n as int).len() == 1);
            assert(s@ =~= spec_dec_pad(n as int, 2));
        }
        s
    } else {
        let r = u64_to_dec(n);
        proof {
            lemma_spec_dec_len_ge2(n as int);
        }
        r
    }
}

/// A decimal rendering of an integer of at least 10 has at least two digits.
proof fn lemma_spec_dec_len_ge2(n: int)
    requires
        n >= 10,
    ensures
        spec_dec(n).len() >= 2,
{
    assert(spec_dec(n) == spec_dec(n / 10) + seq![spec_digit_char(n % 10)]);
    assert(spec_dec(n / 10).len() >= 1) by {
        lemma_spec_dec_len_ge1(n / 10);
    }
}

/// Compares two texts character by character.
pub fn str_eq(a: &str, b: &str) -> (r: bool)
    ensures
        r == (a@ == b@),
{
    let n = a.unicode_len();
    let m = b.unicode_len();
    if n != m {
        return false;
    }
    let mut i: usize = 0;
    while i < n
        invariant
            n == a@.len(),
            n == b@.len(),
            0 <= i <= n,
            forall|j: int| 0 <= j < i ==> a@[j] == b@[j],
        decreases n - i,
    {
        if a.get_char(i) != b.get_char(i) {
            return false;
        }
        i = i + 1;
    }
    proof {
        assert(a@ =~= b@);
    }
    true
}

/// True when `pat` occurs in `s` starting at character position `i`.
pub open spec fn spec_chars_match_at(s: Seq<char>, pat: Seq<char>, i: int) -> bool {
    &&& 0 <= i
    &&& i + pat.len() <= s.len()
    &&& s.subrange(i, i + pat.len() as int) == pat
}

/// `s` with every non-overlapping occurrence of `pat` replaced by `rep`,
/// scanning left to right.
pub open spec fn spec_replace(s: Seq<char>, pat: Seq<char>, rep: Seq<char>) -> Seq<char>
    recommends
        pat.len() > 0,
    decreases s.len() when pat.len() > 0
{
    if s.len() == 0 {
        s
    } else if spec_chars_match_at(s, pat, 0) {
        rep + spec_replace(s.skip(pat.len() as int), pat, rep)
    } else {
        seq![s[0]] + spec_replace(s.drop_first(), pat, rep)
    }
}

/// Compares `s[i..i + pat.len()]` with `pat`, character by character.
fn chars_match_at(s: &str, pat: &str, i: usize) -> (r: bool)
    requires
        i + pat@.len() <= s@.len(),
    ensures
        r == spec_chars_match_at(s@, pat@, i as int),
{
    let n = s.unicode_len();
    let m = pat.unicode_len();
    let mut k: usize = 0;
    while k < m
        invariant
            n == s@.len(),
            m == pat@.len(),
            i + m <= n,
            0 <= k <= m,
            forall|j: int| 0 <= j < k ==> s@[i + j] == pat@[j],
        decreases m - k,
    {
        if s.get_char(i + k) != pat.get_char(k) {
            assert(s@.subrange(i as int, i + pat@.len() as int)[k as int] != pat@[k as int]);
            return false;
        }
        k = k + 1;
    }
    assert(s@.subrange(i as int, i + pat@.len() as int) =~= pat@);
    true
}

/// Replaces every non-overlapping occurrence of `pat` in `s` with `rep`,
/// scanning left to right.
pub fn replace_all(s: &str, pat: &str, rep: &str) -> (r: String)
    requires
        pat@.len() > 0,
    ensures
        r@ == spec_replace(s@, pat@, rep@),
{
    let n = s.unicode_len();
    let m = pat.unicode_len();
    let mut r = String::new();
    let mut i: usize = 0;
    proof {
        assert(s@.skip(0) =~= s@);
    }
    while i < n
        invariant
            n == s@.len(),
            m == pat@.len(),
            m > 0,
            0 <= i <= n,
            spec_replace(s@, pat@, rep@) == r@ + spec_replace(s@.skip(i as int), pat@, rep@),
        decreases n - i,
    {
        let matched: bool = if m <= n - i {
            chars_match_at(s, pat, i)
        } else {
            false
        };
        if matched {
            r.append(rep);
            proof {
                assert(spec_chars_match_at(s@.skip(i as int), pat@, 0)) by {
                    assert(s@.skip(i as int).subrange(0, pat@.len() as int) =~= s@.subrange(
                        i as int,
                        i + pat@.len() as int,
                    ));
                }
                assert(s@.skip(i as int).skip(pat@.len() as int) =~= s@.skip(i + m));
            }
            i = i + m;
        } else {
            proof {
                if i + m <= n {
                    if spec_chars_match_at(s@.skip(i as int), pat@, 0) {
                        assert(s@.skip(i as int).subrange(0, pat@.len() as int) =~= s@.subrange(
                            i as int,
                            i + pat@.len() as int,
                        ));
                        assert(false);
                    }
                } else {
                    assert(!spec_chars_match_at(s@.skip(i as int), pat@, 0));
                }
                assert(s@.skip(i as int)[0] == s@[i as int]);
                assert(s@.skip(i as int).drop_first() =~= s@.skip(i + 1));
            }
            let c = s.get_char(i);
            push_char(&mut r, c);
            i = i + 1;
        }
    }
    proof {
        assert(s@.skip(n as int) =~= Seq::<char>::empty());
        assert(spec_replace(Seq::<char>::empty(), pat@, rep@) =~= Seq::<char>::empty());
    }
    r
}

/// A decimal rendering is never empty.
proof fn lemma_spec_dec_len_ge1(n: int)
    requires
        n >= 0,
    ensures
        spec_dec(n).len() >= 1,
    decreases n,
{
    if n >= 10 {
        lemma_spec_dec_len_ge1(n / 10);
    }
}

} // verus!
