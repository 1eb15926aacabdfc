//! Byte marshalling utilities: total conversions from raw byte buffers to
//! fixed-width integers, text and search positions.  Pure functions with no
//! side effects.

use vstd::prelude::*;
use vstd::utf8::{valid_utf8, decode_utf8, encode_utf8};
use vstd::string::StringSliceAdditionalSpecFns;
use crate::text::{spec_digit_char, spec_dec, spec_dec_pad, spec_hex, u128_to_dec, u64_to_dec_pad2,
    usize_to_hex, u128_to_hex};

verus! {

/// The unsigned value of `s[0..4]` read as a little-endian 32-bit integer.
pub open spec fn spec_le_u32(s: Seq<u8>) -> u32
    recommends
        s.len() >= 4,
{
    ((s[0] as int) + (s[1] as int) * 0x100 + (s[2] as int) * 0x10000 + (s[3] as int)
        * 0x1000000) as u32
}

/// The unsigned value of `s[0..8]` read as a little-endian 64-bit integer.
pub open spec fn spec_le_u64(s: Seq<u8>) -> u64
    recommends
        s.len() >= 8,
{
    ((s[0] as int) + (s[1] as int) * 0x100 + (s[2] as int) * 0x10000 + (s[3] as int) * 0x1000000
        + (s[4] as int) * 0x100000000 + (s[5] as int) * 0x10000000000 + (s[6] as int)
        * 0x1000000000000 + (s[7] as int) * 0x100000000000000) as u64
}

/// The four bytes of a 32-bit value in little-endian order.
pub open spec fn spec_u32_le_bytes(v: u32) -> Seq<u8> {
    seq![
        (v & 0xff) as u8,
        ((v >> 8) & 0xff) as u8,
        ((v >> 16) & 0xff) as u8,
        ((v >> 24) & 0xff) as u8,
    ]
}

/// The eight bytes of a 64-bit value in little-endian order.
pub open spec fn spec_u64_le_bytes(v: u64) -> Seq<u8> {
    seq![
        (v & 0xff) as u8,
        ((v >> 8) & 0xff) as u8,
        ((v >> 16) & 0xff) as u8,
        ((v >> 24) & 0xff) as u8,
        ((v >> 32) & 0xff) as u8,
        ((v >> 40) & 0xff) as u8,
        ((v >> 48) & 0xff) as u8,
        ((v >> 56) & 0xff) as u8,
    ]
}

/// Splits a 32-bit value into its four little-endian bytes.
pub fn u32_to_le_vec(v: u32) -> (r: Vec<u8>)
    ensures
        r@ == spec_u32_le_bytes(v),
{
    proof {
        assert(v & 0xff < 0x100 && (v >> 8) & 0xff < 0x100 && (v >> 16) & 0xff < 0x100 && (v
            >> 24) & 0xff < 0x100) by (bit_vector);
    }
    let mut r: Vec<u8> = Vec::new();
    r.push((v & 0xff) as u8);
    r.push(((v >> 8) & 0xff) as u8);
    r.push(((v >> 16) & 0xff) as u8);
    r.push(((v >> 24) & 0xff) as u8);
    proof {
        assert(r@ =~= spec_u32_le_bytes(v));
    }
    r
}

/// Splits a 64-bit value into its eight little-endian bytes.
pub fn u64_to_le_vec(v: u64) -> (r: Vec<u8>)
    ensures
        r@ == spec_u64_le_bytes(v),
{
    proof {
        assert(v & 0xff < 0x100 && (v >> 8) & 0xff < 0x100 && (v >> 16) & 0xff < 0x100 && (v
            >> 24) & 0xff < 0x100 && (v >> 32) & 0xff < 0x100 && (v >> 40) & 0xff < 0x100 && (v
            >> 48) & 0xff < 0x100 && (v >> 56) & 0xff < 0x100) by (bit_vector);
    }
    let mut r: Vec<u8> = Vec::new();
    r.push((v & 0xff) as u8);
    r.push(((v >> 8) & 0xff) as u8);
    r.push(((v >> 16) & 0xff) as u8);
    r.push(((v >> 24) & 0xff) as u8);
    r.push(((v >> 32) & 0xff) as u8);
    r.push(((v >> 40) & 0xff) as u8);
    r.push(((v >> 48) & 0xff) as u8);
    r.push(((v >> 56) & 0xff) as u8);
    proof {
        assert(r@ =~= spec_u64_le_bytes(v));
    }
    r
}

/// Little-endian decoding inverts little-endian encoding: the four bytes of
/// a 32-bit value read back as the value itself.
pub proof fn lemma_u32_le_round_trip(v: u32)
    ensures
        spec_le_u32(spec_u32_le_bytes(v)) == v,
{
    assert(v & 0xff < 0x100 && (v >> 8) & 0xff < 0x100 && (v >> 16) & 0xff < 0x100 && (v >> 24)
        & 0xff < 0x100) by (bit_vector);
    assert((v & 0xff) + ((v >> 8) & 0xff) * 0x100 + ((v >> 16) & 0xff) * 0x10000 + ((v >> 24)
        & 0xff) * 0x1000000 == v) by (bit_vector);
}

/// Little-endian decoding inverts little-endian encoding: the eight bytes
/// of a 64-bit value read back as the value itself.
pub proof fn lemma_u64_le_round_trip(v: u64)
    ensures
        spec_le_u64(spec_u64_le_bytes(v)) == v,
{
    assert(v & 0xff < 0x100 && (v >> 8) & 0xff < 0x100 && (v >> 16) & 0xff < 0x100 && (v >> 24)
        & 0xff < 0x100 && (v >> 32) & 0xff < 0x100 && (v >> 40) & 0xff < 0x100 && (v >> 48)
        & 0xff < 0x100 && (v >> 56) & 0xff < 0x100) by (bit_vector);
    assert((v & 0xff) + ((v >> 8) & 0xff) * 0x100 + ((v >> 16) & 0xff) * 0x10000 + ((v >> 24)
        & 0xff) * 0x1000000 + ((v >> 32) & 0xff) * 0x100000000 + ((v >> 40) & 0xff)
        * 0x10000000000 + ((v >> 48) & 0xff) * 0x1000000000000 + ((v >> 56) & 0xff)
        * 0x100000000000000 == v) by (bit_vector);
}

/// Reads a little-endian `u32` from the head of `bytes`; total: a buffer
/// shorter than 4 bytes yields `0`.
pub fn bytes_to_u32(bytes: &[u8]) -> (r: u32)
    ensures
        bytes@.len() >= 4 ==> r == spec_le_u32(bytes@),
        bytes@.len() < 4 ==> r == 0,
{
    if bytes.len() >= 4 {
        let b0 = bytes[0] as u32;
        let b1 = bytes[1] as u32;
        let b2 = bytes[2] as u32;
        let b3 = bytes[3] as u32;
        b0 + b1 * 0x100 + b2 * 0x10000 + b3 * 0x1000000
    } else {
        0
    }
}

/// Reads a little-endian `u64` from the head of `bytes`; total: a buffer
/// shorter than 8 bytes yields `0`.
pub fn bytes_to_u64(bytes: &[u8]) -> (r: u64)
    ensures
        bytes@.len() >= 8 ==> r == spec_le_u64(bytes@),
        bytes@.len() < 8 ==> r == 0,
{
    if bytes.len() >= 8 {
        let b0 = bytes[0] as u64;
        let b1 = bytes[1] as u64;
        let b2 = bytes[2] as u64;
        let b3 = bytes[3] as u64;
        let b4 = bytes[4] as u64;
        let b5 = bytes[5] as u64;
        let b6 = bytes[6] as u64;
        let b7 = bytes[7] as u64;
        b0 + b1 * 0x100 + b2 * 0x10000 + b3 * 0x1000000 + b4 * 0x100000000 + b5 * 0x10000000000
            + b6 * 0x1000000000000 + b7 * 0x100000000000000
    } else {
        0
    }
}

/// True when every byte of the buffer is zero.
pub fn is_zero_bytes(bytes: &[u8]) -> (r: bool)
    ensures
        r == forall|i: int| 0 <= i < bytes@.len() ==> bytes@[i] == 0u8,
{
    let mut k: usize = 0;
    while k < bytes.len()
        invariant
            0 <= k <= bytes@.len(),
            forall|i: int| 0 <= i < k ==> bytes@[i] == 0u8,
        decreases bytes@.len() - k,
    {
        if bytes[k] != 0 {
            return false;
        }
        k = k + 1;
    }
    true
}

/// True when `needle` occurs in `haystack` starting at position `i`.
pub open spec fn spec_match_at(haystack: Seq<u8>, needle: Seq<u8>, i: int) -> bool {
    &&& 0 <= i
    &&& i + needle.len() <= haystack.len()
    &&& haystack.subrange(i, i + needle.len() as int) == needle
}

/// Compares `haystack[i..i+needle.len()]` with `needle`.
fn match_at(haystack: &[u8], needle: &[u8], i: usize) -> (r: bool)
    requires
        i + needle@.len() <= haystack@.len(),
    ensures
        r == spec_match_at(haystack@, needle@, i as int),
{
    let h = haystack.len();
    let mut k: usize = 0;
    while k < needle.len()
        invariant
            h == haystack@.len(),
            i + needle@.len() <= haystack@.len(),
            0 <= k <= needle@.len(),
            forall|j: int| 0 <= j < k ==> haystack@[i + j] == needle@[j],
        decreases needle@.len() - k,
    {
        if haystack[i + k] != needle[k] {
            assert(haystack@.subrange(i as int, i + needle@.len() as int)[k as int]
                != needle@[k as int]);
            return false;
        }
        k = k + 1;
    }
    assert(haystack@.subrange(i as int, i + needle@.len() as int) =~= needle@);
    true
}

/// Position of the first occurrence of `needle` in `haystack`.  `None` when
/// `needle` is empty, longer than `haystack`, or absent.
pub fn find_pattern(haystack: &[u8], needle: &[u8]) -> (r: Option<usize>)
    ensures
        match r {
            Some(i) => {
                &&& needle@.len() > 0
                &&& spec_match_at(haystack@, needle@, i as int)
                &&& forall|j: int| 0 <= j < i ==> !spec_match_at(haystack@, needle@, j)
            },
            None => needle@.len() == 0 || forall|j: int|
                0 <= j ==> !spec_match_at(haystack@, needle@, j),
        },
{
    if needle.len() == 0 || haystack.len() < needle.len() {
        return None;
    }
    let last = haystack.len() - needle.len();
    let mut i: usize = 0;
    while i <= last
        invariant
            needle@.len() > 0,
            haystack@.len() <= usize::MAX,
            last == haystack@.len() - needle@.len(),
            0 <= i <= last + 1,
            forall|j: int| 0 <= j < i ==> !spec_match_at(haystack@, needle@, j),
        decreases last + 1 - i,
    {
        if match_at(haystack, needle, i) {
            return Some(i);
        }
        i = i + 1;
    }
    None
}

/// Length of the prefix of `s` that precedes the first zero byte; the whole
/// length when no byte is zero.
pub open spec fn spec_null_prefix_len(s: Seq<u8>) -> int
    decreases s.len(),
{
    if s.len() == 0 {
        0
    } else if s[0] == 0 {
        0
    } else {
        1 + spec_null_prefix_len(s.drop_first())
    }
}

/// The prefix of `s` before its first zero byte.
pub open spec fn spec_null_prefix(s: Seq<u8>) -> Seq<u8> {
    s.take(spec_null_prefix_len(s))
}

proof fn lemma_null_prefix_len_bounds(s: Seq<u8>)
    ensures
        0 <= spec_null_prefix_len(s) <= s.len(),
        forall|i: int| 0 <= i < spec_null_prefix_len(s) ==> s[i] != 0u8,
        spec_null_prefix_len(s) < s.len() ==> s[spec_null_prefix_len(s)] == 0u8,
    decreases s.len(),
{
    if s.len() > 0 && s[0] != 0 {
        lemma_null_prefix_len_bounds(s.drop_first());
        assert forall|i: int| 0 <= i < spec_null_prefix_len(s) implies s[i] != 0u8 by {
            if i > 0 {
                assert(s.drop_first()[i - 1] != 0u8);
            }
        }
    }
}

/// Relies on `std::str::from_utf8`: it succeeds exactly on the byte slices
/// that are valid UTF-8, and the resulting string views the same bytes.
#[verifier::external_body]
fn utf8_bytes_to_string(v: &[u8]) -> (r: Option<String>)
    ensures
        r is Some <==> valid_utf8(v@),
        r matches Some(s) ==> encode_utf8(s@) == v@,
{
    match std::str::from_utf8(v) {
        Ok(s) => Some(s.to_owned()),
        Err(_) => None,
    }
}

/// Decodes `bytes` up to the first zero byte (or the end of the buffer) as
/// UTF-8.  Total: an invalid encoding yields the empty string.
pub fn bytes_to_utf8_string(bytes: &[u8]) -> (r: String)
    ensures
        valid_utf8(spec_null_prefix(bytes@)) ==> r@ == decode_utf8(spec_null_prefix(bytes@)),
        !valid_utf8(spec_null_prefix(bytes@)) ==> r@ == Seq::<char>::empty(),
{
    proof {
        lemma_null_prefix_len_bounds(bytes@);
    }
    let n = bytes.len();
    let mut end: usize = 0;
    while end < n && bytes[end] != 0
        invariant
            n == bytes@.len(),
            0 <= end <= n,
            forall|i: int| 0 <= i < end ==> bytes@[i] != 0u8,
        decreases n - end,
    {
        end = end + 1;
    }
    proof {
        lemma_null_prefix_of_scan(bytes@, end as int);
    }
    let trimmed = vstd::slice::slice_subrange(bytes, 0, end);
    match utf8_bytes_to_string(trimmed) {
        Some(s) => {
            proof {
                vstd::utf8::encode_utf8_decode_utf8(s@);
            }
            s
        },
        None => String::new(),
    }
}

/// A scan that stopped at `end` (first zero byte or end of buffer) found
/// exactly the null-free prefix.
proof fn lemma_null_prefix_of_scan(s: Seq<u8>, end: int)
    requires
        0 <= end <= s.len(),
        forall|i: int| 0 <= i < end ==> s[i] != 0u8,
        end < s.len() ==> s[end] == 0u8,
    ensures
        spec_null_prefix_len(s) == end,
    decreases s.len(),
{
    lemma_null_prefix_len_bounds(s);
    if spec_null_prefix_len(s) < end {
        assert(s[spec_null_prefix_len(s)] != 0u8);
    }
    if spec_null_prefix_len(s) > end {
        assert(s[end] != 0u8);
    }
}

/// The two upper-case hexadecimal digits of one byte.
pub open spec fn spec_hex_byte(b: u8) -> Seq<char> {
    seq![spec_digit_char(b as int / 16), spec_digit_char(b as int % 16)]
}

/// The rendering of `s[i..]` as space-separated two-digit hexadecimal bytes.
pub open spec fn spec_hex_bytes_from(s: Seq<u8>, i: int) -> Seq<char>
    recommends
        0 <= i <= s.len(),
    decreases s.len() - i when 0 <= i <= s.len()
{
    if i >= s.len() {
        Seq::<char>::empty()
    } else if i + 1 == s.len() {
        spec_hex_byte(s[i])
    } else {
        spec_hex_byte(s[i]) + seq![' '] + spec_hex_bytes_from(s, i + 1)
    }
}

/// Renders a byte buffer as space-separated two-digit upper-case hexadecimal
/// values, e.g. `"DE AD BE EF"`.
pub fn bytes_to_hex_string(bytes: &[u8]) -> (r: String)
    ensures
        r@ == spec_hex_bytes_from(bytes@, 0),
{
    proof {
        reveal_strlit(" ");
    }
    let n = bytes.len();
    let mut i: usize = n;
    let mut r = String::new();
    while i > 0
        invariant
            n == bytes@.len(),
            0 <= i <= n,
            r@ == spec_hex_bytes_from(bytes@, i as int),
        decreases i,
    {
        proof {
            reveal_strlit(" ");
        }
        i = i - 1;
        let b = bytes[i];
        let hi = crate::text::u128_to_hex((b / 16) as u128);
        let lo = crate::text::u128_to_hex((b % 16) as u128);
        let mut piece = hi;
        piece.append(lo.as_str());
        if i + 1 < n {
            piece.append(" ");
        }
        piece.append(r.as_str());
        r = piece;
        proof {
            assert(r@ =~= spec_hex_bytes_from(bytes@, i as int));
        }
    }
    r
}

/// Renders an address as `0x` followed by its upper-case hexadecimal digits.
pub fn format_address(address: usize) -> (r: String)
    ensures
        r@ == seq!['0', 'x'] + spec_hex(address as int),
{
    proof {
        reveal_strlit("0x");
    }
    let mut r = String::new();
    r.append("0x");
    let digits = usize_to_hex(address);
    r.append(digits.as_str());
    r
}

/// The unit suffix used by [`format_size`] for a given power of 1024.
pub open spec fn spec_size_unit(k: int) -> Seq<char>
    recommends
        0 <= k <= 4,
{
    if k == 0 {
        seq!['B']
    } else if k == 1 {
        seq!['K', 'B']
    } else if k == 2 {
        seq!['M', 'B']
    } else if k == 3 {
        seq!['G', 'B']
    } else {
        seq!['T', 'B']
    }
}

/// The power of 1024 that [`format_size`] scales a byte count by: the largest
/// `k <= 4` with `1024^k <= size`.
pub open spec fn spec_size_scale(size: int) -> int {
    if size >= 0x10000000000 {
        4
    } else if size >= 0x40000000 {
        3
    } else if size >= 0x100000 {
        2
    } else if size >= 0x400 {
        1
    } else {
        0
    }
}

/// The rendering of a byte count by [`format_size`]: the raw count for sizes
/// under 1024, otherwise the count scaled by a power of 1024, rounded to two
/// decimal places.
pub open spec fn spec_format_size(size: int) -> Seq<char>
    recommends
        size >= 0,
{
    let k = spec_size_scale(size);
    if k == 0 {
        spec_dec(size) + seq![' '] + spec_size_unit(0)
    } else {
        let div: int = if k == 1 {
            0x400
        } else if k == 2 {
            0x100000
        } else if k == 3 {
            0x40000000
        } else {
            0x10000000000
        };
        let hundredths = (size * 100 + div / 2) / div;
        spec_dec(hundredths / 100) + seq!['.'] + spec_dec_pad(hundredths % 100, 2) + seq![' ']
            + spec_size_unit(k)
    }
}

/// Renders a byte count as a human-readable size with two decimal places,
/// e.g. `"1.50 KB"`; counts under 1024 render as plain bytes, e.g. `"512 B"`.
pub fn format_size(size: u64) -> (r: String)
    ensures
        r@ == spec_format_size(size as int),
{
    proof {
        reveal_strlit(" ");
        reveal_strlit(".");
        reveal_strlit("B");
        reveal_strlit("KB");
        reveal_strlit("MB");
        reveal_strlit("GB");
        reveal_strlit("TB");
    }
    let k: u32 = if size >= 0x10000000000 {
        4
    } else if size >= 0x40000000 {
        3
    } else if size >= 0x100000 {
        2
    } else if size >= 0x400 {
        1
    } else {
        0
    };
    if k == 0 {
        let mut r = u128_to_dec(size as u128);
        r.append(" ");
        r.append("B");
        return r;
    }
    let div: u64 = if k == 1 {
        0x400
    } else if k == 2 {
        0x100000
    } else if k == 3 {
        0x40000000
    } else {
        0x10000000000
    };
    let hundredths: u128 = ((size as u128) * 100 + (div as u128) / 2) / (div as u128);
    let whole = hundredths / 100;
    let frac = hundredths % 100;
    let mut r = u128_to_dec(whole);
    r.append(".");
    let frac_digits = u64_to_dec_pad2(frac as u64);
    r.append(frac_digits.as_str());
    r.append(" ");
    if k == 1 {
        r.append("KB");
    } else if k == 2 {
        r.append("MB");
    } else if k == 3 {
        r.append("GB");
    } else {
        r.append("TB");
    }
    r
}

} // verus!
