//! General helpers: byte-count formatting, command-line splitting,
//! identifier generation and string utilities.

use vstd::prelude::*;
use vstd::string::StrSliceExecFns;
use crate::common::types::PermissionStatus;
use crate::text::{spec_dec, spec_dec_pad, u128_to_dec, u64_to_dec_pad2, push_char};

verus! {

/// System-level helpers.
pub struct SystemUtils;

/// The unit suffix used by [`SystemUtils::format_bytes`] for a power of
/// 1024.
pub open spec fn spec_byte_unit(k: int) -> Seq<char>
    recommends
        0 <= k <= 5,
{
    if k == 0 {
        seq!['B']
    } else if k == 1 {
        seq!['K', 'B']
    } else if k == 2 {
        seq!['M', 'B']
    } else if k == 3 {
        seq!['G', 'B']
    } else if k == 4 {
        seq!['T', 'B']
    } else {
        seq!['P', 'B']
    }
}

/// The power of 1024 that [`SystemUtils::format_bytes`] scales by: the
/// largest `k <= 5` with `1024^k <= bytes`.
pub open spec fn spec_byte_scale(bytes: int) -> int {
    if bytes >= 0x4000000000000 {
        5
    } else if bytes >= 0x10000000000 {
        4
    } else if bytes >= 0x40000000 {
        3
    } else if bytes >= 0x100000 {
        2
    } else if bytes >= 0x400 {
        1
    } else {
        0
    }
}

/// The rendering of a byte count by [`SystemUtils::format_bytes`]: the raw
/// count under 1024, otherwise the count scaled by a power of 1024, rounded
/// to two decimal places.
pub open spec fn spec_format_bytes(bytes: int) -> Seq<char>
    recommends
        bytes >= 0,
{
    let k = spec_byte_scale(bytes);
    if k == 0 {
        spec_dec(bytes) + seq![' '] + spec_byte_unit(0)
    } else {
        let div: int = if k == 1 {
            0x400
        } else if k == 2 {
            0x100000
        } else if k == 3 {
            0x40000000
        } else if k == 4 {
            0x10000000000
        } else {
            0x4000000000000
        };
        let hundredths = (bytes * 100 + div / 2) / div;
        spec_dec(hundredths / 100) + seq!['.'] + spec_dec_pad(hundredths % 100, 2) + seq![' ']
            + spec_byte_unit(k)
    }
}

/// True for the ASCII whitespace characters this crate splits and trims on.
pub open spec fn spec_is_ws(c: char) -> bool {
    c == ' ' || c == '\t' || c == '\n' || c == '\r'
}

/// The first position at or after `i` holding a whitespace character, or the
/// end of the text.
pub open spec fn spec_word_end(s: Seq<char>, i: int) -> int
    recommends
        0 <= i <= s.len(),
    decreases s.len() - i when 0 <= i <= s.len()
{
    if i >= s.len() || spec_is_ws(s[i]) {
        i
    } else {
        spec_word_end(s, i + 1)
    }
}

/// The maximal whitespace-free words of `s` from position `i` on, in order.
pub open spec fn spec_words(s: Seq<char>, i: int) -> Seq<Seq<char>>
    recommends
        0 <= i <= s.len(),
    decreases s.len() - i when 0 <= i <= s.len()
{
    if i >= s.len() {
        Seq::<Seq<char>>::empty()
    } else if spec_is_ws(s[i]) {
        spec_words(s, i + 1)
    } else {
        let j0 = spec_word_end(s, i);
        let j = if i < j0 && j0 <= s.len() {
            j0
        } else {
            i + 1
        };
        seq![s.subrange(i, j)] + spec_words(s, j)
    }
}

/// From a non-whitespace character the word end lies strictly ahead, within
/// the text.
proof fn lemma_word_end_in_range(s: Seq<char>, i: int)
    requires
        0 <= i < s.len(),
        !spec_is_ws(s[i]),
    ensures
        i < spec_word_end(s, i) <= s.len(),
{
    assert(spec_word_end(s, i) == spec_word_end(s, i + 1));
    lemma_word_end_bounds(s, i + 1);
}

/// A word never ends before it starts and never past the text.
proof fn lemma_word_end_bounds(s: Seq<char>, i: int)
    requires
        0 <= i <= s.len(),
    ensures
        i <= spec_word_end(s, i) <= s.len(),
    decreases s.len() - i,
{
    if !(i >= s.len() || spec_is_ws(s[i])) {
        lemma_word_end_bounds(s, i + 1);
    }
}

/// True when `c` is an ASCII whitespace character.
fn is_ws_char(c: char) -> (r: bool)
    ensures
        r == spec_is_ws(c),
{
    c == ' ' || c == '\t' || c == '\n' || c == '\r'
}

impl SystemUtils {
    /// Renders a byte count as a human-readable size with two decimal
    /// places, e.g. `"1.50 KB"`; counts under 1024 render as plain bytes.
    pub fn format_bytes(bytes: u64) -> (r: String)
        ensures
            r@ == spec_format_bytes(bytes as int),
    {
        proof {
            reveal_strlit(" ");
            reveal_strlit(".");
            reveal_strlit("B");
            reveal_strlit("KB");
            reveal_strlit("MB");
            reveal_strlit("GB");
            reveal_strlit("TB");
            reveal_strlit("PB");
        }
        let k: u32 = if bytes >= 0x4000000000000 {
            5
        } else if bytes >= 0x10000000000 {
            4
        } else if bytes >= 0x40000000 {
            3
        } else if bytes >= 0x100000 {
            2
        } else if bytes >= 0x400 {
            1
        } else {
            0
        };
        if k == 0 {
            let mut r = u128_to_dec(bytes as u128);
            r.append(" ");
            r.append("B");
            return r;
        }
        let div: u64 = if k == 1 {
            0x400
        } else if k == 2 {
            0x100000
        } else if k == 3 {
            0x40000000
        } else if k == 4 {
            0x10000000000
        } else {
            0x4000000000000
        };
        let hundredths: u128 = ((bytes as u128) * 100 + (div as u128) / 2) / (div as u128);
        let whole = hundredths / 100;
        let frac = hundredths % 100;
        let mut r = u128_to_dec(whole);
        r.append(".");
        let frac_digits = u64_to_dec_pad2(frac as u64);
        r.append(frac_digits.as_str());
        r.append(" ");
        if k == 1 {
            r.append("KB");
        } else if k == 2 {
            r.append("MB");
        } else if k == 3 {
            r.append("GB");
        } else if k == 4 {
            r.append("TB");
        } else {
            r.append("PB");
        }
        r
    }

    /// Splits a command line at ASCII whitespace into the command and its
    /// arguments.  An empty or all-whitespace line gives an empty command
    /// and no arguments.
    pub fn parse_command_line(command_line: &str) -> (r: (String, Vec<String>))
        ensures
            ({
                let ws = spec_words(command_line@, 0);
                &&& (ws.len() == 0 ==> r.0@ == Seq::<char>::empty() && r.1@.len() == 0)
                &&& (ws.len() > 0 ==> {
                    &&& r.0@ == ws[0]
                    &&& r.1@.len() == ws.len() - 1
                    &&& forall|k: int| 0 <= k < r.1@.len() ==> #[trigger] r.1@[k]@ == ws[k + 1]
                })
            }),
    {
        let n = command_line.unicode_len();
        let mut words: Vec<String> = Vec::new();
        let mut i: usize = 0;
        while i < n
            invariant
                n == command_line@.len(),
                0 <= i <= n,
                spec_words(command_line@, 0) == words@.map_values(|w: String| w@) + spec_words(
                    command_line@,
                    i as int,
                ),
            decreases n - i,
        {
            let c = command_line.get_char(i);
            if is_ws_char(c) {
                i = i + 1;
            } else {
                let mut j: usize = i;
                while j < n && !is_ws_char(command_line.get_char(j))
                    invariant
                        n == command_line@.len(),
                        i <= j <= n,
                        spec_word_end(command_line@, i as int) == spec_word_end(
                            command_line@,
                            j as int,
                        ),
                    decreases n - j,
                {
                    j = j + 1;
                }
                proof {
                    assert(spec_word_end(command_line@, j as int) == j);
                    lemma_word_end_in_range(command_line@, i as int);
                    assert(spec_words(command_line@, i as int) == seq![
                        command_line@.subrange(i as int, j as int),
                    ] + spec_words(command_line@, j as int));
                }
                let word = command_line.substring_char(i, j).to_owned();
                let ghost old_words = words@;
                words.push(word);
                proof {
                    assert(words@.map_values(|w: String| w@) =~= old_words.map_values(
                        |w: String| w@,
                    ) + seq![command_line@.subrange(i as int, j as int)]);
                    assert(words@.map_values(|w: String| w@) + spec_words(command_line@, j as int)
                        =~= old_words.map_values(|w: String| w@) + spec_words(
                        command_line@,
                        i as int,
                    ));
                }
                i = j;
            }
        }
        proof {
            assert(spec_words(command_line@, n as int) =~= Seq::<Seq<char>>::empty());
            assert(spec_words(command_line@, 0) =~= words@.map_values(|w: String| w@));
        }
        if words.len() == 0 {
            (String::new(), words)
        } else {
            let command = words.remove(0);
            proof {
                assert(command@ == spec_words(command_line@, 0)[0]);
                assert forall|k: int| 0 <= k < words@.len() implies #[trigger] words@[k]@
                    == spec_words(command_line@, 0)[k + 1] by {
                }
            }
            (command, words)
        }
    }

    /// Builds an identifier of the form `prefix_N` where `N` is a clock
    /// reading in nanoseconds.
    pub fn generate_id(prefix: &str) -> (r: String)
        ensures
            exists|n: int| 0 <= n && r@ == prefix@ + seq!['_'] + spec_dec(n),
    {
        proof {
            reveal_strlit("_");
        }
        let nanos = crate::time::now_unix_nanos();
        let mut r = prefix.to_owned();
        r.append("_");
        let digits = u128_to_dec(nanos);
        r.append(digits.as_str());
        proof {
            let ghost w: int = nanos as int;
            assert(r@ =~= prefix@ + seq!['_'] + spec_dec(w));
        }
        r
    }

    /// Relies on `std::path::Path::exists`: whether the path names an entry
    /// on disk.
    #[verifier::external_body]
    pub fn path_exists(path: &str) -> bool {
        std::path::Path::new(path).exists()
    }

    /// Decides the permission status of an operation from whether it needs
    /// elevation and whether the caller already holds it.
    pub fn check_permission_status(requires_admin: bool, has_admin: bool) -> (r:
        PermissionStatus)
        ensures
            !requires_admin ==> r == PermissionStatus::HasPermission,
            requires_admin && has_admin ==> r == PermissionStatus::HasPermission,
            requires_admin && !has_admin ==> r == PermissionStatus::RequiresElevation,
    {
        if !requires_admin {
            return PermissionStatus::HasPermission;
        }
        if has_admin {
            PermissionStatus::HasPermission
        } else {
            PermissionStatus::RequiresElevation
        }
    }
}

/// String helpers.
pub struct StringUtils;

/// The first position at or after `i` holding a non-whitespace character, or
/// the end of the text.
pub open spec fn spec_trim_start(s: Seq<char>, i: int) -> int
    recommends
        0 <= i <= s.len(),
    decreases s.len() - i when 0 <= i <= s.len()
{
    if i >= s.len() || !spec_is_ws(s[i]) {
        i
    } else {
        spec_trim_start(s, i + 1)
    }
}

/// The position after the last non-whitespace character at or before
/// position `j - 1`, or zero.
pub open spec fn spec_trim_end(s: Seq<char>, j: int) -> int
    recommends
        0 <= j <= s.len(),
    decreases j,
{
    if j <= 0 || !spec_is_ws(s[j - 1]) {
        j
    } else {
        spec_trim_end(s, j - 1)
    }
}

/// What trimming ASCII whitespace from both ends of `s` leaves.
pub open spec fn spec_trimmed(s: Seq<char>) -> Seq<char> {
    let a = spec_trim_start(s, 0);
    let b = spec_trim_end(s, s.len() as int);
    if a < b {
        s.subrange(a, b)
    } else {
        Seq::<char>::empty()
    }
}

/// What a character becomes in a safe file name: ASCII letters, digits and
/// `-`, `_`, `.` stay, everything else becomes `_`.
pub open spec fn spec_safe_char(c: char) -> char {
    if ('a' <= c && c <= 'z') || ('A' <= c && c <= 'Z') || ('0' <= c && c <= '9') || c == '-' || c
        == '_' || c == '.' {
        c
    } else {
        '_'
    }
}

impl StringUtils {
    /// Shortens text to at most `max_len` characters, ending a shortened
    /// text with `...`.
    pub fn truncate(s: &str, max_len: usize) -> (r: String)
        ensures
            s@.len() <= max_len ==> r@ == s@,
            s@.len() > max_len ==> r@ == s@.subrange(
                0,
                if max_len >= 3 {
                    max_len - 3
                } else {
                    0
                },
            ) + "..."@,
    {
        let n = s.unicode_len();
        if n <= max_len {
            s.to_owned()
        } else {
            let cut: usize = if max_len >= 3 {
                max_len - 3
            } else {
                0
            };
            let mut r = s.substring_char(0, cut).to_owned();
            r.append("...");
            r
        }
    }

    /// Removes ASCII whitespace from both ends of the text.
    pub fn trim_whitespace(s: &str) -> (r: String)
        ensures
            r@ == spec_trimmed(s@),
    {
        let n = s.unicode_len();
        let mut a: usize = 0;
        while a < n && is_ws_char(s.get_char(a))
            invariant
                n == s@.len(),
                0 <= a <= n,
                spec_trim_start(s@, 0) == spec_trim_start(s@, a as int),
            decreases n - a,
        {
            a = a + 1;
        }
        proof {
            assert(spec_trim_start(s@, a as int) == a);
        }
        let mut b: usize = n;
        while b > a && is_ws_char(s.get_char(b - 1))
            invariant
                n == s@.len(),
                a <= b <= n,
                a == spec_trim_start(s@, 0),
                spec_trim_end(s@, n as int) == spec_trim_end(s@, b as int),
            decreases b,
        {
            b = b - 1;
        }
        proof {
            if b > a {
                assert(spec_trim_end(s@, b as int) == b);
            } else {
                assert(b == a);
                if a < n && a > 0 {
                    assert(spec_is_ws(s@[a as int - 1]) == false || true);
                }
            }
        }
        if a < b {
            proof {
                assert(spec_trim_end(s@, b as int) == b);
            }
            s.substring_char(a, b).to_owned()
        } else {
            proof {
                lemma_trim_end_le(s@, b as int);
            }
            String::new()
        }
    }

    /// Replaces every character that is not an ASCII letter, digit, `-`,
    /// `_` or `.` with `_`.
    pub fn to_safe_filename(s: &str) -> (r: String)
        ensures
            r@ == s@.map_values(|c: char| spec_safe_char(c)),
    {
        let n = s.unicode_len();
        let mut r = String::new();
        let mut i: usize = 0;
        while i < n
            invariant
                n == s@.len(),
                0 <= i <= n,
                r@ == s@.take(i as int).map_values(|c: char| spec_safe_char(c)),
            decreases n - i,
        {
            let c = s.get_char(i);
            let mapped: char = if ('a' <= c && c <= 'z') || ('A' <= c && c <= 'Z') || ('0' <= c
                && c <= '9') || c == '-' || c == '_' || c == '.' {
                c
            } else {
                '_'
            };
            push_char(&mut r, mapped);
            i = i + 1;
            proof {
                assert(r@ =~= s@.take(i as int).map_values(|c: char| spec_safe_char(c)));
            }
        }
        proof {
            assert(s@.take(n as int) =~= s@);
        }
        r
    }
}

/// A trim end point never goes below zero.
proof fn lemma_trim_end_le(s: Seq<char>, j: int)
    requires
        0 <= j <= s.len(),
    ensures
        0 <= spec_trim_end(s, j) <= j,
    decreases j,
{
    if !(j <= 0 || !spec_is_ws(s[j - 1])) {
        lemma_trim_end_le(s, j - 1);
    }
}

} // verus!
