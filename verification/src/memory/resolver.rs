//! The process resolver: maps a process name to a numeric identifier within
//! one enumeration snapshot.
//!
//! Ties — several live processes with the same name — are broken by
//! enumeration order: the first match wins.  That choice looks arbitrary
//! but is deterministic within a snapshot, and the contract pins it down.

use vstd::prelude::*;
use crate::common::error::SystemError;

verus! {

/// One process of an enumeration snapshot: its identifier and its
/// executable name.
pub struct ProcessEntry {
    pub pid: u32,
    pub name: String,
}

/// The position of the first entry whose name equals `name` exactly,
/// searching from `i`.
pub open spec fn spec_first_match(entries: Seq<ProcessEntry>, name: Seq<char>, i: int) -> Option<
    int,
>
    decreases entries.len() - i when 0 <= i <= entries.len()
{
    if i >= entries.len() {
        None
    } else if entries[i].name@ == name {
        Some(i)
    } else {
        spec_first_match(entries, name, i + 1)
    }
}

/// The identifier a snapshot resolves a name to: the first entry with that
/// exact name, if any.
pub open spec fn spec_resolution(entries: Seq<ProcessEntry>, name: Seq<char>) -> Option<u32> {
    match spec_first_match(entries, name, 0) {
        None => None,
        Some(i) => Some(entries[i].pid),
    }
}

/// Resolves a process name within one enumeration snapshot: the identifier
/// of the first entry whose executable name matches exactly
/// (case-sensitive).  Fails with `NotFound` when no entry matches.
pub fn find_pid_in_snapshot(entries: &Vec<ProcessEntry>, process_name: &str) -> (r: Result<
    u32,
    SystemError,
>)
    ensures
        match r {
            Ok(pid) => spec_resolution(entries@, process_name@) == Some(pid),
            Err(e) => e is NotFound && spec_resolution(entries@, process_name@) is None,
        },
{
    proof {
        reveal_strlit("no process of that name is live");
    }
    let wanted = process_name.to_owned();
    let n = entries.len();
    let mut i: usize = 0;
    while i < n
        invariant
            n == entries@.len(),
            0 <= i <= n,
            wanted@ == process_name@,
            spec_first_match(entries@, process_name@, 0) == spec_first_match(
                entries@,
                process_name@,
                i as int,
            ),
        decreases n - i,
    {
        if entries[i].name == wanted {
            return Ok(entries[i].pid);
        }
        i = i + 1;
    }
    Err(SystemError::NotFound(String::from_str("no process of that name is live")))
}

/// The first line of a text: its characters up to the first newline, or all
/// of them.
pub open spec fn spec_first_line(s: Seq<char>) -> Seq<char>
    decreases s.len(),
{
    if s.len() == 0 {
        s
    } else if s[0] == '\n' {
        Seq::<char>::empty()
    } else {
        seq![s[0]] + spec_first_line(s.drop_first())
    }
}

/// The numeric value of a non-empty run of decimal digits, or nothing when
/// the text is empty, holds a non-digit, or exceeds `u32`.
pub open spec fn spec_parse_u32(s: Seq<char>) -> Option<u32>
    decreases s.len(),
{
    if s.len() == 0 {
        None
    } else if !('0' <= s.last() && s.last() <= '9') {
        None
    } else if s.len() == 1 {
        Some((s.last() as int - 48) as u32)
    } else {
        match spec_parse_u32(s.drop_last()) {
            None => None,
            Some(high) => if high * 10 + (s.last() as int - 48) <= u32::MAX {
                Some((high * 10 + (s.last() as int - 48)) as u32)
            } else {
                None
            },
        }
    }
}

/// Parses the first line of an enumeration's raw output as a process
/// identifier: the leading run of the text up to the first newline, read as
/// a decimal `u32`.  Nothing when that line is empty, holds a non-digit, or
/// exceeds `u32`.
pub fn parse_first_pid(output: &str) -> (r: Option<u32>)
    ensures
        r == spec_parse_u32(spec_first_line(output@)),
{
    let n = output.unicode_len();
    let mut end: usize = 0;
    while end < n && output.get_char(end) != '\n'
        invariant
            n == output@.len(),
            0 <= end <= n,
            forall|j: int| 0 <= j < end ==> output@[j] != '\n',
        decreases n - end,
    {
        end = end + 1;
    }
    proof {
        lemma_first_line_scan(output@, end as int);
    }
    let mut value: u32 = 0;
    let mut i: usize = 0;
    if end == 0 {
        return None;
    }
    while i < end
        invariant
            n == output@.len(),
            0 < end <= n,
            0 <= i <= end,
            i > 0 ==> spec_parse_u32(spec_first_line(output@).take(i as int)) == Some(value),
            i == 0 ==> value == 0,
            spec_first_line(output@) == output@.take(end as int),
        decreases end - i,
    {
        let c = output.get_char(i);
        if c < '0' || c > '9' {
            proof {
                lemma_parse_u32_bad_digit(spec_first_line(output@), i as int);
            }
            return None;
        }
        let d: u32 = (c as u32) - 48;
        if i > 0 {
            if value > 429496729 || (value == 429496729 && d > 5) {
                proof {
                    lemma_parse_u32_overflow(spec_first_line(output@), i as int, value, d);
                }
                return None;
            }
            value = value * 10 + d;
        } else {
            value = d;
        }
        i = i + 1;
        proof {
            assert(spec_first_line(output@).take(i as int).drop_last() =~= spec_first_line(
                output@,
            ).take(i as int - 1));
        }
    }
    proof {
        assert(spec_first_line(output@).take(end as int) =~= spec_first_line(output@));
    }
    Some(value)
}

/// A scan that stopped at `end` (first newline or end of text) found
/// exactly the first line.
proof fn lemma_first_line_scan(s: Seq<char>, end: int)
    requires
        0 <= end <= s.len(),
        forall|j: int| 0 <= j < end ==> s[j] != '\n',
        end < s.len() ==> s[end] == '\n',
    ensures
        spec_first_line(s) == s.take(end),
    decreases s.len(),
{
    if s.len() == 0 || s[0] == '\n' {
        assert(spec_first_line(s) =~= s.take(end));
    } else {
        assert forall|j: int| 0 <= j < end - 1 implies s.drop_first()[j] != '\n' by {
            assert(s[j + 1] != '\n');
        }
        lemma_first_line_scan(s.drop_first(), end - 1);
        assert(spec_first_line(s) =~= s.take(end)) by {
            assert(s.drop_first().take(end - 1) =~= s.take(end).drop_first());
        }
    }
}

/// A non-digit anywhere in the text makes the parse fail.
proof fn lemma_parse_u32_bad_digit(s: Seq<char>, i: int)
    requires
        0 <= i < s.len(),
        !('0' <= s[i] && s[i] <= '9'),
    ensures
        spec_parse_u32(s) is None,
    decreases s.len(),
{
    if s.len() > 0 && i < s.len() - 1 {
        lemma_parse_u32_bad_digit(s.drop_last(), i);
    }
}

/// Once a prefix's value would exceed `u32` with the next digit, the whole
/// parse fails.
proof fn lemma_parse_u32_overflow(s: Seq<char>, i: int, value: u32, d: u32)
    requires
        0 < i < s.len(),
        spec_parse_u32(s.take(i)) == Some(value),
        '0' <= s[i] && s[i] <= '9',
        d == s[i] as int - 48,
        value * 10 + d > u32::MAX,
    ensures
        spec_parse_u32(s) is None,
    decreases s.len() - i,
{
    assert(s.take(i + 1).drop_last() =~= s.take(i));
    assert(s.take(i + 1).last() == s[i]);
    assert(spec_parse_u32(s.take(i + 1)) is None);
    lemma_parse_u32_none_prefix(s, i + 1);
}

/// A failing prefix makes the whole parse fail.
proof fn lemma_parse_u32_none_prefix(s: Seq<char>, k: int)
    requires
        0 < k <= s.len(),
        spec_parse_u32(s.take(k)) is None,
    ensures
        spec_parse_u32(s) is None,
    decreases s.len() - k,
{
    if k == s.len() {
        assert(s.take(k) =~= s);
    } else {
        assert(s.take(k + 1).drop_last() =~= s.take(k));
        assert(spec_parse_u32(s.take(k + 1)) is None);
        lemma_parse_u32_none_prefix(s, k + 1);
    }
}

/// Within one snapshot, resolution is deterministic: whatever two calls on
/// the same snapshot and name return, they return the same identifier —
/// both equal the snapshot's resolution.
pub proof fn lemma_resolution_deterministic(
    entries: Seq<ProcessEntry>,
    name: Seq<char>,
    pid1: u32,
    pid2: u32,
)
    requires
        spec_resolution(entries, name) == Some(pid1),
        spec_resolution(entries, name) == Some(pid2),
    ensures
        pid1 == pid2,
{
}

/// The resolved entry really is the first match: every earlier entry's name
/// differs.
pub proof fn lemma_resolution_is_first_match(entries: Seq<ProcessEntry>, name: Seq<char>, i: int)
    requires
        spec_first_match(entries, name, 0) == Some(i),
    ensures
        0 <= i < entries.len(),
        entries[i].name@ == name,
        forall|j: int| 0 <= j < i ==> (#[trigger] entries[j].name@) != name,
{
    lemma_first_match_from(entries, name, 0, i);
}

proof fn lemma_first_match_from(entries: Seq<ProcessEntry>, name: Seq<char>, k: int, i: int)
    requires
        0 <= k <= entries.len(),
        spec_first_match(entries, name, k) == Some(i),
    ensures
        k <= i < entries.len(),
        entries[i].name@ == name,
        forall|j: int| k <= j < i ==> (#[trigger] entries[j].name@) != name,
    decreases entries.len() - k,
{
    if k < entries.len() && entries[k].name@ != name {
        lemma_first_match_from(entries, name, k + 1, i);
    }
}

} // verus!
