//! The logging collaborator: levels, filtering, record formatting and
//! writers.
//!
//! Everything that computes — level arithmetic, filtering decisions,
//! ANSI-code stripping, record formatting — is verified; the console writer
//! hands finished lines to the terminal through a thin trusted wrapper.

use vstd::prelude::*;
use vstd::string::StrSliceExecFns;
use std::io::Write;
use crate::text::{spec_ascii_upper, ascii_uppercase, u64_to_dec, push_char, replace_all,
    spec_replace, str_eq};
use crate::time::TimeFormat;

verus! {

/// The built-in severity levels, in ascending order of priority.
#[derive(Debug, Clone, Copy, PartialEq, Eq, Structural, Hash)]
pub enum PredefinedLevel {
    Trace,
    Debug,
    Info,
    Notice,
    Warn,
    Error,
    Fatal,
    /// Always logged, rendered as the bare message.
    Record,
}

/// A severity level: one of the built-in levels, or a custom level with its
/// own name, priority and color.
#[derive(Debug, Clone, PartialEq, Eq, Hash)]
pub enum Level {
    Predefined(PredefinedLevel),
    Custom { name: String, priority: u8, color: String },
}

/// The numeric priority of a level; higher is more severe.
pub open spec fn spec_level_priority(l: Level) -> u8 {
    match l {
        Level::Predefined(p) => match p {
            PredefinedLevel::Trace => 5u8,
            PredefinedLevel::Debug => 10u8,
            PredefinedLevel::Info => 20u8,
            PredefinedLevel::Notice => 30u8,
            PredefinedLevel::Warn => 40u8,
            PredefinedLevel::Error => 50u8,
            PredefinedLevel::Fatal => 65u8,
            PredefinedLevel::Record => 255u8,
        },
        Level::Custom { priority, .. } => priority,
    }
}

/// The display name of a level; a custom level's name is shown in upper
/// case (ASCII letters).
pub open spec fn spec_level_name(l: Level) -> Seq<char> {
    match l {
        Level::Predefined(p) => match p {
            PredefinedLevel::Trace => "TRACE"@,
            PredefinedLevel::Debug => "DEBUG"@,
            PredefinedLevel::Info => "INFO"@,
            PredefinedLevel::Notice => "NOTICE"@,
            PredefinedLevel::Warn => "WARN"@,
            PredefinedLevel::Error => "ERROR"@,
            PredefinedLevel::Fatal => "FATAL"@,
            PredefinedLevel::Record => "RECORD"@,
        },
        Level::Custom { name, .. } => spec_ascii_upper(name@),
    }
}

/// The ANSI color prefix of a level.
pub open spec fn spec_level_color(l: Level) -> Seq<char> {
    match l {
        Level::Predefined(p) => match p {
            PredefinedLevel::Trace => "\u{1b}[90m"@,
            PredefinedLevel::Debug => "\u{1b}[36m"@,
            PredefinedLevel::Notice => "\u{1b}[34m"@,
            PredefinedLevel::Info => "\u{1b}[32m"@,
            PredefinedLevel::Warn => "\u{1b}[33m"@,
            PredefinedLevel::Error => "\u{1b}[31m"@,
            PredefinedLevel::Fatal => "\u{1b}[91;1m"@,
            PredefinedLevel::Record => Seq::<char>::empty(),
        },
        Level::Custom { color, .. } => color@,
    }
}

/// True for the record level, which is always logged.
pub open spec fn spec_is_record(l: Level) -> bool {
    l == Level::Predefined(PredefinedLevel::Record)
}

impl Level {
    /// A custom level from a name, a priority and a color prefix.
    pub fn custom(name: &str, priority: u8, color: &str) -> (r: Level)
        ensures
            r matches Level::Custom { name: n, priority: p, color: c } && n@ == name@ && p
                == priority && c@ == color@,
    {
        Level::Custom { name: name.to_owned(), priority, color: color.to_owned() }
    }

    /// The display name of the level.
    pub fn as_str(&self) -> (r: String)
        ensures
            r@ == spec_level_name(*self),
    {
        match self {
            Level::Predefined(p) => match p {
                PredefinedLevel::Trace => String::from_str("TRACE"),
                PredefinedLevel::Debug => String::from_str("DEBUG"),
                PredefinedLevel::Info => String::from_str("INFO"),
                PredefinedLevel::Notice => String::from_str("NOTICE"),
                PredefinedLevel::Warn => String::from_str("WARN"),
                PredefinedLevel::Error => String::from_str("ERROR"),
                PredefinedLevel::Fatal => String::from_str("FATAL"),
                PredefinedLevel::Record => String::from_str("RECORD"),
            },
            Level::Custom { name, .. } => ascii_uppercase(name.as_str()),
        }
    }

    /// The numeric priority of the level; higher is more severe.
    pub fn priority(&self) -> (r: u8)
        ensures
            r == spec_level_priority(*self),
    {
        match self {
            Level::Predefined(p) => match p {
                PredefinedLevel::Trace => 5,
                PredefinedLevel::Debug => 10,
                PredefinedLevel::Info => 20,
                PredefinedLevel::Notice => 30,
                PredefinedLevel::Warn => 40,
                PredefinedLevel::Error => 50,
                PredefinedLevel::Fatal => 65,
                PredefinedLevel::Record => 255,
            },
            Level::Custom { priority, .. } => *priority,
        }
    }

    /// The ANSI color prefix of the level.
    pub fn color_code(&self) -> (r: String)
        ensures
            r@ == spec_level_color(*self),
    {
        match self {
            Level::Predefined(p) => match p {
                PredefinedLevel::Trace => String::from_str("\u{1b}[90m"),
                PredefinedLevel::Debug => String::from_str("\u{1b}[36m"),
                PredefinedLevel::Notice => String::from_str("\u{1b}[34m"),
                PredefinedLevel::Info => String::from_str("\u{1b}[32m"),
                PredefinedLevel::Warn => String::from_str("\u{1b}[33m"),
                PredefinedLevel::Error => String::from_str("\u{1b}[31m"),
                PredefinedLevel::Fatal => String::from_str("\u{1b}[91;1m"),
                PredefinedLevel::Record => String::new(),
            },
            Level::Custom { color, .. } => color.clone(),
        }
    }

    /// An exact copy of the level.
    pub fn duplicate(&self) -> (r: Level)
        ensures
            r == *self,
    {
        match self {
            Level::Predefined(p) => Level::Predefined(*p),
            Level::Custom { name, priority, color } => Level::Custom {
                name: name.clone(),
                priority: *priority,
                color: color.clone(),
            },
        }
    }

    /// The record level.
    pub fn record() -> (r: Level)
        ensures
            r == Level::Predefined(PredefinedLevel::Record),
    {
        Level::Predefined(PredefinedLevel::Record)
    }

    /// The trace level.
    pub fn trace() -> (r: Level)
        ensures
            r == Level::Predefined(PredefinedLevel::Trace),
    {
        Level::Predefined(PredefinedLevel::Trace)
    }

    /// The debug level.
    pub fn debug() -> (r: Level)
        ensures
            r == Level::Predefined(PredefinedLevel::Debug),
    {
        Level::Predefined(PredefinedLevel::Debug)
    }

    /// The notice level.
    pub fn notice() -> (r: Level)
        ensures
            r == Level::Predefined(PredefinedLevel::Notice),
    {
        Level::Predefined(PredefinedLevel::Notice)
    }

    /// The info level.
    pub fn info() -> (r: Level)
        ensures
            r == Level::Predefined(PredefinedLevel::Info),
    {
        Level::Predefined(PredefinedLevel::Info)
    }

    /// The warn level.
    pub fn warn() -> (r: Level)
        ensures
            r == Level::Predefined(PredefinedLevel::Warn),
    {
        Level::Predefined(PredefinedLevel::Warn)
    }

    /// The error level.
    pub fn error() -> (r: Level)
        ensures
            r == Level::Predefined(PredefinedLevel::Error),
    {
        Level::Predefined(PredefinedLevel::Error)
    }

    /// The fatal level.
    pub fn fatal() -> (r: Level)
        ensures
            r == Level::Predefined(PredefinedLevel::Fatal),
    {
        Level::Predefined(PredefinedLevel::Fatal)
    }

    /// Parses a level name: a predefined name (any ASCII case) gives its
    /// level; anything else gives a custom level of that (upper-cased) name
    /// with default priority 30 and no color.
    pub fn parse_level(s: &str) -> (r: Level)
        ensures
            ({
                let up = spec_ascii_upper(s@);
                if spec_is_predefined_name(up) {
                    r is Predefined && spec_level_name(r) == up
                } else {
                    r matches Level::Custom { name, priority, color } && name@ == up && priority
                        == 30 && color@ == Seq::<char>::empty()
                }
            }),
    {
        let up = ascii_uppercase(s);
        if str_eq(up.as_str(), "TRACE") {
            Level::Predefined(PredefinedLevel::Trace)
        } else if str_eq(up.as_str(), "DEBUG") {
            Level::Predefined(PredefinedLevel::Debug)
        } else if str_eq(up.as_str(), "NOTICE") {
            Level::Predefined(PredefinedLevel::Notice)
        } else if str_eq(up.as_str(), "INFO") {
            Level::Predefined(PredefinedLevel::Info)
        } else if str_eq(up.as_str(), "WARN") {
            Level::Predefined(PredefinedLevel::Warn)
        } else if str_eq(up.as_str(), "ERROR") {
            Level::Predefined(PredefinedLevel::Error)
        } else if str_eq(up.as_str(), "FATAL") {
            Level::Predefined(PredefinedLevel::Fatal)
        } else if str_eq(up.as_str(), "RECORD") {
            Level::Predefined(PredefinedLevel::Record)
        } else {
            proof {
                assert(spec_ascii_upper(up@) =~= up@) by {
                    lemma_upper_idempotent(s@);
                }
            }
            Level::Custom { name: up, priority: 30, color: String::new() }
        }
    }
}

impl std::str::FromStr for Level {
    type Err = ();

    /// Parses a level name, as [`Level::parse_level`] does; never fails.
    fn from_str(s: &str) -> Result<Level, ()> {
        Ok(Level::parse_level(s))
    }
}

/// Upper-casing ASCII letters twice is the same as doing it once.
proof fn lemma_upper_idempotent(s: Seq<char>)
    ensures
        spec_ascii_upper(spec_ascii_upper(s)) =~= spec_ascii_upper(s),
{
}

/// True for the display names of the predefined levels.
pub open spec fn spec_is_predefined_name(n: Seq<char>) -> bool {
    ||| n == "TRACE"@
    ||| n == "DEBUG"@
    ||| n == "NOTICE"@
    ||| n == "INFO"@
    ||| n == "WARN"@
    ||| n == "ERROR"@
    ||| n == "FATAL"@
    ||| n == "RECORD"@
}

/// Decides whether an upper-cased name is one of the predefined level
/// names.
fn is_predefined_name(up: &String) -> (r: bool)
    ensures
        r == spec_is_predefined_name(up@),
{
    str_eq(up.as_str(), "TRACE") || str_eq(up.as_str(), "DEBUG") || str_eq(up.as_str(), "NOTICE")
        || str_eq(up.as_str(), "INFO") || str_eq(up.as_str(), "WARN") || str_eq(
        up.as_str(),
        "ERROR",
    ) || str_eq(up.as_str(), "FATAL") || str_eq(up.as_str(), "RECORD")
}

/// True when some name of the list reads `n`.
pub open spec fn spec_name_in(list: Seq<String>, n: Seq<char>) -> bool {
    exists|i: int| 0 <= i < list.len() && (#[trigger] list[i])@ == n
}

/// The list with every name reading `n` filtered out.
pub open spec fn spec_names_without(list: Seq<String>, n: Seq<char>) -> Seq<String>
    decreases list.len(),
{
    if list.len() == 0 {
        list
    } else if list[0]@ == n {
        spec_names_without(list.drop_first(), n)
    } else {
        seq![list[0]] + spec_names_without(list.drop_first(), n)
    }
}

/// Membership after filtering: a name is in the filtered list exactly when
/// it is in the original and is not the filtered-out name.
proof fn lemma_names_without_membership(list: Seq<String>, n: Seq<char>, x: Seq<char>)
    ensures
        spec_name_in(spec_names_without(list, n), x) == (spec_name_in(list, x) && x != n),
    decreases list.len(),
{
    if list.len() > 0 {
        lemma_names_without_membership(list.drop_first(), n, x);
        let rest = spec_names_without(list.drop_first(), n);
        if list[0]@ == n {
            assert(spec_name_in(list, x) && x != n ==> spec_name_in(list.drop_first(), x)) by {
                if spec_name_in(list, x) && x != n {
                    let i = choose|i: int| 0 <= i < list.len() && (#[trigger] list[i])@ == x;
                    assert(i != 0);
                    assert(list.drop_first()[i - 1]@ == x);
                }
            }
            assert(spec_name_in(list.drop_first(), x) ==> spec_name_in(list, x)) by {
                if spec_name_in(list.drop_first(), x) {
                    let i = choose|i: int|
                        0 <= i < list.drop_first().len() && (#[trigger] list.drop_first()[i])@
                            == x;
                    assert(list[i + 1]@ == x);
                }
            }
        } else {
            let out = seq![list[0]] + rest;
            assert(spec_name_in(out, x) == (x == list[0]@ || spec_name_in(rest, x))) by {
                if spec_name_in(out, x) {
                    let i = choose|i: int| 0 <= i < out.len() && (#[trigger] out[i])@ == x;
                    if i > 0 {
                        assert(rest[i - 1]@ == x);
                    }
                }
                if x == list[0]@ {
                    assert(out[0]@ == x);
                }
                if spec_name_in(rest, x) {
                    let i = choose|i: int| 0 <= i < rest.len() && (#[trigger] rest[i])@ == x;
                    assert(out[i + 1]@ == x);
                }
            }
            assert(spec_name_in(list, x) == (x == list[0]@ || spec_name_in(
                list.drop_first(),
                x,
            ))) by {
                if spec_name_in(list, x) {
                    let i = choose|i: int| 0 <= i < list.len() && (#[trigger] list[i])@ == x;
                    if i > 0 {
                        assert(list.drop_first()[i - 1]@ == x);
                    }
                }
                if spec_name_in(list.drop_first(), x) {
                    let i = choose|i: int|
                        0 <= i < list.drop_first().len() && (#[trigger] list.drop_first()[i])@
                            == x;
                    assert(list[i + 1]@ == x);
                }
            }
        }
    }
}

/// Rebuilds the list without any entry reading `n`.
fn remove_name(list: &mut Vec<String>, n: &String)
    ensures
        final(list)@ == spec_names_without(old(list)@, n@),
        forall|x: Seq<char>|
            #[trigger] spec_name_in(final(list)@, x) == (spec_name_in(old(list)@, x) && x != n@),
{
    let ghost orig = list@;
    let mut out: Vec<String> = Vec::new();
    let mut i: usize = 0;
    let len = list.len();
    proof {
        assert(orig.skip(0) =~= orig);
        assert(Seq::<String>::empty() + spec_names_without(orig, n@) =~= spec_names_without(
            orig,
            n@,
        ));
    }
    while i < len
        invariant
            len == orig.len(),
            orig == list@,
            0 <= i <= len,
            out@ + spec_names_without(orig.skip(i as int), n@) == spec_names_without(orig, n@),
        decreases len - i,
    {
        proof {
            assert(orig.skip(i as int)[0] == orig[i as int]);
            assert(orig.skip(i as int).drop_first() =~= orig.skip(i + 1));
        }
        if !str_eq(list[i].as_str(), n.as_str()) {
            let ghost before = out@;
            out.push(list[i].clone());
            proof {
                assert(out@ =~= before.push(orig[i as int]));
                assert(before.push(orig[i as int]) + spec_names_without(orig.skip(i + 1), n@)
                    =~= before + (seq![orig[i as int]] + spec_names_without(
                    orig.skip(i + 1),
                    n@,
                )));
            }
        }
        i = i + 1;
    }
    proof {
        assert(orig.skip(len as int) =~= Seq::<String>::empty());
        assert(out@ + spec_names_without(orig.skip(len as int), n@) =~= out@);
        assert(out@ =~= spec_names_without(orig, n@));
    }
    *list = out;
    proof {
        assert forall|x: Seq<char>|
            #[trigger] spec_name_in(list@, x) == (spec_name_in(orig, x) && x != n@) by {
            lemma_names_without_membership(orig, n@, x);
        }
    }
}

/// Decides whether some name of the list reads like `n`.
fn contains_name(list: &Vec<String>, n: &String) -> (r: bool)
    ensures
        r == spec_name_in(list@, n@),
{
    let len = list.len();
    let mut i: usize = 0;
    while i < len
        invariant
            len == list@.len(),
            0 <= i <= len,
            forall|j: int| 0 <= j < i ==> (#[trigger] list@[j])@ != n@,
        decreases len - i,
    {
        if str_eq(list[i].as_str(), n.as_str()) {
            proof {
                assert((list@[i as int])@ == n@);
            }
            return true;
        }
        i = i + 1;
    }
    false
}

/// True when `l` is the custom level with the given name, priority and
/// color.
pub open spec fn spec_is_custom_level(l: Level, n: Seq<char>, p: u8, c: Seq<char>) -> bool {
    l matches Level::Custom { name, priority, color } && name@ == n && priority == p && color@
        == c
}

/// The registry of custom levels, keyed by upper-cased name.
pub struct LevelRegistry {
    entries: Vec<(String, Level)>,
}

/// The level registered under `name`, if one is: the first entry with that
/// key.
pub open spec fn spec_registry_lookup(entries: Seq<(String, Level)>, name: Seq<char>) -> Option<
    Level,
>
    decreases entries.len(),
{
    if entries.len() == 0 {
        None
    } else if entries[0].0@ == name {
        Some(entries[0].1)
    } else {
        spec_registry_lookup(entries.drop_first(), name)
    }
}

impl LevelRegistry {
    /// The registered entries.
    pub closed spec fn spec_entries(&self) -> Seq<(String, Level)> {
        self.entries@
    }

    /// The level registered under an (upper-cased) name.
    pub open spec fn spec_lookup(&self, name: Seq<char>) -> Option<Level> {
        spec_registry_lookup(self.spec_entries(), name)
    }

    /// An empty registry.
    pub fn new() -> (r: LevelRegistry)
        ensures
            r.spec_entries().len() == 0,
    {
        LevelRegistry { entries: Vec::new() }
    }
}

/// Registers a custom level under its upper-cased name.  Registering a name
/// of a predefined level is refused; registering an existing name replaces
/// it.
pub fn register_level(registry: &mut LevelRegistry, name: &str, priority: u8, color: &str) -> (r:
    Result<(), String>)
    ensures
        ({
            let up = spec_ascii_upper(name@);
            &&& spec_is_predefined_name(up) ==> (r is Err && final(registry).spec_entries()
                == old(registry).spec_entries())
            &&& !spec_is_predefined_name(up) ==> {
                &&& r is Ok
                &&& final(registry).spec_lookup(up) matches Some(l) && spec_is_custom_level(
                    l,
                    up,
                    priority,
                    color@,
                )
            }
        }),
{
    proof {
        reveal_strlit("Cannot register level '");
        reveal_strlit("': conflicts with predefined level");
    }
    let up = ascii_uppercase(name);
    if is_predefined_name(&up) {
        let mut msg = String::from_str("Cannot register level '");
        msg.append(up.as_str());
        msg.append("': conflicts with predefined level");
        return Err(msg);
    }
    let level = Level::Custom { name: up.clone(), priority, color: color.to_owned() };
    let ghost orig = registry.entries@;
    let mut i: usize = 0;
    let len = registry.entries.len();
    while i < len
        invariant
            len == registry.entries@.len(),
            registry.entries@ == orig,
            0 <= i <= len,
            up@ == spec_ascii_upper(name@),
            !spec_is_predefined_name(up@),
            spec_is_custom_level(level, up@, priority, color@),
            forall|j: int| 0 <= j < i ==> (#[trigger] orig[j]).0@ != up@,
        decreases len - i,
    {
        if str_eq(registry.entries[i].0.as_str(), up.as_str()) {
            registry.entries[i] = (up.clone(), level);
            proof {
                assert forall|j: int|
                    0 <= j < i implies (#[trigger] registry.entries@[j]).0@ != up@ by {
                    assert(registry.entries@[j] == orig[j]);
                }
                assert(registry.entries@[i as int].0@ == up@);
                lemma_registry_lookup_found(registry.entries@, up@, i as int);
            }
            return Ok(());
        }
        i = i + 1;
    }
    registry.entries.push((up.clone(), level));
    proof {
        lemma_registry_lookup_found(registry.entries@, up@, len as int);
    }
    Ok(())
}

/// Looking a key up lands on its first entry; entries before `i` with other
/// keys do not matter.
proof fn lemma_registry_lookup_found(entries: Seq<(String, Level)>, name: Seq<char>, i: int)
    requires
        0 <= i < entries.len(),
        entries[i].0@ == name,
        forall|j: int| 0 <= j < i ==> (#[trigger] entries[j]).0@ != name,
    ensures
        spec_registry_lookup(entries, name) == Some(entries[i].1),
    decreases i,
{
    if i > 0 {
        assert(entries.drop_first()[i - 1] == entries[i]);
        assert forall|j: int| 0 <= j < i - 1 implies (#[trigger] entries.drop_first()[j]).0@
            != name by {
            assert(entries[j + 1].0@ != name);
        }
        lemma_registry_lookup_found(entries.drop_first(), name, i - 1);
    }
}

/// Unregisters a custom level by its (upper-cased) name.  A predefined name
/// or an unknown name is refused.
pub fn unregister_level(registry: &mut LevelRegistry, name: &str) -> (r: Result<(), String>)
    ensures
        ({
            let up = spec_ascii_upper(name@);
            &&& spec_is_predefined_name(up) ==> (r is Err && final(registry).spec_entries()
                == old(registry).spec_entries())
            &&& !spec_is_predefined_name(up) && old(registry).spec_lookup(up) is None ==> (r
                is Err && final(registry).spec_entries() == old(registry).spec_entries())
            &&& !spec_is_predefined_name(up) && old(registry).spec_lookup(up) is Some ==> (r
                is Ok && final(registry).spec_lookup(up) is None)
        }),
{
    proof {
        reveal_strlit("Cannot unregister predefined level '");
        reveal_strlit("Level '");
        reveal_strlit("' not found in registry");
        reveal_strlit("'");
    }
    let up = ascii_uppercase(name);
    if is_predefined_name(&up) {
        let mut msg = String::from_str("Cannot unregister predefined level '");
        msg.append(up.as_str());
        msg.append("'");
        return Err(msg);
    }
    let ghost orig = registry.entries@;
    let mut out: Vec<(String, Level)> = Vec::new();
    let mut found = false;
    let mut i: usize = 0;
    let len = registry.entries.len();
    while i < len
        invariant
            len == registry.entries@.len(),
            registry.entries@ == orig,
            0 <= i <= len,
            up@ == spec_ascii_upper(name@),
            !spec_is_predefined_name(up@),
            found == (spec_registry_lookup(orig.take(i as int), up@) is Some),
            spec_registry_lookup(out@, up@) is None,
            !found ==> out@ == orig.take(i as int),
            spec_registry_lookup(orig, up@) is None ==> out@ == orig.take(i as int),
        decreases len - i,
    {
        proof {
            assert(orig.take(i + 1).drop_last() =~= orig.take(i as int));
            lemma_registry_take_step(orig, up@, i as int);
        }
        if str_eq(registry.entries[i].0.as_str(), up.as_str()) {
            found = true;
            proof {
                if spec_registry_lookup(orig, up@) is None {
                    lemma_registry_lookup_none_no_witness(orig, up@);
                    assert(orig[i as int].0@ != up@);
                }
            }
        } else {
            let ghost before = out@;
            let pair = (registry.entries[i].0.clone(), registry.entries[i].1.duplicate());
            out.push(pair);
            proof {
                lemma_registry_lookup_push_other(before, orig[i as int], up@);
                if !found {
                    assert(out@ =~= orig.take(i + 1));
                }
                if spec_registry_lookup(orig, up@) is None {
                    lemma_registry_lookup_none_prefix(orig, up@, i + 1);
                    assert(out@ =~= orig.take(i + 1));
                }
            }
        }
        i = i + 1;
    }
    proof {
        assert(orig.take(len as int) =~= orig);
    }
    if found {
        registry.entries = out;
        Ok(())
    } else {
        let mut msg = String::from_str("Level '");
        msg.append(up.as_str());
        msg.append("' not found in registry");
        Err(msg)
    }
}

/// Stepping a lookup over a prefix: the lookup over one more entry finds
/// the key exactly when the shorter prefix found it or the new entry holds
/// it.
proof fn lemma_registry_take_step(entries: Seq<(String, Level)>, name: Seq<char>, i: int)
    requires
        0 <= i < entries.len(),
    ensures
        spec_registry_lookup(entries.take(i + 1), name) is Some <==> (spec_registry_lookup(
            entries.take(i),
            name,
        ) is Some || entries[i].0@ == name),
    decreases i,
{
    if i > 0 {
        assert(entries.take(i + 1).drop_first() =~= entries.drop_first().take(i));
        assert(entries.take(i).drop_first() =~= entries.drop_first().take(i - 1));
        lemma_registry_take_step(entries.drop_first(), name, i - 1);
    } else {
        assert(entries.take(1).drop_first() =~= Seq::<(String, Level)>::empty());
        assert(entries.take(0) =~= Seq::<(String, Level)>::empty());
    }
}

/// Appending an entry with another key does not create the looked-up key.
proof fn lemma_registry_lookup_push_other(
    entries: Seq<(String, Level)>,
    entry: (String, Level),
    name: Seq<char>,
)
    requires
        entry.0@ != name,
        spec_registry_lookup(entries, name) is None,
    ensures
        spec_registry_lookup(entries.push(entry), name) is None,
    decreases entries.len(),
{
    if entries.len() == 0 {
        assert(entries.push(entry)[0] == entry);
        assert(entries.push(entry).drop_first() =~= Seq::<(String, Level)>::empty());
    } else {
        assert(entries[0].0@ != name);
        assert(entries.push(entry)[0] == entries[0]);
        assert(entries.push(entry).drop_first() =~= entries.drop_first().push(entry));
        lemma_registry_lookup_push_other(entries.drop_first(), entry, name);
        assert(spec_registry_lookup(entries.push(entry), name) == spec_registry_lookup(
            entries.push(entry).drop_first(),
            name,
        ));
    }
}

/// A key absent from the whole list is absent from every prefix.
proof fn lemma_registry_lookup_none_prefix(entries: Seq<(String, Level)>, name: Seq<char>, k: int)
    requires
        0 <= k <= entries.len(),
        spec_registry_lookup(entries, name) is None,
    ensures
        spec_registry_lookup(entries.take(k), name) is None,
    decreases entries.len(),
{
    if entries.len() > 0 && k > 0 {
        assert(entries.take(k)[0] == entries[0]);
        assert(entries.take(k).drop_first() =~= entries.drop_first().take(k - 1));
        lemma_registry_lookup_none_prefix(entries.drop_first(), name, k - 1);
    } else {
        assert(entries.take(k) =~= Seq::<(String, Level)>::empty());
    }
}

/// A failed lookup means no entry holds the key.
proof fn lemma_registry_lookup_none_no_witness(entries: Seq<(String, Level)>, name: Seq<char>)
    requires
        spec_registry_lookup(entries, name) is None,
    ensures
        forall|j: int| 0 <= j < entries.len() ==> (#[trigger] entries[j]).0@ != name,
    decreases entries.len(),
{
    if entries.len() > 0 {
        lemma_registry_lookup_none_no_witness(entries.drop_first(), name);
        assert forall|j: int|
            0 <= j < entries.len() implies (#[trigger] entries[j]).0@ != name by {
            if j > 0 {
                assert(entries.drop_first()[j - 1].0@ != name);
            }
        }
    }
}

/// A copy of every registered level, as name-level pairs.
pub fn get_registered_levels(registry: &LevelRegistry) -> (r: Vec<(String, Level)>)
    ensures
        r@.len() == registry.spec_entries().len(),
        forall|i: int| 0 <= i < r@.len() ==> r@[i] == registry.spec_entries()[i],
{
    let len = registry.entries.len();
    let mut out: Vec<(String, Level)> = Vec::new();
    let mut i: usize = 0;
    while i < len
        invariant
            len == registry.entries@.len(),
            0 <= i <= len,
            out@.len() == i,
            forall|j: int| 0 <= j < i ==> out@[j] == registry.entries@[j],
        decreases len - i,
    {
        out.push((registry.entries[i].0.clone(), registry.entries[i].1.duplicate()));
        i = i + 1;
    }
    out
}

/// Empties the registry.
pub fn clear_registered_levels(registry: &mut LevelRegistry)
    ensures
        final(registry).spec_entries().len() == 0,
{
    registry.entries.clear();
}

/// True when a custom level is registered under the (upper-cased) name.
pub fn is_level_registered(registry: &LevelRegistry, name: &str) -> (r: bool)
    ensures
        r == (registry.spec_lookup(spec_ascii_upper(name@))
            is Some),
{
    let up = ascii_uppercase(name);
    let len = registry.entries.len();
    let mut i: usize = 0;
    while i < len
        invariant
            len == registry.entries@.len(),
            0 <= i <= len,
            up@ == spec_ascii_upper(name@),
            forall|j: int| 0 <= j < i ==> (#[trigger] registry.entries@[j]).0@ != up@,
        decreases len - i,
    {
        if str_eq(registry.entries[i].0.as_str(), up.as_str()) {
            proof {
                assert((registry.entries@[i as int]).0@ == up@);
                lemma_registry_lookup_found(registry.entries@, up@, i as int);
            }
            return true;
        }
        i = i + 1;
    }
    proof {
        if registry.spec_lookup(up@) is Some {
            lemma_registry_lookup_some_witness(registry.entries@, up@);
        }
    }
    false
}

/// A successful lookup has a witness entry holding the key.
proof fn lemma_registry_lookup_some_witness(entries: Seq<(String, Level)>, name: Seq<char>)
    requires
        spec_registry_lookup(entries, name) is Some,
    ensures
        exists|i: int| 0 <= i < entries.len() && (#[trigger] entries[i]).0@ == name,
    decreases entries.len(),
{
    if entries.len() > 0 {
        if entries[0].0@ == name {
        } else {
            lemma_registry_lookup_some_witness(entries.drop_first(), name);
            let i = choose|i: int|
                0 <= i < entries.drop_first().len() && (#[trigger] entries.drop_first()[i]).0@
                    == name;
            assert(entries[i + 1].0@ == name);
        }
    }
}

/// Which records pass: a minimum priority, with lists of explicitly
/// enabled and explicitly disabled level names on top of it.
#[derive(Debug)]
pub struct LevelFilter {
    min_level: u8,
    enabled_levels: Vec<String>,
    disabled_levels: Vec<String>,
}

/// The filtering decision: the record level always passes; an explicitly
/// disabled name never does; an explicitly enabled name always does;
/// anything else passes when its priority reaches the minimum.
pub open spec fn spec_should_log(
    min_level: u8,
    enabled: Seq<String>,
    disabled: Seq<String>,
    l: Level,
) -> bool {
    if spec_is_record(l) {
        true
    } else if spec_name_in(disabled, spec_level_name(l)) {
        false
    } else if spec_name_in(enabled, spec_level_name(l)) {
        true
    } else {
        spec_level_priority(l) >= min_level
    }
}

impl LevelFilter {
    /// The minimum priority.
    pub closed spec fn spec_min_level(&self) -> u8 {
        self.min_level
    }

    /// The explicitly enabled names.
    pub closed spec fn spec_enabled(&self) -> Seq<String> {
        self.enabled_levels@
    }

    /// The explicitly disabled names.
    pub closed spec fn spec_disabled(&self) -> Seq<String> {
        self.disabled_levels@
    }

    /// A filter passing everything at or above the given level.
    pub fn new(min_level: Level) -> (r: LevelFilter)
        ensures
            r.spec_min_level() == spec_level_priority(min_level),
            r.spec_enabled().len() == 0,
            r.spec_disabled().len() == 0,
    {
        LevelFilter {
            min_level: min_level.priority(),
            enabled_levels: Vec::new(),
            disabled_levels: Vec::new(),
        }
    }

    /// A filter passing everything at or above the given priority.
    pub fn new_with_level(min_level: u8) -> (r: LevelFilter)
        ensures
            r.spec_min_level() == min_level,
            r.spec_enabled().len() == 0,
            r.spec_disabled().len() == 0,
    {
        LevelFilter { min_level, enabled_levels: Vec::new(), disabled_levels: Vec::new() }
    }

    /// Explicitly enables a level name (upper-cased), withdrawing any
    /// explicit disabling of it.
    pub fn enable_level(&mut self, level_name: &str)
        ensures
            final(self).spec_min_level() == old(self).spec_min_level(),
            ({
                let up = spec_ascii_upper(level_name@);
                &&& spec_name_in(final(self).spec_enabled(), up)
                &&& forall|x: Seq<char>|
                    x != up ==> #[trigger] spec_name_in(final(self).spec_enabled(), x)
                        == spec_name_in(old(self).spec_enabled(), x)
                &&& forall|x: Seq<char>|
                    #[trigger] spec_name_in(final(self).spec_disabled(), x) == (spec_name_in(
                        old(self).spec_disabled(),
                        x,
                    ) && x != up)
            }),
    {
        let up = ascii_uppercase(level_name);
        if !contains_name(&self.enabled_levels, &up) {
            let ghost before = self.enabled_levels@;
            self.enabled_levels.push(up.clone());
            proof {
                lemma_name_in_push(before, up, up@);
                assert forall|x: Seq<char>|
                    x != up@ implies #[trigger] spec_name_in(self.enabled_levels@, x)
                        == spec_name_in(before, x) by {
                    lemma_name_in_push(before, up, x);
                }
            }
        }
        remove_name(&mut self.disabled_levels, &up);
    }

    /// Explicitly disables a level name (upper-cased), withdrawing any
    /// explicit enabling of it.
    pub fn disable_level(&mut self, level_name: &str)
        ensures
            final(self).spec_min_level() == old(self).spec_min_level(),
            ({
                let up = spec_ascii_upper(level_name@);
                &&& spec_name_in(final(self).spec_disabled(), up)
                &&& forall|x: Seq<char>|
                    x != up ==> #[trigger] spec_name_in(final(self).spec_disabled(), x)
                        == spec_name_in(old(self).spec_disabled(), x)
                &&& forall|x: Seq<char>|
                    #[trigger] spec_name_in(final(self).spec_enabled(), x) == (spec_name_in(
                        old(self).spec_enabled(),
                        x,
                    ) && x != up)
            }),
    {
        let up = ascii_uppercase(level_name);
        if !contains_name(&self.disabled_levels, &up) {
            let ghost before = self.disabled_levels@;
            self.disabled_levels.push(up.clone());
            proof {
                lemma_name_in_push(before, up, up@);
                assert forall|x: Seq<char>|
                    x != up@ implies #[trigger] spec_name_in(self.disabled_levels@, x)
                        == spec_name_in(before, x) by {
                    lemma_name_in_push(before, up, x);
                }
            }
        }
        remove_name(&mut self.enabled_levels, &up);
    }

    /// Sets the minimum priority.
    pub fn set_min_level(&mut self, min_level: u8)
        ensures
            final(self).spec_min_level() == min_level,
            final(self).spec_enabled() == old(self).spec_enabled(),
            final(self).spec_disabled() == old(self).spec_disabled(),
    {
        self.min_level = min_level;
    }

    /// Sets the minimum priority from a level.
    pub fn set_min_level_with_level(&mut self, min_level: Level)
        ensures
            final(self).spec_min_level() == spec_level_priority(min_level),
            final(self).spec_enabled() == old(self).spec_enabled(),
            final(self).spec_disabled() == old(self).spec_disabled(),
    {
        self.min_level = min_level.priority();
    }

    /// The minimum priority.
    pub fn get_min_level(&self) -> (r: u8)
        ensures
            r == self.spec_min_level(),
    {
        self.min_level
    }

    /// Explicitly enables several level names.
    pub fn enable_levels(&mut self, level_names: &[&str])
        ensures
            final(self).spec_min_level() == old(self).spec_min_level(),
    {
        let mut i: usize = 0;
        let n = level_names.len();
        while i < n
            invariant
                n == level_names@.len(),
                0 <= i <= n,
                self.spec_min_level() == old(self).spec_min_level(),
            decreases n - i,
        {
            let name = level_names[i];
            self.enable_level(name);
            i = i + 1;
        }
    }

    /// Explicitly disables several level names.
    pub fn disable_levels(&mut self, level_names: &[&str])
        ensures
            final(self).spec_min_level() == old(self).spec_min_level(),
    {
        let mut i: usize = 0;
        let n = level_names.len();
        while i < n
            invariant
                n == level_names@.len(),
                0 <= i <= n,
                self.spec_min_level() == old(self).spec_min_level(),
            decreases n - i,
        {
            let name = level_names[i];
            self.disable_level(name);
            i = i + 1;
        }
    }

    /// Decides whether a record at the given level should be logged.
    pub fn should_log(&self, level: &Level) -> (r: bool)
        ensures
            r == spec_should_log(
                self.spec_min_level(),
                self.spec_enabled(),
                self.spec_disabled(),
                *level,
            ),
    {
        match level {
            Level::Predefined(PredefinedLevel::Record) => {
                return true;
            },
            _ => {},
        }
        let level_name = level.as_str();
        if contains_name(&self.disabled_levels, &level_name) {
            return false;
        }
        if contains_name(&self.enabled_levels, &level_name) {
            return true;
        }
        level.priority() >= self.min_level
    }

    /// Withdraws every explicit enabling and disabling.
    pub fn reset_level_settings(&mut self)
        ensures
            final(self).spec_min_level() == old(self).spec_min_level(),
            final(self).spec_enabled().len() == 0,
            final(self).spec_disabled().len() == 0,
    {
        self.enabled_levels.clear();
        self.disabled_levels.clear();
    }
}

/// Membership after a push: the pushed name, plus everything already there.
proof fn lemma_name_in_push(list: Seq<String>, entry: String, x: Seq<char>)
    ensures
        spec_name_in(list.push(entry), x) == (spec_name_in(list, x) || entry@ == x),
{
    if spec_name_in(list.push(entry), x) {
        let i = choose|i: int| 0 <= i < list.push(entry).len() && (#[trigger] list.push(entry)[i])@ == x;
        if i < list.len() {
            assert(list[i]@ == x);
        }
    }
    if spec_name_in(list, x) {
        let i = choose|i: int| 0 <= i < list.len() && (#[trigger] list[i])@ == x;
        assert(list.push(entry)[i]@ == x);
    }
    if entry@ == x {
        assert(list.push(entry)[list.len() as int]@ == x);
    }
}

/// One log record: the level, target and message, when it happened, where
/// it came from, and free-form metadata as key-value pairs.
#[derive(Debug, Clone)]
pub struct LogRecord {
    pub level: Level,
    pub target: String,
    pub message: String,
    pub timestamp: u64,
    pub file: Option<String>,
    pub line: Option<u32>,
    pub module: Option<String>,
    pub thread_id: Option<String>,
    pub thread_name: Option<String>,
    pub metadata: Vec<(String, String)>,
}

impl LogRecord {
    /// A record of a message at a level for a target, stamped with the
    /// current time.
    pub fn new(level: Level, target: &str, message: &str) -> (r: LogRecord)
        ensures
            r.level == level,
            r.target@ == target@,
            r.message@ == message@,
            r.file is None,
            r.line is None,
            r.module is None,
            r.metadata@.len() == 0,
    {
        let nanos = crate::time::now_unix_nanos();
        LogRecord {
            level,
            target: target.to_owned(),
            message: message.to_owned(),
            timestamp: (nanos / 1000000000) as u64,
            file: None,
            line: None,
            module: None,
            thread_id: None,
            thread_name: None,
            metadata: Vec::new(),
        }
    }

    /// This record with its source location filled in.
    pub fn with_location(self, file: &str, line: u32, module: &str) -> (r: LogRecord)
        ensures
            r.file matches Some(f) && f@ == file@,
            r.line == Some(line),
            r.module matches Some(m) && m@ == module@,
            r.level == self.level,
            r.target == self.target,
            r.message == self.message,
            r.timestamp == self.timestamp,
            r.metadata == self.metadata,
    {
        LogRecord {
            file: Some(file.to_owned()),
            line: Some(line),
            module: Some(module.to_owned()),
            ..self
        }
    }

    /// This record with one more metadata pair.
    pub fn with_metadata(self, key: &str, value: &str) -> (r: LogRecord)
        ensures
            r.metadata@.len() == self.metadata@.len() + 1,
            forall|i: int|
                0 <= i < self.metadata@.len() ==> r.metadata@[i] == self.metadata@[i],
            r.metadata@.last().0@ == key@,
            r.metadata@.last().1@ == value@,
            r.level == self.level,
            r.target == self.target,
            r.message == self.message,
            r.timestamp == self.timestamp,
            r.file == self.file,
            r.line == self.line,
            r.module == self.module,
    {
        let mut metadata = self.metadata;
        metadata.push((key.to_owned(), value.to_owned()));
        LogRecord {
            metadata,
            level: self.level,
            target: self.target,
            message: self.message,
            timestamp: self.timestamp,
            file: self.file,
            line: self.line,
            module: self.module,
            thread_id: self.thread_id,
            thread_name: self.thread_name,
        }
    }
}

/// Helpers for ANSI color sequences in finished text.
pub struct ColorProcessor {
    _private: bool,
}

/// The position after an ANSI escape body starting at `k`: everything up to
/// and including the first ASCII letter is part of the sequence.
pub open spec fn spec_ansi_end(s: Seq<char>, k: int) -> int
    recommends
        0 <= k <= s.len(),
    decreases s.len() - k when 0 <= k <= s.len()
{
    if k >= s.len() {
        k
    } else if ('a' <= s[k] && s[k] <= 'z') || ('A' <= s[k] && s[k] <= 'Z') {
        k + 1
    } else {
        spec_ansi_end(s, k + 1)
    }
}

/// The text from position `i` on with ANSI escape sequences removed: an
/// escape character followed by `[` swallows everything through the first
/// ASCII letter; a lone escape character stays.
pub open spec fn spec_strip_ansi(s: Seq<char>, i: int) -> Seq<char>
    recommends
        0 <= i <= s.len(),
    decreases s.len() - i when 0 <= i <= s.len()
{
    if i >= s.len() {
        Seq::<char>::empty()
    } else if s[i] == '\u{1b}' && i + 1 < s.len() && s[i + 1] == '[' {
        let j0 = spec_ansi_end(s, i + 2);
        let j = if i < j0 && j0 <= s.len() {
            j0
        } else {
            s.len() as int
        };
        spec_strip_ansi(s, j)
    } else {
        seq![s[i]] + spec_strip_ansi(s, i + 1)
    }
}

/// The end of an escape body lies at or after its start, within the text.
proof fn lemma_ansi_end_bounds(s: Seq<char>, k: int)
    requires
        0 <= k <= s.len(),
    ensures
        k <= spec_ansi_end(s, k) <= s.len(),
    decreases s.len() - k,
{
    if k < s.len() && !(('a' <= s[k] && s[k] <= 'z') || ('A' <= s[k] && s[k] <= 'Z')) {
        lemma_ansi_end_bounds(s, k + 1);
    }
}

impl ColorProcessor {
    /// Removes every ANSI escape sequence of the form `ESC [ ... letter`;
    /// a lone escape character is kept.
    pub fn strip_ansi_codes(text: &str) -> (r: String)
        ensures
            r@ == spec_strip_ansi(text@, 0),
    {
        let n = text.unicode_len();
        let mut r = String::new();
        let mut i: usize = 0;
        while i < n
            invariant
                n == text@.len(),
                0 <= i <= n,
                spec_strip_ansi(text@, 0) == r@ + spec_strip_ansi(text@, i as int),
            decreases n - i,
        {
            let c = text.get_char(i);
            if c == '\u{1b}' && i + 1 < n && text.get_char(i + 1) == '[' {
                let mut k: usize = i + 2;
                while k < n && !(('a' <= text.get_char(k) && text.get_char(k) <= 'z') || ('A'
                    <= text.get_char(k) && text.get_char(k) <= 'Z'))
                    invariant
                        n == text@.len(),
                        i + 2 <= k <= n,
                        spec_ansi_end(text@, i + 2) == spec_ansi_end(text@, k as int),
                    decreases n - k,
                {
                    k = k + 1;
                }
                let next: usize = if k < n {
                    k + 1
                } else {
                    k
                };
                proof {
                    assert(spec_ansi_end(text@, k as int) == next);
                    lemma_ansi_end_bounds(text@, i + 2);
                }
                i = next;
            } else {
                push_char(&mut r, c);
                i = i + 1;
                proof {
                    assert(spec_strip_ansi(text@, 0) =~= r@ + spec_strip_ansi(
                        text@,
                        i as int,
                    ));
                }
            }
        }
        r
    }

    /// True when the text holds the start of an ANSI escape sequence.
    pub fn has_colors(text: &str) -> (r: bool)
        ensures
            r == exists|i: int|
                0 <= i && i + 1 < text@.len() && #[trigger] text@[i] == '\u{1b}' && text@[i + 1]
                    == '[',
    {
        let n = text.unicode_len();
        if n < 2 {
            return false;
        }
        let mut i: usize = 0;
        while i < n - 1
            invariant
                n == text@.len(),
                n >= 2,
                0 <= i <= n,
                forall|j: int|
                    0 <= j && j + 1 < i + 1 ==> !(#[trigger] text@[j] == '\u{1b}' && text@[j + 1]
                        == '['),
            decreases n - i,
        {
            if text.get_char(i) == '\u{1b}' && text.get_char(i + 1) == '[' {
                return true;
            }
            i = i + 1;
        }
        false
    }

    /// Wraps text in a color prefix and the reset sequence.
    pub fn colorize(text: &str, color_code: &str) -> (r: String)
        ensures
            r@ == color_code@ + text@ + "\u{1b}[0m"@,
    {
        let mut r = color_code.to_owned();
        r.append(text);
        r.append("\u{1b}[0m");
        proof {
            assert(r@ =~= color_code@ + text@ + "\u{1b}[0m"@);
        }
        r
    }
}


/// What the user-template rendering produces: each placeholder replaced in
/// order — timestamp, level, target, message, then the optional location
/// fields where the record has them.
pub open spec fn spec_custom_formatted(record: LogRecord, template: Seq<char>, ts: Seq<char>) -> Seq<char> {
    let s1 = spec_replace(template, "{timestamp}"@, ts);
    let s2 = spec_replace(s1, "{level}"@, spec_level_name(record.level));
    let s3 = spec_replace(s2, "{target}"@, record.target@);
    let s4 = spec_replace(s3, "{message}"@, record.message@);
    let s5 = if record.file is Some {
        spec_replace(s4, "{file}"@, record.file->0@)
    } else {
        s4
    };
    let s6 = if record.line is Some {
        spec_replace(s5, "{line}"@, crate::text::spec_dec(record.line->0 as int))
    } else {
        s5
    };
    if record.module is Some {
        spec_replace(s6, "{module}"@, record.module->0@)
    } else {
        s6
    }
}

/// Renders log records as text.  The crate's own formatters implement it;
/// users may implement it for formats of their own.
pub trait Formatter: Send + Sync {
    /// The textual rendering of one record.
    fn format(&self, record: &LogRecord) -> String;

    /// Whether the output may carry ANSI colors.
    fn supports_colors(&self) -> bool;
}

/// The standard human-readable formatter: optional timestamp, padded level
/// tag, target, location and metadata around the message.
pub struct DefaultFormatter {
    pub use_colors: bool,
    pub show_timestamp: bool,
    pub timestamp_color: String,
    pub timestamp_format: String,
    pub timestamp_brackets: bool,
    pub show_level: bool,
    pub level_width: usize,
    pub level_align_right: bool,
    pub level_brackets: bool,
    pub show_target: bool,
    pub target_brackets: bool,
    pub show_location: bool,
    pub show_thread: bool,
    pub show_metadata: bool,
    pub time_format: TimeFormat,
    pub custom_format: Option<String>,
}

impl DefaultFormatter {
    /// The standard configuration: colors on, timestamp and level and
    /// target shown with brackets, locations and threads and metadata
    /// hidden.
    pub fn new() -> (r: DefaultFormatter)
        ensures
            r.use_colors,
            r.show_timestamp,
            r.show_level,
            r.level_width == 6,
            !r.level_align_right,
            r.level_brackets,
            r.show_target,
            r.target_brackets,
            !r.show_location,
            !r.show_thread,
            !r.show_metadata,
            r.timestamp_brackets,
            r.custom_format is None,
    {
        DefaultFormatter {
            use_colors: true,
            show_timestamp: true,
            timestamp_color: String::from_str("\u{1b}[90m"),
            timestamp_format: String::from_str("[{}]"),
            timestamp_brackets: true,
            show_level: true,
            level_width: 6,
            level_align_right: false,
            level_brackets: true,
            show_target: true,
            target_brackets: true,
            show_location: false,
            show_thread: false,
            show_metadata: false,
            time_format: TimeFormat::LocalTime,
            custom_format: None,
        }
    }

    /// The standard configuration with colors off.
    pub fn without_colors() -> (r: DefaultFormatter)
        ensures
            !r.use_colors,
            r.timestamp_color@ == Seq::<char>::empty(),
            r.custom_format is None,
    {
        let mut formatter = Self::new();
        formatter.use_colors = false;
        formatter.timestamp_color = String::new();
        formatter
    }

    /// A narrow configuration: no target, no location, a four-column level
    /// tag.
    pub fn compact() -> (r: DefaultFormatter)
        ensures
            !r.show_target,
            !r.show_location,
            r.level_width == 4,
    {
        let mut formatter = Self::new();
        formatter.show_target = false;
        formatter.show_location = false;
        formatter.level_width = 4;
        formatter
    }

    /// A wide configuration: locations, threads and metadata shown.
    pub fn detailed() -> (r: DefaultFormatter)
        ensures
            r.show_location,
            r.show_thread,
            r.show_metadata,
    {
        let mut formatter = Self::new();
        formatter.show_location = true;
        formatter.show_thread = true;
        formatter.show_metadata = true;
        formatter
    }

    /// Renders one record.  A record-level record is the bare message; with
    /// every optional part switched off and no custom format, the output is
    /// the bare message too.
    pub fn format_record(&self, record: &LogRecord) -> (r: String)
        ensures
            spec_is_record(record.level) ==> r@ == record.message@,
            !spec_is_record(record.level) && self.custom_format is None && !self.show_timestamp
                && !self.show_level && !self.show_thread && !self.show_target
                && !self.show_location && !self.show_metadata ==> r@ == record.message@,
            !spec_is_record(record.level) && self.time_format == TimeFormat::Unix ==> (
            self.custom_format matches Some(t) ==> r@ == spec_custom_formatted(
                *record,
                t@,
                crate::text::spec_dec(record.timestamp as int),
            )),
    {
        proof {
            reveal_strlit("{}");
            reveal_strlit("[");
            reveal_strlit("]");
        }
        match &record.level {
            Level::Predefined(PredefinedLevel::Record) => {
                return record.message.clone();
            },
            _ => {},
        }
        match &self.custom_format {
            Some(template) => {
                return self.format_custom(record, template.as_str());
            },
            None => {},
        }
        let mut output = String::new();
        if self.show_timestamp {
            let time_str = self.format_timestamp(record);
            let formatted_time = if self.timestamp_brackets {
                if self.timestamp_format.as_str().unicode_len() > 0 {
                    replace_all(self.timestamp_format.as_str(), "{}", time_str.as_str())
                } else {
                    time_str
                }
            } else {
                let without_open = replace_all(self.timestamp_format.as_str(), "[", "");
                let without_brackets = replace_all(without_open.as_str(), "]", "");
                if without_brackets.as_str().unicode_len() > 0 {
                    replace_all(without_brackets.as_str(), "{}", time_str.as_str())
                } else {
                    time_str
                }
            };
            if self.use_colors && self.timestamp_color.as_str().unicode_len() > 0 {
                output.append(self.timestamp_color.as_str());
                output.append(formatted_time.as_str());
                output.append("\u{1b}[0m ");
            } else {
                output.append(formatted_time.as_str());
                output.append(" ");
            }
        }
        if self.show_level {
            self.format_level(&mut output, record);
        }
        if self.show_thread {
            match &record.thread_name {
                Some(thread_name) => {
                    output.append("[");
                    output.append(thread_name.as_str());
                    output.append("] ");
                },
                None => {
                    match &record.thread_id {
                        Some(thread_id) => {
                            output.append("[");
                            output.append(thread_id.as_str());
                            output.append("] ");
                        },
                        None => {},
                    }
                },
            }
        }
        if self.show_target && record.target.as_str().unicode_len() > 0 {
            if self.target_brackets {
                output.append("(");
                output.append(record.target.as_str());
                output.append(") ");
            } else {
                output.append(record.target.as_str());
                output.append(" ");
            }
        }
        if self.show_location {
            match (&record.file, &record.line) {
                (Some(file), Some(line)) => {
                    let base = file_base_name(file.as_str());
                    output.append(base.as_str());
                    output.append(":");
                    let digits = u64_to_dec(*line as u64);
                    output.append(digits.as_str());
                    output.append(" ");
                },
                _ => {},
            }
        }
        output.append(record.message.as_str());
        if self.show_metadata && record.metadata.len() > 0 {
            output.append(" ");
            let n = record.metadata.len();
            let mut i: usize = 0;
            while i < n
                invariant
                    n == record.metadata@.len(),
                    0 <= i <= n,
                decreases n - i,
            {
                output.append(record.metadata[i].0.as_str());
                output.append("=");
                output.append(record.metadata[i].1.as_str());
                output.append(" ");
                i = i + 1;
            }
        }
        output
    }

    /// The timestamp text for one record, in the configured time format.
    fn format_timestamp(&self, record: &LogRecord) -> (r: String)
        ensures
            self.time_format == TimeFormat::Unix ==> r@ == crate::text::spec_dec(
                record.timestamp as int,
            ),
    {
        match self.time_format {
            TimeFormat::Unix => u64_to_dec(record.timestamp),
            TimeFormat::UnixMillis => {
                if record.timestamp <= 0xffff_ffff_ffff_ffffu64 / 1000 {
                    u64_to_dec(record.timestamp * 1000)
                } else {
                    u64_to_dec(record.timestamp)
                }
            },
            TimeFormat::SystemTime => crate::time::TimeUtils::system_time_string(),
            TimeFormat::LocalTime => crate::time::TimeUtils::local_time_string(),
            TimeFormat::Iso8601 => crate::time::TimeUtils::iso8601_time_string(),
            TimeFormat::Relative => u64_to_dec(record.timestamp),
        }
    }

    /// Appends the padded, optionally bracketed and colored level tag.
    fn format_level(&self, output: &mut String, record: &LogRecord) {
        let name = record.level.as_str();
        let level_str = pad_to_width(&name, self.level_width, self.level_align_right);
        if self.use_colors {
            if self.level_brackets {
                output.append("[");
                let color = record.level.color_code();
                output.append(color.as_str());
                output.append(level_str.as_str());
                output.append("\u{1b}[0m] ");
            } else {
                let color = record.level.color_code();
                output.append(color.as_str());
                output.append(level_str.as_str());
                output.append("\u{1b}[0m ");
            }
        } else if self.level_brackets {
            output.append("[");
            output.append(level_str.as_str());
            output.append("] ");
        } else {
            output.append(level_str.as_str());
            output.append(" ");
        }
    }

    /// Renders one record through a user template, filling the
    /// `{timestamp}`, `{level}`, `{target}`, `{message}`, `{file}`,
    /// `{line}` and `{module}` placeholders.
    fn format_custom(&self, record: &LogRecord, template: &str) -> (r: String)
        ensures
            self.time_format == TimeFormat::Unix ==> r@ == spec_custom_formatted(
                *record,
                template@,
                crate::text::spec_dec(record.timestamp as int),
            ),
    {
        proof {
            reveal_strlit("{timestamp}");
            reveal_strlit("{level}");
            reveal_strlit("{target}");
            reveal_strlit("{message}");
            reveal_strlit("{file}");
            reveal_strlit("{line}");
            reveal_strlit("{module}");
        }
        let ts = self.format_timestamp(record);
        let mut result = replace_all(template, "{timestamp}", ts.as_str());
        let name = record.level.as_str();
        result = replace_all(result.as_str(), "{level}", name.as_str());
        result = replace_all(result.as_str(), "{target}", record.target.as_str());
        result = replace_all(result.as_str(), "{message}", record.message.as_str());
        match &record.file {
            Some(file) => {
                result = replace_all(result.as_str(), "{file}", file.as_str());
            },
            None => {},
        }
        match &record.line {
            Some(line) => {
                let digits = u64_to_dec(*line as u64);
                result = replace_all(result.as_str(), "{line}", digits.as_str());
            },
            None => {},
        }
        match &record.module {
            Some(module) => {
                result = replace_all(result.as_str(), "{module}", module.as_str());
            },
            None => {},
        }
        result
    }
}

impl Formatter for DefaultFormatter {
    fn format(&self, record: &LogRecord) -> String {
        self.format_record(record)
    }

    fn supports_colors(&self) -> bool {
        self.use_colors
    }
}

/// The piece of a path after its last separator.
pub open spec fn spec_base_name(s: Seq<char>) -> Seq<char>
    decreases s.len(),
{
    if s.len() == 0 {
        s
    } else if s.last() == '/' || s.last() == '\\' {
        Seq::<char>::empty()
    } else {
        spec_base_name(s.drop_last()).push(s.last())
    }
}

/// The file name of a path: everything after the last path separator.
fn file_base_name(path: &str) -> (r: String)
    ensures
        r@ == spec_base_name(path@),
{
    let n = path.unicode_len();
    let mut start: usize = n;
    proof {
        assert(path@.take(n as int) =~= path@);
        assert(path@.skip(n as int) =~= Seq::<char>::empty());
        assert(spec_base_name(path@) + path@.skip(n as int) =~= spec_base_name(path@));
    }
    while start > 0 && path.get_char(start - 1) != '/' && path.get_char(start - 1) != '\\'
        invariant
            n == path@.len(),
            0 <= start <= n,
            spec_base_name(path@) == spec_base_name(path@.take(start as int)) + path@.skip(
                start as int,
            ),
        decreases start,
    {
        start = start - 1;
        proof {
            assert(path@.take(start + 1).drop_last() =~= path@.take(start as int));
            assert(path@.take(start + 1).last() == path@[start as int]);
            assert(spec_base_name(path@.take(start as int)).push(path@[start as int])
                + path@.skip(start + 1) =~= spec_base_name(path@.take(start as int)) + path@.skip(
                start as int,
            ));
        }
    }
    proof {
        if start > 0 {
            assert(path@.take(start as int).last() == path@[start - 1]);
            assert(spec_base_name(path@.take(start as int)) =~= Seq::<char>::empty());
        } else {
            assert(path@.take(0) =~= Seq::<char>::empty());
        }
        assert(spec_base_name(path@) =~= path@.skip(start as int));
    }
    let mut r = String::new();
    let mut i: usize = start;
    while i < n
        invariant
            n == path@.len(),
            start <= i <= n,
            r@ == path@.subrange(start as int, i as int),
        decreases n - i,
    {
        let c = path.get_char(i);
        push_char(&mut r, c);
        i = i + 1;
        proof {
            assert(r@ =~= path@.subrange(start as int, i as int));
        }
    }
    proof {
        assert(path@.subrange(start as int, n as int) =~= path@.skip(start as int));
    }
    r
}

/// Pads text with spaces to at least `width` characters, on the left or on
/// the right.
pub open spec fn spec_pad_to_width(s: Seq<char>, width: int, align_right: bool) -> Seq<char> {
    if s.len() >= width {
        s
    } else if align_right {
        Seq::new((width - s.len()) as nat, |i: int| ' ') + s
    } else {
        s + Seq::new((width - s.len()) as nat, |i: int| ' ')
    }
}

/// Pads text with spaces to at least `width` characters.
fn pad_to_width(s: &String, width: usize, align_right: bool) -> (r: String)
    ensures
        r@ == spec_pad_to_width(s@, width as int, align_right),
{
    let n = s.as_str().unicode_len();
    if n >= width {
        return s.clone();
    }
    let pad = width - n;
    let mut spaces = String::new();
    let mut i: usize = 0;
    while i < pad
        invariant
            0 <= i <= pad,
            spaces@ =~= Seq::new(i as nat, |k: int| ' '),
        decreases pad - i,
    {
        push_char(&mut spaces, ' ');
        i = i + 1;
        proof {
            assert(spaces@ =~= Seq::new(i as nat, |k: int| ' '));
        }
    }
    if align_right {
        let mut r = spaces;
        r.append(s.as_str());
        proof {
            assert(r@ =~= spec_pad_to_width(s@, width as int, align_right));
        }
        r
    } else {
        let mut r = s.clone();
        r.append(spaces.as_str());
        proof {
            assert(r@ =~= spec_pad_to_width(s@, width as int, align_right));
        }
        r
    }
}

/// The JSON escaping of one character.
pub open spec fn spec_json_escape_char(c: char) -> Seq<char> {
    if c == '"' {
        seq!['\\', '"']
    } else if c == '\\' {
        seq!['\\', '\\']
    } else if c == '\n' {
        seq!['\\', 'n']
    } else if c == '\r' {
        seq!['\\', 'r']
    } else if c == '\t' {
        seq!['\\', 't']
    } else if (c as u32) < 0x20 || (0x7f <= c as u32 && c as u32 <= 0x9f) {
        seq!['\\', 'u', '0', '0'] + spec_json_hex_digit(c as u32 / 16) + spec_json_hex_digit(
            c as u32 % 16,
        )
    } else {
        seq![c]
    }
}

/// One lower-case hexadecimal digit.
pub open spec fn spec_json_hex_digit(d: u32) -> Seq<char>
    recommends
        d < 16,
{
    if d < 10 {
        seq![((48 + d) as u8) as char]
    } else {
        seq![((87 + d) as u8) as char]
    }
}

/// The JSON escaping of the text from position `i` on.
pub open spec fn spec_json_escaped_from(s: Seq<char>, i: int) -> Seq<char>
    recommends
        0 <= i <= s.len(),
    decreases s.len() - i when 0 <= i <= s.len()
{
    if i >= s.len() {
        Seq::<char>::empty()
    } else {
        spec_json_escape_char(s[i]) + spec_json_escaped_from(s, i + 1)
    }
}

/// Escapes text for a JSON string literal: quotes, backslashes, newlines,
/// carriage returns, tabs and control characters.
fn escape_json_string(s: &str) -> (r: String)
    ensures
        r@ == spec_json_escaped_from(s@, 0),
{
    let n = s.unicode_len();
    let mut r = String::new();
    let mut i: usize = 0;
    proof {
        assert(Seq::<char>::empty() + spec_json_escaped_from(s@, 0) =~= spec_json_escaped_from(
            s@,
            0,
        ));
    }
    while i < n
        invariant
            n == s@.len(),
            0 <= i <= n,
            spec_json_escaped_from(s@, 0) == r@ + spec_json_escaped_from(s@, i as int),
        decreases n - i,
    {
        proof {
            reveal_strlit("\\\"");
            reveal_strlit("\\\\");
            reveal_strlit("\\n");
            reveal_strlit("\\r");
            reveal_strlit("\\t");
            reveal_strlit("\\u00");
        }
        let c = s.get_char(i);
        if c == '"' {
            r.append("\\\"");
        } else if c == '\\' {
            r.append("\\\\");
        } else if c == '\n' {
            r.append("\\n");
        } else if c == '\r' {
            r.append("\\r");
        } else if c == '\t' {
            r.append("\\t");
        } else if (c as u32) < 0x20 || (0x7f <= c as u32 && c as u32 <= 0x9f) {
            r.append("\\u00");
            let code = c as u32;
            let hi = code / 16;
            let lo = code % 16;
            let hi_char: char = if hi < 10 {
                ((48 + hi) as u8) as char
            } else {
                ((87 + hi) as u8) as char
            };
            let lo_char: char = if lo < 10 {
                ((48 + lo) as u8) as char
            } else {
                ((87 + lo) as u8) as char
            };
            push_char(&mut r, hi_char);
            push_char(&mut r, lo_char);
        } else {
            push_char(&mut r, c);
        }
        i = i + 1;
        proof {
            assert(spec_json_escaped_from(s@, 0) =~= r@ + spec_json_escaped_from(s@, i as int));
        }
    }
    r
}

/// The XML escaping of one character.
pub open spec fn spec_xml_escape_char(c: char) -> Seq<char> {
    if c == '<' {
        "&lt;"@
    } else if c == '>' {
        "&gt;"@
    } else if c == '&' {
        "&amp;"@
    } else if c == '"' {
        "&quot;"@
    } else if c == '\'' {
        "&apos;"@
    } else {
        seq![c]
    }
}

/// The XML escaping of the text from position `i` on.
pub open spec fn spec_xml_escaped_from(s: Seq<char>, i: int) -> Seq<char>
    recommends
        0 <= i <= s.len(),
    decreases s.len() - i when 0 <= i <= s.len()
{
    if i >= s.len() {
        Seq::<char>::empty()
    } else {
        spec_xml_escape_char(s[i]) + spec_xml_escaped_from(s, i + 1)
    }
}

/// Escapes text for XML content: angle brackets, ampersands and quotes.
fn escape_xml(s: &str) -> (r: String)
    ensures
        r@ == spec_xml_escaped_from(s@, 0),
{
    let n = s.unicode_len();
    let mut r = String::new();
    let mut i: usize = 0;
    proof {
        assert(Seq::<char>::empty() + spec_xml_escaped_from(s@, 0) =~= spec_xml_escaped_from(
            s@,
            0,
        ));
    }
    while i < n
        invariant
            n == s@.len(),
            0 <= i <= n,
            spec_xml_escaped_from(s@, 0) == r@ + spec_xml_escaped_from(s@, i as int),
        decreases n - i,
    {
        proof {
            reveal_strlit("&lt;");
            reveal_strlit("&gt;");
            reveal_strlit("&amp;");
            reveal_strlit("&quot;");
            reveal_strlit("&apos;");
        }
        let c = s.get_char(i);
        if c == '<' {
            r.append("&lt;");
        } else if c == '>' {
            r.append("&gt;");
        } else if c == '&' {
            r.append("&amp;");
        } else if c == '"' {
            r.append("&quot;");
        } else if c == '\'' {
            r.append("&apos;");
        } else {
            push_char(&mut r, c);
        }
        i = i + 1;
        proof {
            assert(spec_xml_escaped_from(s@, 0) =~= r@ + spec_xml_escaped_from(s@, i as int));
        }
    }
    r
}

/// Renders records as one JSON object per record.
pub struct JsonFormatter {
    pub pretty_print: bool,
    pub include_metadata: bool,
    pub custom_fields: Vec<(String, String)>,
}

impl JsonFormatter {
    /// A flat JSON formatter with metadata included.
    pub fn new() -> (r: JsonFormatter)
        ensures
            !r.pretty_print,
            r.include_metadata,
            r.custom_fields@.len() == 0,
    {
        JsonFormatter { pretty_print: false, include_metadata: true, custom_fields: Vec::new() }
    }

    /// This formatter with line breaks and indentation.
    pub fn pretty(self) -> (r: JsonFormatter)
        ensures
            r.pretty_print,
            r.include_metadata == self.include_metadata,
            r.custom_fields == self.custom_fields,
    {
        JsonFormatter { pretty_print: true, ..self }
    }

    /// This formatter with one more fixed field in every record.
    pub fn with_custom_field(self, key: &str, value: &str) -> (r: JsonFormatter)
        ensures
            r.pretty_print == self.pretty_print,
            r.include_metadata == self.include_metadata,
            r.custom_fields@.len() == self.custom_fields@.len() + 1,
    {
        let mut custom_fields = self.custom_fields;
        custom_fields.push((key.to_owned(), value.to_owned()));
        JsonFormatter {
            custom_fields,
            pretty_print: self.pretty_print,
            include_metadata: self.include_metadata,
        }
    }

    /// Renders one record as a JSON object holding its timestamp, level,
    /// target, escaped message, optional location and thread fields, the
    /// formatter's fixed fields and — when included — the record metadata.
    pub fn format_record(&self, record: &LogRecord) -> (r: String)
        ensures
            r@.len() >= 2,
            r@[0] == '{',
            r@.last() == '}',
    {
        proof {
            reveal_strlit("\"timestamp\":");
            reveal_strlit("\"level\":\"");
            reveal_strlit("\"target\":\"");
            reveal_strlit("\"message\":\"");
            reveal_strlit("\"file\":\"");
            reveal_strlit("\"line\":");
            reveal_strlit("\"module\":\"");
            reveal_strlit("\"thread_name\":\"");
            reveal_strlit("\"thread_id\":\"");
            reveal_strlit("\"metadata\":{");
            reveal_strlit("\"");
            reveal_strlit("\":\"");
            reveal_strlit("{");
            reveal_strlit("}");
            reveal_strlit("{\n  ");
            reveal_strlit("\n}");
            reveal_strlit(",");
            reveal_strlit(",\n  ");
        }
        let mut fields: Vec<String> = Vec::new();
        let mut ts = String::from_str("\"timestamp\":");
        let digits = u64_to_dec(record.timestamp);
        ts.append(digits.as_str());
        fields.push(ts);
        let mut level = String::from_str("\"level\":\"");
        let name = record.level.as_str();
        level.append(name.as_str());
        level.append("\"");
        fields.push(level);
        let mut target = String::from_str("\"target\":\"");
        let esc_target = escape_json_string(record.target.as_str());
        target.append(esc_target.as_str());
        target.append("\"");
        fields.push(target);
        let mut message = String::from_str("\"message\":\"");
        let esc_message = escape_json_string(record.message.as_str());
        message.append(esc_message.as_str());
        message.append("\"");
        fields.push(message);
        match &record.file {
            Some(file) => {
                let mut field = String::from_str("\"file\":\"");
                let esc = escape_json_string(file.as_str());
                field.append(esc.as_str());
                field.append("\"");
                fields.push(field);
            },
            None => {},
        }
        match &record.line {
            Some(line) => {
                let mut field = String::from_str("\"line\":");
                let line_digits = u64_to_dec(*line as u64);
                field.append(line_digits.as_str());
                fields.push(field);
            },
            None => {},
        }
        match &record.module {
            Some(module) => {
                let mut field = String::from_str("\"module\":\"");
                let esc = escape_json_string(module.as_str());
                field.append(esc.as_str());
                field.append("\"");
                fields.push(field);
            },
            None => {},
        }
        match &record.thread_name {
            Some(thread_name) => {
                let mut field = String::from_str("\"thread_name\":\"");
                let esc = escape_json_string(thread_name.as_str());
                field.append(esc.as_str());
                field.append("\"");
                fields.push(field);
            },
            None => {},
        }
        match &record.thread_id {
            Some(thread_id) => {
                let mut field = String::from_str("\"thread_id\":\"");
                let esc = escape_json_string(thread_id.as_str());
                field.append(esc.as_str());
                field.append("\"");
                fields.push(field);
            },
            None => {},
        }
        let n_custom = self.custom_fields.len();
        let mut ci: usize = 0;
        while ci < n_custom
            invariant
                n_custom == self.custom_fields@.len(),
                0 <= ci <= n_custom,
            decreases n_custom - ci,
        {
            proof {
                reveal_strlit("\"");
                reveal_strlit("\":\"");
            }
            let mut field = String::from_str("\"");
            let esc_key = escape_json_string(self.custom_fields[ci].0.as_str());
            field.append(esc_key.as_str());
            field.append("\":\"");
            let esc_value = escape_json_string(self.custom_fields[ci].1.as_str());
            field.append(esc_value.as_str());
            field.append("\"");
            fields.push(field);
            ci = ci + 1;
        }
        if self.include_metadata && record.metadata.len() > 0 {
            let mut field = String::from_str("\"metadata\":{");
            let n_meta = record.metadata.len();
            let mut mi: usize = 0;
            while mi < n_meta
                invariant
                    n_meta == record.metadata@.len(),
                    0 <= mi <= n_meta,
                decreases n_meta - mi,
            {
                proof {
                    reveal_strlit("\"");
                    reveal_strlit("\":\"");
                    reveal_strlit(",");
                }
                if mi > 0 {
                    field.append(",");
                }
                field.append("\"");
                let esc_key = escape_json_string(record.metadata[mi].0.as_str());
                field.append(esc_key.as_str());
                field.append("\":\"");
                let esc_value = escape_json_string(record.metadata[mi].1.as_str());
                field.append(esc_value.as_str());
                field.append("\"");
                mi = mi + 1;
            }
            field.append("}");
            fields.push(field);
        }
        let separator: &str = if self.pretty_print {
            ",\n  "
        } else {
            ","
        };
        let mut body = String::new();
        let n_fields = fields.len();
        let mut fi: usize = 0;
        while fi < n_fields
            invariant
                n_fields == fields@.len(),
                0 <= fi <= n_fields,
            decreases n_fields - fi,
        {
            proof {
                reveal_strlit(",");
                reveal_strlit(",\n  ");
            }
            if fi > 0 {
                body.append(separator);
            }
            body.append(fields[fi].as_str());
            fi = fi + 1;
        }
        let mut r = if self.pretty_print {
            String::from_str("{\n  ")
        } else {
            String::from_str("{")
        };
        r.append(body.as_str());
        if self.pretty_print {
            r.append("\n}");
        } else {
            r.append("}");
        }
        proof {
            assert(r@[0] == '{');
            assert(r@.last() == '}');
        }
        r
    }
}

impl Formatter for JsonFormatter {
    fn format(&self, record: &LogRecord) -> String {
        self.format_record(record)
    }

    fn supports_colors(&self) -> bool {
        false
    }
}

/// Renders records as one XML element per record.
pub struct XmlFormatter {
    pub pretty_print: bool,
    pub include_metadata: bool,
    pub root_element: String,
    pub custom_attributes: Vec<(String, String)>,
}

impl XmlFormatter {
    /// A flat XML formatter with metadata included, rooted at `log`.
    pub fn new() -> (r: XmlFormatter)
        ensures
            !r.pretty_print,
            r.include_metadata,
            r.root_element@ == "log"@,
            r.custom_attributes@.len() == 0,
    {
        XmlFormatter {
            pretty_print: false,
            include_metadata: true,
            root_element: String::from_str("log"),
            custom_attributes: Vec::new(),
        }
    }

    /// This formatter with line breaks and indentation.
    pub fn pretty(self) -> (r: XmlFormatter)
        ensures
            r.pretty_print,
            r.include_metadata == self.include_metadata,
            r.root_element == self.root_element,
            r.custom_attributes == self.custom_attributes,
    {
        XmlFormatter { pretty_print: true, ..self }
    }

    /// This formatter with another root element name.
    pub fn root_element(self, element: &str) -> (r: XmlFormatter)
        ensures
            r.root_element@ == element@,
            r.pretty_print == self.pretty_print,
            r.include_metadata == self.include_metadata,
            r.custom_attributes == self.custom_attributes,
    {
        XmlFormatter {
            root_element: element.to_owned(),
            pretty_print: self.pretty_print,
            include_metadata: self.include_metadata,
            custom_attributes: self.custom_attributes,
        }
    }

    /// This formatter with one more fixed attribute on the root element.
    pub fn with_custom_attribute(self, key: &str, value: &str) -> (r: XmlFormatter)
        ensures
            r.custom_attributes@.len() == self.custom_attributes@.len() + 1,
            r.pretty_print == self.pretty_print,
            r.include_metadata == self.include_metadata,
            r.root_element == self.root_element,
    {
        let mut custom_attributes = self.custom_attributes;
        custom_attributes.push((key.to_owned(), value.to_owned()));
        XmlFormatter {
            custom_attributes,
            pretty_print: self.pretty_print,
            include_metadata: self.include_metadata,
            root_element: self.root_element,
        }
    }

    /// Renders one record as an XML element: the timestamp and level as
    /// attributes, target and escaped message and optional fields as child
    /// elements, closed by the root element's end tag.
    pub fn format_record(&self, record: &LogRecord) -> (r: String)
        ensures
            r@.len() >= 1,
            r@[0] == '<',
            r@.last() == '>',
    {
        proof {
            reveal_strlit("<");
            reveal_strlit(">");
            reveal_strlit("</");
            reveal_strlit(" timestamp=\"");
            reveal_strlit(" level=\"");
            reveal_strlit(" ");
            reveal_strlit("=\"");
            reveal_strlit("\"");
            reveal_strlit("\n");
            reveal_strlit("  ");
            reveal_strlit("<target>");
            reveal_strlit("</target>");
            reveal_strlit("<message>");
            reveal_strlit("</message>");
            reveal_strlit("<file>");
            reveal_strlit("</file>");
            reveal_strlit("<line>");
            reveal_strlit("</line>");
            reveal_strlit("<module>");
            reveal_strlit("</module>");
            reveal_strlit("<thread_name>");
            reveal_strlit("</thread_name>");
            reveal_strlit("<metadata>");
            reveal_strlit("</metadata>");
        }
        let indent: &str = if self.pretty_print {
            "  "
        } else {
            ""
        };
        let newline: &str = if self.pretty_print {
            "\n"
        } else {
            ""
        };
        let mut xml = String::from_str("<");
        xml.append(self.root_element.as_str());
        xml.append(" timestamp=\"");
        let digits = u64_to_dec(record.timestamp);
        xml.append(digits.as_str());
        xml.append("\"");
        xml.append(" level=\"");
        let name = record.level.as_str();
        xml.append(name.as_str());
        xml.append("\"");
        let n_attrs = self.custom_attributes.len();
        let mut ai: usize = 0;
        while ai < n_attrs
            invariant
                n_attrs == self.custom_attributes@.len(),
                0 <= ai <= n_attrs,
                xml@.len() >= 1,
                xml@[0] == '<',
            decreases n_attrs - ai,
        {
            proof {
                reveal_strlit(" ");
                reveal_strlit("=\"");
                reveal_strlit("\"");
            }
            xml.append(" ");
            xml.append(self.custom_attributes[ai].0.as_str());
            xml.append("=\"");
            let esc = escape_xml(self.custom_attributes[ai].1.as_str());
            xml.append(esc.as_str());
            xml.append("\"");
            ai = ai + 1;
        }
        xml.append(">");
        xml.append(newline);
        xml.append(indent);
        xml.append("<target>");
        let esc_target = escape_xml(record.target.as_str());
        xml.append(esc_target.as_str());
        xml.append("</target>");
        xml.append(newline);
        xml.append(indent);
        xml.append("<message>");
        let esc_message = escape_xml(record.message.as_str());
        xml.append(esc_message.as_str());
        xml.append("</message>");
        xml.append(newline);
        match &record.file {
            Some(file) => {
                xml.append(indent);
                xml.append("<file>");
                let esc = escape_xml(file.as_str());
                xml.append(esc.as_str());
                xml.append("</file>");
                xml.append(newline);
            },
            None => {},
        }
        match &record.line {
            Some(line) => {
                xml.append(indent);
                xml.append("<line>");
                let line_digits = u64_to_dec(*line as u64);
                xml.append(line_digits.as_str());
                xml.append("</line>");
                xml.append(newline);
            },
            None => {},
        }
        match &record.module {
            Some(module) => {
                xml.append(indent);
                xml.append("<module>");
                let esc = escape_xml(module.as_str());
                xml.append(esc.as_str());
                xml.append("</module>");
                xml.append(newline);
            },
            None => {},
        }
        match &record.thread_name {
            Some(thread_name) => {
                xml.append(indent);
                xml.append("<thread_name>");
                let esc = escape_xml(thread_name.as_str());
                xml.append(esc.as_str());
                xml.append("</thread_name>");
                xml.append(newline);
            },
            None => {},
        }
        if self.include_metadata && record.metadata.len() > 0 {
            xml.append(indent);
            xml.append("<metadata>");
            xml.append(newline);
            let n_meta = record.metadata.len();
            let mut mi: usize = 0;
            while mi < n_meta
                invariant
                    n_meta == record.metadata@.len(),
                    0 <= mi <= n_meta,
                    xml@.len() >= 1,
                    xml@[0] == '<',
                decreases n_meta - mi,
            {
                proof {
                    reveal_strlit("<");
                    reveal_strlit(">");
                    reveal_strlit("</");
                    reveal_strlit("  ");
                    reveal_strlit("\n");
                }
                xml.append(indent);
                xml.append(indent);
                xml.append("<");
                let esc_key = escape_xml(record.metadata[mi].0.as_str());
                xml.append(esc_key.as_str());
                xml.append(">");
                let esc_value = escape_xml(record.metadata[mi].1.as_str());
                xml.append(esc_value.as_str());
                xml.append("</");
                xml.append(esc_key.as_str());
                xml.append(">");
                xml.append(newline);
                mi = mi + 1;
            }
            xml.append(indent);
            xml.append("</metadata>");
            xml.append(newline);
        }
        xml.append("</");
        xml.append(self.root_element.as_str());
        xml.append(">");
        proof {
            assert(xml@[0] == '<');
            assert(xml@.last() == '>');
        }
        xml
    }
}

impl Formatter for XmlFormatter {
    fn format(&self, record: &LogRecord) -> String {
        self.format_record(record)
    }

    fn supports_colors(&self) -> bool {
        false
    }
}

/// Renders records as `key=value` fields joined by a separator.
pub struct StructuredFormatter {
    pub include_metadata: bool,
    pub field_separator: String,
}

impl StructuredFormatter {
    /// A formatter joining fields with ` | `.
    pub fn new() -> (r: StructuredFormatter)
        ensures
            r.include_metadata,
            r.field_separator@ == " | "@,
    {
        StructuredFormatter { include_metadata: true, field_separator: String::from_str(" | ") }
    }

    /// A formatter joining fields with the given separator.
    pub fn with_separator(separator: &str) -> (r: StructuredFormatter)
        ensures
            r.include_metadata,
            r.field_separator@ == separator@,
    {
        StructuredFormatter { include_metadata: true, field_separator: separator.to_owned() }
    }

    /// Renders one record as separator-joined `key=value` fields, starting
    /// with the timestamp.
    pub fn format_record(&self, record: &LogRecord) -> (r: String)
        ensures
            r@.len() >= "timestamp="@.len(),
            r@.subrange(0, "timestamp="@.len() as int) == "timestamp="@,
    {
        proof {
            reveal_strlit("timestamp=");
            reveal_strlit("level=");
            reveal_strlit("target=");
            reveal_strlit("message=");
            reveal_strlit("file=");
            reveal_strlit("line=");
            reveal_strlit("module=");
            reveal_strlit("=");
        }
        let mut r = String::from_str("timestamp=");
        let digits = u64_to_dec(record.timestamp);
        r.append(digits.as_str());
        let ghost prefix_len = "timestamp="@.len() as int;
        proof {
            assert(r@.subrange(0, prefix_len) =~= "timestamp="@);
        }
        r.append(self.field_separator.as_str());
        r.append("level=");
        let name = record.level.as_str();
        r.append(name.as_str());
        r.append(self.field_separator.as_str());
        r.append("target=");
        r.append(record.target.as_str());
        r.append(self.field_separator.as_str());
        r.append("message=");
        r.append(record.message.as_str());
        match &record.file {
            Some(file) => {
                r.append(self.field_separator.as_str());
                r.append("file=");
                r.append(file.as_str());
            },
            None => {},
        }
        match &record.line {
            Some(line) => {
                r.append(self.field_separator.as_str());
                r.append("line=");
                let line_digits = u64_to_dec(*line as u64);
                r.append(line_digits.as_str());
            },
            None => {},
        }
        match &record.module {
            Some(module) => {
                r.append(self.field_separator.as_str());
                r.append("module=");
                r.append(module.as_str());
            },
            None => {},
        }
        if self.include_metadata && record.metadata.len() > 0 {
            let n = record.metadata.len();
            let mut i: usize = 0;
            while i < n
                invariant
                    n == record.metadata@.len(),
                    0 <= i <= n,
                    prefix_len == "timestamp="@.len(),
                    r@.len() >= prefix_len,
                    r@.subrange(0, prefix_len) == "timestamp="@,
                decreases n - i,
            {
                proof {
                    reveal_strlit("=");
                    reveal_strlit("timestamp=");
                }
                r.append(self.field_separator.as_str());
                r.append(record.metadata[i].0.as_str());
                r.append("=");
                r.append(record.metadata[i].1.as_str());
                i = i + 1;
                proof {
                    assert(r@.subrange(0, prefix_len) =~= "timestamp="@);
                }
            }
        }
        proof {
            assert(r@.subrange(0, prefix_len) =~= "timestamp="@);
        }
        r
    }
}

impl Formatter for StructuredFormatter {
    fn format(&self, record: &LogRecord) -> String {
        self.format_record(record)
    }

    fn supports_colors(&self) -> bool {
        false
    }
}

/// Relies on `std::io::Stdout` via `writeln!`: prints one line to standard
/// output.
#[verifier::external_body]
fn emit_stdout_line(line: &str) {
    let _ = writeln!(std::io::stdout(), "{}", line);
}

/// Relies on `std::io::Stderr` via `writeln!`: prints one line to standard
/// error.
#[verifier::external_body]
fn emit_stderr_line(line: &str) {
    let _ = writeln!(std::io::stderr(), "{}", line);
}

/// Consumes finished log records.  The crate's console writer implements
/// it; users implement it for sinks of their own — files, sockets, ring
/// buffers.  A writer must never fail the logging operation itself.
pub trait Writer: Send + Sync {
    /// Takes one record.
    fn write(&mut self, record: &LogRecord);

    /// Flushes anything buffered; `true` on success.
    fn flush(&mut self) -> bool;

    /// Whether the sink renders ANSI colors.
    fn supports_colors(&self) -> bool;
}

/// Writes rendered records to the terminal: errors and worse to standard
/// error, everything else to standard output.
pub struct ConsoleWriter {
    formatter: Box<dyn Formatter>,
    use_stderr_for_errors: bool,
    color_support: bool,
}

impl ConsoleWriter {
    /// A console writer with the standard formatter and colors on.
    pub fn new() -> ConsoleWriter {
        ConsoleWriter {
            formatter: Box::new(DefaultFormatter::new()),
            use_stderr_for_errors: true,
            color_support: true,
        }
    }

    /// A console writer rendering through the given formatter.
    pub fn with_formatter(formatter: Box<dyn Formatter>) -> ConsoleWriter {
        ConsoleWriter { formatter, use_stderr_for_errors: true, color_support: true }
    }

    /// A console writer with colors off.
    pub fn without_colors() -> ConsoleWriter {
        ConsoleWriter {
            formatter: Box::new(DefaultFormatter::without_colors()),
            use_stderr_for_errors: true,
            color_support: false,
        }
    }

    /// This writer routing errors to standard error, or not.
    pub fn stderr_for_errors(self, use_stderr: bool) -> (r: ConsoleWriter)
        ensures
            r.spec_use_stderr() == use_stderr,
    {
        ConsoleWriter { use_stderr_for_errors: use_stderr, ..self }
    }

    /// This writer with color support switched on or off.
    pub fn with_color_support(self, color_support: bool) -> (r: ConsoleWriter)
        ensures
            r.spec_color_support() == color_support,
    {
        ConsoleWriter { color_support, ..self }
    }

    /// Whether errors go to standard error.
    pub closed spec fn spec_use_stderr(&self) -> bool {
        self.use_stderr_for_errors
    }

    /// Whether the sink renders ANSI colors.
    pub closed spec fn spec_color_support(&self) -> bool {
        self.color_support
    }
}

impl Writer for ConsoleWriter {
    fn write(&mut self, record: &LogRecord) {
        let mut message = self.formatter.format(record);
        if !self.color_support || !self.formatter.supports_colors() {
            message = ColorProcessor::strip_ansi_codes(message.as_str());
        }
        let is_error = record.level.priority() >= 50;
        if self.use_stderr_for_errors && is_error {
            emit_stderr_line(message.as_str());
        } else {
            emit_stdout_line(message.as_str());
        }
    }

    fn flush(&mut self) -> bool {
        true
    }

    fn supports_colors(&self) -> bool {
        self.color_support
    }
}

/// When a file-backed sink rolls over to a fresh file.
#[derive(Debug, Clone)]
pub enum RotationPolicy {
    /// When the file reaches the given size in bytes.
    Size(u64),
    /// When the given number of milliseconds has passed.
    Time(u64),
    /// When the calendar day changes.
    Daily,
    /// When the hour changes.
    Hourly,
    /// On a condition the embedding application checks itself.
    Custom,
    /// Never.
    Never,
}

/// The running state of a rotating sink.  Times are seconds since the Unix
/// epoch.
#[derive(Debug, Clone)]
pub struct RotationState {
    pub current_size: u64,
    pub creation_time: u64,
    pub last_rotation: u64,
    pub rotation_count: u32,
}

impl RotationState {
    /// A fresh state: nothing written, created and last rotated now.
    pub fn new() -> (r: RotationState)
        ensures
            r.current_size == 0,
            r.rotation_count == 0,
            r.creation_time == r.last_rotation,
    {
        let now = (crate::time::now_unix_nanos() / 1000000000) as u64;
        RotationState { current_size: 0, creation_time: now, last_rotation: now, rotation_count: 0 }
    }
}

/// Decides whether a rotating sink should roll over, from its policy, its
/// state and the time now.
pub fn should_rotate(
    policy: &RotationPolicy,
    state: &RotationState,
    now_seconds: u64,
) -> (r: bool)
    ensures
        r == spec_should_rotate(*policy, *state, now_seconds),
{
    match policy {
        RotationPolicy::Never => false,
        RotationPolicy::Size(max_size) => state.current_size >= *max_size,
        RotationPolicy::Time(window_millis) => {
            now_seconds >= state.last_rotation && (now_seconds - state.last_rotation) as u128
                * 1000 >= *window_millis as u128
        },
        RotationPolicy::Daily => now_seconds / 86400 > state.last_rotation / 86400,
        RotationPolicy::Hourly => now_seconds / 3600 > state.last_rotation / 3600,
        RotationPolicy::Custom => false,
    }
}

/// The rollover decision: by size, by elapsed time, by day or hour change;
/// never for the `Never` and `Custom` policies.
pub open spec fn spec_should_rotate(
    policy: RotationPolicy,
    state: RotationState,
    now_seconds: u64,
) -> bool {
    match policy {
        RotationPolicy::Never => false,
        RotationPolicy::Size(max_size) => state.current_size >= max_size,
        RotationPolicy::Time(window_millis) => now_seconds >= state.last_rotation && (
        now_seconds - state.last_rotation) * 1000 >= window_millis,
        RotationPolicy::Daily => now_seconds / 86400 > state.last_rotation / 86400,
        RotationPolicy::Hourly => now_seconds / 3600 > state.last_rotation / 3600,
        RotationPolicy::Custom => false,
    }
}

/// Counters of what a logger has processed.
#[derive(Debug)]
pub struct LoggerMetrics {
    pub total_logs: u64,
    pub total_bytes: u64,
    pub errors: u64,
    pub start_time: u64,
    pub last_log_time: Option<u64>,
    pub logs_by_level: Vec<(String, u64)>,
}

/// A snapshot of a logger's counters.
#[derive(Debug, Clone)]
pub struct LoggerStats {
    pub total_logs: u64,
    pub total_bytes: u64,
    pub errors: u64,
    pub uptime_seconds: u64,
    pub logs_per_second: u64,
    pub bytes_per_second: u64,
    pub level_stats: Vec<(String, u64)>,
    pub last_log_time: Option<u64>,
}

impl LoggerMetrics {
    /// Fresh counters, started now.
    pub fn new() -> (r: LoggerMetrics)
        ensures
            r.total_logs == 0,
            r.total_bytes == 0,
            r.errors == 0,
            r.last_log_time is None,
            r.logs_by_level@.len() == 0,
    {
        let now = (crate::time::now_unix_nanos() / 1000000000) as u64;
        LoggerMetrics {
            total_logs: 0,
            total_bytes: 0,
            errors: 0,
            start_time: now,
            last_log_time: None,
            logs_by_level: Vec::new(),
        }
    }

    /// Counts one record of the given level and size.
    pub fn record_log(&mut self, level: &Level, bytes: u64)
        ensures
            final(self).total_logs == if old(self).total_logs < u64::MAX {
                old(self).total_logs + 1
            } else {
                old(self).total_logs as int
            },
            final(self).total_bytes == if old(self).total_bytes <= u64::MAX - bytes {
                old(self).total_bytes + bytes
            } else {
                old(self).total_bytes as int
            },
            final(self).errors == old(self).errors,
            final(self).last_log_time is Some,
    {
        if self.total_logs < u64::MAX {
            self.total_logs = self.total_logs + 1;
        }
        if self.total_bytes <= u64::MAX - bytes {
            self.total_bytes = self.total_bytes + bytes;
        }
        let level_name = level.as_str();
        let ghost t_logs = self.total_logs;
        let ghost t_bytes = self.total_bytes;
        let ghost t_errors = self.errors;
        let n = self.logs_by_level.len();
        let mut i: usize = 0;
        let mut found = false;
        while i < n
            invariant
                n == self.logs_by_level@.len(),
                0 <= i <= n,
                self.total_logs == t_logs,
                self.total_bytes == t_bytes,
                self.errors == t_errors,
            decreases n - i,
        {
            if !found && str_eq(self.logs_by_level[i].0.as_str(), level_name.as_str()) {
                let count = self.logs_by_level[i].1;
                if count < u64::MAX {
                    self.logs_by_level[i] = (level_name.clone(), count + 1);
                }
                found = true;
            }
            i = i + 1;
        }
        if !found {
            self.logs_by_level.push((level_name, 1));
        }
        let now = (crate::time::now_unix_nanos() / 1000000000) as u64;
        self.last_log_time = Some(now);
    }

    /// Counts one writer failure.
    pub fn record_error(&mut self)
        ensures
            final(self).errors == if old(self).errors < u64::MAX {
                old(self).errors + 1
            } else {
                old(self).errors as int
            },
            final(self).total_logs == old(self).total_logs,
            final(self).total_bytes == old(self).total_bytes,
    {
        if self.errors < u64::MAX {
            self.errors = self.errors + 1;
        }
    }

    /// A snapshot of the counters, with per-second rates over the uptime.
    pub fn get_stats(&self) -> (r: LoggerStats)
        ensures
            r.total_logs == self.total_logs,
            r.total_bytes == self.total_bytes,
            r.errors == self.errors,
            r.last_log_time == self.last_log_time,
            r.uptime_seconds > 0 ==> r.logs_per_second == self.total_logs / r.uptime_seconds
                && r.bytes_per_second == self.total_bytes / r.uptime_seconds,
            r.uptime_seconds == 0 ==> r.logs_per_second == 0 && r.bytes_per_second == 0,
    {
        let now = (crate::time::now_unix_nanos() / 1000000000) as u64;
        let uptime_seconds: u64 = if now >= self.start_time {
            now - self.start_time
        } else {
            0
        };
        let n = self.logs_by_level.len();
        let mut level_stats: Vec<(String, u64)> = Vec::new();
        let mut i: usize = 0;
        while i < n
            invariant
                n == self.logs_by_level@.len(),
                0 <= i <= n,
            decreases n - i,
        {
            level_stats.push((self.logs_by_level[i].0.clone(), self.logs_by_level[i].1));
            i = i + 1;
        }
        LoggerStats {
            total_logs: self.total_logs,
            total_bytes: self.total_bytes,
            errors: self.errors,
            uptime_seconds,
            logs_per_second: if uptime_seconds > 0 {
                self.total_logs / uptime_seconds
            } else {
                0
            },
            bytes_per_second: if uptime_seconds > 0 {
                self.total_bytes / uptime_seconds
            } else {
                0
            },
            level_stats,
            last_log_time: self.last_log_time,
        }
    }

    /// Zeroes every counter.
    pub fn reset(&mut self)
        ensures
            final(self).total_logs == 0,
            final(self).total_bytes == 0,
            final(self).errors == 0,
            final(self).last_log_time is None,
            final(self).logs_by_level@.len() == 0,
    {
        self.total_logs = 0;
        self.total_bytes = 0;
        self.errors = 0;
        self.last_log_time = None;
        self.logs_by_level.clear();
    }
}

/// Sees every record before and after it is written; may veto it.
pub trait LogMiddleware: Send + Sync {
    /// Runs before the write; returning `false` skips the record.
    fn before_log(&mut self, record: &mut LogRecord) -> bool;

    /// Runs after the write, told whether it went through.
    fn after_log(&mut self, record: &LogRecord, ok: bool);

    /// The middleware's name.
    fn name(&self) -> &str;
}

/// Adds ambient context — request identifiers and the like — to every
/// record's metadata.
pub struct ContextMiddleware {
    name: String,
    context_data: Vec<(String, String)>,
}

impl ContextMiddleware {
    /// An empty context.
    pub fn new() -> (r: ContextMiddleware)
        ensures
            r.spec_context().len() == 0,
    {
        ContextMiddleware { name: String::from_str("context"), context_data: Vec::new() }
    }

    /// This middleware under another name.
    pub fn with_name(self, name: &str) -> (r: ContextMiddleware)
        ensures
            r.spec_context() == self.spec_context(),
    {
        ContextMiddleware { name: name.to_owned(), context_data: self.context_data }
    }

    /// The ambient pairs.
    pub closed spec fn spec_context(&self) -> Seq<(String, String)> {
        self.context_data@
    }

    /// Sets one ambient pair.
    pub fn set_context(&mut self, key: &str, value: &str)
        ensures
            final(self).spec_context().len() >= 1,
    {
        let n = self.context_data.len();
        let mut i: usize = 0;
        while i < n
            invariant
                n == self.context_data@.len(),
                0 <= i <= n,
            decreases n - i,
        {
            if str_eq(self.context_data[i].0.as_str(), key) {
                self.context_data[i] = (key.to_owned(), value.to_owned());
                return ;
            }
            i = i + 1;
        }
        self.context_data.push((key.to_owned(), value.to_owned()));
    }

    /// Removes one ambient pair.
    pub fn remove_context(&mut self, key: &str) {
        let n = self.context_data.len();
        let mut out: Vec<(String, String)> = Vec::new();
        let mut i: usize = 0;
        while i < n
            invariant
                n == self.context_data@.len(),
                0 <= i <= n,
            decreases n - i,
        {
            if !str_eq(self.context_data[i].0.as_str(), key) {
                out.push(
                    (self.context_data[i].0.clone(), self.context_data[i].1.clone()),
                );
            }
            i = i + 1;
        }
        self.context_data = out;
    }

    /// Clears every ambient pair.
    pub fn clear_context(&mut self)
        ensures
            final(self).spec_context().len() == 0,
    {
        self.context_data.clear();
    }
}

impl LogMiddleware for ContextMiddleware {
    fn before_log(&mut self, record: &mut LogRecord) -> bool {
        let n = self.context_data.len();
        let mut i: usize = 0;
        while i < n
            invariant
                n == self.context_data@.len(),
                0 <= i <= n,
            decreases n - i,
        {
            record.metadata.push(
                (self.context_data[i].0.clone(), self.context_data[i].1.clone()),
            );
            i = i + 1;
        }
        true
    }

    fn after_log(&mut self, record: &LogRecord, ok: bool) {
        let _ = record;
        let _ = ok;
    }

    fn name(&self) -> &str {
        self.name.as_str()
    }
}

/// Caps how many records pass per time window, dropping the rest.
pub struct RateLimitMiddleware {
    name: String,
    max_logs_per_window: u64,
    window_millis: u64,
    log_timestamps: Vec<u128>,
}

impl RateLimitMiddleware {
    /// A limiter allowing the given number of records per second.
    pub fn new(max_logs_per_second: u64) -> RateLimitMiddleware {
        RateLimitMiddleware {
            name: String::from_str("rate_limit"),
            max_logs_per_window: max_logs_per_second,
            window_millis: 1000,
            log_timestamps: Vec::new(),
        }
    }

    /// This limiter over another window, in milliseconds.
    pub fn with_window(self, window_millis: u64) -> RateLimitMiddleware {
        RateLimitMiddleware { window_millis, ..self }
    }

    /// This limiter under another name.
    pub fn with_name(self, name: &str) -> RateLimitMiddleware {
        RateLimitMiddleware { name: name.to_owned(), ..self }
    }
}

impl LogMiddleware for RateLimitMiddleware {
    fn before_log(&mut self, record: &mut LogRecord) -> bool {
        let _ = record;
        let now = crate::time::now_unix_nanos() / 1000000;
        let n = self.log_timestamps.len();
        let mut kept: Vec<u128> = Vec::new();
        let mut i: usize = 0;
        while i < n
            invariant
                n == self.log_timestamps@.len(),
                0 <= i <= n,
                kept@.len() <= i,
            decreases n - i,
        {
            let t = self.log_timestamps[i];
            if t <= now && now - t <= self.window_millis as u128 {
                kept.push(t);
            }
            i = i + 1;
        }
        self.log_timestamps = kept;
        if self.log_timestamps.len() as u64 >= self.max_logs_per_window {
            return false;
        }
        self.log_timestamps.push(now);
        true
    }

    fn after_log(&mut self, record: &LogRecord, ok: bool) {
        let _ = record;
        let _ = ok;
    }

    fn name(&self) -> &str {
        self.name.as_str()
    }
}

/// Wraps a writer with middleware and optional metrics.
pub struct MiddlewareWriter {
    writer: Box<dyn Writer>,
    middlewares: Vec<Box<dyn LogMiddleware>>,
    metrics: Option<LoggerMetrics>,
}

impl MiddlewareWriter {
    /// A plain wrapper around one writer.
    pub fn new(writer: Box<dyn Writer>) -> MiddlewareWriter {
        MiddlewareWriter { writer, middlewares: Vec::new(), metrics: None }
    }

    /// This wrapper with one more middleware, run in order of addition.
    pub fn with_middleware(self, middleware: Box<dyn LogMiddleware>) -> MiddlewareWriter {
        let mut middlewares = self.middlewares;
        middlewares.push(middleware);
        MiddlewareWriter { middlewares, writer: self.writer, metrics: self.metrics }
    }

    /// This wrapper counting what passes through.
    pub fn with_metrics(self, metrics: LoggerMetrics) -> MiddlewareWriter {
        MiddlewareWriter { metrics: Some(metrics), writer: self.writer, middlewares: self.middlewares }
    }
}

impl Writer for MiddlewareWriter {
    fn write(&mut self, record: &LogRecord) {
        let mut record = record.clone();
        let n = self.middlewares.len();
        let mut i: usize = 0;
        while i < n
            invariant
                n == self.middlewares@.len(),
                0 <= i <= n,
            decreases n - i,
        {
            let passed = self.middlewares[i].before_log(&mut record);
            if !passed {
                return ;
            }
            i = i + 1;
        }
        match &mut self.metrics {
            Some(metrics) => {
                let size = record.message.as_str().unicode_len() as u64;
                metrics.record_log(&record.level, size);
            },
            None => {},
        }
        self.writer.write(&record);
        let mut k: usize = 0;
        while k < n
            invariant
                n == self.middlewares@.len(),
                0 <= k <= n,
            decreases n - k,
        {
            self.middlewares[k].after_log(&record, true);
            k = k + 1;
        }
    }

    fn flush(&mut self) -> bool {
        self.writer.flush()
    }

    fn supports_colors(&self) -> bool {
        self.writer.supports_colors()
    }
}

/// Where a network sink sends records.
#[derive(Debug, Clone)]
pub enum NetworkProtocol {
    Tcp,
    Udp,
    Http { endpoint: String, headers: Vec<(String, String)> },
    Syslog { facility: u8, severity: u8 },
}

/// The assembled configuration of a logger.
pub struct LogConfig {
    pub level_filter: LevelFilter,
    pub writers: Vec<Box<dyn Writer>>,
    pub time_format: TimeFormat,
    pub async_logging: bool,
}

impl Default for LogConfig {
    /// An info-level configuration with no writers.
    fn default() -> (r: LogConfig)
        ensures
            r.level_filter.spec_min_level() == 20,
            r.writers@.len() == 0,
            !r.async_logging,
    {
        LogConfig {
            level_filter: LevelFilter::new(Level::info()),
            writers: Vec::new(),
            time_format: TimeFormat::LocalTime,
            async_logging: false,
        }
    }
}

/// Assembles a [`Logger`] step by step.  Sinks that need the file system or
/// the network cannot be opened here; the embedding application builds
/// those writers itself and attaches them with
/// [`LoggerBuilder::add_writer`].
pub struct LoggerBuilder {
    pub config: LogConfig,
    pub console_formatter: Option<Box<dyn Formatter>>,
    pub file_path: Option<String>,
    pub file_formatter: Option<Box<dyn Formatter>>,
    pub file_append: bool,
    pub use_colors: bool,
    pub show_timestamp: bool,
    pub show_target: bool,
    pub show_location: bool,
    pub show_thread: bool,
    pub level_width: usize,
    pub timestamp_brackets: bool,
    pub level_brackets: bool,
    pub target_brackets: bool,
    pub custom_writers: Vec<Box<dyn Writer>>,
    pub rotation_policy: Option<RotationPolicy>,
    pub max_backup_files: u32,
    pub middlewares: Vec<Box<dyn LogMiddleware>>,
    pub metrics: Option<LoggerMetrics>,
    pub network_writers: Vec<(String, NetworkProtocol)>,
}

impl LoggerBuilder {
    /// The standard starting point: info level, console output with colors,
    /// timestamp and target shown.
    pub fn new() -> (r: LoggerBuilder)
        ensures
            r.use_colors,
            r.show_timestamp,
            r.show_target,
            !r.show_location,
            !r.show_thread,
            r.level_width == 6,
            r.timestamp_brackets,
            r.level_brackets,
            r.target_brackets,
            r.file_append,
            r.file_path is None,
            r.max_backup_files == 5,
    {
        LoggerBuilder {
            config: LogConfig {
                level_filter: LevelFilter::new(Level::info()),
                writers: Vec::new(),
                time_format: TimeFormat::LocalTime,
                async_logging: false,
            },
            console_formatter: None,
            file_path: None,
            file_formatter: None,
            file_append: true,
            use_colors: true,
            show_timestamp: true,
            show_target: true,
            show_location: false,
            show_thread: false,
            level_width: 6,
            timestamp_brackets: true,
            level_brackets: true,
            target_brackets: true,
            custom_writers: Vec::new(),
            rotation_policy: None,
            max_backup_files: 5,
            middlewares: Vec::new(),
            metrics: None,
            network_writers: Vec::new(),
        }
    }

    /// Sets the minimum level.
    pub fn level(self, level: Level) -> (r: LoggerBuilder)
        ensures
            r.config.level_filter.spec_min_level() == spec_level_priority(level),
    {
        let mut builder = self;
        builder.config.level_filter.set_min_level_with_level(level);
        builder
    }

    /// Sets the minimum level from a level name.
    pub fn level_str(self, level: &str) -> (r: LoggerBuilder) {
        let parsed = Level::parse_level(level);
        self.level(parsed)
    }

    /// Sets the timestamp format.
    pub fn time_format(self, format: TimeFormat) -> (r: LoggerBuilder)
        ensures
            r.config.time_format == format,
    {
        let mut builder = self;
        builder.config.time_format = format;
        builder
    }

    /// Sets the timestamp format from a name; an unknown name keeps local
    /// time.
    pub fn time_format_str(self, format: &str) -> (r: LoggerBuilder) {
        let lower = crate::text::ascii_lowercase(format);
        let chosen: TimeFormat = if str_eq(lower.as_str(), "unix") {
            TimeFormat::Unix
        } else if str_eq(lower.as_str(), "unix_millis") {
            TimeFormat::UnixMillis
        } else if str_eq(lower.as_str(), "system") {
            TimeFormat::SystemTime
        } else if str_eq(lower.as_str(), "local") {
            TimeFormat::LocalTime
        } else if str_eq(lower.as_str(), "iso8601") {
            TimeFormat::Iso8601
        } else if str_eq(lower.as_str(), "relative") {
            TimeFormat::Relative
        } else {
            TimeFormat::LocalTime
        };
        self.time_format(chosen)
    }

    /// Switches colors on.
    pub fn with_colors(self) -> (r: LoggerBuilder)
        ensures
            r.use_colors,
            r.config.level_filter.spec_min_level() == self.config.level_filter.spec_min_level(),
            r.show_location == self.show_location,
            r.show_thread == self.show_thread,
    {
        LoggerBuilder { use_colors: true, ..self }
    }

    /// Switches colors off.
    pub fn without_colors(self) -> (r: LoggerBuilder)
        ensures
            !r.use_colors,
    {
        LoggerBuilder { use_colors: false, ..self }
    }

    /// Shows or hides the timestamp.
    pub fn show_timestamp(self, show: bool) -> (r: LoggerBuilder)
        ensures
            r.show_timestamp == show,
    {
        LoggerBuilder { show_timestamp: show, ..self }
    }

    /// Shows or hides the target.
    pub fn show_target(self, show: bool) -> (r: LoggerBuilder)
        ensures
            r.show_target == show,
    {
        LoggerBuilder { show_target: show, ..self }
    }

    /// Shows or hides the source location.
    pub fn show_location(self, show: bool) -> (r: LoggerBuilder)
        ensures
            r.show_location == show,
            r.use_colors == self.use_colors,
            r.config.level_filter.spec_min_level() == self.config.level_filter.spec_min_level(),
            r.show_thread == self.show_thread,
    {
        LoggerBuilder { show_location: show, ..self }
    }

    /// Shows or hides the thread.
    pub fn show_thread(self, show: bool) -> (r: LoggerBuilder)
        ensures
            r.show_thread == show,
            r.use_colors == self.use_colors,
            r.config.level_filter.spec_min_level() == self.config.level_filter.spec_min_level(),
            r.show_location == self.show_location,
    {
        LoggerBuilder { show_thread: show, ..self }
    }

    /// Sets the width the level tag is padded to.
    pub fn level_width(self, width: usize) -> (r: LoggerBuilder)
        ensures
            r.level_width == width,
    {
        LoggerBuilder { level_width: width, ..self }
    }

    /// Shows or hides the brackets around the timestamp.
    pub fn timestamp_brackets(self, show_brackets: bool) -> (r: LoggerBuilder)
        ensures
            r.timestamp_brackets == show_brackets,
    {
        LoggerBuilder { timestamp_brackets: show_brackets, ..self }
    }

    /// Shows or hides the brackets around the level tag.
    pub fn level_brackets(self, show_brackets: bool) -> (r: LoggerBuilder)
        ensures
            r.level_brackets == show_brackets,
    {
        LoggerBuilder { level_brackets: show_brackets, ..self }
    }

    /// Shows or hides the brackets around the target.
    pub fn target_brackets(self, show_brackets: bool) -> (r: LoggerBuilder)
        ensures
            r.target_brackets == show_brackets,
    {
        LoggerBuilder { target_brackets: show_brackets, ..self }
    }

    /// Hides every bracket.
    pub fn without_brackets(self) -> (r: LoggerBuilder)
        ensures
            !r.timestamp_brackets,
            !r.level_brackets,
            !r.target_brackets,
    {
        LoggerBuilder {
            timestamp_brackets: false,
            level_brackets: false,
            target_brackets: false,
            ..self
        }
    }

    /// Shows every bracket.
    pub fn with_brackets(self) -> (r: LoggerBuilder)
        ensures
            r.timestamp_brackets,
            r.level_brackets,
            r.target_brackets,
    {
        LoggerBuilder {
            timestamp_brackets: true,
            level_brackets: true,
            target_brackets: true,
            ..self
        }
    }

    /// Keeps console output on; the console writer is attached at build
    /// time.
    pub fn console(self) -> (r: LoggerBuilder)
        ensures
            r == self,
    {
        self
    }

    /// Remembers a log file path for the embedding application to open.
    pub fn file(self, path: &str) -> (r: LoggerBuilder)
        ensures
            r.file_path matches Some(p) && p@ == path@,
    {
        LoggerBuilder { file_path: Some(path.to_owned()), ..self }
    }

    /// Sets the console formatter.
    pub fn console_formatter(self, formatter: Box<dyn Formatter>) -> (r: LoggerBuilder)
        ensures
            r.console_formatter is Some,
    {
        LoggerBuilder { console_formatter: Some(formatter), ..self }
    }

    /// Sets the file formatter.
    pub fn file_formatter(self, formatter: Box<dyn Formatter>) -> (r: LoggerBuilder)
        ensures
            r.file_formatter is Some,
    {
        LoggerBuilder { file_formatter: Some(formatter), ..self }
    }

    /// Appends to the log file rather than overwriting it, or not.
    pub fn file_append(self, append: bool) -> (r: LoggerBuilder)
        ensures
            r.file_append == append,
    {
        LoggerBuilder { file_append: append, ..self }
    }

    /// Overwrites the log file on opening.
    pub fn file_overwrite(self) -> (r: LoggerBuilder)
        ensures
            !r.file_append,
    {
        LoggerBuilder { file_append: false, ..self }
    }

    /// Attaches one more writer.
    pub fn add_writer(self, writer: Box<dyn Writer>) -> (r: LoggerBuilder) {
        let mut builder = self;
        builder.custom_writers.push(writer);
        builder
    }

    /// Marks the logger for asynchronous writing; the embedding application
    /// supplies the thread.
    pub fn async_logging(self, async_log: bool) -> (r: LoggerBuilder)
        ensures
            r.config.async_logging == async_log,
    {
        let mut builder = self;
        builder.config.async_logging = async_log;
        builder
    }

    /// Explicitly enables a level name.
    pub fn enable_level(self, level_name: &str) -> (r: LoggerBuilder) {
        let mut builder = self;
        builder.config.level_filter.enable_level(level_name);
        builder
    }

    /// Explicitly disables a level name.
    pub fn disable_level(self, level_name: &str) -> (r: LoggerBuilder) {
        let mut builder = self;
        builder.config.level_filter.disable_level(level_name);
        builder
    }

    /// Explicitly enables several level names.
    pub fn enable_levels(self, level_names: &[&str]) -> (r: LoggerBuilder) {
        let mut builder = self;
        builder.config.level_filter.enable_levels(level_names);
        builder
    }

    /// Explicitly disables several level names.
    pub fn disable_levels(self, level_names: &[&str]) -> (r: LoggerBuilder) {
        let mut builder = self;
        builder.config.level_filter.disable_levels(level_names);
        builder
    }

    /// Remembers a rotation policy for the embedding application's file
    /// sink.
    pub fn file_rotation(self, policy: RotationPolicy) -> (r: LoggerBuilder)
        ensures
            r.rotation_policy is Some,
    {
        LoggerBuilder { rotation_policy: Some(policy), ..self }
    }

    /// Caps how many rotated files the embedding application keeps.
    pub fn max_backup_files(self, count: u32) -> (r: LoggerBuilder)
        ensures
            r.max_backup_files == count,
    {
        LoggerBuilder { max_backup_files: count, ..self }
    }

    /// Remembers a TCP target for the embedding application to connect.
    pub fn tcp_output(self, address: &str) -> (r: LoggerBuilder)
        ensures
            r.network_writers@.len() == self.network_writers@.len() + 1,
    {
        proof {
            reveal_strlit("tcp://");
        }
        let mut target = String::from_str("tcp://");
        target.append(address);
        let mut builder = self;
        builder.network_writers.push((target, NetworkProtocol::Tcp));
        builder
    }

    /// Remembers a UDP target for the embedding application to connect.
    pub fn udp_output(self, address: &str) -> (r: LoggerBuilder)
        ensures
            r.network_writers@.len() == self.network_writers@.len() + 1,
    {
        proof {
            reveal_strlit("udp://");
        }
        let mut target = String::from_str("udp://");
        target.append(address);
        let mut builder = self;
        builder.network_writers.push((target, NetworkProtocol::Udp));
        builder
    }

    /// Remembers a syslog target for the embedding application to connect.
    pub fn syslog_output(self, address: &str, facility: u8) -> (r: LoggerBuilder)
        ensures
            r.network_writers@.len() == self.network_writers@.len() + 1,
    {
        proof {
            reveal_strlit("syslog://");
        }
        let mut target = String::from_str("syslog://");
        target.append(address);
        let mut builder = self;
        builder.network_writers.push((target, NetworkProtocol::Syslog { facility, severity: 6 }));
        builder
    }

    /// Attaches one more middleware.
    pub fn with_middleware(self, middleware: Box<dyn LogMiddleware>) -> (r: LoggerBuilder) {
        let mut builder = self;
        builder.middlewares.push(middleware);
        builder
    }

    /// Attaches a rate limiter.
    pub fn with_rate_limit(self, max_per_second: u64) -> (r: LoggerBuilder) {
        self.with_middleware(Box::new(RateLimitMiddleware::new(max_per_second)))
    }

    /// Attaches an ambient-context middleware.
    pub fn with_context(self) -> (r: LoggerBuilder) {
        self.with_middleware(Box::new(ContextMiddleware::new()))
    }

    /// Attaches fresh metrics counters.
    pub fn with_metrics(self) -> (r: LoggerBuilder)
        ensures
            r.metrics is Some,
    {
        LoggerBuilder { metrics: Some(LoggerMetrics::new()), ..self }
    }

    /// Attaches existing metrics counters.
    pub fn with_shared_metrics(self, metrics: LoggerMetrics) -> (r: LoggerBuilder)
        ensures
            r.metrics is Some,
    {
        LoggerBuilder { metrics: Some(metrics), ..self }
    }

    /// Renders console and file output as JSON.
    pub fn json_format(self) -> (r: LoggerBuilder)
        ensures
            r.console_formatter is Some,
            r.file_formatter is Some,
    {
        LoggerBuilder {
            console_formatter: Some(Box::new(JsonFormatter::new())),
            file_formatter: Some(Box::new(JsonFormatter::new())),
            ..self
        }
    }

    /// Renders console and file output as XML.
    pub fn xml_format(self) -> (r: LoggerBuilder)
        ensures
            r.console_formatter is Some,
            r.file_formatter is Some,
    {
        LoggerBuilder {
            console_formatter: Some(Box::new(XmlFormatter::new())),
            file_formatter: Some(Box::new(XmlFormatter::new())),
            ..self
        }
    }

    /// Renders console and file output as `key=value` fields.
    pub fn structured_format(self) -> (r: LoggerBuilder)
        ensures
            r.console_formatter is Some,
            r.file_formatter is Some,
    {
        LoggerBuilder {
            console_formatter: Some(Box::new(StructuredFormatter::new())),
            file_formatter: Some(Box::new(StructuredFormatter::new())),
            ..self
        }
    }

    /// A preset for development: debug level, colors, locations and
    /// threads shown.
    pub fn development(self) -> (r: LoggerBuilder)
        ensures
            r.config.level_filter.spec_min_level() == 10,
            r.use_colors,
            r.show_location,
            r.show_thread,
    {
        self.level(Level::debug()).with_colors().show_location(true).show_thread(true).console()
    }

    /// Assembles the logger: a console writer built from the configured
    /// formatter and flags, wrapped with the middlewares and metrics, then
    /// every writer attached with [`LoggerBuilder::add_writer`].  File and
    /// network sinks are not opened here; the embedding application
    /// attaches them as custom writers.
    pub fn build(self) -> Logger {
        let mut builder = self;
        let console_formatter: Box<dyn Formatter> = match builder.console_formatter {
            Some(formatter) => formatter,
            None => {
                let mut formatter = if builder.use_colors {
                    DefaultFormatter::new()
                } else {
                    DefaultFormatter::without_colors()
                };
                formatter.show_timestamp = builder.show_timestamp;
                formatter.show_target = builder.show_target;
                formatter.show_location = builder.show_location;
                formatter.show_thread = builder.show_thread;
                formatter.level_width = builder.level_width;
                formatter.timestamp_brackets = builder.timestamp_brackets;
                formatter.level_brackets = builder.level_brackets;
                formatter.target_brackets = builder.target_brackets;
                formatter.time_format = builder.config.time_format;
                Box::new(formatter)
            },
        };
        let console_writer = if builder.use_colors {
            ConsoleWriter::with_formatter(console_formatter)
        } else {
            ConsoleWriter::with_formatter(console_formatter).with_color_support(false)
        };
        let mut console_writer: Box<dyn Writer> = Box::new(console_writer);
        let has_middleware = builder.middlewares.len() > 0;
        let has_metrics = match &builder.metrics {
            Some(_) => true,
            None => false,
        };
        let mut metrics_for_logger: Option<LoggerMetrics> = None;
        if has_middleware || has_metrics {
            let mut middleware_writer = MiddlewareWriter::new(console_writer);
            while builder.middlewares.len() > 0
                decreases builder.middlewares@.len(),
            {
                let middleware = builder.middlewares.remove(0);
                middleware_writer = middleware_writer.with_middleware(middleware);
            }
            match builder.metrics {
                Some(metrics) => {
                    middleware_writer = middleware_writer.with_metrics(metrics);
                },
                None => {},
            }
            builder.metrics = None;
            console_writer = Box::new(middleware_writer);
        } else {
            metrics_for_logger = builder.metrics;
            builder.metrics = None;
        }
        let mut config = builder.config;
        config.writers.push(console_writer);
        while builder.custom_writers.len() > 0
            decreases builder.custom_writers@.len(),
        {
            let writer = builder.custom_writers.remove(0);
            config.writers.push(writer);
        }
        Logger { config, metrics: metrics_for_logger }
    }
}

/// The logger: a level filter in front of a set of writers.
pub struct Logger {
    pub config: LogConfig,
    pub metrics: Option<LoggerMetrics>,
}

impl Logger {
    /// A logger with the default configuration and no writers.
    pub fn new() -> (r: Logger)
        ensures
            r.config.writers@.len() == 0,
            r.metrics is None,
    {
        Logger {
            config: LogConfig {
                level_filter: LevelFilter::new(Level::info()),
                writers: Vec::new(),
                time_format: TimeFormat::LocalTime,
                async_logging: false,
            },
            metrics: None,
        }
    }

    /// A logger from an assembled configuration.
    pub fn from_config(config: LogConfig) -> (r: Logger)
        ensures
            r.metrics is None,
    {
        Logger { config, metrics: None }
    }

    /// A logger from an assembled configuration and optional counters.
    pub fn from_config_with_metrics(config: LogConfig, metrics: Option<LoggerMetrics>) -> Logger {
        Logger { config, metrics }
    }

    /// A fresh builder.
    pub fn builder() -> LoggerBuilder {
        LoggerBuilder::new()
    }

    /// Logs one message: filtered by the level filter, stamped, located,
    /// and handed to every writer.
    pub fn log(
        &mut self,
        level: Level,
        target: &str,
        message: &str,
        file: Option<&str>,
        line: Option<u32>,
        module: Option<&str>,
    ) {
        if !self.config.level_filter.should_log(&level) {
            return ;
        }
        let mut record = LogRecord::new(level, target, message);
        match (file, line, module) {
            (Some(f), Some(l), Some(m)) => {
                record = record.with_location(f, l, m);
            },
            _ => {},
        }
        let n = self.config.writers.len();
        let mut i: usize = 0;
        while i < n
            invariant
                n == self.config.writers@.len(),
                0 <= i <= n,
            decreases n - i,
        {
            self.config.writers[i].write(&record);
            i = i + 1;
        }
        match &mut self.metrics {
            Some(metrics) => {
                let size = record.message.as_str().unicode_len() as u64;
                metrics.record_log(&record.level, size);
            },
            None => {},
        }
    }

    /// Flushes every writer; `true` when all succeeded.
    pub fn flush(&mut self) -> bool {
        let n = self.config.writers.len();
        let mut ok = true;
        let mut i: usize = 0;
        while i < n
            invariant
                n == self.config.writers@.len(),
                0 <= i <= n,
            decreases n - i,
        {
            let flushed = self.config.writers[i].flush();
            ok = ok && flushed;
            i = i + 1;
        }
        ok
    }

    /// Whether a record at the given level would be logged.
    pub fn is_enabled(&self, level: &Level) -> (r: bool)
        ensures
            r == spec_should_log(
                self.config.level_filter.spec_min_level(),
                self.config.level_filter.spec_enabled(),
                self.config.level_filter.spec_disabled(),
                *level,
            ),
    {
        self.config.level_filter.should_log(level)
    }

    /// The counters, if the logger keeps any.
    pub fn get_metrics(&self) -> Option<&LoggerMetrics> {
        match &self.metrics {
            Some(metrics) => Some(metrics),
            None => None,
        }
    }

    /// A snapshot of the counters, if the logger keeps any.
    pub fn get_stats(&self) -> Option<LoggerStats> {
        match &self.metrics {
            Some(metrics) => Some(metrics.get_stats()),
            None => None,
        }
    }
}

} // verus!
