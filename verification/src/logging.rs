//! What is logged, and how it reaches a callback.
use std::str::FromStr;
use vstd::prelude::*;

verus! {

/// The levels of log entries.
#[derive(Clone, Copy, Debug, PartialEq, Eq, Structural)]
pub enum Level {
    Trace,
    Debug,
    Info,
    Warn,
    Error,
}

impl Level {
    /// The number of a level: the more severe, the higher.
    pub open spec fn number(self) -> i32 {
        match self {
            Level::Trace => 0,
            Level::Debug => 1,
            Level::Info => 2,
            Level::Warn => 3,
            Level::Error => 4,
        }
    }
}

/// The number that a callback is given for a level.
pub fn level_to_int(level: &Level) -> (n: i32)
    ensures
        n == level.number(),
{
    match level {
        Level::Error => 4,
        Level::Warn => 3,
        Level::Info => 2,
        Level::Debug => 1,
        Level::Trace => 0,
    }
}

/// Two levels with the same number are the same level.
pub proof fn law_level_numbers_differ(a: Level, b: Level)
    requires
        a.number() == b.number(),
    ensures
        a == b,
{
}

/// A character in lower case, if it is an ASCII letter.
pub open spec fn ascii_lower(c: char) -> char {
    if 'A' <= c && c <= 'Z' {
        (c as int + 32) as char
    } else {
        c
    }
}

/// Whether two texts differ in the case of ASCII letters at most.
pub open spec fn same_ignoring_case(a: Seq<char>, b: Seq<char>) -> bool {
    a.len() == b.len() && forall|i: int|
        0 <= i < a.len() ==> ascii_lower(#[trigger] a[i]) == ascii_lower(b[i])
}

/// The level that has this name, whatever its case.
pub open spec fn level_named(s: Seq<char>) -> Option<Level> {
    if same_ignoring_case(s, "error"@) {
        Some(Level::Error)
    } else if same_ignoring_case(s, "warn"@) {
        Some(Level::Warn)
    } else if same_ignoring_case(s, "info"@) {
        Some(Level::Info)
    } else if same_ignoring_case(s, "debug"@) {
        Some(Level::Debug)
    } else if same_ignoring_case(s, "trace"@) {
        Some(Level::Trace)
    } else {
        None
    }
}

/// The level that has this number: from 1 for errors to 5 for everything. Zeros may
/// come before it.
pub open spec fn level_numbered(digits: Seq<char>) -> Option<Level> {
    if digits.len() == 0 || exists|i: int| 0 <= i < digits.len() - 1 && digits[i] != '0' {
        None
    } else if digits.last() == '1' {
        Some(Level::Error)
    } else if digits.last() == '2' {
        Some(Level::Warn)
    } else if digits.last() == '3' {
        Some(Level::Info)
    } else if digits.last() == '4' {
        Some(Level::Debug)
    } else if digits.last() == '5' {
        Some(Level::Trace)
    } else {
        None
    }
}

/// The level that a text stands for: by its number, which a plus sign may come
/// before, or by its name.
pub open spec fn level_of(s: Seq<char>) -> Option<Level> {
    let digits = if s.len() > 0 && s[0] == '+' {
        s.skip(1)
    } else {
        s
    };
    match level_numbered(digits) {
        Some(l) => Some(l),
        None => level_named(s),
    }
}

/// `tracing::Level::from_str`: the level that a text stands for. It reads a number
/// as `usize::from_str` does, and takes 1 to 5; or one of the five names, in any
/// case.
#[verifier::external_body]
fn parse_level(s: &str) -> (r: Option<Level>)
    ensures
        r == level_of(s@),
{
    match tracing::Level::from_str(s).ok()? {
        tracing::Level::TRACE => Some(Level::Trace),
        tracing::Level::DEBUG => Some(Level::Debug),
        tracing::Level::INFO => Some(Level::Info),
        tracing::Level::WARN => Some(Level::Warn),
        tracing::Level::ERROR => Some(Level::Error),
    }
}

/// The level that a log is kept at where one was set: the one that was read, or
/// warnings where none could be.
pub fn level_or_warn(read: Option<Level>) -> (l: Level)
    ensures
        l == match read {
            Some(l) => l,
            None => Level::Warn,
        },
{
    match read {
        Some(level) => level,
        None => Level::Warn,
    }
}

/// The level that a log is kept at: the one that was set, warnings where what was
/// set is none, and `info` where nothing was set.
pub fn max_level(set: &Option<String>) -> (l: Level)
    ensures
        l == match set {
            Some(s) => match level_of(s@) {
                Some(l) => l,
                None => Level::Warn,
            },
            None => Level::Info,
        },
{
    match set {
        Some(s) => level_or_warn(parse_level(s.as_str())),
        None => Level::Info,
    }
}

/// The filter for a log that the environment does not set: the level that was
/// configured, or `info`.
pub fn default_filter(set: &Option<String>) -> (s: String)
    ensures
        s@ == match set {
            Some(level) => level@,
            None => "info"@,
        },
{
    match set {
        Some(level) => level.clone(),
        None => "info".to_owned(),
    }
}

/// The bytes of an entry that a callback is given: without the line break at the
/// end, if there is one.
pub fn entry_bytes(buf: &[u8]) -> (r: &[u8])
    ensures
        r@ == if buf@.len() > 0 && buf@.last() == 10 {
            buf@.drop_last()
        } else {
            buf@
        },
{
    let len: usize = buf.len();
    if len > 0 && buf[len - 1] == 10 {
        return vstd::slice::slice_subrange(buf, 0, len - 1);
    }
    buf
}

/// A more severe level has a higher number, from 0 to 4.
pub proof fn law_severe_levels_have_high_numbers(level: &Level, n: i32)
    requires
        call_ensures(level_to_int, (level,), n),
    ensures
        n == 0 <==> *level == Level::Trace,
        n == 1 <==> *level == Level::Debug,
        n == 2 <==> *level == Level::Info,
        n == 3 <==> *level == Level::Warn,
        n == 4 <==> *level == Level::Error,
        0 <= n <= 4,
{
}

/// A log is kept at the level that was set, at warnings where what was set is none, and at
/// `info` where nothing was.
pub proof fn law_log_is_kept_at_the_level(set: &Option<String>, l: Level)
    requires
        call_ensures(max_level, (set,), l),
    ensures
        set is None ==> l == Level::Info,
        set matches Some(s) ==> match level_of(s@) {
            Some(read) => l == read,
            None => l == Level::Warn,
        },
{
}

/// What was read is the level, and what could not be read is a warning.
pub proof fn law_unread_level_is_a_warning(read: Option<Level>, l: Level)
    requires
        call_ensures(level_or_warn, (read,), l),
    ensures
        read is Some ==> read == Some(l),
        read is None ==> l == Level::Warn,
{
}

/// The filter is the level that was configured, letter by letter, or `info`.
pub proof fn law_filter_is_the_level(set: &Option<String>, s: String)
    requires
        call_ensures(default_filter, (set,), s),
    ensures
        set matches Some(level) ==> s@ == level@,
        set is None ==> s@ == seq!['i', 'n', 'f', 'o'],
{
    reveal_strlit("info");
}

/// A callback is given an entry without the one line break at its end: whatever the entry
/// says, with a break behind it or without one, comes out.
pub proof fn law_entry_loses_its_line_break(buf: &[u8], r: &[u8], entry: Seq<u8>)
    requires
        call_ensures(entry_bytes, (buf,), r),
    ensures
        buf@ == entry.push(10) ==> r@ == entry,
        buf@ == entry && (entry.len() == 0 || entry[entry.len() - 1] != 10) ==> r@ == entry,
{
    if buf@ == entry.push(10) {
        assert(buf@.drop_last() =~= entry);
    }
}

} // verus!
