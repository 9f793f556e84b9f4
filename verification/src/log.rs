//! Diagnostics: the level from which lines are told, and who hears them.
use vstd::prelude::*;
use vstd::string::*;

use crate::text;
use crate::text::{chars_of, slice};

verus! {

/// How grave a line is.
#[derive(Clone, Copy, Debug, PartialEq, Eq, Structural, Hash, PartialOrd, Ord)]
pub enum McpLogLevel {
    Debug,
    Info,
    Warn,
    Error,
    Fatal,
}

impl McpLogLevel {
    /// The number of a level.
    pub open spec fn number(self) -> int {
        match self {
            McpLogLevel::Debug => 3,
            McpLogLevel::Info => 4,
            McpLogLevel::Warn => 5,
            McpLogLevel::Error => 6,
            McpLogLevel::Fatal => 7,
        }
    }

    /// The level of a number, where there is one.
    pub open spec fn numbered(n: int) -> Option<McpLogLevel> {
        if n == 3 {
            Some(McpLogLevel::Debug)
        } else if n == 4 {
            Some(McpLogLevel::Info)
        } else if n == 5 {
            Some(McpLogLevel::Warn)
        } else if n == 6 {
            Some(McpLogLevel::Error)
        } else if n == 7 {
            Some(McpLogLevel::Fatal)
        } else {
            None
        }
    }

    /// The name of a level.
    pub open spec fn named(self) -> Seq<char> {
        match self {
            McpLogLevel::Debug => "DEBUG"@,
            McpLogLevel::Info => "INFO"@,
            McpLogLevel::Warn => "WARN"@,
            McpLogLevel::Error => "ERROR"@,
            McpLogLevel::Fatal => "FATAL"@,
        }
    }

    /// The number of a level.
    pub fn as_u8(self) -> (r: u8)
        ensures
            r == self.number(),
    {
        match self {
            McpLogLevel::Debug => 3,
            McpLogLevel::Info => 4,
            McpLogLevel::Warn => 5,
            McpLogLevel::Error => 6,
            McpLogLevel::Fatal => 7,
        }
    }

    /// The level of a number, where there is one.
    pub fn from_u8(value: u8) -> (r: Option<Self>)
        ensures
            r == McpLogLevel::numbered(value as int),
    {
        match value {
            3 => Some(McpLogLevel::Debug),
            4 => Some(McpLogLevel::Info),
            5 => Some(McpLogLevel::Warn),
            6 => Some(McpLogLevel::Error),
            7 => Some(McpLogLevel::Fatal),
            _ => None,
        }
    }

    /// The name of a level, in capitals.
    pub fn name(self) -> (r: &'static str)
        ensures
            r@ == self.named(),
    {
        match self {
            McpLogLevel::Debug => "DEBUG",
            McpLogLevel::Info => "INFO",
            McpLogLevel::Warn => "WARN",
            McpLogLevel::Error => "ERROR",
            McpLogLevel::Fatal => "FATAL",
        }
    }
}

/// A number has a level exactly if it is the number of that level.
pub proof fn levels_and_numbers(l: McpLogLevel, n: int)
    ensures
        McpLogLevel::numbered(n) == Some(l) <==> l.number() == n,
{
}

/// The name of the level of a number, `UNKNOWN` where there is none.
pub fn log_level_name(level: u8) -> (r: &'static str)
    ensures
        r@ == match McpLogLevel::numbered(level as int) {
            Some(l) => l.named(),
            None => "UNKNOWN"@,
        },
{
    match McpLogLevel::from_u8(level) {
        Some(l) => l.name(),
        None => "UNKNOWN",
    }
}

/// The level from which lines are told, and who hears them. `C` is whatever hears a
/// line.
#[derive(Debug)]
pub struct LogState<C> {
    pub level: McpLogLevel,
    pub callback: Option<C>,
}

impl<C> LogState<C> {
    /// Lines are told from the informational ones on, and nobody in particular hears
    /// them.
    pub fn new() -> (r: Self)
        ensures
            r.level == McpLogLevel::Info,
            r.callback is None,
    {
        LogState { level: McpLogLevel::Info, callback: None }
    }
}

/// Sets the level by its number. A number that has no level changes nothing, and
/// gives -1.
pub fn set_log_level<C>(state: &mut LogState<C>, level: u8) -> (r: i32)
    ensures
        final(state).callback == old(state).callback,
        match McpLogLevel::numbered(level as int) {
            Some(l) => r == 0 && final(state).level == l,
            None => r == -1 && final(state).level == old(state).level,
        },
{
    match McpLogLevel::from_u8(level) {
        Some(l) => {
            state.level = l;
            0
        },
        None => -1,
    }
}

/// Sets the level.
pub fn set_log_level_typed<C>(state: &mut LogState<C>, level: McpLogLevel)
    ensures
        final(state).level == level,
        final(state).callback == old(state).callback,
{
    state.level = level;
}

/// The level from which lines are told.
pub fn get_log_level<C>(state: &LogState<C>) -> (r: McpLogLevel)
    ensures
        r == state.level,
{
    state.level
}

/// Sets who hears lines; with `None` nobody in particular does.
pub fn set_log_callback<C>(state: &mut LogState<C>, callback: Option<C>) -> (r: i32)
    ensures
        r == 0,
        final(state).callback == callback,
        final(state).level == old(state).level,
{
    state.callback = callback;
    0
}

/// Who hears lines.
pub fn get_log_callback<C>(state: &LogState<C>) -> (r: Option<&C>)
    ensures
        match r {
            Some(c) => state.callback == Some(*c),
            None => state.callback is None,
        },
{
    match &state.callback {
        Some(c) => Some(c),
        None => None,
    }
}

/// The time is written as a date and a time of day: whatever the year, the last
/// characters are `yyyy-mm-dd HH:MM:SS.mmm` in digits.
pub open spec fn dated(s: Seq<char>) -> bool {
    let n = s.len() as int;
    &&& n >= 23
    &&& forall|i: int|
        n - 23 <= i < n ==> if i == n - 19 || i == n - 16 {
            #[trigger] s[i] == '-'
        } else if i == n - 13 {
            s[i] == ' '
        } else if i == n - 10 || i == n - 7 {
            s[i] == ':'
        } else if i == n - 4 {
            s[i] == '.'
        } else {
            '0' <= s[i] <= '9'
        }
}

/// `chrono::Local::now`, written by `DateTime::format` as
/// `%Y-%m-%d %H:%M:%S%.3f`. What the time is, is not said: it differs from call to
/// call.
#[verifier::external_body]
fn local_time() -> (r: String)
    ensures
        dated(r@),
{
    chrono::Local::now().format("%Y-%m-%d %H:%M:%S%.3f").to_string()
}

/// The present time, as it stands in front of a line.
pub fn current_timestamp() -> (r: String)
    ensures
        dated(r@),
{
    local_time()
}

/// The part of a path after its last slash.
pub open spec fn file_name(path: Seq<char>) -> Seq<char>
    decreases path.len(),
{
    if path.len() == 0 || path.last() == '/' {
        seq![]
    } else {
        file_name(path.drop_last()).push(path.last())
    }
}

fn base_name(path: &str) -> (r: String)
    ensures
        r@ == file_name(path@),
{
    let cs = chars_of(path);
    let mut i: usize = cs.len();
    assert(cs@.take(i as int) =~= cs@);
    assert(cs@.subrange(i as int, cs@.len() as int) =~= seq![]);
    assert(file_name(cs@.take(i as int)) + cs@.subrange(i as int, cs@.len() as int) =~= file_name(
        cs@,
    ));
    while i > 0 && cs[i - 1] != '/'
        invariant
            i <= cs.len(),
            file_name(cs@) == file_name(cs@.take(i as int)) + cs@.subrange(
                i as int,
                cs@.len() as int,
            ),
        decreases i,
    {
        let ghost t = cs@.take(i as int);
        let ghost rest = cs@.subrange(i as int, cs@.len() as int);
        assert(t.drop_last() =~= cs@.take(i - 1));
        assert(t.last() == cs@[i - 1]);
        assert(file_name(t) == file_name(cs@.take(i - 1)).push(cs@[i - 1]));
        assert(file_name(t) + rest =~= file_name(cs@.take(i - 1)) + cs@.subrange(
            i - 1,
            cs@.len() as int,
        ));
        i = i - 1;
    }
    let r = slice(&cs, i, cs.len());
    assert(file_name(cs@.take(i as int)) =~= seq![]);
    assert(r@ =~= file_name(cs@));
    r
}

/// What becomes of a line.
pub enum LogOutput {
    /// It is below the level from which lines are told.
    Dropped,
    /// It goes, with all that stands in front of it, to whoever hears lines.
    Callback(String),
    /// It goes, as it is, to the general record.
    Record,
}

/// A line with all that stands in front of it: the time, the thread, the level, and
/// where it comes from.
pub open spec fn full_line(
    time: Seq<char>,
    thread: Seq<char>,
    level: McpLogLevel,
    file: Seq<char>,
    line: int,
    message: Seq<char>,
) -> Seq<char> {
    "["@ + time + "] ["@ + thread + "] ["@ + level.named() + "] "@ + file_name(file) + ":["@
        + text::decimal(line) + "] "@ + message
}

/// Decides what becomes of a line.
pub fn emit<C>(
    state: &LogState<C>,
    level: McpLogLevel,
    file: &str,
    line: u32,
    message: &str,
    time: &str,
    thread: &str,
) -> (r: LogOutput)
    ensures
        match r {
            LogOutput::Dropped => level.number() < state.level.number(),
            LogOutput::Callback(s) => level.number() >= state.level.number()
                && state.callback is Some && s@ == full_line(
                time@,
                thread@,
                level,
                file@,
                line as int,
                message@,
            ),
            LogOutput::Record => level.number() >= state.level.number() && state.callback is None,
        },
{
    if level.as_u8() < state.level.as_u8() {
        return LogOutput::Dropped;
    }
    if state.callback.is_none() {
        return LogOutput::Record;
    }
    let mut s = text::cat4("[", time, "] [", thread);
    s.append("] [");
    s.append(level.name());
    s.append("] ");
    s.append(base_name(file).as_str());
    s.append(":[");
    s.append(text::int_text(line as i128).as_str());
    s.append("] ");
    s.append(message);
    LogOutput::Callback(s)
}

} // verus!
