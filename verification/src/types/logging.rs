//! The levels of log messages that a server sends.
use vstd::prelude::*;

use crate::json::{Json, JsonView};
use crate::json;
use crate::text::str_eq;
use crate::wire::{Malformed, Wire};

verus! {

/// How grave a log message is.
#[derive(Clone, Copy, Debug, PartialEq, Eq, Structural, Hash, PartialOrd, Ord)]
pub enum LoggingLevel {
    Debug,
    Info,
    Notice,
    Warning,
    Error,
    Critical,
    Alert,
    Emergency,
}

impl LoggingLevel {
    /// The name of a level.
    pub open spec fn name(self) -> Seq<char> {
        match self {
            LoggingLevel::Debug => "debug"@,
            LoggingLevel::Info => "info"@,
            LoggingLevel::Notice => "notice"@,
            LoggingLevel::Warning => "warning"@,
            LoggingLevel::Error => "error"@,
            LoggingLevel::Critical => "critical"@,
            LoggingLevel::Alert => "alert"@,
            LoggingLevel::Emergency => "emergency"@,
        }
    }

    /// The name of a level.
    pub fn as_str(self) -> (r: &'static str)
        ensures
            r@ == self.name(),
    {
        match self {
            LoggingLevel::Debug => "debug",
            LoggingLevel::Info => "info",
            LoggingLevel::Notice => "notice",
            LoggingLevel::Warning => "warning",
            LoggingLevel::Error => "error",
            LoggingLevel::Critical => "critical",
            LoggingLevel::Alert => "alert",
            LoggingLevel::Emergency => "emergency",
        }
    }

    /// The level of a name, where there is one.
    pub fn parse(s: &str) -> (r: Option<Self>)
        ensures
            match r {
                Some(l) => l.name() == s@,
                None => forall|l: LoggingLevel| #[trigger] l.name() != s@,
            },
    {
        if str_eq(s, "debug") {
            Some(LoggingLevel::Debug)
        } else if str_eq(s, "info") {
            Some(LoggingLevel::Info)
        } else if str_eq(s, "notice") {
            Some(LoggingLevel::Notice)
        } else if str_eq(s, "warning") {
            Some(LoggingLevel::Warning)
        } else if str_eq(s, "error") {
            Some(LoggingLevel::Error)
        } else if str_eq(s, "critical") {
            Some(LoggingLevel::Critical)
        } else if str_eq(s, "alert") {
            Some(LoggingLevel::Alert)
        } else if str_eq(s, "emergency") {
            Some(LoggingLevel::Emergency)
        } else {
            None
        }
    }
}

/// The name that JSON gives a level by: a text, or an object whose one member is
/// null.
pub open spec fn level_tag(j: JsonView) -> Option<Seq<char>> {
    match j {
        JsonView::String(s) => Some(s),
        JsonView::Object(o) => if o.len() == 1 && o[0].value is Null {
            Some(o[0].name)
        } else {
            None
        },
        _ => None,
    }
}

/// Some level has this name.
pub open spec fn names_level(s: Seq<char>) -> bool {
    exists|l: LoggingLevel| #[trigger] l.name() == s
}

impl Wire for LoggingLevel {
    open spec fn wire(&self) -> JsonView {
        JsonView::String(self.name())
    }

    open spec fn canon(j: JsonView) -> Option<JsonView> {
        match level_tag(j) {
            Some(s) => if names_level(s) {
                Some(JsonView::String(s))
            } else {
                None
            },
            None => None,
        }
    }

    open spec fn faithful(&self) -> bool {
        true
    }

    fn to_json(&self) -> (r: Json) {
        Json::string(self.as_str())
    }

    fn from_json(j: &Json) -> (r: Result<Self, Malformed>) {
        let named = match j {
            Json::String(s) => LoggingLevel::parse(s.as_str()),
            Json::Object(o) => {
                proof {
                    Json::object_view(*o);
                }
                if o.len() == 1 && o[0].1.is_null() {
                    assert(j@->Object_0[0] == json::member(o@[0].0@, o@[0].1@));
                    LoggingLevel::parse(o[0].0.as_str())
                } else {
                    assert(o@.len() == 1 ==> j@->Object_0[0] == json::member(o@[0].0@, o@[0].1@));
                    None
                }
            },
            _ => None,
        };
        match named {
            Some(l) => Ok(l),
            None => Err(Malformed),
        }
    }

    fn duplicate(&self) -> (r: Self) {
        *self
    }

    proof fn round_trip(&self) {
        assert(names_level(self.name()));
    }
}

/// Different levels have different names, so the level that a name is read as is the
/// one it was written for.
pub proof fn names_tell_levels_apart(a: LoggingLevel, b: LoggingLevel)
    requires
        a.name() == b.name(),
    ensures
        a == b,
{
    reveal_strlit("debug");
    reveal_strlit("info");
    reveal_strlit("notice");
    reveal_strlit("warning");
    reveal_strlit("error");
    reveal_strlit("critical");
    reveal_strlit("alert");
    reveal_strlit("emergency");
    assert("debug"@.len() == 5 && "info"@.len() == 4 && "notice"@.len() == 6
        && "warning"@.len() == 7
        && "error"@.len() == 5 && "critical"@.len() == 8 && "alert"@.len() == 5
        && "emergency"@.len() == 9);
    assert("debug"@[0] == 'd' && "error"@[0] == 'e' && "alert"@[0] == 'a');
}

} // verus!
