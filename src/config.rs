//! Names of the log levels accepted in the configuration file.

use vstd::prelude::*;
use vstd::string::*;

verus! {

/// How much the log records, from nothing to everything.
#[derive(Debug, Clone, Copy, PartialEq, Eq, Structural)]
pub enum LogLevel {
    Off,
    Error,
    Warn,
    Info,
    Debug,
    Trace,
}

/// The level that a configuration name stands for: `none`, `error`, `warn`,
/// `info`, `debug` or `all`.
pub open spec fn level_named(name: Seq<char>) -> Option<LogLevel> {
    if name == "none"@ {
        Some(LogLevel::Off)
    } else if name == "error"@ {
        Some(LogLevel::Error)
    } else if name == "warn"@ {
        Some(LogLevel::Warn)
    } else if name == "info"@ {
        Some(LogLevel::Info)
    } else if name == "debug"@ {
        Some(LogLevel::Debug)
    } else if name == "all"@ {
        Some(LogLevel::Trace)
    } else {
        None
    }
}

/// Whether two strings hold the same characters.
pub fn same_text(a: &str, b: &str) -> (r: bool)
    ensures
        r == (a@ == b@),
{
    let n = a.unicode_len();
    if n != b.unicode_len() {
        return false;
    }
    let mut i: usize = 0;
    while i < n
        invariant
            n == a@.len(),
            n == b@.len(),
            i <= n,
            forall|j: int| 0 <= j < i ==> a@[j] == b@[j],
        decreases n - i,
    {
        if a.get_char(i) != b.get_char(i) {
            return false;
        }
        i = i + 1;
    }
    assert(a@ =~= b@);
    true
}

pub fn level_from_name(name: &str) -> (r: Option<LogLevel>)
    ensures
        r == level_named(name@),
{
    if same_text(name, "none") {
        Some(LogLevel::Off)
    } else if same_text(name, "error") {
        Some(LogLevel::Error)
    } else if same_text(name, "warn") {
        Some(LogLevel::Warn)
    } else if same_text(name, "info") {
        Some(LogLevel::Info)
    } else if same_text(name, "debug") {
        Some(LogLevel::Debug)
    } else if same_text(name, "all") {
        Some(LogLevel::Trace)
    } else {
        None
    }
}

pub trait TryIntoLevelFilter {
    fn try_into_level_filter(&self) -> Result<LogLevel, ()>;
}

impl TryIntoLevelFilter for String {
    fn try_into_level_filter(&self) -> Result<LogLevel, ()> {
        match level_from_name(self.as_str()) {
            Some(level) => Ok(level),
            None => Err(()),
        }
    }
}

} // verus!
