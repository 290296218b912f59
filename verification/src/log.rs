//! Log records: what the session reports to the operator.

use vstd::prelude::*;
use vstd::string::StringExecFns;

verus! {

/// How serious a log record is.
#[derive(Clone, Copy, Debug, PartialEq, Eq, Structural)]
pub enum Level {
    Info,
    Error,
}

/// One record for the log display.
#[derive(Debug, PartialEq, Eq)]
pub struct Log {
    pub level: Level,
    pub text: String,
}

impl Log {
    /// The word that a record of this level starts with when it is shown.
    pub open spec fn prefix(level: Level) -> Seq<char> {
        match level {
            Level::Info => "INFO: "@,
            Level::Error => "ERROR: "@,
        }
    }

    /// The record as one line: the level's word, then the text.
    pub open spec fn spec_line(self) -> Seq<char> {
        Log::prefix(self.level) + self.text@
    }

    pub fn new(level: Level, text: String) -> (record: Log)
        ensures
            record.level == level,
            record.text == text,
    {
        Log { level, text }
    }

    /// An informational record.
    pub fn info(msg: String) -> (record: Log)
        ensures
            record.level == Level::Info,
            record.text == msg,
    {
        Log { level: Level::Info, text: msg }
    }

    /// An error record.
    pub fn error(msg: String) -> (record: Log)
        ensures
            record.level == Level::Error,
            record.text == msg,
    {
        Log { level: Level::Error, text: msg }
    }

    /// The line shown for this record.
    pub fn line(&self) -> (text: String)
        ensures
            text@ == self.spec_line(),
    {
        let head = match self.level {
            Level::Info => String::from_str("INFO: "),
            Level::Error => String::from_str("ERROR: "),
        };
        head.concat(self.text.as_str())
    }
}

impl Clone for Log {
    fn clone(&self) -> (copy: Log)
        ensures
            copy == *self,
    {
        Log { level: self.level, text: self.text.clone() }
    }
}

} // verus!
