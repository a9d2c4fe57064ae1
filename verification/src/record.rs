//! One log event, created by the caller, rendered at once and then discarded.

use vstd::prelude::*;

use crate::level::Level;

verus! {

/// A log event as plain values: its severity, the pre-rendered message, and
/// optional source provenance.
#[derive(Debug)]
pub struct LogRecord {
    /// The event's severity.
    pub level: Level,
    /// The rendered text payload.
    pub message: String,
    /// The source file the event came from, when known.
    pub file: Option<String>,
    /// The source line the event came from, when known.
    pub line: Option<u32>,
}

/// The mathematical shape of a log event.
pub struct LogRecordV {
    pub level: Level,
    pub message: Seq<char>,
    pub file: Option<Seq<char>>,
    pub line: Option<u32>,
}

impl View for LogRecord {
    type V = LogRecordV;

    open spec fn view(&self) -> LogRecordV {
        LogRecordV {
            level: self.level,
            message: self.message@,
            file: match self.file {
                Option::Some(f) => Option::Some(f@),
                Option::None => Option::None,
            },
            line: self.line,
        }
    }
}

impl LogRecord {
    /// Assemble a log event from its parts.
    pub fn new(level: Level, message: String, file: Option<String>, line: Option<u32>) -> (r:
        LogRecord)
        ensures
            r@.level == level,
            r@.message == message@,
            r@.file == (match file {
                Option::Some(f) => Option::Some(f@),
                Option::None => Option::None::<Seq<char>>,
            }),
            r@.line == line,
    {
        LogRecord { level, message, file, line }
    }
}

} // verus!
