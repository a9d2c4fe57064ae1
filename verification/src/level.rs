//! Severity levels and the process-wide gate predicate.

use vstd::prelude::*;

verus! {

/// A log event's severity, from least severe (`Trace`) to most severe
/// (`Error`).
#[derive(Clone, Copy, Debug, PartialEq, Eq, Structural)]
pub enum Level {
    Trace,
    Debug,
    Info,
    Warn,
    Error,
}

impl Level {
    /// The numeric rank of a level: higher means more severe.
    pub open spec fn spec_severity(self) -> int {
        match self {
            Level::Trace => 0,
            Level::Debug => 1,
            Level::Info => 2,
            Level::Warn => 3,
            Level::Error => 4,
        }
    }

    /// The numeric rank of a level, usable from executable code.
    pub fn severity(self) -> (r: u8)
        ensures
            r as int == self.spec_severity(),
    {
        match self {
            Level::Trace => 0,
            Level::Debug => 1,
            Level::Info => 2,
            Level::Warn => 3,
            Level::Error => 4,
        }
    }
}

/// Whether a threshold admits an event of the given level: the event passes
/// when it is at least as severe as the threshold. An empty threshold (no
/// registration has happened yet) admits nothing.
pub open spec fn spec_admits(threshold: Option<Level>, level: Level) -> bool {
    match threshold {
        Option::None => false,
        Option::Some(t) => level.spec_severity() >= t.spec_severity(),
    }
}

/// The filtering check of the hot path, decided from plain values.
pub fn admits(threshold: Option<Level>, level: Level) -> (r: bool)
    ensures
        r == spec_admits(threshold, level),
{
    match threshold {
        Option::None => false,
        Option::Some(t) => level.severity() >= t.severity(),
    }
}

/// Threshold filtering is a pure severity comparison: an event strictly less
/// severe than the threshold is suppressed, and an event at the threshold or
/// above passes.
pub proof fn lemma_gate_orders_levels(threshold: Level, level: Level)
    ensures
        level.spec_severity() < threshold.spec_severity() ==> !spec_admits(
            Some(threshold),
            level,
        ),
        level.spec_severity() >= threshold.spec_severity() ==> spec_admits(
            Some(threshold),
            level,
        ),
{
}

} // verus!
