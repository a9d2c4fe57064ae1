//! Wall-clock timestamps as plain calendar and time-of-day fields.

use vstd::prelude::*;
use chrono::Datelike;
use chrono::Timelike;

verus! {

/// The raw readings of the local wall clock.
#[derive(Clone, Copy, Debug)]
pub struct ClockParts {
    pub year: i64,
    pub month: u32,
    pub day: u32,
    pub hour: u32,
    pub minute: u32,
    pub second: u32,
}

/// Relies on `chrono::Local::now` for the current moment, read into plain
/// values through chrono's `Datelike` and `Timelike` accessors, whose
/// documentation bounds them: `month` ranges over 1..=12, `day` over 1..=31,
/// `hour` over 0..=23, `minute` and `second` over 0..=59 (a leap second is
/// carried by the nanosecond field, never by `second`). The year is whatever
/// the local calendar says and carries no bound.
#[verifier::external_body]
fn local_clock_parts() -> (r: ClockParts)
    ensures
        1 <= r.month <= 12,
        1 <= r.day <= 31,
        r.hour < 24,
        r.minute < 60,
        r.second < 60,
{
    let now = chrono::Local::now();
    ClockParts {
        year: now.year() as i64,
        month: now.month(),
        day: now.day(),
        hour: now.hour(),
        minute: now.minute(),
        second: now.second(),
    }
}

/// A year brought into the four-digit range that the rendered date carries.
pub open spec fn spec_clamp_year(y: int) -> int {
    if y < 0 {
        0
    } else if y > 9999 {
        9999
    } else {
        y
    }
}

/// One instant of the local wall clock, held as plain fields: a calendar date
/// and a time of day.
#[derive(Clone, Copy, Debug, PartialEq, Eq, Structural)]
pub struct Timestamp {
    pub year: u32,
    pub month: u32,
    pub day: u32,
    pub hour: u32,
    pub minute: u32,
    pub second: u32,
}

impl Timestamp {
    /// A well-formed timestamp: each field fits the place it is rendered
    /// into, with a four-digit year.
    pub open spec fn wf(self) -> bool {
        &&& self.year <= 9999
        &&& 1 <= self.month <= 12
        &&& 1 <= self.day <= 31
        &&& self.hour < 24
        &&& self.minute < 60
        &&& self.second < 60
    }

    /// Build a timestamp from its fields; fields outside their rendered
    /// ranges are refused.
    pub fn new(year: u32, month: u32, day: u32, hour: u32, minute: u32, second: u32) -> (r:
        Option<Timestamp>)
        ensures
            r is Some <==> (year <= 9999 && 1 <= month <= 12 && 1 <= day <= 31 && hour < 24
                && minute < 60 && second < 60),
            r matches Some(t) ==> t == (Timestamp { year, month, day, hour, minute, second }),
    {
        if year <= 9999 && 1 <= month && month <= 12 && 1 <= day && day <= 31 && hour < 24
            && minute < 60 && second < 60 {
            Some(Timestamp { year, month, day, hour, minute, second })
        } else {
            None
        }
    }

    /// Build a timestamp from raw clock readings, bringing the year into the
    /// four-digit range the rendered date carries.
    pub fn from_clock(p: ClockParts) -> (r: Timestamp)
        requires
            1 <= p.month <= 12,
            1 <= p.day <= 31,
            p.hour < 24,
            p.minute < 60,
            p.second < 60,
        ensures
            r.wf(),
            r.year as int == spec_clamp_year(p.year as int),
            r.month == p.month,
            r.day == p.day,
            r.hour == p.hour,
            r.minute == p.minute,
            r.second == p.second,
    {
        let year: u32 = if p.year < 0 {
            0
        } else if p.year > 9999 {
            9999
        } else {
            p.year as u32
        };
        Timestamp { year, month: p.month, day: p.day, hour: p.hour, minute: p.minute, second: p.second }
    }

    /// The current instant of the local wall clock.
    pub fn now() -> (r: Timestamp)
        ensures
            r.wf(),
    {
        Timestamp::from_clock(local_clock_parts())
    }
}

} // verus!
