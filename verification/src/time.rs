//! Clock readings, offsets and zoned timestamps as plain numbers, and the
//! reading of them from text, which is left to the `chrono` crate.

use chrono::{Datelike, Timelike};
use vstd::prelude::*;

verus! {

/// The error with which `chrono` refuses a text.
#[verifier::external_type_specification]
#[verifier::external_body]
pub struct ExParseError(chrono::ParseError);

/// A time of day as `chrono` keeps it: whole seconds since midnight, and
/// the nanoseconds into the running second. Inside a leap second, written
/// `:60`, the seconds stay at `:59` and the fraction is a thousand million
/// or more.
#[derive(Debug, Clone, Copy, PartialEq, Eq, Structural)]
pub struct ClockTime {
    pub seconds: u32,
    pub fraction: u32,
}

impl ClockTime {
    /// The whole seconds that have passed since midnight, a leap second
    /// counted as one more.
    pub open spec fn elapsed(self) -> int {
        self.seconds + self.fraction / 1_000_000_000
    }
}

/// A calendar date and time of day together with the offset from UTC, in
/// seconds east, under which they are meant.
#[derive(Debug, Clone, Copy, PartialEq, Eq, Structural)]
pub struct Timestamp {
    pub year: i32,
    pub month: u32,
    pub day: u32,
    pub hour: u32,
    pub minute: u32,
    pub second: u32,
    pub nanosecond: u32,
    pub offset: i32,
}

impl Timestamp {
    /// Twelve o'clock of the same day under the same offset.
    pub open spec fn noon(self) -> Timestamp {
        Timestamp { hour: 12, minute: 0, second: 0, nanosecond: 0, ..self }
    }

    /// The same date and time of day, meant under another offset.
    pub open spec fn under(self, offset: i32) -> Timestamp {
        Timestamp { offset, ..self }
    }

    /// Twelve o'clock of the same day under the same offset.
    pub fn at_noon(self) -> (r: Timestamp)
        ensures
            r == self.noon(),
    {
        Timestamp { hour: 12, minute: 0, second: 0, nanosecond: 0, ..self }
    }

    /// The same date and time of day, meant under another offset.
    pub fn with_offset(self, offset: i32) -> (r: Timestamp)
        ensures
            r == self.under(offset),
    {
        Timestamp { offset, ..self }
    }
}

/// The time of day that `chrono` reads from `text` under the strftime
/// pattern `format`, if it reads one.
pub uninterp spec fn clock_reading(text: Seq<char>, format: Seq<char>) -> Option<ClockTime>;

/// The timestamp that `chrono` reads from `text` under the strftime pattern
/// `format`, if it reads one.
pub uninterp spec fn date_reading(text: Seq<char>, format: Seq<char>) -> Option<Timestamp>;

/// `chrono::NaiveTime::parse_from_str`. The text is read under the pattern;
/// what comes back depends on the two strings alone. A time that was read
/// is handed on as its seconds since midnight and its nanoseconds.
#[verifier::external_body]
pub(crate) fn read_clock(text: &str, format: &str) -> (r: Result<ClockTime, chrono::ParseError>)
    ensures
        r is Ok <==> clock_reading(text@, format@) is Some,
        r is Ok ==> clock_reading(text@, format@) == Some(r.unwrap()),
{
    match chrono::NaiveTime::parse_from_str(text, format) {
        Ok(t) => Ok(ClockTime { seconds: t.num_seconds_from_midnight(), fraction: t.nanosecond() }),
        Err(error) => Err(error),
    }
}

/// `chrono::DateTime::parse_from_str`. The text is read under the pattern,
/// which has to hold an offset; what comes back depends on the two strings
/// alone. A timestamp that was read is handed on field by field, the date
/// and time being those under its own offset.
#[verifier::external_body]
pub(crate) fn read_date(text: &str, format: &str) -> (r: Result<Timestamp, chrono::ParseError>)
    ensures
        r is Ok <==> date_reading(text@, format@) is Some,
        r is Ok ==> date_reading(text@, format@) == Some(r.unwrap()),
{
    match chrono::DateTime::parse_from_str(text, format) {
        Ok(t) => Ok(Timestamp {
            year: t.year(),
            month: t.month(),
            day: t.day(),
            hour: t.hour(),
            minute: t.minute(),
            second: t.second(),
            nanosecond: t.nanosecond(),
            offset: t.offset().local_minus_utc(),
        }),
        Err(error) => Err(error),
    }
}

/// `chrono::Local::now`: the present moment under the offset that the
/// system's time zone has at it. Nothing is promised of the result, which
/// differs from call to call. `chrono` panics where the system clock
/// stands before 1970.
#[verifier::external_body]
pub(crate) fn local_now() -> Timestamp {
    let t = chrono::Local::now();
    Timestamp {
        year: t.year(),
        month: t.month(),
        day: t.day(),
        hour: t.hour(),
        minute: t.minute(),
        second: t.second(),
        nanosecond: t.nanosecond(),
        offset: t.offset().local_minus_utc(),
    }
}

} // verus!
