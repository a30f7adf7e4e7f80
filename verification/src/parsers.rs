//! Reading the values of the command line: a date, an event, an offset.

use vstd::prelude::*;
use vstd::string::*;

use crate::enums::Event;
use crate::errors::{ConfigErrorKind, HeliocronError};
use crate::time::{clock_reading, date_reading, local_now, read_clock, read_date, ClockTime, Timestamp};

verus! {

/// A signed span of time in whole seconds: negative before an event,
/// positive after it.
#[derive(Debug, Clone, Copy, PartialEq, Eq, Structural)]
pub struct Offset {
    pub seconds: i64,
}

/// The error that a malformed offset ends in.
pub open spec fn invalid_offset() -> HeliocronError {
    HeliocronError::Config(ConfigErrorKind::InvalidOffset)
}

/// The error that a date ends in which does not follow its format.
pub open spec fn invalid_date() -> HeliocronError {
    HeliocronError::Config(ConfigErrorKind::InvalidDate)
}

/// The offset that the two readings of a clock text give: the reading with
/// seconds where there is one, else the reading without, else none. The
/// sign applies to the whole span.
pub open spec fn offset_from(
    negative: bool,
    full: Option<ClockTime>,
    short: Option<ClockTime>,
) -> Result<Offset, HeliocronError> {
    let reading = if full is Some {
        full
    } else {
        short
    };
    match reading {
        Some(time) => Ok(
            Offset {
                seconds: if negative {
                    (-time.elapsed()) as i64
                } else {
                    time.elapsed() as i64
                },
            },
        ),
        None => Err(invalid_offset()),
    }
}

/// Whether an offset text starts with a minus sign.
pub open spec fn is_negative(text: Seq<char>) -> bool {
    text.len() > 0 && text[0] == '-'
}

/// An offset text without its sign.
pub open spec fn unsigned(text: Seq<char>) -> Seq<char> {
    if is_negative(text) {
        text.skip(1)
    } else {
        text
    }
}

/// What an offset text `[-]HH:MM[:SS]` means.
pub open spec fn offset_of(text: Seq<char>) -> Result<Offset, HeliocronError> {
    offset_from(
        is_negative(text),
        clock_reading(unsigned(text), "%H:%M:%S"@),
        clock_reading(unsigned(text), "%H:%M"@),
    )
}

impl Offset {
    /// Puts an offset together from the sign of a clock text and the two
    /// readings of what follows the sign, with seconds and without.
    pub fn from_readings(negative: bool, full: Option<ClockTime>, short: Option<ClockTime>) -> (r:
        Result<Offset, HeliocronError>)
        ensures
            r == offset_from(negative, full, short),
    {
        let reading = match full {
            Some(time) => Some(time),
            None => short,
        };
        match reading {
            Some(time) => {
                let elapsed: i64 = time.seconds as i64 + (time.fraction / 1_000_000_000) as i64;
                Ok(
                    Offset {
                        seconds: if negative {
                            -elapsed
                        } else {
                            elapsed
                        },
                    },
                )
            },
            None => Err(HeliocronError::Config(ConfigErrorKind::InvalidOffset)),
        }
    }
}

/// Reads an offset `[-]HH:MM[:SS]`: a time of day with or without seconds,
/// taken as the span since midnight, before which a minus sign may stand.
pub fn parse_offset(offset: &str) -> (r: Result<Offset, HeliocronError>)
    ensures
        r == offset_of(offset@),
{
    let length = offset.unicode_len();
    let negative = length > 0 && offset.get_char(0) == '-';
    let clock = if negative {
        offset.substring_char(1, length)
    } else {
        offset
    };
    let full = match read_clock(clock, "%H:%M:%S") {
        Ok(time) => Some(time),
        Err(_) => None,
    };
    let short = match full {
        Some(_) => None,
        None => match read_clock(clock, "%H:%M") {
            Ok(time) => Some(time),
            Err(_) => None,
        },
    };
    Offset::from_readings(negative, full, short)
}

/// Reads the name of an event.
pub fn parse_event(event: &str) -> (r: Result<Event, HeliocronError>)
    ensures
        r == match Event::named(event@) {
            Some(found) => Ok::<Event, HeliocronError>(found),
            None => Err(Event::unknown()),
        },
{
    Event::new(event)
}

/// The text that is read for a date: the date, noon as the time of day,
/// and the zone.
pub open spec fn noon_text(date: Seq<char>, zone: Seq<char>) -> Seq<char> {
    date + "T12:00:00"@ + zone
}

/// The pattern under which that text is read.
pub open spec fn noon_format(date_format: Seq<char>) -> Seq<char> {
    date_format + "T%H:%M:%S%:z"@
}

/// The date that a reading gives: the timestamp read, under the local
/// offset where one is given in place of a zone.
pub open spec fn date_from(reading: Option<Timestamp>, local: Option<i32>) -> Result<
    Timestamp,
    HeliocronError,
> {
    match reading {
        None => Err(invalid_date()),
        Some(stamp) => Ok(
            match local {
                Some(offset) => stamp.under(offset),
                None => stamp,
            },
        ),
    }
}

/// What a date text means under a format with a zone given: noon of that
/// day in that zone.
pub open spec fn zoned_date(date: Seq<char>, date_format: Seq<char>, zone: Seq<char>) -> Result<
    Timestamp,
    HeliocronError,
> {
    date_from(date_reading(noon_text(date, zone), noon_format(date_format)), None)
}

/// What a date text means under a format with no zone given: noon of that
/// day under the offset `local`.
pub open spec fn local_date(date: Seq<char>, date_format: Seq<char>, local: i32) -> Result<
    Timestamp,
    HeliocronError,
> {
    date_from(date_reading(noon_text(date, "+00:00"@), noon_format(date_format)), Some(local))
}

/// What a date text means under a format: noon of that day, in the zone
/// that is given, or under the offset `local` where none is.
pub open spec fn date_of(
    date: Seq<char>,
    date_format: Seq<char>,
    zone: Option<Seq<char>>,
    local: i32,
) -> Result<Timestamp, HeliocronError> {
    match zone {
        Some(zone) => zoned_date(date, date_format, zone),
        None => local_date(date, date_format, local),
    }
}

/// The characters of a text that may be missing.
pub open spec fn text_of(text: Option<&str>) -> Option<Seq<char>> {
    match text {
        Some(text) => Some(text@),
        None => None,
    }
}

/// Turns the reading of a date text into the date it stands for.
pub fn date_from_reading(reading: Option<Timestamp>, local: Option<i32>) -> (r: Result<
    Timestamp,
    HeliocronError,
>)
    ensures
        r == date_from(reading, local),
{
    match reading {
        None => Err(HeliocronError::Config(ConfigErrorKind::InvalidDate)),
        Some(stamp) => Ok(
            match local {
                Some(offset) => stamp.with_offset(offset),
                None => stamp,
            },
        ),
    }
}

/// Reads a date under a format and anchors it at noon, in the zone given
/// or, where none is given, under the offset `local`.
pub fn parse_date_at(date: &str, date_fmt: &str, timezone: Option<&str>, local: i32) -> (r: Result<
    Timestamp,
    HeliocronError,
>)
    ensures
        r == date_of(date@, date_fmt@, text_of(timezone), local),
{
    let mut pattern = String::from_str(date_fmt);
    pattern.append("T%H:%M:%S%:z");
    let mut text = String::from_str(date);
    text.append("T12:00:00");
    match timezone {
        Some(zone) => {
            text.append(zone);
            let reading = match read_date(text.as_str(), pattern.as_str()) {
                Ok(stamp) => Some(stamp),
                Err(_) => None,
            };
            date_from_reading(reading, None)
        },
        None => {
            text.append("+00:00");
            let reading = match read_date(text.as_str(), pattern.as_str()) {
                Ok(stamp) => Some(stamp),
                Err(_) => None,
            };
            date_from_reading(reading, Some(local))
        },
    }
}

/// Reads a date under a format and anchors it at noon, in the zone given
/// or, where none is given, under the offset that the system's time zone
/// has at this moment.
pub fn parse_date(date: &str, date_fmt: &str, timezone: Option<&str>) -> (r: Result<
    Timestamp,
    HeliocronError,
>)
    ensures
        match timezone {
            Some(zone) => r == zoned_date(date@, date_fmt@, zone@),
            None => exists|local: i32| r == local_date(date@, date_fmt@, local),
        },
{
    match timezone {
        Some(_) => parse_date_at(date, date_fmt, timezone, 0),
        None => {
            let now = local_now();
            parse_date_at(date, date_fmt, timezone, now.offset)
        },
    }
}

/// The sign of an offset applies to the whole span: the same readings with
/// a minus sign give the negated seconds.
pub proof fn lemma_sign_negates(full: Option<ClockTime>, short: Option<ClockTime>)
    ensures
        offset_from(true, full, short) is Ok <==> offset_from(false, full, short) is Ok,
        offset_from(true, full, short) is Ok ==> offset_from(true, full, short).unwrap().seconds
            == -offset_from(false, full, short).unwrap().seconds,
        offset_from(false, full, short) is Ok ==> offset_from(false, full, short).unwrap().seconds
            >= 0,
{
}

/// A zone that is given decides alone: the local offset plays no part. A
/// date without a zone carries the local offset.
pub proof fn lemma_zone_overrides_local(
    date: Seq<char>,
    date_format: Seq<char>,
    zone: Seq<char>,
    local: i32,
    other: i32,
)
    ensures
        date_of(date, date_format, Some(zone), local) == date_of(
            date,
            date_format,
            Some(zone),
            other,
        ),
        date_of(date, date_format, None, local) is Ok ==> date_of(
            date,
            date_format,
            None,
            local,
        ).unwrap().offset == local,
{
}

} // verus!
