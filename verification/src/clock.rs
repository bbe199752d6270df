//! The time source: which text is shown for a moment of the wall clock or for
//! an elapsed time, and which label goes with it.

use vstd::prelude::*;
use vstd::string::*;
use std::fmt::Write;
use chrono::TimeZone;
use crate::duration::{duration_text, format_duration};

verus! {

/// A moment as a local wall clock shows it, with the zone's offset from UTC.
#[derive(Clone, Copy, Debug, PartialEq, Eq, Structural)]
pub struct WallClock {
    pub year: i32,
    /// 1 to 12.
    pub month: u32,
    /// 1 to the month's last day.
    pub day: u32,
    /// 0 to 23.
    pub hour: u32,
    /// 0 to 59.
    pub minute: u32,
    /// 0 to 59.
    pub second: u32,
    /// Below 2,000,000,000; from 1,000,000,000 on only in a leap second.
    pub nanosecond: u32,
    /// Seconds that local time is ahead of UTC.
    pub utc_offset_seconds: i32,
}

/// What the clock shows and how.
#[derive(Debug, PartialEq, Eq)]
pub struct ClockConfig {
    /// Show the time that has passed since the start, not the time of day.
    pub stopwatch: bool,
    /// Count the hours from 1 to 12.
    pub twelve_hour: bool,
    /// Show the seconds of the time of day.
    pub seconds: bool,
    /// A format for the label that replaces the built-in one.
    pub label_format: Option<String>,
}

/// The text that `chrono` writes for the moment given by its first eight
/// arguments (year, month, day, hour, minute, second, nanosecond, offset from
/// UTC in seconds) under a `strftime` format, or `None` where the fields are
/// no moment or `chrono` refuses the format.
pub uninterp spec fn chrono_text(
    year: int,
    month: int,
    day: int,
    hour: int,
    minute: int,
    second: int,
    nanosecond: int,
    utc_offset_seconds: int,
    format: Seq<char>,
) -> Option<Seq<char>>;

impl WallClock {
    /// The text of this moment under `format`.
    pub open spec fn formatted(self, format: Seq<char>) -> Option<Seq<char>> {
        chrono_text(
            self.year as int,
            self.month as int,
            self.day as int,
            self.hour as int,
            self.minute as int,
            self.second as int,
            self.nanosecond as int,
            self.utc_offset_seconds as int,
            format,
        )
    }
}

/// `chrono`'s `DateTime::format`, written into a string, on the moment that
/// `NaiveDate::from_ymd_opt`, `NaiveDate::and_hms_nano_opt`,
/// `FixedOffset::east_opt` and `TimeZone::from_local_datetime` make of the
/// fields. The text is a function of the fields and the format alone and is
/// named, not spelled out. There is none where one of the four refuses the
/// fields or the formatter reports an error.
#[verifier::external_body]
fn format_moment(now: &WallClock, format: &str) -> (r: Option<String>)
    ensures
        r is Some <==> chrono_text(
            now.year as int,
            now.month as int,
            now.day as int,
            now.hour as int,
            now.minute as int,
            now.second as int,
            now.nanosecond as int,
            now.utc_offset_seconds as int,
            format@,
        ) is Some,
        r is Some ==> Some(r.unwrap()@) == now.formatted(format@),
{
    let date = chrono::NaiveDate::from_ymd_opt(now.year, now.month, now.day)?;
    let local = date.and_hms_nano_opt(now.hour, now.minute, now.second, now.nanosecond)?;
    let offset = chrono::FixedOffset::east_opt(now.utc_offset_seconds)?;
    let moment = offset.from_local_datetime(&local).single()?;
    let mut out = String::new();
    match write!(out, "{}", moment.format(format)) {
        Ok(()) => Some(out),
        Err(_) => None,
    }
}

/// The format of the time of day: hours and minutes, the hours from 00 to 23
/// or from 01 to 12, and the seconds where they are asked for.
pub open spec fn time_format_text(twelve_hour: bool, seconds: bool) -> Seq<char> {
    (if twelve_hour {
        "%I:%M"@
    } else {
        "%H:%M"@
    }) + (if seconds {
        ":%S"@
    } else {
        Seq::<char>::empty()
    })
}

/// The built-in format of the label: day, month and year with dots between;
/// for the stopwatch a space and the time of day after it; with twelve hours
/// the half of the day in square brackets at the end.
pub open spec fn label_format_text(stopwatch: bool, twelve_hour: bool, seconds: bool) -> Seq<
    char,
> {
    "%d.%m.%Y"@ + (if stopwatch {
        " "@ + time_format_text(twelve_hour, seconds)
    } else {
        Seq::<char>::empty()
    }) + (if twelve_hour {
        " [%p]"@
    } else {
        Seq::<char>::empty()
    })
}

impl ClockConfig {
    /// The format under which the label is written: the configured one as it
    /// stands, else the built-in one.
    pub open spec fn label_format_of(self) -> Seq<char> {
        match self.label_format {
            Some(format) => format@,
            None => label_format_text(self.stopwatch, self.twelve_hour, self.seconds),
        }
    }

    /// The display text for the moment `now`, `elapsed` seconds after the start.
    pub open spec fn display_of(self, now: WallClock, elapsed: nat) -> Option<Seq<char>> {
        if self.stopwatch {
            Some(duration_text(elapsed))
        } else {
            now.formatted(time_format_text(self.twelve_hour, self.seconds))
        }
    }

    /// The label for the moment `now`.
    pub open spec fn label_of(self, now: WallClock) -> Option<Seq<char>> {
        now.formatted(self.label_format_of())
    }
}

/// Builds the format of the time of day.
pub fn time_format(twelve_hour: bool, seconds: bool) -> (format: String)
    ensures
        format@ == time_format_text(twelve_hour, seconds),
{
    let mut format = if twelve_hour {
        String::from_str("%I:%M")
    } else {
        String::from_str("%H:%M")
    };
    if seconds {
        format.append(":%S");
    }
    proof {
        assert(format@ =~= time_format_text(twelve_hour, seconds));
    }
    format
}

/// Builds the built-in format of the label.
pub fn label_format(stopwatch: bool, twelve_hour: bool, seconds: bool) -> (format: String)
    ensures
        format@ == label_format_text(stopwatch, twelve_hour, seconds),
{
    let mut format = String::from_str("%d.%m.%Y");
    if stopwatch {
        format.append(" ");
        let time = time_format(twelve_hour, seconds);
        format.append(time.as_str());
    }
    if twelve_hour {
        format.append(" [%p]");
    }
    proof {
        assert(format@ =~= label_format_text(stopwatch, twelve_hour, seconds));
    }
    format
}

/// The display text: the elapsed time for the stopwatch, which always
/// exists, else the time of day of `now`.
pub fn display_text(config: &ClockConfig, now: &WallClock, elapsed_seconds: u64) -> (r: Option<
    String,
>)
    ensures
        r is Some <==> config.display_of(*now, elapsed_seconds as nat) is Some,
        r is Some ==> Some(r.unwrap()@) == config.display_of(*now, elapsed_seconds as nat),
        config.stopwatch ==> r is Some && r.unwrap()@ == duration_text(elapsed_seconds as nat),
{
    if config.stopwatch {
        Some(format_duration(elapsed_seconds))
    } else {
        let format = time_format(config.twelve_hour, config.seconds);
        format_moment(now, format.as_str())
    }
}

/// The label of `now`, under the configured format or the built-in one.
pub fn label_text(config: &ClockConfig, now: &WallClock) -> (r: Option<String>)
    ensures
        r is Some <==> config.label_of(*now) is Some,
        r is Some ==> Some(r.unwrap()@) == config.label_of(*now),
{
    match &config.label_format {
        Some(format) => format_moment(now, format.as_str()),
        None => {
            let format = label_format(config.stopwatch, config.twelve_hour, config.seconds);
            format_moment(now, format.as_str())
        },
    }
}

} // verus!
