//! The time as the orchestrator needs it: a reading of a steady clock for
//! durations, and the calendar date for names and headings.

use chrono::Datelike;
use std::fmt::Write;
use vstd::prelude::*;
use vstd::string::*;

verus! {

/// The format of the name of a run's log directory.
pub const STAMP_FORMAT: &'static str = "%Y%m%d-%H%M%S";

/// The format of the date in a report's heading.
pub const DATE_FORMAT: &'static str = "%d %B %Y";

/// The day of the month, in UTC, of the instant `secs` seconds after the
/// Unix epoch, as `chrono` computes it; `None` where `chrono` cannot
/// represent the instant.
pub uninterp spec fn utc_day(secs: i64) -> Option<u32>;

/// The instant `secs` seconds after the Unix epoch, in UTC, rendered by
/// `chrono` with the `strftime` format `format`; `None` where `chrono`
/// cannot represent the instant or rejects the format.
pub uninterp spec fn utc_text(secs: i64, format: Seq<char>) -> Option<Seq<char>>;

/// `chrono::DateTime::from_timestamp` and `chrono::Datelike::day`: the day
/// of the month of an instant given in seconds since the Unix epoch.
#[verifier::external_body]
fn day_of_month(secs: i64) -> (r: Option<u32>)
    ensures
        r == utc_day(secs),
{
    match chrono::DateTime::from_timestamp(secs, 0) {
        Some(date) => Some(date.day()),
        None => None,
    }
}

/// `chrono::DateTime::from_timestamp` and `chrono::DateTime::format`: an
/// instant given in seconds since the Unix epoch, rendered with a
/// `strftime` format. A format that `chrono` rejects gives `None`.
#[verifier::external_body]
fn format_time(secs: i64, format: &str) -> (r: Option<String>)
    ensures
        r.deep_view() == utc_text(secs, format@),
{
    match chrono::DateTime::from_timestamp(secs, 0) {
        Some(date) => {
            let mut text = String::new();
            match write!(text, "{}", date.format(format)) {
                Ok(()) => Some(text),
                Err(_) => None,
            }
        },
        None => None,
    }
}

/// One reading of the time.
#[derive(Debug)]
pub struct Clock {
    millis: u64,
    day: u32,
    stamp: String,
    date: String,
}

/// What a `Clock` holds, as contracts speak of it.
pub struct ClockView {
    /// A steady clock's reading in milliseconds.
    pub millis: u64,
    /// The day of the month.
    pub day: u32,
    /// The date and time as a log directory is named.
    pub stamp: Seq<char>,
    /// The date as a report's heading shows it.
    pub date: Seq<char>,
}

impl View for Clock {
    type V = ClockView;

    closed spec fn view(&self) -> ClockView {
        ClockView { millis: self.millis, day: self.day, stamp: self.stamp@, date: self.date@ }
    }
}

impl ClockView {
    /// The reading for the steady time `millis` and the calendar time
    /// `secs` seconds after the Unix epoch, where the calendar can
    /// represent it.
    pub open spec fn at(millis: u64, secs: i64) -> Option<ClockView> {
        match (utc_day(secs), utc_text(secs, STAMP_FORMAT@), utc_text(secs, DATE_FORMAT@)) {
            (Some(day), Some(stamp), Some(date)) => Some(ClockView { millis, day, stamp, date }),
            _ => None,
        }
    }
}

impl Clock {
    /// Reads the calendar for an instant. `None` when the instant lies
    /// outside the calendar's range.
    pub fn at(millis: u64, secs: i64) -> (clock: Option<Clock>)
        ensures
            clock.deep_view() == ClockView::at(millis, secs),
    {
        let day = day_of_month(secs);
        let stamp = format_time(secs, STAMP_FORMAT);
        let date = format_time(secs, DATE_FORMAT);
        match (day, stamp, date) {
            (Some(day), Some(stamp), Some(date)) => Some(Clock { millis, day, stamp, date }),
            _ => None,
        }
    }

    pub fn millis(&self) -> (r: u64)
        ensures
            r == self@.millis,
    {
        self.millis
    }

    pub fn day(&self) -> (r: u32)
        ensures
            r == self@.day,
    {
        self.day
    }

    pub fn stamp(&self) -> (r: &str)
        ensures
            r@ == self@.stamp,
    {
        self.stamp.as_str()
    }

    pub fn date(&self) -> (r: &str)
        ensures
            r@ == self@.date,
    {
        self.date.as_str()
    }
}

impl DeepView for Clock {
    type V = ClockView;

    open spec fn deep_view(&self) -> ClockView {
        self@
    }
}

} // verus!
