//! Civil date-times, resolved due dates, and the calls into chrono that turn
//! one into the other.

use vstd::prelude::*;
use chrono::{DateTime, Datelike, FixedOffset, Local, NaiveDate, NaiveDateTime, TimeZone, Timelike};
use std::str::FromStr;

verus! {

/// A calendar date and time of day without a time zone.
#[derive(Debug, Clone, Copy, PartialEq, Eq, Structural)]
pub struct CivilDateTime {
    pub year: i32,
    pub month: u32,
    pub day: u32,
    pub hour: u32,
    pub minute: u32,
    pub second: u32,
    pub nano: u32,
}

/// An absolute instant together with the offset of the zone it was resolved
/// in: seconds and nanoseconds since the Unix epoch, and the zone's offset
/// east of UTC in seconds.
#[derive(Debug, Clone, Copy, PartialEq, Eq, Structural)]
pub struct DueDate {
    pub secs: i64,
    pub nanos: u32,
    pub offset: i32,
}

impl DueDate {
    /// `self` is the same instant as `other` or an earlier one. The offset
    /// plays no part: two due dates are ordered as instants.
    pub open spec fn not_after(self, other: DueDate) -> bool {
        self.secs < other.secs || (self.secs == other.secs && self.nanos <= other.nanos)
    }

    /// Decides `not_after`.
    pub fn is_not_after(&self, other: &DueDate) -> (r: bool)
        ensures
            r == self.not_after(*other),
    {
        self.secs < other.secs || (self.secs == other.secs && self.nanos <= other.nanos)
    }
}

/// What chrono prints for an instant shown at a fixed offset with the format
/// `%Y-%m-%d %H:%M`; `None` where chrono cannot represent the instant or the
/// offset.
pub uninterp spec fn minute_text_of(secs: i64, nanos: u32, offset: i32) -> Option<Seq<char>>;

/// Calls chrono's `NaiveDate::from_ymd_opt` and `NaiveDate::and_hms_nano_opt`
/// to build the civil time, then `TimeZone::from_local_datetime` on `Local`
/// and `MappedLocalTime::single`. The answer depends on the machine's time
/// zone, so nothing is claimed of it: `None` stands for a civil time that is
/// no calendar time, or that the local zone maps to no instant or to two.
#[verifier::external_body]
pub(crate) fn resolve_local(civil: &CivilDateTime) -> (r: Option<DueDate>) {
    let date = NaiveDate::from_ymd_opt(civil.year, civil.month, civil.day)?;
    let naive = date.and_hms_nano_opt(civil.hour, civil.minute, civil.second, civil.nano)?;
    let dt = Local.from_local_datetime(&naive).single()?;
    Some(DueDate {
        secs: dt.timestamp(),
        nanos: dt.timestamp_subsec_nanos(),
        offset: dt.offset().local_minus_utc(),
    })
}

/// Calls chrono's `Local::now`. Nothing is claimed of the clock's answer.
#[verifier::external_body]
pub(crate) fn current_moment() -> (r: DueDate) {
    let dt = Local::now();
    DueDate {
        secs: dt.timestamp(),
        nanos: dt.timestamp_subsec_nanos(),
        offset: dt.offset().local_minus_utc(),
    }
}

/// Calls chrono's `DateTime::from_timestamp`, `FixedOffset::east_opt`,
/// `DateTime::with_timezone` and `DateTime::format` with `%Y-%m-%d %H:%M`.
/// The text is a function of the three numbers alone and is named, not
/// spelled out; `None` comes back exactly where one of the two constructors
/// refuses its argument.
#[verifier::external_body]
pub(crate) fn minute_text(due: &DueDate) -> (r: Option<String>)
    ensures
        match r {
            Some(s) => minute_text_of(due.secs, due.nanos, due.offset) == Some(s@),
            None => minute_text_of(due.secs, due.nanos, due.offset).is_none(),
        },
{
    let utc = DateTime::from_timestamp(due.secs, due.nanos)?;
    let zone = FixedOffset::east_opt(due.offset)?;
    Some(utc.with_timezone(&zone).format("%Y-%m-%d %H:%M").to_string())
}

/// The civil time that chrono reads from a text of the form
/// `2024-05-17T09:30:00`, or `None` where chrono refuses the text.
pub uninterp spec fn civil_of_text(s: Seq<char>) -> Option<CivilDateTime>;

/// Calls chrono's `NaiveDateTime::from_str` and copies the fields out. What
/// is read is a function of the text alone and is named, not spelled out.
#[verifier::external_body]
pub(crate) fn parse_civil(s: &str) -> (r: Option<CivilDateTime>)
    ensures
        r == civil_of_text(s@),
{
    let naive = NaiveDateTime::from_str(s).ok()?;
    Some(CivilDateTime {
        year: naive.year(),
        month: naive.month(),
        day: naive.day(),
        hour: naive.hour(),
        minute: naive.minute(),
        second: naive.second(),
        nano: naive.nanosecond(),
    })
}

} // verus!
