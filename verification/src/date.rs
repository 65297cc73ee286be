//! Points in time, in whole seconds from the Unix epoch, and their
//! arithmetic with cadences.
//!
//! The calendar and the local time zone are chrono's. The clock is the
//! caller's: whoever needs the present instant is handed it.

use crate::cadence::Cadence;
use crate::text::push_signed;
use crate::text::signed_decimal;
use vstd::prelude::*;
use vstd::std_specs::ops::{AddSpec, SubSpec};

verus! {

/// Seconds in a minute.
pub const MINUTE: i64 = 60;

/// Seconds in a day.
pub const DAY: i64 = 86_400;

/// The first midnight UTC that an `i64` can count.
pub const FIRST_MIDNIGHT: i64 = -9_223_372_036_854_720_000;

/// The number that chrono's day count gives to 1 January 1970.
pub const EPOCH_DAY: i64 = 719_163;

/// A point in time: seconds since 1 January 1970, 00:00:00 UTC.
#[derive(Debug, PartialEq, Eq, Clone, Copy, Ord, Hash, Structural)]
pub struct Date {
    pub seconds: i64,
}

/// The day count that chrono gives the date `year`-`month`-`day` of the
/// proleptic Gregorian calendar, 1 January of the year 1 being day 1; `None`
/// where chrono has no such date.
pub uninterp spec fn days_from_ce(year: i32, month: u32, day: u32) -> Option<i32>;

/// `chrono::NaiveDate::from_ymd_opt`, and `Datelike::num_days_from_ce` of the
/// date it gives. The contract claims only that the result is a function of
/// the three numbers, and names it.
#[verifier::external_body]
fn calendar_day(year: i32, month: u32, day: u32) -> (days: Option<i32>)
    ensures
        days == days_from_ce(year, month, day),
{
    match chrono::NaiveDate::from_ymd_opt(year, month, day) {
        Some(date) => Some(chrono::Datelike::num_days_from_ce(&date)),
        None => None,
    }
}

/// `chrono::DateTime::format` with `%A, %B %d, %Y`, in the zone `chrono::Local`,
/// of the instant that `DateTime::from_timestamp` makes of `seconds`. Claimed:
/// there is a text exactly where `from_timestamp` makes an instant, which is
/// a matter of `seconds` alone. Of the text nothing: the zone is the machine's.
#[verifier::external_body]
fn local_long_date(seconds: i64) -> (text: Option<String>)
    ensures
        text is Some <==> calendar_reaches(seconds),
{
    match chrono::DateTime::from_timestamp(seconds, 0) {
        Some(at) => Some(at.with_timezone(&chrono::Local).format("%A, %B %d, %Y").to_string()),
        None => None,
    }
}

/// `chrono::NaiveDateTime::and_local_timezone` with `chrono::Local`, and
/// `DateTime::timestamp` of the one instant it gives (`MappedLocalTime::single`)
/// for the civil time that lies `civil` seconds after 1970-01-01T00:00:00;
/// `None` where the zone has no such time, or has it twice, or chrono cannot
/// count so far. The answer depends on the machine's time zone, so nothing
/// is claimed of it.
#[verifier::external_body]
pub(crate) fn local_instant(civil: i64) -> (utc: Option<i64>) {
    match chrono::DateTime::from_timestamp(civil, 0) {
        Some(at) => match at.naive_utc().and_local_timezone(chrono::Local).single() {
            Some(local) => Some(local.timestamp()),
            None => None,
        },
        None => None,
    }
}

/// Midnight UTC at the start of the day that chrono counts as `days`.
pub open spec fn midnight(days: int) -> int {
    (days - EPOCH_DAY) * DAY
}

/// The last midnight UTC at or before `seconds`.
pub open spec fn day_start(seconds: int) -> int {
    seconds - seconds % (DAY as int)
}

/// `seconds` counted in whole minutes, the remainder dropped towards zero.
pub open spec fn whole_minutes(seconds: int) -> int {
    if seconds >= 0 {
        seconds / (MINUTE as int)
    } else {
        -((-seconds) / (MINUTE as int))
    }
}

/// A date and a time of day as a calendar and a wall clock show them, with
/// no time zone.
#[derive(Debug, PartialEq, Eq, Clone, Copy, Structural)]
pub struct Civil {
    pub year: i32,
    pub month: u32,
    pub day: u32,
    pub hour: u32,
    pub minute: u32,
    pub second: u32,
}

impl Civil {
    /// The seconds from 1970-01-01T00:00:00 to this civil time, where the
    /// calendar has the date and the clock has the time.
    pub open spec fn seconds_spec(self) -> Option<int> {
        match days_from_ce(self.year, self.month, self.day) {
            Some(days) => if self.hour < 24 && self.minute < 60 && self.second < 60 {
                Some(midnight(days as int) + self.hour * 3600 + self.minute * 60 + self.second)
            } else {
                None
            },
            None => None,
        }
    }

    /// The seconds from 1970-01-01T00:00:00 to this civil time, where the
    /// calendar has the date and the clock has the time.
    pub fn seconds(&self) -> (seconds: Option<i64>)
        ensures
            match self.seconds_spec() {
                Some(count) => seconds == Some(count as i64) && i64::MIN <= count <= i64::MAX,
                None => seconds is None,
            },
    {
        if self.hour >= 24 || self.minute >= 60 || self.second >= 60 {
            return None;
        }
        match calendar_day(self.year, self.month, self.day) {
            Some(days) => {
                let of_day: i64 = self.hour as i64 * 3600 + self.minute as i64 * 60
                    + self.second as i64;
                Some((days as i64 - EPOCH_DAY) * DAY + of_day)
            },
            None => None,
        }
    }
}

impl Date {
    /// Whether this instant is a midnight UTC.
    pub open spec fn is_midnight(self) -> bool {
        self.seconds % DAY == 0
    }

    /// Midnight UTC at the start of the given calendar date.
    pub fn ymd(year: i32, month: u32, day: u32) -> (date: Date)
        requires
            days_from_ce(year, month, day) is Some,
        ensures
            date.seconds == midnight(days_from_ce(year, month, day)->0 as int),
    {
        match calendar_day(year, month, day) {
            Some(days) => Date { seconds: (days as i64 - EPOCH_DAY) * DAY },
            None => unreached(),
        }
    }

    /// Midnight UTC at the start of the given calendar date, where the
    /// calendar has that date.
    pub fn try_ymd(year: i32, month: u32, day: u32) -> (date: Option<Date>)
        ensures
            match days_from_ce(year, month, day) {
                Some(days) => date == Some(Date { seconds: midnight(days as int) as i64 }),
                None => date is None,
            },
    {
        match calendar_day(year, month, day) {
            Some(_) => Some(Date::ymd(year, month, day)),
            None => None,
        }
    }

    /// Whether the last midnight UTC at or before this instant can be
    /// counted.
    pub fn has_start_of_day(self) -> (has: bool)
        ensures
            has == (day_start(self.seconds as int) >= i64::MIN),
    {
        self.seconds >= FIRST_MIDNIGHT
    }

    /// The last midnight UTC at or before this instant.
    pub fn start_of_day(self) -> (date: Date)
        requires
            day_start(self.seconds as int) >= i64::MIN,
        ensures
            date.seconds == day_start(self.seconds as int),
            date.is_midnight(),
            date.seconds <= self.seconds < date.seconds + DAY,
    {
        let within = self.seconds % DAY;
        if within < 0 {
            Date { seconds: self.seconds - (within + DAY) }
        } else {
            Date { seconds: self.seconds - within }
        }
    }

    /// This instant moved by `cadence`, where the result can be counted.
    pub fn checked_add(self, cadence: Cadence) -> (date: Option<Date>)
        ensures
            match date {
                Some(moved) => moved.seconds == self.seconds + cadence.minutes * MINUTE,
                None => !(i64::MIN <= self.seconds + cadence.minutes * MINUTE <= i64::MAX),
            },
    {
        let moved: i128 = self.seconds as i128 + cadence.minutes as i128 * (MINUTE as i128);
        if i64::MIN as i128 <= moved && moved <= i64::MAX as i128 {
            Some(Date { seconds: moved as i64 })
        } else {
            None
        }
    }

    /// How this instant reads, given what the calendar made of it: the
    /// calendar's text where there is one, else the count of seconds.
    pub fn rendered(self, calendar: Option<String>) -> (out: String)
        ensures
            out@ == match calendar {
                Some(text) => text@,
                None => signed_decimal(self.seconds as int),
            },
    {
        match calendar {
            Some(text) => text,
            None => {
                let mut out = String::new();
                push_signed(&mut out, self.seconds);
                out
            },
        }
    }

    /// The date in words, as in `Saturday, January 01, 2022`, in the local
    /// time zone; an instant that the calendar does not reach reads as its
    /// count of seconds.
    pub fn to_string(&self) -> (out: String)
        ensures
            !calendar_reaches(self.seconds) ==> out@ == signed_decimal(self.seconds as int),
    {
        let calendar = local_long_date(self.seconds);
        self.rendered(calendar)
    }
}

/// Whether chrono's calendar reaches the instant `seconds` after the epoch:
/// whether `chrono::DateTime::from_timestamp` makes an instant of `seconds`
/// and no nanoseconds.
pub uninterp spec fn calendar_reaches(seconds: i64) -> bool;

impl vstd::std_specs::ops::AddSpecImpl<Cadence> for Date {
    open spec fn obeys_add_spec() -> bool {
        true
    }

    open spec fn add_req(self, cadence: Cadence) -> bool {
        i64::MIN <= self.seconds + cadence.minutes * MINUTE <= i64::MAX
    }

    open spec fn add_spec(self, cadence: Cadence) -> Date {
        Date { seconds: (self.seconds + cadence.minutes * MINUTE) as i64 }
    }
}

impl core::ops::Add<Cadence> for Date {
    type Output = Date;

    /// This instant, `cadence` later.
    fn add(self, cadence: Cadence) -> (date: Date) {
        match self.checked_add(cadence) {
            Some(moved) => moved,
            None => unreached(),
        }
    }
}

impl vstd::std_specs::ops::AddSpecImpl<Date> for Cadence {
    open spec fn obeys_add_spec() -> bool {
        true
    }

    open spec fn add_req(self, date: Date) -> bool {
        i64::MIN <= date.seconds + self.minutes * MINUTE <= i64::MAX
    }

    open spec fn add_spec(self, date: Date) -> Date {
        Date { seconds: (date.seconds + self.minutes * MINUTE) as i64 }
    }
}

impl core::ops::Add<Date> for Cadence {
    type Output = Date;

    /// The instant `date`, this cadence later.
    fn add(self, date: Date) -> (moved: Date) {
        date + self
    }
}

impl vstd::std_specs::ops::SubSpecImpl<Cadence> for Date {
    open spec fn obeys_sub_spec() -> bool {
        true
    }

    open spec fn sub_req(self, cadence: Cadence) -> bool {
        i64::MIN <= self.seconds - cadence.minutes * MINUTE <= i64::MAX
    }

    open spec fn sub_spec(self, cadence: Cadence) -> Date {
        Date { seconds: (self.seconds - cadence.minutes * MINUTE) as i64 }
    }
}

impl core::ops::Sub<Cadence> for Date {
    type Output = Date;

    /// This instant, `cadence` earlier.
    fn sub(self, cadence: Cadence) -> (date: Date) {
        let moved: i128 = self.seconds as i128 - cadence.minutes as i128 * (MINUTE as i128);
        Date { seconds: moved as i64 }
    }
}

impl vstd::std_specs::ops::SubSpecImpl<Date> for Date {
    open spec fn obeys_sub_spec() -> bool {
        true
    }

    open spec fn sub_req(self, earlier: Date) -> bool {
        i64::MIN <= self.seconds - earlier.seconds <= i64::MAX
    }

    open spec fn sub_spec(self, earlier: Date) -> Cadence {
        Cadence { minutes: whole_minutes(self.seconds - earlier.seconds) as i64 }
    }
}

impl core::ops::Sub<Date> for Date {
    type Output = Cadence;

    /// The whole minutes from `earlier` to this instant.
    fn sub(self, earlier: Date) -> (span: Cadence) {
        Cadence { minutes: (self.seconds - earlier.seconds) / MINUTE }
    }
}

impl vstd::std_specs::ops::SubSpecImpl<Date> for Cadence {
    open spec fn obeys_sub_spec() -> bool {
        true
    }

    open spec fn sub_req(self, date: Date) -> bool {
        i64::MIN <= date.seconds - self.minutes * MINUTE <= i64::MAX
    }

    open spec fn sub_spec(self, date: Date) -> Date {
        Date { seconds: (date.seconds - self.minutes * MINUTE) as i64 }
    }
}

impl core::ops::Sub<Date> for Cadence {
    type Output = Date;

    /// The instant `date`, this cadence earlier: so long ago, seen from
    /// `date`.
    fn sub(self, date: Date) -> (moved: Date) {
        date - self
    }
}

/// Moving an instant by a cadence and back again gives the instant.
pub proof fn lemma_add_then_sub(date: Date, cadence: Cadence)
    requires
        date.add_req(cadence),
    ensures
        date.add_spec(cadence).sub_req(cadence),
        date.add_spec(cadence).sub_spec(cadence) == date,
{
}

/// A whole number of minutes added to an instant is the span from the
/// instant to the sum.
pub proof fn lemma_add_then_since(date: Date, cadence: Cadence)
    requires
        date.add_req(cadence),
        date.add_spec(cadence).sub_req(date),
    ensures
        date.add_spec(cadence).sub_spec(date) == cadence,
{
}

} // verus!
