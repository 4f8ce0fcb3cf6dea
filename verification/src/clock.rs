//! The clock: a single local timestamp captured on first use, and the
//! calendar-date queries answered from it.
//!
//! The timestamp and the calendar arithmetic are chrono's; they pass through
//! trusted wrappers. What this module proves is the decision layer: the
//! narrowing of chrono's month and day numbers into the engine's date value
//! never fails, and the engine accepts exactly the valid proleptic Gregorian
//! dates within its supported year range.

use chrono::Datelike;
use vstd::prelude::*;

verus! {

#[verifier::external_type_specification]
#[verifier::external_body]
pub struct ExNaiveDateTime(chrono::NaiveDateTime);

/// One captured instant: its wall-clock reading in the local offset and its
/// reading in UTC, taken from the same timestamp.
pub struct ClockSnapshot {
    pub local: chrono::NaiveDateTime,
    pub utc: chrono::NaiveDateTime,
}

/// The year a timestamp's calendar reading shows; a function of the
/// timestamp value alone.
pub uninterp spec fn year_of(t: chrono::NaiveDateTime) -> int;

/// The month (1..=12) a timestamp's calendar reading shows; a function of
/// the timestamp value alone.
pub uninterp spec fn month_of(t: chrono::NaiveDateTime) -> int;

/// The day of month (1..=31) a timestamp's calendar reading shows; a
/// function of the timestamp value alone.
pub uninterp spec fn day_of(t: chrono::NaiveDateTime) -> int;

/// The timestamp shifted by a number of seconds, or nothing when the shift
/// leaves the representable range; a function of timestamp and shift alone.
pub uninterp spec fn shifted_of(t: chrono::NaiveDateTime, secs: int) -> Option<
    chrono::NaiveDateTime,
>;

/// Relies on `chrono::Local::now`, read out once with
/// `chrono::DateTime::naive_local` and `chrono::DateTime::naive_utc`: both
/// fields come from the same captured timestamp; nothing is assumed of its
/// value. (chrono panics if the system clock predates 1970; that condition
/// is environmental and cannot be excluded here.)
#[verifier::external_body]
pub(crate) fn capture_now() -> ClockSnapshot {
    let t = chrono::Local::now();
    ClockSnapshot { local: t.naive_local(), utc: t.naive_utc() }
}

/// Relies on `chrono::NaiveDateTime::checked_add_signed` and
/// `chrono::TimeDelta::try_seconds`: the timestamp shifted by the given
/// number of seconds, or `None` when the shift leaves the representable
/// range; deterministic in its arguments, named [`shifted_of`].
#[verifier::external_body]
pub(crate) fn shift_seconds(t: chrono::NaiveDateTime, secs: i64) -> (r: Option<
    chrono::NaiveDateTime,
>)
    ensures
        r == shifted_of(t, secs as int),
{
    t.checked_add_signed(chrono::TimeDelta::try_seconds(secs)?)
}

/// Relies on `chrono::Datelike::year`: deterministic in the timestamp,
/// named [`year_of`].
#[verifier::external_body]
pub(crate) fn naive_year(t: &chrono::NaiveDateTime) -> (r: i32)
    ensures
        r as int == year_of(*t),
{
    t.year()
}

/// Relies on `chrono::Datelike::month`: documented to range over 1..=12;
/// deterministic in the timestamp, named [`month_of`].
#[verifier::external_body]
pub(crate) fn naive_month(t: &chrono::NaiveDateTime) -> (r: u32)
    ensures
        r as int == month_of(*t),
        1 <= r <= 12,
{
    t.month()
}

/// Relies on `chrono::Datelike::day`: documented to range over 1..=31;
/// deterministic in the timestamp, named [`day_of`].
#[verifier::external_body]
pub(crate) fn naive_day(t: &chrono::NaiveDateTime) -> (r: u32)
    ensures
        r as int == day_of(*t),
        1 <= r <= 31,
{
    t.day()
}

/// Proleptic Gregorian leap year.
pub open spec fn is_leap_year(y: int) -> bool {
    let a = if y < 0 {
        -y
    } else {
        y
    };
    a % 4 == 0 && (a % 100 != 0 || a % 400 == 0)
}

/// Days in a month of the proleptic Gregorian calendar.
pub open spec fn days_in_month(y: int, m: int) -> int {
    if m == 2 {
        if is_leap_year(y) {
            29
        } else {
            28
        }
    } else if m == 4 || m == 6 || m == 9 || m == 11 {
        30
    } else {
        31
    }
}

/// The dates the engine can represent: valid proleptic Gregorian dates with
/// years in -9999..=9999.
pub open spec fn valid_ymd(y: int, m: int, d: int) -> bool {
    -9999 <= y <= 9999 && 1 <= m <= 12 && 1 <= d <= days_in_month(y, m)
}

/// A calendar date the engine can represent, with its validity invariant.
pub struct EngineDate {
    pub year: i32,
    pub month: u8,
    pub day: u8,
}

impl EngineDate {
    /// The fields form a valid date.
    pub open spec fn wf(&self) -> bool {
        valid_ymd(self.year as int, self.month as int, self.day as int)
    }
}

/// The date value the given calendar fields narrow to: the fields
/// themselves when they form a representable date, nothing otherwise.
pub open spec fn date_of_fields(y: int, m: int, d: int) -> Option<EngineDate> {
    if valid_ymd(y, m, d) {
        Some(EngineDate { year: y as i32, month: m as u8, day: d as u8 })
    } else {
        None
    }
}

/// Days in a month, executably.
fn days_in_month_of(y: i32, m: u32) -> (r: u32)
    requires
        1 <= m <= 12,
    ensures
        r == days_in_month(y as int, m as int),
{
    if m == 2 {
        let a: i64 = if y < 0 {
            -(y as i64)
        } else {
            y as i64
        };
        if a % 4 == 0 && (a % 100 != 0 || a % 400 == 0) {
            29
        } else {
            28
        }
    } else if m == 4 || m == 6 || m == 9 || m == 11 {
        30
    } else {
        31
    }
}

/// Narrows chrono's calendar fields into a date value the engine can
/// represent: exactly the valid dates with years in -9999..=9999 pass the
/// defensive bound check, all others are reported unavailable.
pub fn date_from_fields(y: i32, m: u32, d: u32) -> (r: Option<EngineDate>)
    requires
        1 <= m <= 12,
        1 <= d <= 31,
    ensures
        r == date_of_fields(y as int, m as int, d as int),
        r matches Some(v) ==> v.wf(),
{
    let dim = days_in_month_of(y, m);
    if -9999 <= y && y <= 9999 && d <= dim {
        Some(EngineDate { year: y, month: m as u8, day: d as u8 })
    } else {
        None
    }
}

} // verus!
