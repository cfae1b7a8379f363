//! Calendar timestamps as plain field values.
//!
//! Records carry the wall-clock time at which they were created.  The
//! library holds that time as six plain integers with a well-formedness
//! invariant, so that rendering it as `YYYY-MM-DD HH:MM:SS` is ordinary
//! verified arithmetic on digits.  Only reading the clock itself is
//! delegated to an outside crate, behind one trusted wrapper.

use chrono::Datelike;
use chrono::Timelike;
use vstd::prelude::*;

verus! {

/// A calendar date and time of day, split into plain fields.
#[derive(Clone, Copy, Debug, PartialEq, Eq, Structural)]
pub struct Timestamp {
    pub year: u16,
    pub month: u8,
    pub day: u8,
    pub hour: u8,
    pub minute: u8,
    pub second: u8,
}

impl Timestamp {
    /// Field ranges of a renderable timestamp: a four-digit year, a valid
    /// month and day-of-month number, and a time of day.
    pub open spec fn wf(self) -> bool {
        &&& self.year <= 9999
        &&& 1 <= self.month <= 12
        &&& 1 <= self.day <= 31
        &&& self.hour <= 23
        &&& self.minute <= 59
        &&& self.second <= 59
    }

    /// Build a timestamp from raw clock fields.  The month, day and
    /// time-of-day fields must already be in calendar range (the clock
    /// reading guarantees them); a year outside the four-digit range is
    /// clamped so that the result always renders at fixed width.
    pub fn from_clock_fields(
        year: i32,
        month: u32,
        day: u32,
        hour: u32,
        minute: u32,
        second: u32,
    ) -> (r: Timestamp)
        requires
            1 <= month <= 12,
            1 <= day <= 31,
            hour <= 23,
            minute <= 59,
            second <= 59,
        ensures
            r.wf(),
            0 <= year <= 9999 ==> r.year == year,
            year < 0 ==> r.year == 0,
            year > 9999 ==> r.year == 9999,
            r.month == month,
            r.day == day,
            r.hour == hour,
            r.minute == minute,
            r.second == second,
    {
        let clamped_year: u16 = if year < 0 {
            0
        } else if year > 9999 {
            9999
        } else {
            year as u16
        };
        Timestamp {
            year: clamped_year,
            month: month as u8,
            day: day as u8,
            hour: hour as u8,
            minute: minute as u8,
            second: second as u8,
        }
    }

    /// The current local time, as reported by the system clock.
    pub fn now() -> (r: Timestamp)
        ensures
            r.wf(),
    {
        let (year, month, day, hour, minute, second) = local_clock_fields();
        Timestamp::from_clock_fields(year, month, day, hour, minute, second)
    }
}

/// Relies on `chrono::Local::now` and chrono's `Datelike` / `Timelike`
/// accessors: `month` is in `1..=12`, `day` in `1..=31`, `hour` in `0..=23`,
/// `minute` and `second` in `0..=59` (chrono folds a leap second into the
/// nanosecond field, never into `second`).  Nothing is promised of the year:
/// the clock may be set to anything.
#[verifier::external_body]
fn local_clock_fields() -> (r: (i32, u32, u32, u32, u32, u32))
    ensures
        1 <= r.1 <= 12,
        1 <= r.2 <= 31,
        r.3 <= 23,
        r.4 <= 59,
        r.5 <= 59,
{
    let now = chrono::Local::now();
    (now.year(), now.month(), now.day(), now.hour(), now.minute(), now.second())
}

} // verus!
