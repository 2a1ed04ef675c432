//! Calendar fields of a local timestamp.
//!
//! The host's `Date` object reports the fields of an instant in local time.
//! Nothing is assumed about the numbers it reports: they are checked against
//! the natural range of each field before a [`CalendarBreakdown`] is made of
//! them, so every breakdown that comes out of this module is a valid one.

use vstd::prelude::*;

verus! {

/// `js_sys::Date`, a handle to a JavaScript `Date` object. Its contents are
/// opaque here; the getters below are the only way in.
#[verifier::external_type_specification]
#[verifier::external_body]
pub struct ExDate(js_sys::Date);

/// `js_sys::Date::get_month`, the binding of JavaScript's `getMonth()`: the
/// month of the date in local time, counted from zero. The result depends on
/// the host's time zone, and the binding's documentation gives no bound for
/// it, so nothing is claimed of it.
pub assume_specification[ js_sys::Date::get_month ](this: &js_sys::Date) -> u32;

/// `js_sys::Date::get_date`, the binding of JavaScript's `getDate()`: the day
/// of the month in local time. Nothing is claimed of the result.
pub assume_specification[ js_sys::Date::get_date ](this: &js_sys::Date) -> u32;

/// `js_sys::Date::get_hours`, the binding of JavaScript's `getHours()`: the
/// hour of the date in local time. Nothing is claimed of the result.
pub assume_specification[ js_sys::Date::get_hours ](this: &js_sys::Date) -> u32;

/// `js_sys::Date::get_minutes`, the binding of JavaScript's `getMinutes()`:
/// the minutes of the date in local time. Nothing is claimed of the result.
pub assume_specification[ js_sys::Date::get_minutes ](this: &js_sys::Date) -> u32;

/// `js_sys::Date::get_seconds`, the binding of JavaScript's `getSeconds()`:
/// the seconds of the date in local time. Nothing is claimed of the result.
pub assume_specification[ js_sys::Date::get_seconds ](this: &js_sys::Date) -> u32;

/// The calendar fields of an instant in local time. The month counts from
/// one; the day of the week is no part of it.
#[derive(Clone, Copy, Debug, PartialEq, Eq, Structural)]
pub struct CalendarBreakdown {
    pub month: u32,
    pub day: u32,
    pub hour: u32,
    pub minute: u32,
    pub second: u32,
}

/// Whether five numbers, as the host reports them, are each within the
/// natural range of their field. The host counts months from zero.
pub open spec fn local_fields_in_range(
    month_index: u32,
    date: u32,
    hours: u32,
    minutes: u32,
    seconds: u32,
) -> bool {
    &&& month_index <= 11
    &&& 1 <= date <= 31
    &&& hours <= 23
    &&& minutes <= 59
    &&& seconds <= 59
}

impl CalendarBreakdown {
    /// Each field is within its natural range.
    pub open spec fn is_valid(self) -> bool {
        &&& 1 <= self.month <= 12
        &&& 1 <= self.day <= 31
        &&& self.hour <= 23
        &&& self.minute <= 59
        &&& self.second <= 59
    }

    /// The breakdown of the fields that the host reports for an instant:
    /// the month index moves up by one, the other fields are kept. `None`
    /// exactly when a field is outside its natural range.
    pub fn from_local_fields(
        month_index: u32,
        date: u32,
        hours: u32,
        minutes: u32,
        seconds: u32,
    ) -> (r: Option<CalendarBreakdown>)
        ensures
            r.is_some() <==> local_fields_in_range(month_index, date, hours, minutes, seconds),
            r matches Some(b) ==> {
                &&& b.month == month_index + 1
                &&& b.day == date
                &&& b.hour == hours
                &&& b.minute == minutes
                &&& b.second == seconds
                &&& b.is_valid()
            },
    {
        if month_index <= 11 && 1 <= date && date <= 31 && hours <= 23 && minutes <= 59 && seconds
            <= 59 {
            Some(
                CalendarBreakdown {
                    month: month_index + 1,
                    day: date,
                    hour: hours,
                    minute: minutes,
                    second: seconds,
                },
            )
        } else {
            None
        }
    }

    /// Whether each field is within its natural range.
    pub fn check_valid(&self) -> (r: bool)
        ensures
            r == self.is_valid(),
    {
        1 <= self.month && self.month <= 12 && 1 <= self.day && self.day <= 31 && self.hour <= 23
            && self.minute <= 59 && self.second <= 59
    }
}

/// The calendar fields of `current_time` in local time, read from the host
/// and handed to [`CalendarBreakdown::from_local_fields`]. Whatever the host
/// reports, a breakdown that is returned is valid: its month is one of 1
/// to 12.
pub fn get_breakdown(current_time: &js_sys::Date) -> (r: Option<CalendarBreakdown>)
    ensures
        r matches Some(b) ==> b.is_valid(),
{
    let month_index: u32 = current_time.get_month();
    let date: u32 = current_time.get_date();
    let hours: u32 = current_time.get_hours();
    let minutes: u32 = current_time.get_minutes();
    let seconds: u32 = current_time.get_seconds();
    CalendarBreakdown::from_local_fields(month_index, date, hours, minutes, seconds)
}

} // verus!
