//! Calendar date and time values for RTC drivers.
//!
//! A [`DateTime`] stores year, month, day, hour, minute and second, and can
//! only ever hold a combination that denotes an existing Gregorian calendar
//! instant on or after 1970-01-01. Construction validates every field, each
//! setter re-validates before it writes, and a failed mutation leaves the
//! value untouched. The weekday is derived on demand with Zeller's
//! congruence and reported in this crate's convention, 1 = Sunday through
//! 7 = Saturday; drivers whose hardware numbers weekdays differently convert
//! at their own boundary.
//!
//! Year range: only the lower bound 1970 is enforced here. Chips with a
//! narrower range (for example 2000-2099) are the driver's responsibility.

use vstd::prelude::*;

verus! {

/// Why a candidate date, time or weekday value was rejected.
#[derive(Debug, Clone, Copy, PartialEq, Eq, Structural)]
pub enum DateTimeError {
    /// Invalid month value
    InvalidMonth,
    /// Invalid day value
    InvalidDay,
    /// Invalid hour value
    InvalidHour,
    /// Invalid minute value
    InvalidMinute,
    /// Invalid second value
    InvalidSecond,
    /// Invalid weekday value
    InvalidWeekday,
    /// Invalid year value
    InvalidYear,
}

/// The mathematical value of a [`DateTime`]: its six calendar fields as
/// unbounded integers.
pub ghost struct DateTimeView {
    /// Year (full year, e.g. 2024)
    pub year: int,
    /// Month (1-12)
    pub month: int,
    /// Day of the month (1-31 depending on month and year)
    pub day_of_month: int,
    /// Hour (0-23)
    pub hour: int,
    /// Minute (0-59)
    pub minute: int,
    /// Second (0-59)
    pub second: int,
}

/// The view a [`DateTime`] would have if it held exactly these six fields.
pub open spec fn view_of_fields(
    year: u16,
    month: u8,
    day_of_month: u8,
    hour: u8,
    minute: u8,
    second: u8,
) -> DateTimeView {
    DateTimeView {
        year: year as int,
        month: month as int,
        day_of_month: day_of_month as int,
        hour: hour as int,
        minute: minute as int,
        second: second as int,
    }
}

/// A year is accepted from 1970 onwards.
pub open spec fn valid_year(year: int) -> bool {
    year >= 1970
}

/// A month is accepted in 1..=12.
pub open spec fn valid_month(month: int) -> bool {
    1 <= month <= 12
}

/// A day is accepted in 1..=(days of that month in that year); for a month
/// outside 1..=12 the day count is 0, so no day is accepted.
pub open spec fn valid_day(year: int, month: int, day: int) -> bool {
    1 <= day <= spec_days_in_month(year, month)
}

/// An hour is accepted in 0..=23.
pub open spec fn valid_hour(hour: int) -> bool {
    0 <= hour <= 23
}

/// A minute is accepted in 0..=59.
pub open spec fn valid_minute(minute: int) -> bool {
    0 <= minute <= 59
}

/// A second is accepted in 0..=59.
pub open spec fn valid_second(second: int) -> bool {
    0 <= second <= 59
}

/// All six fields jointly denote an existing calendar instant on or after
/// 1970-01-01T00:00:00.
pub open spec fn valid_date_time(v: DateTimeView) -> bool {
    &&& valid_year(v.year)
    &&& valid_month(v.month)
    &&& valid_day(v.year, v.month, v.day_of_month)
    &&& valid_hour(v.hour)
    &&& valid_minute(v.minute)
    &&& valid_second(v.second)
}

/// Validation verdict on six candidate fields, reporting the first failure
/// in the fixed order year, month, day, hour, minute, second.
pub open spec fn spec_validate(v: DateTimeView) -> Result<(), DateTimeError> {
    if !valid_year(v.year) {
        Err(DateTimeError::InvalidYear)
    } else if !valid_month(v.month) {
        Err(DateTimeError::InvalidMonth)
    } else if !valid_day(v.year, v.month, v.day_of_month) {
        Err(DateTimeError::InvalidDay)
    } else if !valid_hour(v.hour) {
        Err(DateTimeError::InvalidHour)
    } else if !valid_minute(v.minute) {
        Err(DateTimeError::InvalidMinute)
    } else if !valid_second(v.second) {
        Err(DateTimeError::InvalidSecond)
    } else {
        Ok(())
    }
}

/// Validation succeeds exactly on the field combinations that denote an
/// existing calendar instant on or after 1970-01-01T00:00:00.
pub proof fn lemma_validate_ok_iff_valid(v: DateTimeView)
    ensures
        spec_validate(v) is Ok <==> valid_date_time(v),
{
}

/// Gregorian leap-year rule: divisible by 4, except century years not
/// divisible by 400.
pub open spec fn spec_is_leap_year(year: int) -> bool {
    year % 4 == 0 && (year % 100 != 0 || year % 400 == 0)
}

/// Number of days in a month: 31 or 30 by month, 29 or 28 for February
/// depending on the leap-year rule, and 0 for a month outside 1..=12.
pub open spec fn spec_days_in_month(year: int, month: int) -> int {
    if month == 1 || month == 3 || month == 5 || month == 7 || month == 8 || month == 10
        || month == 12 {
        31
    } else if month == 4 || month == 6 || month == 9 || month == 11 {
        30
    } else if month == 2 {
        if spec_is_leap_year(year) {
            29
        } else {
            28
        }
    } else {
        0
    }
}

/// Zeller's congruence, with January and February counted as months 13 and
/// 14 of the previous year. The result follows Zeller's own convention,
/// 0 = Saturday through 6 = Friday.
pub open spec fn spec_zeller_index(year: int, month: int, day: int) -> int {
    let yy = if month < 3 {
        year - 1
    } else {
        year
    };
    let mm = if month < 3 {
        month + 12
    } else {
        month
    };
    let k = yy % 100;
    let j = yy / 100;
    (day + (13 * (mm + 1)) / 5 + k + k / 4 + j / 4 - 2 * j) % 7
}

/// Weekday number of a date in this crate's convention, 1 = Sunday through
/// 7 = Saturday, derived from Zeller's congruence.
pub open spec fn spec_weekday_number(year: int, month: int, day: int) -> int {
    (spec_zeller_index(year, month, day) + 6) % 7 + 1
}

/// Day of the week (1 = Sunday .. 7 = Saturday).
#[derive(Debug, Clone, Copy, PartialEq, Eq, Structural)]
pub enum Weekday {
    /// Sunday, numbered 1
    Sunday,
    /// Monday, numbered 2
    Monday,
    /// Tuesday, numbered 3
    Tuesday,
    /// Wednesday, numbered 4
    Wednesday,
    /// Thursday, numbered 5
    Thursday,
    /// Friday, numbered 6
    Friday,
    /// Saturday, numbered 7
    Saturday,
}

/// The weekday carrying a number in 1..=7; numbers outside that range are
/// never produced by this crate and map arbitrarily to Saturday.
pub open spec fn spec_weekday_from_number(n: int) -> Weekday {
    if n == 1 {
        Weekday::Sunday
    } else if n == 2 {
        Weekday::Monday
    } else if n == 3 {
        Weekday::Tuesday
    } else if n == 4 {
        Weekday::Wednesday
    } else if n == 5 {
        Weekday::Thursday
    } else if n == 6 {
        Weekday::Friday
    } else {
        Weekday::Saturday
    }
}

impl Weekday {
    /// The number of this weekday, 1 = Sunday through 7 = Saturday.
    pub open spec fn as_number(self) -> int {
        match self {
            Weekday::Sunday => 1,
            Weekday::Monday => 2,
            Weekday::Tuesday => 3,
            Weekday::Wednesday => 4,
            Weekday::Thursday => 5,
            Weekday::Friday => 6,
            Weekday::Saturday => 7,
        }
    }

    /// The English name of this weekday.
    pub open spec fn spec_name(self) -> Seq<char> {
        match self {
            Weekday::Sunday => "Sunday"@,
            Weekday::Monday => "Monday"@,
            Weekday::Tuesday => "Tuesday"@,
            Weekday::Wednesday => "Wednesday"@,
            Weekday::Thursday => "Thursday"@,
            Weekday::Friday => "Friday"@,
            Weekday::Saturday => "Saturday"@,
        }
    }

    /// Create a `Weekday` from a raw number (1 = Sunday .. 7 = Saturday);
    /// any number outside 1..=7 is rejected.
    pub fn from_number(n: u8) -> (r: Result<Self, DateTimeError>)
        ensures
            r == (if 1 <= n <= 7 {
                Ok::<Weekday, DateTimeError>(spec_weekday_from_number(n as int))
            } else {
                Err::<Weekday, DateTimeError>(DateTimeError::InvalidWeekday)
            }),
    {
        match n {
            1 => Ok(Self::Sunday),
            2 => Ok(Self::Monday),
            3 => Ok(Self::Tuesday),
            4 => Ok(Self::Wednesday),
            5 => Ok(Self::Thursday),
            6 => Ok(Self::Friday),
            7 => Ok(Self::Saturday),
            _ => Err(DateTimeError::InvalidWeekday),
        }
    }

    /// Get the number form (1 = Sunday .. 7 = Saturday).
    pub fn to_number(self) -> (r: u8)
        ensures
            r as int == self.as_number(),
    {
        match self {
            Weekday::Sunday => 1,
            Weekday::Monday => 2,
            Weekday::Tuesday => 3,
            Weekday::Wednesday => 4,
            Weekday::Thursday => 5,
            Weekday::Friday => 6,
            Weekday::Saturday => 7,
        }
    }

    /// Get the weekday name as a string slice.
    pub fn as_str(&self) -> (r: &'static str)
        ensures
            r@ == self.spec_name(),
    {
        match self {
            Weekday::Sunday => "Sunday",
            Weekday::Monday => "Monday",
            Weekday::Tuesday => "Tuesday",
            Weekday::Wednesday => "Wednesday",
            Weekday::Thursday => "Thursday",
            Weekday::Friday => "Friday",
            Weekday::Saturday => "Saturday",
        }
    }
}

/// Numbering and naming are a bijection: every weekday's number lies in
/// 1..=7 and is mapped back to that same weekday, and every number in 1..=7
/// is the number of the weekday it maps to.
pub proof fn lemma_weekday_number_bijection(w: Weekday, n: int)
    ensures
        1 <= w.as_number() <= 7,
        spec_weekday_from_number(w.as_number()) == w,
        1 <= n <= 7 ==> spec_weekday_from_number(n).as_number() == n,
{
}

/// Date and time representation used across RTC drivers.
///
/// Every value of this type denotes an existing Gregorian calendar instant:
/// the validating constructor is the only way to obtain one, and every
/// setter re-validates before writing, so no reachable value ever holds a
/// combination such as February 30th or hour 24.
///
/// - Validates that `year >= 1970`
/// - Other limits (e.g., 2000-2099) must be enforced by individual drivers
#[derive(Debug, Clone, Copy, PartialEq, Eq, Structural)]
pub struct DateTime {
    year: u16,
    month: u8,
    day_of_month: u8,
    hour: u8,
    minute: u8,
    second: u8,
}

impl View for DateTime {
    type V = DateTimeView;

    closed spec fn view(&self) -> DateTimeView {
        DateTimeView {
            year: self.year as int,
            month: self.month as int,
            day_of_month: self.day_of_month as int,
            hour: self.hour as int,
            minute: self.minute as int,
            second: self.second as int,
        }
    }
}

impl DateTime {
    /// Invariant of the type: a `DateTime` always denotes an existing
    /// calendar instant on or after 1970-01-01T00:00:00.
    #[verifier::type_invariant]
    pub open spec fn wf(self) -> bool {
        valid_date_time(self@)
    }

    /// Create a new `DateTime` instance with validation.
    ///
    /// Fields are checked in the fixed order year, month, day, hour,
    /// minute, second, and the first failure is reported.
    pub fn new(
        year: u16,
        month: u8,
        day_of_month: u8,
        hour: u8,
        minute: u8,
        second: u8,
    ) -> (r: Result<Self, DateTimeError>)
        ensures
            (match r {
                Ok(dt) => dt@ == view_of_fields(year, month, day_of_month, hour, minute, second)
                    && spec_validate(view_of_fields(year, month, day_of_month, hour, minute, second))
                        == Ok::<(), DateTimeError>(()),
                Err(e) => spec_validate(view_of_fields(year, month, day_of_month, hour, minute, second))
                    == Err::<(), DateTimeError>(e),
            }),
    {
        if let Err(e) = Self::validate_year(year) {
            return Err(e);
        }
        if let Err(e) = Self::validate_month(month) {
            return Err(e);
        }
        if let Err(e) = Self::validate_day(year, month, day_of_month) {
            return Err(e);
        }
        if let Err(e) = Self::validate_hour(hour) {
            return Err(e);
        }
        if let Err(e) = Self::validate_minute(minute) {
            return Err(e);
        }
        if let Err(e) = Self::validate_second(second) {
            return Err(e);
        }
        Ok(DateTime { year, month, day_of_month, hour, minute, second })
    }

    /// Validate all datetime components, reporting the first failure in the
    /// fixed order year, month, day, hour, minute, second.
    ///
    /// A reachable `DateTime` is always valid, so this reports `Ok`.
    pub fn validate(&self) -> (r: Result<(), DateTimeError>)
        ensures
            r == spec_validate(self@),
            r is Ok,
    {
        proof {
            use_type_invariant(&*self);
        }
        if let Err(e) = Self::validate_year(self.year) {
            return Err(e);
        }
        if let Err(e) = Self::validate_month(self.month) {
            return Err(e);
        }
        if let Err(e) = Self::validate_day(self.year, self.month, self.day_of_month) {
            return Err(e);
        }
        if let Err(e) = Self::validate_hour(self.hour) {
            return Err(e);
        }
        if let Err(e) = Self::validate_minute(self.minute) {
            return Err(e);
        }
        if let Err(e) = Self::validate_second(self.second) {
            return Err(e);
        }
        Ok(())
    }

    /// Validate the year (must be >= 1970).
    fn validate_year(year: u16) -> (r: Result<(), DateTimeError>)
        ensures
            r == (if valid_year(year as int) {
                Ok::<(), DateTimeError>(())
            } else {
                Err::<(), DateTimeError>(DateTimeError::InvalidYear)
            }),
    {
        if year < 1970 {
            return Err(DateTimeError::InvalidYear);
        }
        Ok(())
    }

    /// Validate the month (must be 1-12).
    fn validate_month(month: u8) -> (r: Result<(), DateTimeError>)
        ensures
            r == (if valid_month(month as int) {
                Ok::<(), DateTimeError>(())
            } else {
                Err::<(), DateTimeError>(DateTimeError::InvalidMonth)
            }),
    {
        if month == 0 || month > 12 {
            return Err(DateTimeError::InvalidMonth);
        }
        Ok(())
    }

    /// Validate the day (must be within the valid range for the month/year).
    fn validate_day(year: u16, month: u8, day: u8) -> (r: Result<(), DateTimeError>)
        ensures
            r == (if valid_day(year as int, month as int, day as int) {
                Ok::<(), DateTimeError>(())
            } else {
                Err::<(), DateTimeError>(DateTimeError::InvalidDay)
            }),
    {
        let max_day = days_in_month(year, month);
        if day == 0 || day > max_day {
            return Err(DateTimeError::InvalidDay);
        }
        Ok(())
    }

    /// Validate the hour (must be 0-23).
    fn validate_hour(hour: u8) -> (r: Result<(), DateTimeError>)
        ensures
            r == (if valid_hour(hour as int) {
                Ok::<(), DateTimeError>(())
            } else {
                Err::<(), DateTimeError>(DateTimeError::InvalidHour)
            }),
    {
        if hour > 23 {
            return Err(DateTimeError::InvalidHour);
        }
        Ok(())
    }

    /// Validate the minute (must be 0-59).
    fn validate_minute(minute: u8) -> (r: Result<(), DateTimeError>)
        ensures
            r == (if valid_minute(minute as int) {
                Ok::<(), DateTimeError>(())
            } else {
                Err::<(), DateTimeError>(DateTimeError::InvalidMinute)
            }),
    {
        if minute > 59 {
            return Err(DateTimeError::InvalidMinute);
        }
        Ok(())
    }

    /// Validate the second (must be 0-59).
    fn validate_second(second: u8) -> (r: Result<(), DateTimeError>)
        ensures
            r == (if valid_second(second as int) {
                Ok::<(), DateTimeError>(())
            } else {
                Err::<(), DateTimeError>(DateTimeError::InvalidSecond)
            }),
    {
        if second > 59 {
            return Err(DateTimeError::InvalidSecond);
        }
        Ok(())
    }

    /// Get the year (e.g. 2025).
    pub fn year(&self) -> (r: u16)
        ensures
            r as int == self@.year,
    {
        self.year
    }

    /// Get the month number (1-12).
    pub fn month(&self) -> (r: u8)
        ensures
            r as int == self@.month,
    {
        self.month
    }

    /// Get the day of the month (1-31).
    pub fn day_of_month(&self) -> (r: u8)
        ensures
            r as int == self@.day_of_month,
    {
        self.day_of_month
    }

    /// Get the hour (0-23).
    pub fn hour(&self) -> (r: u8)
        ensures
            r as int == self@.hour,
    {
        self.hour
    }

    /// Get the minute (0-59).
    pub fn minute(&self) -> (r: u8)
        ensures
            r as int == self@.minute,
    {
        self.minute
    }

    /// Get the second (0-59).
    pub fn second(&self) -> (r: u8)
        ensures
            r as int == self@.second,
    {
        self.second
    }

    /// Set year with validation.
    ///
    /// Re-validates the existing day against the new year, so moving
    /// February 29th to a non-leap year is rejected. On failure the value is
    /// left completely unchanged.
    pub fn set_year(&mut self, year: u16) -> (r: Result<(), DateTimeError>)
        ensures
            r == (if !valid_year(year as int) {
                Err::<(), DateTimeError>(DateTimeError::InvalidYear)
            } else if !valid_day(year as int, old(self)@.month, old(self)@.day_of_month) {
                Err::<(), DateTimeError>(DateTimeError::InvalidDay)
            } else {
                Ok::<(), DateTimeError>(())
            }),
            (r is Ok ==> final(self)@ == (DateTimeView { year: year as int, ..old(self)@ })),
            (r is Err ==> *final(self) == *old(self)),
    {
        proof {
            use_type_invariant(&*self);
        }
        if let Err(e) = Self::validate_year(year) {
            return Err(e);
        }
        if let Err(e) = Self::validate_day(year, self.month, self.day_of_month) {
            return Err(e);
        }
        self.year = year;
        Ok(())
    }

    /// Set month with validation.
    ///
    /// Re-validates the existing day against the new month, so moving
    /// January 31st to a 30-day month is rejected. On failure the value is
    /// left completely unchanged.
    pub fn set_month(&mut self, month: u8) -> (r: Result<(), DateTimeError>)
        ensures
            r == (if !valid_month(month as int) {
                Err::<(), DateTimeError>(DateTimeError::InvalidMonth)
            } else if !valid_day(old(self)@.year, month as int, old(self)@.day_of_month) {
                Err::<(), DateTimeError>(DateTimeError::InvalidDay)
            } else {
                Ok::<(), DateTimeError>(())
            }),
            (r is Ok ==> final(self)@ == (DateTimeView { month: month as int, ..old(self)@ })),
            (r is Err ==> *final(self) == *old(self)),
    {
        proof {
            use_type_invariant(&*self);
        }
        if let Err(e) = Self::validate_month(month) {
            return Err(e);
        }
        if let Err(e) = Self::validate_day(self.year, month, self.day_of_month) {
            return Err(e);
        }
        self.month = month;
        Ok(())
    }

    /// Set day with validation. On failure the value is left unchanged.
    pub fn set_day_of_month(&mut self, day_of_month: u8) -> (r: Result<(), DateTimeError>)
        ensures
            r == (if valid_day(old(self)@.year, old(self)@.month, day_of_month as int) {
                Ok::<(), DateTimeError>(())
            } else {
                Err::<(), DateTimeError>(DateTimeError::InvalidDay)
            }),
            (r is Ok ==> final(self)@ == (DateTimeView {
                day_of_month: day_of_month as int,
                ..old(self)@
            })),
            (r is Err ==> *final(self) == *old(self)),
    {
        proof {
            use_type_invariant(&*self);
        }
        if let Err(e) = Self::validate_day(self.year, self.month, day_of_month) {
            return Err(e);
        }
        self.day_of_month = day_of_month;
        Ok(())
    }

    /// Set hour with validation. On failure the value is left unchanged.
    pub fn set_hour(&mut self, hour: u8) -> (r: Result<(), DateTimeError>)
        ensures
            r == (if valid_hour(hour as int) {
                Ok::<(), DateTimeError>(())
            } else {
                Err::<(), DateTimeError>(DateTimeError::InvalidHour)
            }),
            (r is Ok ==> final(self)@ == (DateTimeView { hour: hour as int, ..old(self)@ })),
            (r is Err ==> *final(self) == *old(self)),
    {
        proof {
            use_type_invariant(&*self);
        }
        if let Err(e) = Self::validate_hour(hour) {
            return Err(e);
        }
        self.hour = hour;
        Ok(())
    }

    /// Set minute with validation. On failure the value is left unchanged.
    pub fn set_minute(&mut self, minute: u8) -> (r: Result<(), DateTimeError>)
        ensures
            r == (if valid_minute(minute as int) {
                Ok::<(), DateTimeError>(())
            } else {
                Err::<(), DateTimeError>(DateTimeError::InvalidMinute)
            }),
            (r is Ok ==> final(self)@ == (DateTimeView { minute: minute as int, ..old(self)@ })),
            (r is Err ==> *final(self) == *old(self)),
    {
        proof {
            use_type_invariant(&*self);
        }
        if let Err(e) = Self::validate_minute(minute) {
            return Err(e);
        }
        self.minute = minute;
        Ok(())
    }

    /// Set second with validation. On failure the value is left unchanged.
    pub fn set_second(&mut self, second: u8) -> (r: Result<(), DateTimeError>)
        ensures
            r == (if valid_second(second as int) {
                Ok::<(), DateTimeError>(())
            } else {
                Err::<(), DateTimeError>(DateTimeError::InvalidSecond)
            }),
            (r is Ok ==> final(self)@ == (DateTimeView { second: second as int, ..old(self)@ })),
            (r is Err ==> *final(self) == *old(self)),
    {
        proof {
            use_type_invariant(&*self);
        }
        if let Err(e) = Self::validate_second(second) {
            return Err(e);
        }
        self.second = second;
        Ok(())
    }

    /// Calculate the weekday for this `DateTime`.
    ///
    /// A reachable `DateTime` always denotes a real date, so this never
    /// fails.
    pub fn calculate_weekday(&self) -> (r: Result<Weekday, DateTimeError>)
        ensures
            r == Ok::<Weekday, DateTimeError>(
                spec_weekday_from_number(
                    spec_weekday_number(self@.year, self@.month, self@.day_of_month),
                ),
            ),
    {
        proof {
            use_type_invariant(&*self);
        }
        calculate_weekday(self.year, self.month, self.day_of_month)
    }
}

/// Check if a year is a leap year.
pub fn is_leap_year(year: u16) -> (r: bool)
    ensures
        r == spec_is_leap_year(year as int),
{
    (year % 4 == 0) && (year % 100 != 0 || year % 400 == 0)
}

/// Get the number of days in a month, or 0 for a month outside 1..=12.
pub fn days_in_month(year: u16, month: u8) -> (r: u8)
    ensures
        r as int == spec_days_in_month(year as int, month as int),
{
    match month {
        1 | 3 | 5 | 7 | 8 | 10 | 12 => 31,
        4 | 6 | 9 | 11 => 30,
        2 => {
            if is_leap_year(year) {
                29
            } else {
                28
            }
        },
        _ => 0,
    }
}

/// The day count of a real month lies in 28..=31, and a month outside
/// 1..=12 has day count 0.
pub proof fn lemma_days_in_month_bounds(year: int, month: int)
    ensures
        valid_month(month) ==> 28 <= spec_days_in_month(year, month) <= 31,
        !valid_month(month) ==> spec_days_in_month(year, month) == 0,
{
}

/// The weekday number derived from any date lies in 1..=7.
pub proof fn lemma_weekday_number_range(year: int, month: int, day: int)
    ensures
        1 <= spec_weekday_number(year, month, day) <= 7,
{
}

/// Calculate the day of the week using Zeller's congruence.
/// Returns 1=Sunday, 2=Monday, ..., 7=Saturday.
///
/// Raw, not necessarily validated integers are accepted, except that a date
/// in the first two months of year 0 has no previous year to be counted
/// into; the result for a nonsensical date is the congruence's verdict on
/// it, not an error.
pub fn calculate_weekday(year: u16, month: u8, day_of_month: u8) -> (r: Result<
    Weekday,
    DateTimeError,
>)
    requires
        month >= 3 || year >= 1,
    ensures
        r == Ok::<Weekday, DateTimeError>(
            spec_weekday_from_number(
                spec_weekday_number(year as int, month as int, day_of_month as int),
            ),
        ),
{
    let (y, m): (u16, u16) = if month < 3 {
        (year - 1, month as u16 + 12)
    } else {
        (year, month as u16)
    };

    let k: u32 = (y % 100) as u32;
    let j: u32 = (y / 100) as u32;

    // The congruence subtracts 2*j; adding 5*j instead differs by the
    // multiple 7*j, which vanishes modulo 7 and keeps the sum nonnegative.
    let sum: u32 = day_of_month as u32 + (13 * (m as u32 + 1)) / 5 + k + k / 4 + j / 4 + 5 * j;
    let h: u32 = sum % 7;

    proof {
        let zi = spec_zeller_index(year as int, month as int, day_of_month as int);
        vstd::arithmetic::div_mod::lemma_mod_multiples_vanish(
            j as int,
            sum as int - 7 * (j as int),
            7,
        );
        assert(h as int == zi);
    }

    // Convert Zeller's result (0=Saturday) to our format (1=Sunday)
    let weekday_num: u32 = ((h + 6) % 7) + 1;

    Weekday::from_number(weekday_num as u8)
}

} // verus!
