//! Calendar instants: a wall-clock date and time with the offset of its time
//! zone, valid by construction.

use vstd::prelude::*;

verus! {

/// The earliest year of the supported calendar.
pub const MIN_YEAR: i32 = -262143;

/// The latest year of the supported calendar.
pub const MAX_YEAR: i32 = 262142;

/// Whether `year` is a leap year of the proleptic Gregorian calendar.
pub open spec fn is_leap_year(year: int) -> bool {
    year % 4 == 0 && (year % 100 != 0 || year % 400 == 0)
}

/// The number of days of `month` in `year`; 0 where `month` is no month.
pub open spec fn days_in_month(year: int, month: int) -> int {
    if month == 2 {
        if is_leap_year(year) {
            29
        } else {
            28
        }
    } else if month == 4 || month == 6 || month == 9 || month == 11 {
        30
    } else if 1 <= month <= 12 {
        31
    } else {
        0
    }
}

/// Whether the day `year`-`month`-`day` exists on the supported calendar.
pub open spec fn is_calendar_date(year: int, month: int, day: int) -> bool {
    &&& MIN_YEAR <= year <= MAX_YEAR
    &&& 1 <= month <= 12
    &&& 1 <= day <= days_in_month(year, month)
}

/// Whether the time of day exists. A nanosecond of a thousand million or more
/// stands for a leap second, which only follows second 59.
pub open spec fn is_clock_time(hour: int, minute: int, second: int, nanosecond: int) -> bool {
    &&& 0 <= hour < 24
    &&& 0 <= minute < 60
    &&& 0 <= second < 60
    &&& 0 <= nanosecond < 2_000_000_000
    &&& nanosecond >= 1_000_000_000 ==> second == 59
}

/// The mathematical value of an [`Instant`].
pub ghost struct InstantView {
    pub year: int,
    pub month: int,
    pub day: int,
    pub hour: int,
    pub minute: int,
    pub second: int,
    pub nanosecond: int,
    pub utc_offset: int,
}

impl InstantView {
    /// The instant exists: its date is on the calendar and its time on the clock.
    pub open spec fn wf(self) -> bool {
        &&& is_calendar_date(self.year, self.month, self.day)
        &&& is_clock_time(self.hour, self.minute, self.second, self.nanosecond)
        &&& i32::MIN <= self.utc_offset <= i32::MAX
    }
}

/// A field of an instant that can be set by itself.
#[derive(Clone, Copy, Debug, PartialEq, Eq)]
pub enum DateField {
    Year,
    Month,
    Day,
    Hour,
    Minute,
}

impl DateField {
    /// The name of the field.
    pub open spec fn name(self) -> Seq<char> {
        match self {
            DateField::Year => "year"@,
            DateField::Month => "month"@,
            DateField::Day => "day"@,
            DateField::Hour => "hour"@,
            DateField::Minute => "minute"@,
        }
    }

    /// The fields in the order in which a resolution sets them.
    pub open spec fn order() -> Seq<DateField> {
        seq![
            DateField::Year,
            DateField::Month,
            DateField::Day,
            DateField::Hour,
            DateField::Minute,
        ]
    }

    /// The fields in the order in which a resolution sets them.
    pub fn in_order() -> (r: [DateField; 5])
        ensures
            r@ == DateField::order(),
    {
        let r = [
            DateField::Year,
            DateField::Month,
            DateField::Day,
            DateField::Hour,
            DateField::Minute,
        ];
        assert(r@ =~= DateField::order());
        r
    }

    /// The name of the field.
    pub fn as_str(self) -> (r: &'static str)
        ensures
            r@ == self.name(),
    {
        match self {
            DateField::Year => "year",
            DateField::Month => "month",
            DateField::Day => "day",
            DateField::Hour => "hour",
            DateField::Minute => "minute",
        }
    }
}

impl InstantView {
    /// The value of `field`.
    pub open spec fn field(self, field: DateField) -> int {
        match field {
            DateField::Year => self.year,
            DateField::Month => self.month,
            DateField::Day => self.day,
            DateField::Hour => self.hour,
            DateField::Minute => self.minute,
        }
    }

    /// The same fields but for `field`, which becomes `value`. The result need
    /// not exist.
    pub open spec fn with_field(self, field: DateField, value: int) -> InstantView {
        match field {
            DateField::Year => InstantView { year: value, ..self },
            DateField::Month => InstantView { month: value, ..self },
            DateField::Day => InstantView { day: value, ..self },
            DateField::Hour => InstantView { hour: value, ..self },
            DateField::Minute => InstantView { minute: value, ..self },
        }
    }
}

/// A date and time of day as a wall clock shows it, together with the offset
/// of its time zone from UTC in seconds. Every value is an instant that exists.
#[derive(Clone, Copy, Debug, PartialEq, Eq)]
pub struct Instant {
    year: i32,
    month: u32,
    day: u32,
    hour: u32,
    minute: u32,
    second: u32,
    nanosecond: u32,
    utc_offset: i32,
}

impl View for Instant {
    type V = InstantView;

    closed spec fn view(&self) -> InstantView {
        InstantView {
            year: self.year as int,
            month: self.month as int,
            day: self.day as int,
            hour: self.hour as int,
            minute: self.minute as int,
            second: self.second as int,
            nanosecond: self.nanosecond as int,
            utc_offset: self.utc_offset as int,
        }
    }
}

/// Whether a day exists, as `chrono::NaiveDate::from_ymd_opt` decides it.
///
/// Trusted, not proved: chrono gives a date exactly for the days of the
/// proleptic Gregorian calendar whose year lies between `MIN_YEAR` and
/// `MAX_YEAR`, and for no other year, month or day.
#[verifier::external_body]
fn calendar_has(year: i32, month: u32, day: u32) -> (b: bool)
    ensures
        b == is_calendar_date(year as int, month as int, day as int),
{
    chrono::NaiveDate::from_ymd_opt(year, month, day).is_some()
}

/// Whether a time of day exists, as `chrono::NaiveTime::from_hms_nano_opt`
/// decides it.
///
/// Trusted, not proved: chrono gives a time exactly where the hour is below
/// 24, minute and second are below 60, and the nanosecond is below two
/// thousand million, and below one thousand million unless the second is 59.
#[verifier::external_body]
fn clock_has(hour: u32, minute: u32, second: u32, nanosecond: u32) -> (b: bool)
    ensures
        b == is_clock_time(hour as int, minute as int, second as int, nanosecond as int),
{
    chrono::NaiveTime::from_hms_nano_opt(hour, minute, second, nanosecond).is_some()
}

impl Instant {
    /// Every instant exists.
    #[verifier::type_invariant]
    spec fn inv(self) -> bool {
        self@.wf()
    }

    /// The instant with the given fields, if it exists.
    pub fn new(
        year: i32,
        month: u32,
        day: u32,
        hour: u32,
        minute: u32,
        second: u32,
        nanosecond: u32,
        utc_offset: i32,
    ) -> (r: Option<Instant>)
        ensures
            match r {
                Some(t) => t@.wf() && t@ == (InstantView {
                    year: year as int,
                    month: month as int,
                    day: day as int,
                    hour: hour as int,
                    minute: minute as int,
                    second: second as int,
                    nanosecond: nanosecond as int,
                    utc_offset: utc_offset as int,
                }),
                None => !is_calendar_date(year as int, month as int, day as int) || !is_clock_time(
                    hour as int,
                    minute as int,
                    second as int,
                    nanosecond as int,
                ),
            },
    {
        if calendar_has(year, month, day) && clock_has(hour, minute, second, nanosecond) {
            Some(Instant { year, month, day, hour, minute, second, nanosecond, utc_offset })
        } else {
            None
        }
    }

    /// The value of `field`.
    pub fn field(&self, field: DateField) -> (r: i64)
        ensures
            r == self@.field(field),
            i32::MIN <= r <= u32::MAX,
            self@.wf(),
    {
        proof {
            use_type_invariant(self);
        }
        match field {
            DateField::Year => self.year as i64,
            DateField::Month => self.month as i64,
            DateField::Day => self.day as i64,
            DateField::Hour => self.hour as i64,
            DateField::Minute => self.minute as i64,
        }
    }

    /// The instant whose `field` is `value` and whose other fields are those
    /// of `self`, if it exists.
    pub fn with_field(&self, field: DateField, value: i64) -> (r: Option<Instant>)
        ensures
            match r {
                Some(t) => t@.wf() && t@ == self@.with_field(field, value as int),
                None => !self@.with_field(field, value as int).wf(),
            },
    {
        match field {
            DateField::Year => {
                if value < i32::MIN as i64 || value > i32::MAX as i64 {
                    None
                } else {
                    Instant::new(
                        value as i32,
                        self.month,
                        self.day,
                        self.hour,
                        self.minute,
                        self.second,
                        self.nanosecond,
                        self.utc_offset,
                    )
                }
            },
            _ => {
                if value < 0 || value > u32::MAX as i64 {
                    None
                } else {
                    let v: u32 = value as u32;
                    let (month, day, hour, minute): (u32, u32, u32, u32) = match field {
                        DateField::Month => (v, self.day, self.hour, self.minute),
                        DateField::Day => (self.month, v, self.hour, self.minute),
                        DateField::Hour => (self.month, self.day, v, self.minute),
                        _ => (self.month, self.day, self.hour, v),
                    };
                    Instant::new(
                        self.year,
                        month,
                        day,
                        hour,
                        minute,
                        self.second,
                        self.nanosecond,
                        self.utc_offset,
                    )
                }
            },
        }
    }

    /// The year.
    pub fn year(&self) -> (r: i32)
        ensures
            r == self@.year,
            self@.wf(),
    {
        proof {
            use_type_invariant(self);
        }
        self.year
    }

    /// The month, from 1.
    pub fn month(&self) -> (r: u32)
        ensures
            r == self@.month,
            self@.wf(),
    {
        proof {
            use_type_invariant(self);
        }
        self.month
    }

    /// The day of the month, from 1.
    pub fn day(&self) -> (r: u32)
        ensures
            r == self@.day,
            self@.wf(),
    {
        proof {
            use_type_invariant(self);
        }
        self.day
    }

    /// The hour of the day.
    pub fn hour(&self) -> (r: u32)
        ensures
            r == self@.hour,
            self@.wf(),
    {
        proof {
            use_type_invariant(self);
        }
        self.hour
    }

    /// The minute of the hour.
    pub fn minute(&self) -> (r: u32)
        ensures
            r == self@.minute,
            self@.wf(),
    {
        proof {
            use_type_invariant(self);
        }
        self.minute
    }

    /// The second of the minute.
    pub fn second(&self) -> (r: u32)
        ensures
            r == self@.second,
            self@.wf(),
    {
        proof {
            use_type_invariant(self);
        }
        self.second
    }

    /// The nanosecond of the second; a thousand million or more in a leap
    /// second.
    pub fn nanosecond(&self) -> (r: u32)
        ensures
            r == self@.nanosecond,
            self@.wf(),
    {
        proof {
            use_type_invariant(self);
        }
        self.nanosecond
    }

    /// The offset of the time zone from UTC, in seconds to the east.
    pub fn utc_offset(&self) -> (r: i32)
        ensures
            r == self@.utc_offset,
            self@.wf(),
    {
        proof {
            use_type_invariant(self);
        }
        self.utc_offset
    }
}

} // verus!
