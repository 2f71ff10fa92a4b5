//! The date and time that the assistant recognized in an utterance, and how
//! it combines with a reference instant.

use crate::errors::{Error, ErrorView};
use crate::instant::{days_in_month, DateField, Instant, InstantView};
use crate::json::{JsonValue, JsonView};
use vstd::prelude::*;

verus! {

/// A recognized date and time. Each field that was recognized holds a number,
/// which its flag marks as a difference from the reference instant's field
/// or as the field's value itself. The flag of an absent field means nothing.
#[derive(Clone, Copy, Debug, PartialEq, Eq)]
pub struct YandexDateTime {
    pub year: Option<i32>,
    pub year_is_relative: bool,
    pub month: Option<i32>,
    pub month_is_relative: bool,
    pub day: Option<i32>,
    pub day_is_relative: bool,
    pub hour: Option<i32>,
    pub hour_is_relative: bool,
    pub minute: Option<i32>,
    pub minute_is_relative: bool,
}

/// The value that a field takes: `value` itself, or `current + value` where
/// it is relative.
pub open spec fn field_target(current: int, value: int, relative: bool) -> int {
    if relative {
        current + value
    } else {
        value
    }
}

/// One step of the resolution: an absent `value` leaves `now` as it is; a
/// present one sets `field`, and fails with that field where the instant so
/// made does not exist.
pub open spec fn apply_field(
    now: InstantView,
    field: DateField,
    value: Option<i32>,
    relative: bool,
) -> Result<InstantView, DateField> {
    match value {
        None => Ok(now),
        Some(v) => {
            let next = now.with_field(field, field_target(now.field(field), v as int, relative));
            if next.wf() {
                Ok(next)
            } else {
                Err(field)
            }
        },
    }
}

/// What the member `key` of `value` gives for a number of the fragment:
/// nothing where the member is absent or null, the number where it is an
/// integer of 32 bits. The outer `None` is a member of another shape.
pub open spec fn number_member(value: JsonView, key: Seq<char>) -> Option<Option<i32>> {
    match value.member(key) {
        None => Some(None),
        Some(JsonView::Null) => Some(None),
        Some(JsonView::Number(n)) => match n.as_int32() {
            Some(i) => Some(Some(i)),
            None => None,
        },
        Some(_) => None,
    }
}

/// What the member `key` of `value` gives for a flag of the fragment: `false`
/// where the member is absent, its value where it is a truth value. `None` is
/// a member of another shape.
pub open spec fn flag_member(value: JsonView, key: Seq<char>) -> Option<bool> {
    match value.member(key) {
        None => Some(false),
        Some(JsonView::Bool(b)) => Some(b),
        Some(_) => None,
    }
}

/// Whether `value` has the shape of a fragment: an object in which each of
/// the ten members, if it is there, is of its kind.
pub open spec fn is_fragment(value: JsonView) -> bool {
    &&& value is Object
    &&& number_member(value, "year"@) is Some
    &&& flag_member(value, "year_is_relative"@) is Some
    &&& number_member(value, "month"@) is Some
    &&& flag_member(value, "month_is_relative"@) is Some
    &&& number_member(value, "day"@) is Some
    &&& flag_member(value, "day_is_relative"@) is Some
    &&& number_member(value, "hour"@) is Some
    &&& flag_member(value, "hour_is_relative"@) is Some
    &&& number_member(value, "minute"@) is Some
    &&& flag_member(value, "minute_is_relative"@) is Some
}

/// The fragment that `value` holds, where it has the shape of one.
pub open spec fn fragment_of(value: JsonView) -> Option<YandexDateTime> {
    if is_fragment(value) {
        Some(
            YandexDateTime {
                year: number_member(value, "year"@).unwrap(),
                year_is_relative: flag_member(value, "year_is_relative"@).unwrap(),
                month: number_member(value, "month"@).unwrap(),
                month_is_relative: flag_member(value, "month_is_relative"@).unwrap(),
                day: number_member(value, "day"@).unwrap(),
                day_is_relative: flag_member(value, "day_is_relative"@).unwrap(),
                hour: number_member(value, "hour"@).unwrap(),
                hour_is_relative: flag_member(value, "hour_is_relative"@).unwrap(),
                minute: number_member(value, "minute"@).unwrap(),
                minute_is_relative: flag_member(value, "minute_is_relative"@).unwrap(),
            },
        )
    } else {
        None
    }
}

/// Reads the member `key` of `value` as a number of the fragment.
fn read_number(value: &JsonValue, key: &str) -> (r: Result<Option<i32>, Error>)
    ensures
        match number_member(value@, key@) {
            Some(n) => r == Ok::<Option<i32>, Error>(n),
            None => r matches Err(e) && e@ == ErrorView::ParseDateTime,
        },
{
    match value.get(key) {
        None => Ok(None),
        Some(JsonValue::Null) => Ok(None),
        Some(JsonValue::Number(n)) => match n.as_i32() {
            Some(i) => Ok(Some(i)),
            None => Err(Error::ParseDateTime),
        },
        Some(_) => Err(Error::ParseDateTime),
    }
}

/// Reads the member `key` of `value` as a flag of the fragment.
fn read_flag(value: &JsonValue, key: &str) -> (r: Result<bool, Error>)
    ensures
        match flag_member(value@, key@) {
            Some(b) => r == Ok::<bool, Error>(b),
            None => r matches Err(e) && e@ == ErrorView::ParseDateTime,
        },
{
    match value.get(key) {
        None => Ok(false),
        Some(JsonValue::Bool(b)) => Ok(*b),
        Some(_) => Err(Error::ParseDateTime),
    }
}

impl YandexDateTime {
    /// Reads a fragment from the value of an entity. The value must be an
    /// object. A member that is not there leaves its number absent or its flag
    /// `false`, and so does a null in the place of a number; members of other
    /// names are passed over. Any other shape is an error.
    pub fn from_value(value: &JsonValue) -> (r: Result<YandexDateTime, Error>)
        ensures
            match fragment_of(value@) {
                Some(fragment) => r == Ok::<YandexDateTime, Error>(fragment),
                None => r matches Err(e) && e@ == ErrorView::ParseDateTime,
            },
    {
        match value {
            JsonValue::Object(_) => {},
            _ => {
                return Err(Error::ParseDateTime);
            },
        }
        let year = read_number(value, "year")?;
        let year_is_relative = read_flag(value, "year_is_relative")?;
        let month = read_number(value, "month")?;
        let month_is_relative = read_flag(value, "month_is_relative")?;
        let day = read_number(value, "day")?;
        let day_is_relative = read_flag(value, "day_is_relative")?;
        let hour = read_number(value, "hour")?;
        let hour_is_relative = read_flag(value, "hour_is_relative")?;
        let minute = read_number(value, "minute")?;
        let minute_is_relative = read_flag(value, "minute_is_relative")?;
        Ok(
            YandexDateTime {
                year,
                year_is_relative,
                month,
                month_is_relative,
                day,
                day_is_relative,
                hour,
                hour_is_relative,
                minute,
                minute_is_relative,
            },
        )
    }

    /// The number that was recognized for `field`, if any.
    pub open spec fn spec_value(&self, field: DateField) -> Option<i32> {
        match field {
            DateField::Year => self.year,
            DateField::Month => self.month,
            DateField::Day => self.day,
            DateField::Hour => self.hour,
            DateField::Minute => self.minute,
        }
    }

    /// Whether the number of `field` is a difference from the reference
    /// instant's field.
    pub open spec fn spec_is_relative(&self, field: DateField) -> bool {
        match field {
            DateField::Year => self.year_is_relative,
            DateField::Month => self.month_is_relative,
            DateField::Day => self.day_is_relative,
            DateField::Hour => self.hour_is_relative,
            DateField::Minute => self.minute_is_relative,
        }
    }

    /// The step of the resolution that belongs to `field`, on the instant
    /// `now`.
    pub open spec fn step(self, field: DateField, now: InstantView) -> Result<
        InstantView,
        DateField,
    > {
        apply_field(now, field, self.spec_value(field), self.spec_is_relative(field))
    }

    /// The step of `field` on the instant that the steps before it gave, if
    /// they gave one.
    pub open spec fn then_step(
        self,
        field: DateField,
        so_far: Result<InstantView, DateField>,
    ) -> Result<InstantView, DateField> {
        match so_far {
            Ok(now) => self.step(field, now),
            Err(failed) => Err(failed),
        }
    }

    /// The steps of `fields`, one after the other from the first, on `now`.
    pub open spec fn steps(self, fields: Seq<DateField>, now: InstantView) -> Result<
        InstantView,
        DateField,
    >
        decreases fields.len(),
    {
        if fields.len() == 0 {
            Ok(now)
        } else {
            self.then_step(fields.last(), self.steps(fields.drop_last(), now))
        }
    }

    /// The instant that the fragment denotes at `now`: the fields are applied
    /// in the order year, month, day, hour, minute, each to the instant that
    /// the fields before it gave. The first field whose instant does not exist
    /// is the error.
    pub open spec fn resolve(self, now: InstantView) -> Result<InstantView, DateField> {
        let year = self.step(DateField::Year, now);
        let month = self.then_step(DateField::Month, year);
        let day = self.then_step(DateField::Day, month);
        let hour = self.then_step(DateField::Hour, day);
        self.then_step(DateField::Minute, hour)
    }

    /// Whether a year, a month or a day was recognized.
    pub open spec fn spec_has_date(&self) -> bool {
        self.year is Some || self.month is Some || self.day is Some
    }

    /// Whether an hour or a minute was recognized.
    pub open spec fn spec_has_time(&self) -> bool {
        self.hour is Some || self.minute is Some
    }

    /// Whether a year, a month or a day was recognized.
    #[verifier::when_used_as_spec(spec_has_date)]
    pub fn has_date(&self) -> (r: bool)
        ensures
            r == self.spec_has_date(),
    {
        self.year.is_some() || self.month.is_some() || self.day.is_some()
    }

    /// Whether an hour or a minute was recognized.
    #[verifier::when_used_as_spec(spec_has_time)]
    pub fn has_time(&self) -> (r: bool)
        ensures
            r == self.spec_has_time(),
    {
        self.hour.is_some() || self.minute.is_some()
    }

    /// The number that was recognized for `field`, if any.
    #[verifier::when_used_as_spec(spec_value)]
    pub fn value(&self, field: DateField) -> (r: Option<i32>)
        ensures
            r == self.spec_value(field),
    {
        match field {
            DateField::Year => self.year,
            DateField::Month => self.month,
            DateField::Day => self.day,
            DateField::Hour => self.hour,
            DateField::Minute => self.minute,
        }
    }

    /// Whether the number of `field` is a difference from the reference
    /// instant's field.
    #[verifier::when_used_as_spec(spec_is_relative)]
    pub fn is_relative(&self, field: DateField) -> (r: bool)
        ensures
            r == self.spec_is_relative(field),
    {
        match field {
            DateField::Year => self.year_is_relative,
            DateField::Month => self.month_is_relative,
            DateField::Day => self.day_is_relative,
            DateField::Hour => self.hour_is_relative,
            DateField::Minute => self.minute_is_relative,
        }
    }

    /// One step of the resolution: sets `field` of `now` as the fragment says,
    /// or leaves `now` as it is where the fragment has no number for it. The
    /// error names the field, where the instant so made does not exist.
    pub fn set_field(&self, field: DateField, now: Instant) -> (r: Result<Instant, Error>)
        ensures
            match self.step(field, now@) {
                Ok(v) => r matches Ok(t) && t@ == v,
                Err(failed) => r matches Err(e) && e@ == ErrorView::BadDateCalc(failed.name()),
            },
    {
        match self.value(field) {
            None => Ok(now),
            Some(v) => {
                let target: i64 = if self.is_relative(field) {
                    now.field(field) + v as i64
                } else {
                    v as i64
                };
                match now.with_field(field, target) {
                    Some(next) => Ok(next),
                    None => Err(Error::BadDateCalc(field.as_str().to_owned())),
                }
            },
        }
    }

    /// The instant that the fragment denotes at `now`, or the error that names
    /// the first field whose instant does not exist.
    pub fn date_time(&self, now: Instant) -> (r: Result<Instant, Error>)
        ensures
            match self.resolve(now@) {
                Ok(v) => r matches Ok(t) && t@ == v,
                Err(field) => r matches Err(e) && e@ == ErrorView::BadDateCalc(field.name()),
            },
    {
        let res = self.set_field(DateField::Year, now)?;
        let res = self.set_field(DateField::Month, res)?;
        let res = self.set_field(DateField::Day, res)?;
        let res = self.set_field(DateField::Hour, res)?;
        let res = self.set_field(DateField::Minute, res)?;
        Ok(res)
    }
}

impl Default for YandexDateTime {
    /// The fragment in which nothing was recognized.
    fn default() -> (r: YandexDateTime)
        ensures
            r == (YandexDateTime {
                year: None,
                year_is_relative: false,
                month: None,
                month_is_relative: false,
                day: None,
                day_is_relative: false,
                hour: None,
                hour_is_relative: false,
                minute: None,
                minute_is_relative: false,
            }),
    {
        YandexDateTime {
            year: None,
            year_is_relative: false,
            month: None,
            month_is_relative: false,
            day: None,
            day_is_relative: false,
            hour: None,
            hour_is_relative: false,
            minute: None,
            minute_is_relative: false,
        }
    }
}

/// To resolve a fragment is to take its steps in the order of the fields.
pub proof fn lemma_resolve_in_order(fragment: YandexDateTime, now: InstantView)
    ensures
        fragment.resolve(now) == fragment.steps(DateField::order(), now),
{
    let all = DateField::order();
    let four = all.drop_last();
    let three = four.drop_last();
    let two = three.drop_last();
    let one = two.drop_last();
    assert(one.drop_last().len() == 0);
    assert(fragment.steps(one.drop_last(), now) == Ok::<InstantView, DateField>(now));
    assert(fragment.steps(one, now) == fragment.step(DateField::Year, now));
    assert(fragment.steps(two, now) == fragment.then_step(
        DateField::Month,
        fragment.steps(one, now),
    ));
    assert(fragment.steps(three, now) == fragment.then_step(
        DateField::Day,
        fragment.steps(two, now),
    ));
    assert(fragment.steps(four, now) == fragment.then_step(
        DateField::Hour,
        fragment.steps(three, now),
    ));
    assert(fragment.steps(all, now) == fragment.then_step(
        DateField::Minute,
        fragment.steps(four, now),
    ));
}

/// A fragment in which nothing was recognized holds neither a date nor a
/// time, and denotes the reference instant itself.
pub proof fn lemma_empty_fragment(fragment: YandexDateTime, now: InstantView)
    requires
        fragment.year is None,
        fragment.month is None,
        fragment.day is None,
        fragment.hour is None,
        fragment.minute is None,
    ensures
        !fragment.spec_has_date(),
        !fragment.spec_has_time(),
        fragment.resolve(now) == Ok::<InstantView, DateField>(now),
{
}

/// A fragment that holds nothing but a year, and that year as it is, sets the
/// year of the reference instant and leaves its other fields alone, wherever
/// the day so named exists.
pub proof fn lemma_absolute_year(fragment: YandexDateTime, now: InstantView, year: i32)
    requires
        fragment.year == Some(year),
        !fragment.year_is_relative,
        fragment.month is None,
        fragment.day is None,
        fragment.hour is None,
        fragment.minute is None,
        (InstantView { year: year as int, ..now }).wf(),
    ensures
        fragment.resolve(now) == Ok::<InstantView, DateField>(
            InstantView { year: year as int, ..now },
        ),
        fragment.resolve(now).unwrap().year == year,
        fragment.resolve(now).unwrap().month == now.month,
        fragment.resolve(now).unwrap().day == now.day,
        fragment.resolve(now).unwrap().hour == now.hour,
        fragment.resolve(now).unwrap().minute == now.minute,
{
}

/// February has no thirtieth day: a fragment that names month 2 and day 30,
/// and nothing else, fails at the day, in whatever year the reference instant
/// lies, if only its own day is one that February of that year has.
pub proof fn lemma_february_thirtieth(fragment: YandexDateTime, now: InstantView)
    requires
        now.wf(),
        now.day <= days_in_month(now.year, 2),
        fragment.year is None,
        fragment.month == Some(2i32),
        !fragment.month_is_relative,
        fragment.day == Some(30i32),
        !fragment.day_is_relative,
        fragment.hour is None,
        fragment.minute is None,
    ensures
        fragment.resolve(now) == Err::<InstantView, DateField>(DateField::Day),
{
}

} // verus!
