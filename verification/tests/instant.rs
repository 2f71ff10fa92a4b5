use alice_skill::instant::{DateField, Instant, MAX_YEAR, MIN_YEAR};
use chrono::{NaiveDate, NaiveTime};

fn at(year: i32, month: u32, day: u32) -> Option<Instant> {
    Instant::new(year, month, day, 0, 0, 0, 0, 0)
}

#[test]
fn new_keeps_every_field() {
    let t = Instant::new(2021, 7, 15, 13, 45, 59, 123, -7200).unwrap();
    assert_eq!(t.year(), 2021);
    assert_eq!(t.month(), 7);
    assert_eq!(t.day(), 15);
    assert_eq!(t.hour(), 13);
    assert_eq!(t.minute(), 45);
    assert_eq!(t.second(), 59);
    assert_eq!(t.nanosecond(), 123);
    assert_eq!(t.utc_offset(), -7200);
}

#[test]
fn new_rejects_days_off_the_calendar() {
    assert!(at(2021, 0, 1).is_none());
    assert!(at(2021, 13, 1).is_none());
    assert!(at(2021, 1, 0).is_none());
    assert!(at(2021, 1, 32).is_none());
    assert!(at(2021, 4, 31).is_none());
    assert!(at(2021, 6, 31).is_none());
    assert!(at(2021, 9, 31).is_none());
    assert!(at(2021, 11, 31).is_none());
    assert!(at(2021, 2, 29).is_none());
    assert!(at(2021, 2, 30).is_none());
    assert!(at(2021, u32::MAX, 1).is_none());
    assert!(at(2021, 1, u32::MAX).is_none());
}

#[test]
fn new_accepts_the_last_day_of_each_month() {
    let lengths = [31, 28, 31, 30, 31, 30, 31, 31, 30, 31, 30, 31];
    for (i, days) in lengths.iter().enumerate() {
        let month = i as u32 + 1;
        assert!(at(2021, month, *days).is_some());
        assert!(at(2021, month, *days + 1).is_none());
    }
}

#[test]
fn leap_years_follow_the_gregorian_rule() {
    assert!(at(2024, 2, 29).is_some());
    assert!(at(2000, 2, 29).is_some());
    assert!(at(1900, 2, 29).is_none());
    assert!(at(2100, 2, 29).is_none());
    assert!(at(0, 2, 29).is_some());
    assert!(at(-4, 2, 29).is_some());
    assert!(at(-1, 2, 29).is_none());
    assert!(at(-100, 2, 29).is_none());
    assert!(at(-400, 2, 29).is_some());
    assert!(at(2024, 2, 30).is_none());
}

#[test]
fn years_are_bounded() {
    assert_eq!(MIN_YEAR, -262143);
    assert_eq!(MAX_YEAR, 262142);
    assert!(at(MAX_YEAR, 12, 31).is_some());
    assert!(at(MAX_YEAR + 1, 1, 1).is_none());
    assert!(at(MIN_YEAR, 1, 1).is_some());
    assert!(at(MIN_YEAR - 1, 12, 31).is_none());
    assert!(at(i32::MAX, 1, 1).is_none());
    assert!(at(i32::MIN, 1, 1).is_none());
    assert_eq!(NaiveDate::MAX, NaiveDate::from_ymd_opt(MAX_YEAR, 12, 31).unwrap());
    assert_eq!(NaiveDate::MIN, NaiveDate::from_ymd_opt(MIN_YEAR, 1, 1).unwrap());
}

#[test]
fn new_rejects_times_off_the_clock() {
    assert!(Instant::new(2021, 1, 1, 24, 0, 0, 0, 0).is_none());
    assert!(Instant::new(2021, 1, 1, 0, 60, 0, 0, 0).is_none());
    assert!(Instant::new(2021, 1, 1, 0, 0, 60, 0, 0).is_none());
    assert!(Instant::new(2021, 1, 1, 0, 0, 0, 2_000_000_000, 0).is_none());
    assert!(Instant::new(2021, 1, 1, 0, 0, 58, 1_000_000_000, 0).is_none());
    assert!(Instant::new(2021, 1, 1, 23, 59, 59, 999_999_999, 0).is_some());
    assert!(Instant::new(2021, 1, 1, 23, 59, 59, 1_999_999_999, 0).is_some());
    assert!(Instant::new(2021, 1, 1, 0, 0, 59, 1_000_000_000, 0).is_some());
}

#[test]
fn new_agrees_with_chrono_on_a_grid() {
    for year in [-5, -4, 0, 1, 1900, 2000, 2023, 2024] {
        for month in 0..14 {
            for day in 0..33 {
                assert_eq!(
                    at(year, month, day).is_some(),
                    NaiveDate::from_ymd_opt(year, month, day).is_some()
                );
            }
        }
    }
    for hour in [0, 23, 24] {
        for minute in [0, 59, 60] {
            for second in [0, 58, 59, 60] {
                for nano in [0, 999_999_999, 1_000_000_000, 1_999_999_999, 2_000_000_000] {
                    assert_eq!(
                        Instant::new(2021, 1, 1, hour, minute, second, nano, 0).is_some(),
                        NaiveTime::from_hms_nano_opt(hour, minute, second, nano).is_some()
                    );
                }
            }
        }
    }
}

#[test]
fn any_offset_is_kept() {
    assert_eq!(Instant::new(2021, 1, 1, 0, 0, 0, 0, i32::MAX).unwrap().utc_offset(), i32::MAX);
    assert_eq!(Instant::new(2021, 1, 1, 0, 0, 0, 0, i32::MIN).unwrap().utc_offset(), i32::MIN);
}

#[test]
fn field_reads_the_named_field() {
    let t = Instant::new(2021, 7, 15, 13, 45, 59, 123, 0).unwrap();
    assert_eq!(t.field(DateField::Year), 2021);
    assert_eq!(t.field(DateField::Month), 7);
    assert_eq!(t.field(DateField::Day), 15);
    assert_eq!(t.field(DateField::Hour), 13);
    assert_eq!(t.field(DateField::Minute), 45);
    let t = Instant::new(-44, 3, 15, 0, 0, 0, 0, 0).unwrap();
    assert_eq!(t.field(DateField::Year), -44);
}

#[test]
fn with_field_sets_only_the_named_field() {
    let t = Instant::new(2021, 7, 15, 13, 45, 59, 123, 60).unwrap();
    assert_eq!(
        t.with_field(DateField::Year, 1999),
        Instant::new(1999, 7, 15, 13, 45, 59, 123, 60)
    );
    assert_eq!(
        t.with_field(DateField::Month, 2),
        Instant::new(2021, 2, 15, 13, 45, 59, 123, 60)
    );
    assert_eq!(t.with_field(DateField::Day, 31), Instant::new(2021, 7, 31, 13, 45, 59, 123, 60));
    assert_eq!(t.with_field(DateField::Hour, 0), Instant::new(2021, 7, 15, 0, 45, 59, 123, 60));
    assert_eq!(
        t.with_field(DateField::Minute, 59),
        Instant::new(2021, 7, 15, 13, 59, 59, 123, 60)
    );
    assert!(t.with_field(DateField::Year, 1999).is_some());
}

#[test]
fn with_field_rejects_what_does_not_exist() {
    let t = Instant::new(2020, 2, 29, 13, 45, 0, 0, 0).unwrap();
    assert!(t.with_field(DateField::Year, 2021).is_none());
    assert!(t.with_field(DateField::Year, 2024).is_some());
    assert!(t.with_field(DateField::Year, i64::MAX).is_none());
    assert!(t.with_field(DateField::Year, i64::MIN).is_none());
    assert!(t.with_field(DateField::Year, 262143).is_none());
    assert!(t.with_field(DateField::Month, 0).is_none());
    assert!(t.with_field(DateField::Month, 13).is_none());
    assert!(t.with_field(DateField::Month, -1).is_none());
    assert!(t.with_field(DateField::Month, 1 << 32).is_none());
    assert!(t.with_field(DateField::Month, (1 << 32) + 1).is_none());
    assert!(t.with_field(DateField::Day, 30).is_none());
    assert!(t.with_field(DateField::Day, 0).is_none());
    assert!(t.with_field(DateField::Hour, 24).is_none());
    assert!(t.with_field(DateField::Hour, -1).is_none());
    assert!(t.with_field(DateField::Minute, 60).is_none());
    assert!(t.with_field(DateField::Minute, (1 << 32) + 5).is_none());
}

#[test]
fn field_names() {
    assert_eq!(DateField::Year.as_str(), "year");
    assert_eq!(DateField::Month.as_str(), "month");
    assert_eq!(DateField::Day.as_str(), "day");
    assert_eq!(DateField::Hour.as_str(), "hour");
    assert_eq!(DateField::Minute.as_str(), "minute");
}
