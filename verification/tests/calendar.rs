use rtc_hal::calendar::{Date, PrimitiveDateTime, Time};

fn leap(year: i32) -> bool {
    year % 4 == 0 && (year % 100 != 0 || year % 400 == 0)
}

fn month_length(year: i32, month: u8) -> u8 {
    match month {
        2 => {
            if leap(year) {
                29
            } else {
                28
            }
        }
        4 | 6 | 9 | 11 => 30,
        _ => 31,
    }
}

#[test]
fn ordinary_dates_exist() {
    assert!(Date { year: 1970, month: 1, day: 1 }.is_valid());
    assert!(Date { year: 2019, month: 12, day: 31 }.is_valid());
    assert!(Date { year: 2069, month: 12, day: 31 }.is_valid());
}

#[test]
fn leap_day_exists_in_leap_years_only() {
    assert!(Date { year: 2024, month: 2, day: 29 }.is_valid());
    assert!(Date { year: 2000, month: 2, day: 29 }.is_valid());
    assert!(!Date { year: 2023, month: 2, day: 29 }.is_valid());
    assert!(!Date { year: 1900, month: 2, day: 29 }.is_valid());
    assert!(!Date { year: 2100, month: 2, day: 29 }.is_valid());
}

#[test]
fn day_must_lie_within_the_month() {
    assert!(!Date { year: 2024, month: 1, day: 0 }.is_valid());
    assert!(Date { year: 2024, month: 1, day: 31 }.is_valid());
    assert!(!Date { year: 2024, month: 1, day: 32 }.is_valid());
    assert!(Date { year: 2024, month: 4, day: 30 }.is_valid());
    assert!(!Date { year: 2024, month: 4, day: 31 }.is_valid());
    assert!(!Date { year: 2024, month: 2, day: 30 }.is_valid());
    assert!(!Date { year: 2024, month: 6, day: 255 }.is_valid());
}

#[test]
fn month_must_lie_within_the_year() {
    assert!(!Date { year: 2024, month: 0, day: 1 }.is_valid());
    assert!(Date { year: 2024, month: 12, day: 1 }.is_valid());
    assert!(!Date { year: 2024, month: 13, day: 1 }.is_valid());
    assert!(!Date { year: 2024, month: 255, day: 1 }.is_valid());
}

#[test]
fn year_must_lie_within_four_digits() {
    assert!(Date { year: 9999, month: 12, day: 31 }.is_valid());
    assert!(!Date { year: 10000, month: 1, day: 1 }.is_valid());
    assert!(Date { year: -9999, month: 1, day: 1 }.is_valid());
    assert!(!Date { year: -10000, month: 12, day: 31 }.is_valid());
    assert!(!Date { year: i32::MAX, month: 1, day: 1 }.is_valid());
    assert!(!Date { year: i32::MIN, month: 1, day: 1 }.is_valid());
}

#[test]
fn every_month_of_every_year_has_its_length() {
    for year in -9999i32..=9999 {
        for month in 1u8..=12 {
            let length = month_length(year, month);
            assert!(Date { year, month, day: length }.is_valid(), "{}-{}", year, month);
            assert!(!Date { year, month, day: length + 1 }.is_valid(), "{}-{}", year, month);
        }
    }
}

#[test]
fn every_field_combination_of_one_leap_year() {
    for month in 0u8..=255 {
        for day in 0u8..=255 {
            let expected = (1..=12).contains(&month) && day >= 1 && day <= month_length(2024, month);
            assert_eq!(Date { year: 2024, month, day }.is_valid(), expected);
        }
    }
}

#[test]
fn times_of_day_exist_up_to_the_last_second() {
    assert!(Time { hour: 0, minute: 0, second: 0 }.is_valid());
    assert!(Time { hour: 1, minute: 2, second: 3 }.is_valid());
    assert!(Time { hour: 23, minute: 59, second: 59 }.is_valid());
}

#[test]
fn times_beyond_the_clock_do_not_exist() {
    assert!(!Time { hour: 24, minute: 0, second: 0 }.is_valid());
    assert!(!Time { hour: 0, minute: 60, second: 0 }.is_valid());
    assert!(!Time { hour: 0, minute: 0, second: 60 }.is_valid());
    assert!(!Time { hour: 255, minute: 255, second: 255 }.is_valid());
}

#[test]
fn every_field_combination_of_a_time() {
    for hour in 0u8..=30 {
        for minute in 0u8..=70 {
            for second in 0u8..=70 {
                let expected = hour <= 23 && minute <= 59 && second <= 59;
                assert_eq!(Time { hour, minute, second }.is_valid(), expected);
            }
        }
    }
}

#[test]
fn date_time_needs_both_halves() {
    let date = Date { year: 2024, month: 2, day: 29 };
    let time = Time { hour: 12, minute: 30, second: 15 };
    assert!(PrimitiveDateTime { date, time }.is_valid());
    let no_date = Date { year: 2023, month: 2, day: 29 };
    assert!(!PrimitiveDateTime { date: no_date, time }.is_valid());
    let no_time = Time { hour: 12, minute: 60, second: 15 };
    assert!(!PrimitiveDateTime { date, time: no_time }.is_valid());
}
