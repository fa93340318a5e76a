use rtc_hal::bus::{Reg, Step};
use rtc_hal::calendar::{Date, PrimitiveDateTime, Time};
use rtc_hal::peripherals::{PWR, RTC};
use rtc_hal::reading::reads_in_order;
use rtc_hal::rtc::{Lse, Rtc};

fn calendar() -> Rtc<Lse> {
    let mut pwr = PWR;
    Rtc::new(RTC, &mut pwr).0
}

const READ_TIME: Step = Step::Read { reg: Reg::RtcTr };
const READ_DATE: Step = Step::Read { reg: Reg::RtcDr };

#[test]
fn reading_waits_then_reads_time_before_date() {
    assert_eq!(
        calendar().read_calendar(),
        vec![
            Step::WaitSet { reg: Reg::RtcIsr, mask: 0x20 },
            READ_TIME,
            READ_DATE,
            Step::Modify { reg: Reg::RtcIsr, clear: 0x20, set: 0 },
        ]
    );
}

#[test]
fn the_reading_plan_is_in_order() {
    assert!(reads_in_order(&calendar().read_calendar()));
}

#[test]
fn date_before_time_is_out_of_order() {
    assert!(!reads_in_order(&vec![READ_DATE, READ_TIME]));
    assert!(!reads_in_order(&vec![
        Step::WaitSet { reg: Reg::RtcIsr, mask: 0x20 },
        READ_DATE,
        READ_TIME,
        Step::Modify { reg: Reg::RtcIsr, clear: 0x20, set: 0 },
    ]));
}

#[test]
fn date_alone_is_out_of_order() {
    assert!(!reads_in_order(&vec![READ_DATE]));
}

#[test]
fn date_twice_after_one_time_is_out_of_order() {
    assert!(!reads_in_order(&vec![READ_TIME, READ_DATE, READ_DATE]));
}

#[test]
fn time_without_date_is_out_of_order() {
    assert!(!reads_in_order(&vec![READ_TIME]));
    assert!(!reads_in_order(&vec![READ_TIME, READ_DATE, READ_TIME]));
}

#[test]
fn repeated_readings_are_in_order() {
    assert!(reads_in_order(&vec![READ_TIME, READ_DATE, READ_TIME, READ_DATE]));
    assert!(reads_in_order(&vec![READ_TIME, READ_TIME, READ_DATE]));
}

#[test]
fn plans_without_calendar_reads_are_in_order() {
    assert!(reads_in_order(&vec![]));
    assert!(reads_in_order(&calendar().disable_wakeup()));
    assert!(reads_in_order(&vec![Step::Read { reg: Reg::RtcIsr }, Step::Read { reg: Reg::ExtiPr }]));
    assert!(reads_in_order(&vec![
        Step::Write { reg: Reg::RtcDr, value: 0x2101 },
        Step::Modify { reg: Reg::RtcDr, clear: 0, set: 0 },
    ]));
}

#[test]
fn a_reading_is_decoded() {
    assert_eq!(
        calendar().get_datetime(0x0023_5958, 0x0054_2229),
        PrimitiveDateTime {
            date: Date { year: 2024, month: 2, day: 29 },
            time: Time { hour: 23, minute: 59, second: 58 },
        }
    );
    assert_eq!(
        calendar().get_datetime(0, 0x0000_2101),
        PrimitiveDateTime {
            date: Date { year: 1970, month: 1, day: 1 },
            time: Time { hour: 0, minute: 0, second: 0 },
        }
    );
}

#[test]
fn a_checked_reading_is_decoded() {
    assert_eq!(
        calendar().try_get_datetime(0x0023_5958, 0x0054_2229),
        Some(PrimitiveDateTime {
            date: Date { year: 2024, month: 2, day: 29 },
            time: Time { hour: 23, minute: 59, second: 58 },
        })
    );
}

#[test]
fn a_reading_of_no_day_is_refused() {
    // The thirty-first of April.
    assert_eq!(calendar().try_get_datetime(0, 0x0054_2431), None);
    // The twenty-ninth of February in a common year.
    assert_eq!(calendar().try_get_datetime(0, 0x0053_2229), None);
    // Month zero, day zero.
    assert_eq!(calendar().try_get_datetime(0, 0), None);
    // Month thirteen.
    assert_eq!(calendar().try_get_datetime(0, 0x0054_3301), None);
}

#[test]
fn a_reading_of_no_time_is_refused() {
    assert_eq!(calendar().try_get_datetime(0x0024_0000, 0x0054_2229), None);
    assert_eq!(calendar().try_get_datetime(0x0000_6000, 0x0054_2229), None);
    assert_eq!(calendar().try_get_datetime(0x0000_0060, 0x0054_2229), None);
}

#[test]
fn digits_beyond_nine_count_as_they_stand() {
    assert_eq!(
        calendar().try_get_datetime(0x0000_000A, 0x0054_2229),
        Some(PrimitiveDateTime {
            date: Date { year: 2024, month: 2, day: 29 },
            time: Time { hour: 0, minute: 0, second: 10 },
        })
    );
}
