use rtc_hal::bus::{Reg, Step};
use rtc_hal::calendar::{Date, PrimitiveDateTime, Time};
use rtc_hal::peripherals::{PWR, RTC};
use rtc_hal::rtc::{Error, Lse, Rtc};

fn calendar() -> Rtc<Lse> {
    let mut pwr = PWR;
    Rtc::new(RTC, &mut pwr).0
}

fn in_init_mode(body: Vec<Step>) -> Vec<Step> {
    let mut steps = vec![
        Step::Write { reg: Reg::RtcWpr, value: 0xCA },
        Step::Write { reg: Reg::RtcWpr, value: 0x53 },
        Step::IfClear { reg: Reg::RtcIsr, mask: 0x40, count: 2 },
        Step::Modify { reg: Reg::RtcIsr, clear: 0, set: 0x80 },
        Step::WaitSet { reg: Reg::RtcIsr, mask: 0x40 },
    ];
    steps.extend(body);
    steps.push(Step::Modify { reg: Reg::RtcIsr, clear: 0x80, set: 0 });
    steps.push(Step::WaitClear { reg: Reg::RtcIsr, mask: 0x40 });
    steps.push(Step::Write { reg: Reg::RtcWpr, value: 0xFF });
    steps
}

fn update(reg: Reg, clear: u32, set: u32) -> Result<Vec<Step>, Error> {
    Ok(in_init_mode(vec![Step::Modify { reg, clear, set }]))
}

#[test]
fn out_of_range_fields_are_refused() {
    let mut rtc = calendar();
    assert_eq!(rtc.set_seconds(60), Err(Error::InvalidInputData));
    assert_eq!(rtc.set_minutes(60), Err(Error::InvalidInputData));
    assert_eq!(rtc.set_hours(24), Err(Error::InvalidInputData));
    assert_eq!(rtc.set_weekday(0), Err(Error::InvalidInputData));
    assert_eq!(rtc.set_weekday(8), Err(Error::InvalidInputData));
    assert_eq!(rtc.set_day(0), Err(Error::InvalidInputData));
    assert_eq!(rtc.set_day(32), Err(Error::InvalidInputData));
    assert_eq!(rtc.set_month(0), Err(Error::InvalidInputData));
    assert_eq!(rtc.set_month(13), Err(Error::InvalidInputData));
    assert_eq!(rtc.set_year(1969), Err(Error::InvalidInputData));
    assert_eq!(rtc.set_year(2070), Err(Error::InvalidInputData));
}

#[test]
fn largest_inputs_are_refused() {
    let mut rtc = calendar();
    assert_eq!(rtc.set_seconds(255), Err(Error::InvalidInputData));
    assert_eq!(rtc.set_minutes(255), Err(Error::InvalidInputData));
    assert_eq!(rtc.set_hours(255), Err(Error::InvalidInputData));
    assert_eq!(rtc.set_weekday(255), Err(Error::InvalidInputData));
    assert_eq!(rtc.set_day(255), Err(Error::InvalidInputData));
    assert_eq!(rtc.set_month(255), Err(Error::InvalidInputData));
    assert_eq!(rtc.set_year(0), Err(Error::InvalidInputData));
    assert_eq!(rtc.set_year(u16::MAX), Err(Error::InvalidInputData));
}

#[test]
fn boundary_values_succeed() {
    let mut rtc = calendar();
    assert!(rtc.set_seconds(59).is_ok());
    assert!(rtc.set_seconds(0).is_ok());
    assert!(rtc.set_minutes(59).is_ok());
    assert!(rtc.set_minutes(0).is_ok());
    assert!(rtc.set_hours(23).is_ok());
    assert!(rtc.set_hours(0).is_ok());
    assert!(rtc.set_weekday(7).is_ok());
    assert!(rtc.set_weekday(1).is_ok());
    assert!(rtc.set_day(31).is_ok());
    assert!(rtc.set_day(1).is_ok());
    assert!(rtc.set_month(12).is_ok());
    assert!(rtc.set_month(1).is_ok());
    assert!(rtc.set_year(2069).is_ok());
    assert!(rtc.set_year(1970).is_ok());
}

#[test]
fn seconds_replace_their_fields_in_init_mode() {
    let mut rtc = calendar();
    assert_eq!(rtc.set_seconds(59), update(Reg::RtcTr, 0x0000_007F, 0x0000_0059));
    assert_eq!(rtc.set_seconds(7), update(Reg::RtcTr, 0x0000_007F, 0x0000_0007));
    assert_eq!(rtc.set_seconds(0), update(Reg::RtcTr, 0x0000_007F, 0));
}

#[test]
fn minutes_replace_their_fields_in_init_mode() {
    let mut rtc = calendar();
    assert_eq!(rtc.set_minutes(59), update(Reg::RtcTr, 0x0000_7F00, 0x0000_5900));
    assert_eq!(rtc.set_minutes(30), update(Reg::RtcTr, 0x0000_7F00, 0x0000_3000));
}

#[test]
fn hours_replace_their_fields_and_clear_the_afternoon_flag() {
    let mut rtc = calendar();
    assert_eq!(rtc.set_hours(23), update(Reg::RtcTr, 0x007F_0000, 0x0023_0000));
    assert_eq!(rtc.set_hours(9), update(Reg::RtcTr, 0x007F_0000, 0x0009_0000));
}

#[test]
fn weekday_replaces_its_field() {
    let mut rtc = calendar();
    assert_eq!(rtc.set_weekday(1), update(Reg::RtcDr, 0x0000_E000, 0x0000_2000));
    assert_eq!(rtc.set_weekday(7), update(Reg::RtcDr, 0x0000_E000, 0x0000_E000));
}

#[test]
fn day_replaces_its_fields() {
    let mut rtc = calendar();
    assert_eq!(rtc.set_day(31), update(Reg::RtcDr, 0x0000_003F, 0x0000_0031));
    assert_eq!(rtc.set_day(1), update(Reg::RtcDr, 0x0000_003F, 0x0000_0001));
}

#[test]
fn month_has_a_single_tens_bit() {
    let mut rtc = calendar();
    assert_eq!(rtc.set_month(12), update(Reg::RtcDr, 0x0000_1F00, 0x0000_1200));
    assert_eq!(rtc.set_month(10), update(Reg::RtcDr, 0x0000_1F00, 0x0000_1000));
    assert_eq!(rtc.set_month(9), update(Reg::RtcDr, 0x0000_1F00, 0x0000_0900));
}

#[test]
fn year_is_stored_as_years_since_the_epoch_year() {
    let mut rtc = calendar();
    assert_eq!(rtc.set_year(1970), update(Reg::RtcDr, 0x00FF_0000, 0));
    assert_eq!(rtc.set_year(2024), update(Reg::RtcDr, 0x00FF_0000, 0x0054_0000));
    assert_eq!(rtc.set_year(2069), update(Reg::RtcDr, 0x00FF_0000, 0x0099_0000));
}

#[test]
fn time_is_one_write_of_the_time_register() {
    let mut rtc = calendar();
    assert_eq!(
        rtc.set_time(&Time { hour: 23, minute: 59, second: 58 }),
        Ok(in_init_mode(vec![Step::Write { reg: Reg::RtcTr, value: 0x0023_5958 }]))
    );
    assert_eq!(
        rtc.set_time(&Time { hour: 0, minute: 0, second: 0 }),
        Ok(in_init_mode(vec![Step::Write { reg: Reg::RtcTr, value: 0 }]))
    );
}

#[test]
fn time_beyond_the_clock_is_refused() {
    let mut rtc = calendar();
    assert_eq!(
        rtc.set_time(&Time { hour: 24, minute: 0, second: 0 }),
        Err(Error::InvalidInputData)
    );
    assert_eq!(
        rtc.set_time(&Time { hour: 0, minute: 60, second: 0 }),
        Err(Error::InvalidInputData)
    );
    assert_eq!(
        rtc.set_time(&Time { hour: 0, minute: 0, second: 60 }),
        Err(Error::InvalidInputData)
    );
}

#[test]
fn date_is_one_write_of_the_date_register() {
    let mut rtc = calendar();
    assert_eq!(
        rtc.set_date(&Date { year: 2024, month: 2, day: 29 }),
        Ok(in_init_mode(vec![Step::Write { reg: Reg::RtcDr, value: 0x0054_2229 }]))
    );
    assert_eq!(
        rtc.set_date(&Date { year: 1970, month: 1, day: 1 }),
        Ok(in_init_mode(vec![Step::Write { reg: Reg::RtcDr, value: 0x0000_2101 }]))
    );
    assert_eq!(
        rtc.set_date(&Date { year: 2069, month: 12, day: 31 }),
        Ok(in_init_mode(vec![Step::Write { reg: Reg::RtcDr, value: 0x0099_3231 }]))
    );
}

#[test]
fn date_outside_the_calendar_years_is_refused() {
    let mut rtc = calendar();
    assert_eq!(
        rtc.set_date(&Date { year: 1969, month: 12, day: 31 }),
        Err(Error::InvalidInputData)
    );
    assert_eq!(
        rtc.set_date(&Date { year: 2070, month: 1, day: 1 }),
        Err(Error::InvalidInputData)
    );
    assert_eq!(
        rtc.set_date(&Date { year: -2024, month: 1, day: 1 }),
        Err(Error::InvalidInputData)
    );
}

#[test]
fn date_that_does_not_exist_is_refused() {
    let mut rtc = calendar();
    assert_eq!(
        rtc.set_date(&Date { year: 2023, month: 2, day: 29 }),
        Err(Error::InvalidInputData)
    );
    assert_eq!(
        rtc.set_date(&Date { year: 2024, month: 4, day: 31 }),
        Err(Error::InvalidInputData)
    );
    assert_eq!(
        rtc.set_date(&Date { year: 2024, month: 13, day: 1 }),
        Err(Error::InvalidInputData)
    );
    assert_eq!(
        rtc.set_date(&Date { year: 2024, month: 0, day: 1 }),
        Err(Error::InvalidInputData)
    );
    assert_eq!(
        rtc.set_date(&Date { year: 2024, month: 1, day: 0 }),
        Err(Error::InvalidInputData)
    );
}

#[test]
fn date_and_time_are_written_in_one_stay_in_init_mode() {
    let mut rtc = calendar();
    let datetime = PrimitiveDateTime {
        date: Date { year: 2024, month: 2, day: 29 },
        time: Time { hour: 23, minute: 59, second: 58 },
    };
    assert_eq!(
        rtc.set_datetime(&datetime),
        Ok(in_init_mode(vec![
            Step::Write { reg: Reg::RtcDr, value: 0x0054_2229 },
            Step::Write { reg: Reg::RtcTr, value: 0x0023_5958 },
        ]))
    );
}

#[test]
fn date_and_time_are_refused_together() {
    let mut rtc = calendar();
    let date = Date { year: 2024, month: 2, day: 29 };
    let time = Time { hour: 23, minute: 59, second: 58 };
    assert_eq!(
        rtc.set_datetime(&PrimitiveDateTime { date: Date { year: 2070, ..date }, time }),
        Err(Error::InvalidInputData)
    );
    assert_eq!(
        rtc.set_datetime(&PrimitiveDateTime { date: Date { year: 1969, ..date }, time }),
        Err(Error::InvalidInputData)
    );
    assert_eq!(
        rtc.set_datetime(&PrimitiveDateTime { date: Date { day: 30, ..date }, time }),
        Err(Error::InvalidInputData)
    );
    assert_eq!(
        rtc.set_datetime(&PrimitiveDateTime { date, time: Time { hour: 24, ..time } }),
        Err(Error::InvalidInputData)
    );
}

#[test]
fn prescalers_are_cut_to_their_fields() {
    let mut rtc = calendar();
    assert_eq!(
        rtc.set_prescalers(255, 127),
        in_init_mode(vec![Step::Modify { reg: Reg::RtcPrer, clear: 0x007F_7FFF, set: 0x007F_00FF }])
    );
    assert_eq!(
        rtc.set_prescalers(0xFFFF, 0xFF),
        in_init_mode(vec![Step::Modify { reg: Reg::RtcPrer, clear: 0x007F_7FFF, set: 0x007F_7FFF }])
    );
    assert_eq!(
        rtc.set_prescalers(0, 0),
        in_init_mode(vec![Step::Modify { reg: Reg::RtcPrer, clear: 0x007F_7FFF, set: 0 }])
    );
}
