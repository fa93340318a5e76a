//! The calendar registers' contents: how a calendar value is laid out in the
//! time and date registers, and how it is read back from them.

use crate::bcd::{bcd2_decode, bcd2_encode, bcd2_encode_spec};
use crate::calendar::{Date, PrimitiveDateTime, Time};
use crate::layout::{
    extract, field, pick, place, DR_DT, DR_DT_SHIFT, DR_DU, DR_MT, DR_MU, DR_MU_SHIFT,
    DR_WDU_RESET, DR_YT, DR_YT_SHIFT, DR_YU, DR_YU_SHIFT, TR_HT, TR_HT_SHIFT, TR_HU, TR_HU_SHIFT,
    TR_MNT, TR_MNT_SHIFT, TR_MNU, TR_MNU_SHIFT, TR_ST, TR_ST_SHIFT, TR_SU,
};
use crate::rtc::Error;
use vstd::prelude::*;

verus! {

/// First year that the calendar can hold: its two-digit year counts from here.
pub const EPOCH_YEAR: u16 = 1970;

/// Last year that the calendar can hold.
pub const LAST_YEAR: u16 = 2069;

/// Tens digit of `value`.
pub open spec fn tens(value: u32) -> u32 {
    value / 10
}

/// Units digit of `value`.
pub open spec fn units(value: u32) -> u32 {
    value % 10
}

/// The seconds fields holding `seconds`.
pub open spec fn seconds_bits(seconds: u32) -> u32 {
    field(tens(seconds), TR_ST_SHIFT, TR_ST) | field(units(seconds), 0, TR_SU)
}

/// The minutes fields holding `minutes`.
pub open spec fn minutes_bits(minutes: u32) -> u32 {
    field(tens(minutes), TR_MNT_SHIFT, TR_MNT) | field(units(minutes), TR_MNU_SHIFT, TR_MNU)
}

/// The hours fields holding `hours`.
pub open spec fn hours_bits(hours: u32) -> u32 {
    field(tens(hours), TR_HT_SHIFT, TR_HT) | field(units(hours), TR_HU_SHIFT, TR_HU)
}

/// The day fields holding `day`.
pub open spec fn day_bits(day: u32) -> u32 {
    field(tens(day), DR_DT_SHIFT, DR_DT) | field(units(day), 0, DR_DU)
}

/// The month fields holding `month`: the tens are one bit, set where the
/// month has a tens digit at all.
pub open spec fn month_bits(month: u32) -> u32 {
    (if tens(month) > 0 {
        DR_MT
    } else {
        0
    }) | field(units(month), DR_MU_SHIFT, DR_MU)
}

/// The year fields holding `offset`, the years since the epoch year.
pub open spec fn year_bits(offset: u32) -> u32 {
    field(tens(offset), DR_YT_SHIFT, DR_YT) | field(units(offset), DR_YU_SHIFT, DR_YU)
}

/// The time register's content for `time`, in the 24-hour format: the
/// afternoon flag is zero.
pub open spec fn time_image(time: Time) -> u32 {
    hours_bits(time.hour as u32) | minutes_bits(time.minute as u32) | seconds_bits(
        time.second as u32,
    )
}

/// The date register's content for `date`, a date from the epoch year on. The
/// day of the week, which a date does not carry, is the register's reset
/// value.
pub open spec fn date_image(date: Date) -> u32 {
    DR_WDU_RESET | year_bits((date.year - EPOCH_YEAR) as u32) | month_bits(date.month as u32)
        | day_bits(date.day as u32)
}

/// The seconds that the time register content `tr` holds.
pub open spec fn seconds_of(tr: u32) -> int {
    extract(tr, TR_ST_SHIFT, TR_ST) * 10 + extract(tr, 0, TR_SU)
}

/// The minutes that the time register content `tr` holds.
pub open spec fn minutes_of(tr: u32) -> int {
    extract(tr, TR_MNT_SHIFT, TR_MNT) * 10 + extract(tr, TR_MNU_SHIFT, TR_MNU)
}

/// The hours that the time register content `tr` holds.
pub open spec fn hours_of(tr: u32) -> int {
    extract(tr, TR_HT_SHIFT, TR_HT) * 10 + extract(tr, TR_HU_SHIFT, TR_HU)
}

/// The day of the month that the date register content `dr` holds.
pub open spec fn day_of(dr: u32) -> int {
    extract(dr, DR_DT_SHIFT, DR_DT) * 10 + extract(dr, 0, DR_DU)
}

/// The month that the date register content `dr` holds.
pub open spec fn month_of(dr: u32) -> int {
    (if dr & DR_MT != 0 {
        10int
    } else {
        0int
    }) + extract(dr, DR_MU_SHIFT, DR_MU)
}

/// The year that the date register content `dr` holds.
pub open spec fn year_of(dr: u32) -> int {
    extract(dr, DR_YT_SHIFT, DR_YT) * 10 + extract(dr, DR_YU_SHIFT, DR_YU) + EPOCH_YEAR
}

/// The calendar value that the register contents `tr` and `dr` hold.
pub open spec fn snapshot(tr: u32, dr: u32) -> PrimitiveDateTime {
    PrimitiveDateTime {
        date: Date { year: year_of(dr) as i32, month: month_of(dr) as u8, day: day_of(dr) as u8 },
        time: Time {
            hour: hours_of(tr) as u8,
            minute: minutes_of(tr) as u8,
            second: seconds_of(tr) as u8,
        },
    }
}

/// No field of a calendar register holds more than its width allows.
pub proof fn lemma_field_bounds(word: u32)
    by (bit_vector)
    ensures
        (word & 0x0000_000F) >> 0 <= 15,
        (word & 0x0000_0070) >> 4 <= 7,
        (word & 0x0000_0F00) >> 8 <= 15,
        (word & 0x0000_7000) >> 12 <= 7,
        (word & 0x000F_0000) >> 16 <= 15,
        (word & 0x0030_0000) >> 20 <= 3,
        (word & 0x0000_0030) >> 4 <= 3,
        (word & 0x00F0_0000) >> 20 <= 15,
{
}

/// The bits of a two-digit field pair: the tens of `value` in the field
/// `tens_mask`, its units in the field `units_mask`.
pub(crate) fn digit_bits(
    value: u32,
    tens_shift: u32,
    tens_mask: u32,
    units_shift: u32,
    units_mask: u32,
) -> (result: Result<u32, Error>)
    requires
        tens_shift < 32,
        units_shift < 32,
    ensures
        bcd2_encode_spec(value) is Ok ==> result == Ok::<u32, Error>(
            field(tens(value), tens_shift, tens_mask) | field(
                units(value),
                units_shift,
                units_mask,
            ),
        ),
        bcd2_encode_spec(value) is Err ==> result == Err::<u32, Error>(Error::InvalidInputData),
{
    let (t, u) = bcd2_encode(value)?;
    Ok(place(t as u32, tens_shift, tens_mask) | place(u as u32, units_shift, units_mask))
}

/// The bits of the month fields for `month`.
pub(crate) fn month_field_bits(month: u32) -> (result: Result<u32, Error>)
    ensures
        bcd2_encode_spec(month) is Ok ==> result == Ok::<u32, Error>(month_bits(month)),
        bcd2_encode_spec(month) is Err ==> result == Err::<u32, Error>(Error::InvalidInputData),
{
    let (mt, mu) = bcd2_encode(month)?;
    let tens_bit: u32 = if mt > 0 {
        DR_MT
    } else {
        0
    };
    Ok(tens_bit | place(mu as u32, DR_MU_SHIFT, DR_MU))
}

/// The time register's content for `time`.
pub(crate) fn time_register(time: &Time) -> (result: Result<u32, Error>)
    ensures
        result == Ok::<u32, Error>(time_image(*time)),
{
    let hours = digit_bits(time.hour as u32, TR_HT_SHIFT, TR_HT, TR_HU_SHIFT, TR_HU)?;
    let minutes = digit_bits(time.minute as u32, TR_MNT_SHIFT, TR_MNT, TR_MNU_SHIFT, TR_MNU)?;
    let seconds = digit_bits(time.second as u32, TR_ST_SHIFT, TR_ST, 0, TR_SU)?;
    Ok(hours | minutes | seconds)
}

/// The date register's content for `date`, a date in the years that the
/// calendar holds.
pub(crate) fn date_register(date: &Date) -> (result: Result<u32, Error>)
    requires
        EPOCH_YEAR <= date.year <= LAST_YEAR,
    ensures
        result == Ok::<u32, Error>(date_image(*date)),
{
    let year = digit_bits(
        (date.year - EPOCH_YEAR as i32) as u32,
        DR_YT_SHIFT,
        DR_YT,
        DR_YU_SHIFT,
        DR_YU,
    )?;
    let month = month_field_bits(date.month as u32)?;
    let day = digit_bits(date.day as u32, DR_DT_SHIFT, DR_DT, 0, DR_DU)?;
    Ok(DR_WDU_RESET | year | month | day)
}

/// The seconds held by the time register content `tr`.
pub fn decode_seconds(tr: u32) -> (seconds: u8)
    ensures
        seconds == seconds_of(tr),
{
    proof {
        lemma_field_bounds(tr);
    }
    bcd2_decode(pick(tr, TR_ST_SHIFT, TR_ST) as u8, pick(tr, 0, TR_SU) as u8) as u8
}

/// The minutes held by the time register content `tr`.
pub fn decode_minutes(tr: u32) -> (minutes: u8)
    ensures
        minutes == minutes_of(tr),
{
    proof {
        lemma_field_bounds(tr);
    }
    bcd2_decode(pick(tr, TR_MNT_SHIFT, TR_MNT) as u8, pick(tr, TR_MNU_SHIFT, TR_MNU) as u8) as u8
}

/// The hours held by the time register content `tr`.
pub fn decode_hours(tr: u32) -> (hours: u8)
    ensures
        hours == hours_of(tr),
{
    proof {
        lemma_field_bounds(tr);
    }
    bcd2_decode(pick(tr, TR_HT_SHIFT, TR_HT) as u8, pick(tr, TR_HU_SHIFT, TR_HU) as u8) as u8
}

/// The day of the month held by the date register content `dr`.
pub fn decode_day(dr: u32) -> (day: u8)
    ensures
        day == day_of(dr),
{
    proof {
        lemma_field_bounds(dr);
    }
    bcd2_decode(pick(dr, DR_DT_SHIFT, DR_DT) as u8, pick(dr, 0, DR_DU) as u8) as u8
}

/// The month held by the date register content `dr`.
pub fn decode_month(dr: u32) -> (month: u8)
    ensures
        month == month_of(dr),
{
    proof {
        lemma_field_bounds(dr);
    }
    let mt: u8 = if dr & DR_MT != 0 {
        1
    } else {
        0
    };
    bcd2_decode(mt, pick(dr, DR_MU_SHIFT, DR_MU) as u8) as u8
}

/// The year held by the date register content `dr`.
pub fn decode_year(dr: u32) -> (year: u16)
    ensures
        year == year_of(dr),
{
    proof {
        lemma_field_bounds(dr);
    }
    let year = bcd2_decode(pick(dr, DR_YT_SHIFT, DR_YT) as u8, pick(dr, DR_YU_SHIFT, DR_YU) as u8)
        + 1970;
    year as u16
}

/// The calendar value held by the register contents `tr` and `dr`, whether
/// or not it names a day that exists.
pub fn decode_snapshot(tr: u32, dr: u32) -> (datetime: PrimitiveDateTime)
    ensures
        datetime == snapshot(tr, dr),
{
    let seconds = decode_seconds(tr);
    let minutes = decode_minutes(tr);
    let hours = decode_hours(tr);
    let day = decode_day(dr);
    let month = decode_month(dr);
    let year = decode_year(dr);
    PrimitiveDateTime {
        date: Date { year: year as i32, month, day },
        time: Time { hour: hours, minute: minutes, second: seconds },
    }
}

/// What the time register holds after a time of day was laid out in it, read
/// field by field.
proof fn lemma_time_fields(hour: u32, minute: u32, second: u32)
    by (bit_vector)
    requires
        hour <= 23,
        minute <= 59,
        second <= 59,
    ensures
        hours_of(hours_bits(hour) | minutes_bits(minute) | seconds_bits(second)) == hour,
        minutes_of(hours_bits(hour) | minutes_bits(minute) | seconds_bits(second)) == minute,
        seconds_of(hours_bits(hour) | minutes_bits(minute) | seconds_bits(second)) == second,
{
}

/// What the date register holds after a date was laid out in it, read field
/// by field.
proof fn lemma_date_fields(offset: u32, month: u32, day: u32)
    by (bit_vector)
    requires
        offset <= 99,
        1 <= month <= 12,
        1 <= day <= 31,
    ensures
        year_of(DR_WDU_RESET | year_bits(offset) | month_bits(month) | day_bits(day)) == offset
            + 1970,
        month_of(DR_WDU_RESET | year_bits(offset) | month_bits(month) | day_bits(day)) == month,
        day_of(DR_WDU_RESET | year_bits(offset) | month_bits(month) | day_bits(day)) == day,
{
}

/// A date and time that the calendar can hold, laid out in the two registers
/// and read back from them, is the same date and time.
pub proof fn lemma_datetime_round_trip(datetime: PrimitiveDateTime)
    requires
        datetime.valid(),
        EPOCH_YEAR <= datetime.date.year <= LAST_YEAR,
    ensures
        snapshot(time_image(datetime.time), date_image(datetime.date)) == datetime,
{
    let time = datetime.time;
    let date = datetime.date;
    lemma_time_fields(time.hour as u32, time.minute as u32, time.second as u32);
    lemma_date_fields((date.year - EPOCH_YEAR) as u32, date.month as u32, date.day as u32);
}

} // verus!
