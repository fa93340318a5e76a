//! The plans that set the calendar: one field, the time, the date, or both.

use crate::bus::{Reg, Step};
use crate::calendar::{Date, PrimitiveDateTime, Time};
use crate::codec::{
    date_image, day_bits, hours_bits, lemma_datetime_round_trip, minutes_bits, month_bits,
    seconds_bits, snapshot, time_image, year_bits, EPOCH_YEAR, LAST_YEAR,
};
use crate::layout::{
    field, DR_DT, DR_DU, DR_MT, DR_MU, DR_WDU, DR_WDU_SHIFT, DR_YT, DR_YU, PRER_PREDIV_A,
    PRER_PREDIV_A_SHIFT, PRER_PREDIV_S, TR_HT, TR_HU, TR_MNT, TR_MNU, TR_PM, TR_ST, TR_SU,
};
use crate::transaction::in_init_mode;
use vstd::prelude::*;

verus! {

/// The update that loads both prescalers; each value is cut to its field.
pub open spec fn prescaler_update(prediv_s: u16, prediv_a: u8) -> Step {
    Step::Modify {
        reg: Reg::RtcPrer,
        clear: PRER_PREDIV_S | PRER_PREDIV_A,
        set: field(prediv_s as u32, 0, PRER_PREDIV_S) | field(
            prediv_a as u32,
            PRER_PREDIV_A_SHIFT,
            PRER_PREDIV_A,
        ),
    }
}

/// The update that replaces the seconds, for `seconds` up to 59.
pub open spec fn seconds_update(seconds: u8) -> Step {
    Step::Modify { reg: Reg::RtcTr, clear: TR_ST | TR_SU, set: seconds_bits(seconds as u32) }
}

/// The update that replaces the minutes, for `minutes` up to 59.
pub open spec fn minutes_update(minutes: u8) -> Step {
    Step::Modify { reg: Reg::RtcTr, clear: TR_MNT | TR_MNU, set: minutes_bits(minutes as u32) }
}

/// The update that replaces the hours, for `hours` up to 23, and clears the
/// afternoon flag.
pub open spec fn hours_update(hours: u8) -> Step {
    Step::Modify { reg: Reg::RtcTr, clear: TR_HT | TR_HU | TR_PM, set: hours_bits(hours as u32) }
}

/// The update that replaces the day of the week.
pub open spec fn weekday_update(weekday: u8) -> Step {
    Step::Modify {
        reg: Reg::RtcDr,
        clear: DR_WDU,
        set: field(weekday as u32, DR_WDU_SHIFT, DR_WDU),
    }
}

/// The update that replaces the day of the month.
pub open spec fn day_update(day: u8) -> Step {
    Step::Modify { reg: Reg::RtcDr, clear: DR_DT | DR_DU, set: day_bits(day as u32) }
}

/// The update that replaces the month.
pub open spec fn month_update(month: u8) -> Step {
    Step::Modify { reg: Reg::RtcDr, clear: DR_MT | DR_MU, set: month_bits(month as u32) }
}

/// The update that replaces the year, for a year from the epoch year on.
pub open spec fn year_update(year: u16) -> Step {
    Step::Modify {
        reg: Reg::RtcDr,
        clear: DR_YT | DR_YU,
        set: year_bits((year - EPOCH_YEAR) as u32),
    }
}

/// Whether the calendar can hold `date`: the day exists, in a year that the
/// two-digit year field reaches.
pub open spec fn date_in_range(date: Date) -> bool {
    date.valid() && EPOCH_YEAR <= date.year <= LAST_YEAR
}

/// The plan that loads `time`: one write of the whole time register.
pub open spec fn time_plan(time: Time) -> Seq<Step> {
    in_init_mode(seq![Step::Write { reg: Reg::RtcTr, value: time_image(time) }])
}

/// The plan that loads `date`: one write of the whole date register.
pub open spec fn date_plan(date: Date) -> Seq<Step> {
    in_init_mode(seq![Step::Write { reg: Reg::RtcDr, value: date_image(date) }])
}

/// The plan that loads `datetime`: one write of the date register, then one
/// of the time register, within one stay in initialisation mode.
pub open spec fn datetime_plan(datetime: PrimitiveDateTime) -> Seq<Step> {
    in_init_mode(
        seq![
            Step::Write { reg: Reg::RtcDr, value: date_image(datetime.date) },
            Step::Write { reg: Reg::RtcTr, value: time_image(datetime.time) },
        ],
    )
}

/// A date and time that is set and then read is the same date and time: what
/// the plan that loads `datetime` writes to the date and time registers is,
/// read from the two registers, `datetime` again.
pub proof fn lemma_set_then_read(datetime: PrimitiveDateTime)
    requires
        date_in_range(datetime.date),
        datetime.time.valid(),
    ensures
        datetime_plan(datetime)[5] == (Step::Write {
            reg: Reg::RtcDr,
            value: date_image(datetime.date),
        }),
        datetime_plan(datetime)[6] == (Step::Write {
            reg: Reg::RtcTr,
            value: time_image(datetime.time),
        }),
        snapshot(time_image(datetime.time), date_image(datetime.date)) == datetime,
{
    lemma_datetime_round_trip(datetime);
}

} // verus!
