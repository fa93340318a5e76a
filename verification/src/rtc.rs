//! The real-time calendar: bring-up, calendar registers, wakeup timer, events.
//!
//! Every method plans the register accesses of one operation and returns them
//! as a list of steps. A refused input returns the error and no step, so
//! nothing reaches the hardware.

use crate::bus::{Reg, Step};
use crate::calendar::{Date, PrimitiveDateTime, Time};
use crate::clock::{
    backup_access, backup_reset_plan, lemma_bring_up_keeps_protection, lse_bring_up, lse_start,
    lsi_bring_up, lsi_start, LSE_PREDIV_S, LSI_PREDIV_S, PREDIV_A,
};
use crate::codec::{
    date_register, decode_snapshot, digit_bits, month_field_bits, snapshot, time_register,
    EPOCH_YEAR, LAST_YEAR,
};
use crate::event::{lemma_events_keep_protection, listen_plan, unpend_plan};
use crate::layout::{
    place, APB1ENR_PWREN, CR_ALRAIE, CR_ALRBIE, CR_FMT, CR_TSIE, CR_WUCKSEL, CR_WUTE, CR_WUTIE,
    CSR_BDRST_BIT, CSR_LSEBYP_BIT, CSR_LSEON_BIT, CSR_LSERDY, CSR_LSION, CSR_LSIRDY,
    CSR_RTCEN_BIT, CSR_RTCSEL, CSR_RTCSEL_SHIFT, DR_DT, DR_DT_SHIFT, DR_DU, DR_MT, DR_MU, DR_WDU,
    DR_WDU_SHIFT, DR_YT, DR_YT_SHIFT, DR_YU, DR_YU_SHIFT, ISR_ALRAF, ISR_ALRBF, ISR_INIT,
    ISR_INITF, ISR_RSF, ISR_TSF, ISR_WUTF, ISR_WUTWF, PRER_PREDIV_A, PRER_PREDIV_A_SHIFT,
    PRER_PREDIV_S, PWR_CR_CWUF, PWR_CR_DBP, RTCSEL_LSE, RTCSEL_LSI, TR_HT, TR_HT_SHIFT, TR_HU,
    TR_HU_SHIFT, TR_MNT, TR_MNT_SHIFT, TR_MNU, TR_MNU_SHIFT, TR_PM, TR_ST, TR_ST_SHIFT, TR_SU,
    WPR_KEY1, WPR_KEY2, WPR_LOCK,
};
use crate::peripherals::{EXTI, PWR, RTC};
use crate::protection::{all_calendar_stores, keeps_protection};
use crate::reading::{
    lemma_read_keeps_protection, lemma_read_plan_in_order, read_plan, snapshot_order,
};
use crate::setting::{
    date_in_range, date_plan, datetime_plan, day_update, hours_update, minutes_update,
    month_update, prescaler_update, seconds_update, time_plan, weekday_update, year_update,
};
use crate::transaction::{in_init_mode, lemma_init_mode_keeps_protection};
use crate::wakeup::{
    checked_u16, lemma_wakeup_keeps_protection, wakeup_interval_fits, wakeup_off_plan,
    wakeup_plan, wakeup_timer_plan, CR_WAKEUP_RUNNING, WAKEUP_OFFSET, WUCKSEL_SPRE,
    WUCKSEL_SPRE_OFFSET,
};
use core::marker::PhantomData;
use vstd::prelude::*;

verus! {

/// Invalid input error.
#[derive(Debug, Eq, PartialEq, Copy, Clone, Structural)]
pub enum Error {
    /// A field lies outside what the calendar can hold.
    InvalidInputData,
}

/// What the calendar can raise an interrupt for.
#[derive(Debug, Eq, PartialEq, Copy, Clone, Structural)]
pub enum Event {
    /// The calendar has reached the time of alarm A.
    AlarmA,
    /// The calendar has reached the time of alarm B.
    AlarmB,
    /// The wakeup timer has counted its interval down.
    Wakeup,
    /// A timestamp has been taken.
    Timestamp,
}

/// Clock source: external low-speed oscillator (type state).
pub struct Lse;

/// Clock source: internal low-speed oscillator (type state).
pub struct Lsi;

/// Real-time calendar peripheral.
pub struct Rtc<CS = Lse> {
    /// Handle on the calendar's register block.
    pub regs: RTC,
    _clock_source: PhantomData<CS>,
}

impl<CS> View for Rtc<CS> {
    type V = RTC;

    /// The handle that the calendar was made from.
    closed spec fn view(&self) -> RTC {
        self.regs
    }
}

/// Mode of the external low-speed oscillator.
#[derive(Clone, Copy, Debug, PartialEq, Eq, Structural)]
pub enum LSEClockMode {
    /// Drive an external crystal or ceramic resonator.
    Oscillator,
    /// Bypass the oscillator and take an external clock signal.
    Bypass,
}

impl Rtc<Lse> {
    /// Create and enable a new calendar on an external crystal or ceramic
    /// resonator, with the prescalers for a 1 Hz tick.
    pub fn new(regs: RTC, pwr: &mut PWR) -> (out: (Self, Vec<Step>))
        ensures
            out.0@ == regs,
            out.1@ == lse_bring_up(LSEClockMode::Oscillator, LSE_PREDIV_S, PREDIV_A),
            keeps_protection(out.1@),
            *final(pwr) == *old(pwr),
    {
        Self::with_config(regs, pwr, LSEClockMode::Oscillator, LSE_PREDIV_S, PREDIV_A)
    }

    /// Create and enable a new calendar, and configure its clock source and
    /// prescalers.
    ///
    /// With the external oscillator, a `prediv_s` of 255 and a `prediv_a` of
    /// 127 give a calendar clock of 1 Hz.
    pub fn with_config(
        regs: RTC,
        pwr: &mut PWR,
        mode: LSEClockMode,
        prediv_s: u16,
        prediv_a: u8,
    ) -> (out: (Self, Vec<Step>))
        ensures
            out.0@ == regs,
            out.1@ == lse_bring_up(mode, prediv_s, prediv_a),
            keeps_protection(out.1@),
            *final(pwr) == *old(pwr),
    {
        proof {
            lemma_bring_up_keeps_protection(mode, prediv_s, prediv_a);
        }
        let mut result = Self { regs, _clock_source: PhantomData };
        let mut steps = result.unlock(pwr);
        let mut start = result.enable_lse(mode);
        steps.push(Step::IfClear { reg: Reg::RccCsr, mask: CSR_LSERDY, count: start.len() });
        steps.append(&mut start);
        steps.push(
            Step::Modify {
                reg: Reg::RccCsr,
                clear: CSR_RTCSEL,
                set: place(RTCSEL_LSE, CSR_RTCSEL_SHIFT, CSR_RTCSEL),
            },
        );
        let mut enable = result.enable();
        steps.append(&mut enable);
        let mut body: Vec<Step> = Vec::new();
        body.push(Step::Modify { reg: Reg::RtcCr, clear: CR_FMT, set: 0 });
        body.push(prescaler_step(prediv_s, prediv_a));
        let mut configure = result.modify(body);
        steps.append(&mut configure);
        assert(steps@ =~= lse_bring_up(mode, prediv_s, prediv_a));
        (result, steps)
    }

    /// Starts the external low-speed oscillator from a clean backup domain.
    fn enable_lse(&mut self, mode: LSEClockMode) -> (steps: Vec<Step>)
        ensures
            steps@ == lse_start(mode),
            *final(self) == *old(self),
    {
        let mut steps = self.backup_reset();
        steps.push(Step::SetBit { reg: Reg::RccCsr, bit: CSR_LSEON_BIT });
        match mode {
            LSEClockMode::Bypass => {
                steps.push(Step::SetBit { reg: Reg::RccCsr, bit: CSR_LSEBYP_BIT });
            },
            LSEClockMode::Oscillator => {
                steps.push(Step::ClearBit { reg: Reg::RccCsr, bit: CSR_LSEBYP_BIT });
            },
        }
        steps.push(Step::WaitSet { reg: Reg::RccCsr, mask: CSR_LSERDY });
        steps
    }
}

impl Rtc<Lsi> {
    /// Create and enable a new calendar on the internal oscillator, with the
    /// prescalers for a 1 Hz tick.
    pub fn new_lsi(regs: RTC, pwr: &mut PWR) -> (out: (Self, Vec<Step>))
        ensures
            out.0@ == regs,
            out.1@ == lsi_bring_up(LSI_PREDIV_S, PREDIV_A),
            keeps_protection(out.1@),
            *final(pwr) == *old(pwr),
    {
        Self::lsi_with_config(regs, pwr, LSI_PREDIV_S, PREDIV_A)
    }

    /// Create and enable a new calendar, and configure its clock source and
    /// prescalers.
    ///
    /// With the internal oscillator, a `prediv_s` of 249 and a `prediv_a` of
    /// 127 give a calendar clock of 1 Hz.
    pub fn lsi_with_config(regs: RTC, pwr: &mut PWR, prediv_s: u16, prediv_a: u8) -> (out: (
        Self,
        Vec<Step>,
    ))
        ensures
            out.0@ == regs,
            out.1@ == lsi_bring_up(prediv_s, prediv_a),
            keeps_protection(out.1@),
            *final(pwr) == *old(pwr),
    {
        proof {
            lemma_bring_up_keeps_protection(LSEClockMode::Oscillator, prediv_s, prediv_a);
        }
        let mut result = Self { regs, _clock_source: PhantomData };
        let mut steps = result.unlock(pwr);
        let mut start = result.enable_lsi();
        steps.push(Step::IfClear { reg: Reg::RccCsr, mask: CSR_LSIRDY, count: start.len() });
        steps.append(&mut start);
        steps.push(
            Step::Modify {
                reg: Reg::RccCsr,
                clear: CSR_RTCSEL,
                set: place(RTCSEL_LSI, CSR_RTCSEL_SHIFT, CSR_RTCSEL),
            },
        );
        let mut enable = result.enable();
        steps.append(&mut enable);
        let mut body: Vec<Step> = Vec::new();
        body.push(Step::Modify { reg: Reg::RtcCr, clear: CR_FMT, set: 0 });
        body.push(prescaler_step(prediv_s, prediv_a));
        let mut configure = result.modify(body);
        steps.append(&mut configure);
        assert(steps@ =~= lsi_bring_up(prediv_s, prediv_a));
        (result, steps)
    }

    /// Starts the internal low-speed oscillator from a clean backup domain.
    fn enable_lsi(&mut self) -> (steps: Vec<Step>)
        ensures
            steps@ == lsi_start(),
            *final(self) == *old(self),
    {
        let mut steps = self.backup_reset();
        steps.push(Step::Modify { reg: Reg::RccCsr, clear: 0, set: CSR_LSION });
        steps.push(Step::WaitSet { reg: Reg::RccCsr, mask: CSR_LSIRDY });
        steps
    }
}

/// The update that loads both prescalers, computed.
fn prescaler_step(prediv_s: u16, prediv_a: u8) -> (step: Step)
    ensures
        step == prescaler_update(prediv_s, prediv_a),
{
    let set = place(prediv_s as u32, 0, PRER_PREDIV_S) | place(
        prediv_a as u32,
        PRER_PREDIV_A_SHIFT,
        PRER_PREDIV_A,
    );
    Step::Modify { reg: Reg::RtcPrer, clear: PRER_PREDIV_S | PRER_PREDIV_A, set }
}

impl<CS> Rtc<CS> {
    /// Opens the backup domain to writes.
    fn unlock(&mut self, _pwr: &mut PWR) -> (steps: Vec<Step>)
        ensures
            steps@ == backup_access(),
            *final(self) == *old(self),
    {
        let mut steps: Vec<Step> = Vec::new();
        steps.push(Step::Write { reg: Reg::RccApb1enr, value: APB1ENR_PWREN });
        steps.push(Step::Modify { reg: Reg::PwrCr, clear: 0, set: PWR_CR_DBP });
        steps
    }

    /// Resets the backup domain.
    fn backup_reset(&mut self) -> (steps: Vec<Step>)
        ensures
            steps@ == backup_reset_plan(),
            *final(self) == *old(self),
    {
        let mut steps: Vec<Step> = Vec::new();
        steps.push(Step::SetBit { reg: Reg::RccCsr, bit: CSR_BDRST_BIT });
        steps.push(Step::ClearBit { reg: Reg::RccCsr, bit: CSR_BDRST_BIT });
        steps
    }

    /// Starts the calendar's clock.
    fn enable(&mut self) -> (steps: Vec<Step>)
        ensures
            steps@ == seq![Step::SetBit { reg: Reg::RccCsr, bit: CSR_RTCEN_BIT }],
            *final(self) == *old(self),
    {
        let mut steps: Vec<Step> = Vec::new();
        steps.push(Step::SetBit { reg: Reg::RccCsr, bit: CSR_RTCEN_BIT });
        steps
    }

    /// Wraps `body`, the accesses to calendar registers, in the sequence that
    /// the hardware asks for: unlock, enter initialisation mode, `body`, leave
    /// initialisation mode, lock.
    fn modify(&mut self, body: Vec<Step>) -> (steps: Vec<Step>)
        ensures
            steps@ == in_init_mode(body@),
            all_calendar_stores(body@) ==> keeps_protection(steps@),
            *final(self) == *old(self),
    {
        let ghost plan = in_init_mode(body@);
        proof {
            if all_calendar_stores(body@) {
                lemma_init_mode_keeps_protection(body@);
            }
        }
        let mut body = body;
        let mut steps: Vec<Step> = Vec::new();
        steps.push(Step::Write { reg: Reg::RtcWpr, value: WPR_KEY1 });
        steps.push(Step::Write { reg: Reg::RtcWpr, value: WPR_KEY2 });
        steps.push(Step::IfClear { reg: Reg::RtcIsr, mask: ISR_INITF, count: 2 });
        steps.push(Step::Modify { reg: Reg::RtcIsr, clear: 0, set: ISR_INIT });
        steps.push(Step::WaitSet { reg: Reg::RtcIsr, mask: ISR_INITF });
        steps.append(&mut body);
        steps.push(Step::Modify { reg: Reg::RtcIsr, clear: ISR_INIT, set: 0 });
        steps.push(Step::WaitClear { reg: Reg::RtcIsr, mask: ISR_INITF });
        steps.push(Step::Write { reg: Reg::RtcWpr, value: WPR_LOCK });
        assert(steps@ =~= plan);
        steps
    }

    /// Loads the two prescalers that divide the oscillator down to the
    /// calendar's tick.
    pub fn set_prescalers(&mut self, prediv_s: u16, prediv_a: u8) -> (steps: Vec<Step>)
        ensures
            steps@ == in_init_mode(seq![prescaler_update(prediv_s, prediv_a)]),
            keeps_protection(steps@),
            *final(self) == *old(self),
    {
        let mut body: Vec<Step> = Vec::new();
        body.push(prescaler_step(prediv_s, prediv_a));
        self.modify(body)
    }

    /// Set the seconds [0-59].
    pub fn set_seconds(&mut self, seconds: u8) -> (result: Result<Vec<Step>, Error>)
        ensures
            seconds <= 59 ==> result is Ok && result->Ok_0@ == in_init_mode(
                seq![seconds_update(seconds)],
            ),
            seconds > 59 ==> result == Err::<Vec<Step>, Error>(Error::InvalidInputData),
            result matches Ok(steps) ==> keeps_protection(steps@),
            *final(self) == *old(self),
    {
        if seconds > 59 {
            return Err(Error::InvalidInputData);
        }
        let set = digit_bits(seconds as u32, TR_ST_SHIFT, TR_ST, 0, TR_SU)?;
        let mut body: Vec<Step> = Vec::new();
        body.push(Step::Modify { reg: Reg::RtcTr, clear: TR_ST | TR_SU, set });
        Ok(self.modify(body))
    }

    /// Set the minutes [0-59].
    pub fn set_minutes(&mut self, minutes: u8) -> (result: Result<Vec<Step>, Error>)
        ensures
            minutes <= 59 ==> result is Ok && result->Ok_0@ == in_init_mode(
                seq![minutes_update(minutes)],
            ),
            minutes > 59 ==> result == Err::<Vec<Step>, Error>(Error::InvalidInputData),
            result matches Ok(steps) ==> keeps_protection(steps@),
            *final(self) == *old(self),
    {
        if minutes > 59 {
            return Err(Error::InvalidInputData);
        }
        let set = digit_bits(minutes as u32, TR_MNT_SHIFT, TR_MNT, TR_MNU_SHIFT, TR_MNU)?;
        let mut body: Vec<Step> = Vec::new();
        body.push(Step::Modify { reg: Reg::RtcTr, clear: TR_MNT | TR_MNU, set });
        Ok(self.modify(body))
    }

    /// Set the hours [0-23].
    pub fn set_hours(&mut self, hours: u8) -> (result: Result<Vec<Step>, Error>)
        ensures
            hours <= 23 ==> result is Ok && result->Ok_0@ == in_init_mode(
                seq![hours_update(hours)],
            ),
            hours > 23 ==> result == Err::<Vec<Step>, Error>(Error::InvalidInputData),
            result matches Ok(steps) ==> keeps_protection(steps@),
            *final(self) == *old(self),
    {
        if hours > 23 {
            return Err(Error::InvalidInputData);
        }
        let set = digit_bits(hours as u32, TR_HT_SHIFT, TR_HT, TR_HU_SHIFT, TR_HU)?;
        let mut body: Vec<Step> = Vec::new();
        body.push(Step::Modify { reg: Reg::RtcTr, clear: TR_HT | TR_HU | TR_PM, set });
        Ok(self.modify(body))
    }

    /// Set the day of week [1-7].
    pub fn set_weekday(&mut self, weekday: u8) -> (result: Result<Vec<Step>, Error>)
        ensures
            1 <= weekday <= 7 ==> result is Ok && result->Ok_0@ == in_init_mode(
                seq![weekday_update(weekday)],
            ),
            !(1 <= weekday <= 7) ==> result == Err::<Vec<Step>, Error>(Error::InvalidInputData),
            result matches Ok(steps) ==> keeps_protection(steps@),
            *final(self) == *old(self),
    {
        if !(1 <= weekday && weekday <= 7) {
            return Err(Error::InvalidInputData);
        }
        let set = place(weekday as u32, DR_WDU_SHIFT, DR_WDU);
        let mut body: Vec<Step> = Vec::new();
        body.push(Step::Modify { reg: Reg::RtcDr, clear: DR_WDU, set });
        Ok(self.modify(body))
    }

    /// Set the day of month [1-31].
    pub fn set_day(&mut self, day: u8) -> (result: Result<Vec<Step>, Error>)
        ensures
            1 <= day <= 31 ==> result is Ok && result->Ok_0@ == in_init_mode(
                seq![day_update(day)],
            ),
            !(1 <= day <= 31) ==> result == Err::<Vec<Step>, Error>(Error::InvalidInputData),
            result matches Ok(steps) ==> keeps_protection(steps@),
            *final(self) == *old(self),
    {
        if !(1 <= day && day <= 31) {
            return Err(Error::InvalidInputData);
        }
        let set = digit_bits(day as u32, DR_DT_SHIFT, DR_DT, 0, DR_DU)?;
        let mut body: Vec<Step> = Vec::new();
        body.push(Step::Modify { reg: Reg::RtcDr, clear: DR_DT | DR_DU, set });
        Ok(self.modify(body))
    }

    /// Set the month [1-12].
    pub fn set_month(&mut self, month: u8) -> (result: Result<Vec<Step>, Error>)
        ensures
            1 <= month <= 12 ==> result is Ok && result->Ok_0@ == in_init_mode(
                seq![month_update(month)],
            ),
            !(1 <= month <= 12) ==> result == Err::<Vec<Step>, Error>(Error::InvalidInputData),
            result matches Ok(steps) ==> keeps_protection(steps@),
            *final(self) == *old(self),
    {
        if !(1 <= month && month <= 12) {
            return Err(Error::InvalidInputData);
        }
        let set = month_field_bits(month as u32)?;
        let mut body: Vec<Step> = Vec::new();
        body.push(Step::Modify { reg: Reg::RtcDr, clear: DR_MT | DR_MU, set });
        Ok(self.modify(body))
    }

    /// Set the year [1970-2069].
    ///
    /// The year cannot be less than 1970, the year that the two-digit year
    /// field counts from, nor greater than 2069, where that field ends.
    pub fn set_year(&mut self, year: u16) -> (result: Result<Vec<Step>, Error>)
        ensures
            EPOCH_YEAR <= year <= LAST_YEAR ==> result is Ok && result->Ok_0@ == in_init_mode(
                seq![year_update(year)],
            ),
            !(EPOCH_YEAR <= year <= LAST_YEAR) ==> result == Err::<Vec<Step>, Error>(
                Error::InvalidInputData,
            ),
            result matches Ok(steps) ==> keeps_protection(steps@),
            *final(self) == *old(self),
    {
        if !(EPOCH_YEAR <= year && year <= LAST_YEAR) {
            return Err(Error::InvalidInputData);
        }
        let set = digit_bits(
            year as u32 - EPOCH_YEAR as u32,
            DR_YT_SHIFT,
            DR_YT,
            DR_YU_SHIFT,
            DR_YU,
        )?;
        let mut body: Vec<Step> = Vec::new();
        body.push(Step::Modify { reg: Reg::RtcDr, clear: DR_YT | DR_YU, set });
        Ok(self.modify(body))
    }

    /// Set the time of day.
    pub fn set_time(&mut self, time: &Time) -> (result: Result<Vec<Step>, Error>)
        ensures
            time.valid() ==> result is Ok && result->Ok_0@ == time_plan(*time),
            !time.valid() ==> result == Err::<Vec<Step>, Error>(Error::InvalidInputData),
            result matches Ok(steps) ==> keeps_protection(steps@),
            *final(self) == *old(self),
    {
        if !time.is_valid() {
            return Err(Error::InvalidInputData);
        }
        let value = time_register(time)?;
        let mut body: Vec<Step> = Vec::new();
        body.push(Step::Write { reg: Reg::RtcTr, value });
        Ok(self.modify(body))
    }

    /// Set the date.
    ///
    /// The year cannot be less than 1970, the year that the two-digit year
    /// field counts from, nor greater than 2069, where that field ends.
    pub fn set_date(&mut self, date: &Date) -> (result: Result<Vec<Step>, Error>)
        ensures
            date_in_range(*date) ==> result is Ok && result->Ok_0@ == date_plan(*date),
            !date_in_range(*date) ==> result == Err::<Vec<Step>, Error>(Error::InvalidInputData),
            result matches Ok(steps) ==> keeps_protection(steps@),
            *final(self) == *old(self),
    {
        if !(EPOCH_YEAR as i32 <= date.year && date.year <= LAST_YEAR as i32) {
            return Err(Error::InvalidInputData);
        }
        if !date.is_valid() {
            return Err(Error::InvalidInputData);
        }
        let value = date_register(date)?;
        let mut body: Vec<Step> = Vec::new();
        body.push(Step::Write { reg: Reg::RtcDr, value });
        Ok(self.modify(body))
    }

    /// Set the date and time.
    ///
    /// The year cannot be less than 1970, the year that the two-digit year
    /// field counts from, nor greater than 2069, where that field ends.
    pub fn set_datetime(&mut self, date: &PrimitiveDateTime) -> (result: Result<
        Vec<Step>,
        Error,
    >)
        ensures
            date_in_range(date.date) && date.time.valid() ==> result is Ok && result->Ok_0@
                == datetime_plan(*date),
            !(date_in_range(date.date) && date.time.valid()) ==> result == Err::<Vec<Step>, Error>(
                Error::InvalidInputData,
            ),
            result matches Ok(steps) ==> keeps_protection(steps@),
            *final(self) == *old(self),
    {
        if !(EPOCH_YEAR as i32 <= date.date.year && date.date.year <= LAST_YEAR as i32) {
            return Err(Error::InvalidInputData);
        }
        if !date.is_valid() {
            return Err(Error::InvalidInputData);
        }
        let dr = date_register(&date.date)?;
        let tr = time_register(&date.time)?;
        let mut body: Vec<Step> = Vec::new();
        body.push(Step::Write { reg: Reg::RtcDr, value: dr });
        body.push(Step::Write { reg: Reg::RtcTr, value: tr });
        Ok(self.modify(body))
    }

    /// Starts the wakeup timer with an interval of `interval` ticks of the
    /// calendar's 1 Hz clock.
    ///
    /// Up to 65536 ticks the timer counts the interval itself; beyond, it
    /// counts what exceeds 65536. The interval must be one that the timer can
    /// count, from 1 to 131072 ticks.
    pub fn enable_wakeup(&mut self, interval: u32) -> (steps: Vec<Step>)
        requires
            wakeup_interval_fits(interval),
        ensures
            steps@ == wakeup_plan(interval),
            keeps_protection(steps@),
            *final(self) == *old(self),
    {
        proof {
            lemma_wakeup_keeps_protection(interval);
        }
        let mut steps: Vec<Step> = Vec::new();
        steps.push(Step::Write { reg: Reg::RtcWpr, value: WPR_KEY1 });
        steps.push(Step::Write { reg: Reg::RtcWpr, value: WPR_KEY2 });
        steps.push(Step::Modify { reg: Reg::RtcCr, clear: CR_WUTE, set: 0 });
        steps.push(Step::Modify { reg: Reg::RtcIsr, clear: ISR_WUTF, set: 0 });
        steps.push(Step::WaitSet { reg: Reg::RtcIsr, mask: ISR_WUTWF });
        if interval > WAKEUP_OFFSET {
            steps.push(Step::Modify { reg: Reg::RtcCr, clear: CR_WUCKSEL, set: WUCKSEL_SPRE_OFFSET });
            let reload = checked_u16(interval - WAKEUP_OFFSET - 1).expect(
                "Interval was too large for wakeup timer",
            );
            steps.push(Step::Write { reg: Reg::RtcWutr, value: reload as u32 });
        } else {
            steps.push(Step::Modify { reg: Reg::RtcCr, clear: CR_WUCKSEL, set: WUCKSEL_SPRE });
            let reload = checked_u16(interval - 1).expect(
                "Interval was too large for wakeup timer",
            );
            steps.push(Step::Write { reg: Reg::RtcWutr, value: reload as u32 });
        }
        steps.push(Step::Modify { reg: Reg::RtcCr, clear: 0, set: CR_WUTE });
        steps.push(Step::Write { reg: Reg::RtcWpr, value: WPR_LOCK });
        assert(steps@ =~= wakeup_plan(interval));
        steps
    }

    /// Start listening for `event`.
    #[allow(unused_variables)]
    pub fn listen(&mut self, exti: &mut EXTI, event: Event) -> (steps: Vec<Step>)
        ensures
            steps@ == listen_plan(event),
            *final(exti) == *old(exti),
            keeps_protection(steps@),
            *final(self) == *old(self),
    {
        proof {
            lemma_events_keep_protection(event);
        }
        let mut steps: Vec<Step> = Vec::new();
        steps.push(Step::Write { reg: Reg::RtcWpr, value: WPR_KEY1 });
        steps.push(Step::Write { reg: Reg::RtcWpr, value: WPR_KEY2 });
        match event {
            Event::AlarmA => {
                steps.push(Step::SetBit { reg: Reg::ExtiRtsr, bit: 17 });
                steps.push(Step::SetBit { reg: Reg::ExtiImr, bit: 17 });
                steps.push(Step::Modify { reg: Reg::RtcCr, clear: 0, set: CR_ALRAIE });
            },
            Event::AlarmB => {
                steps.push(Step::SetBit { reg: Reg::ExtiRtsr, bit: 17 });
                steps.push(Step::SetBit { reg: Reg::ExtiImr, bit: 17 });
                steps.push(Step::Modify { reg: Reg::RtcCr, clear: 0, set: CR_ALRBIE });
            },
            Event::Wakeup => {
                steps.push(Step::SetBit { reg: Reg::ExtiRtsr, bit: 20 });
                steps.push(Step::SetBit { reg: Reg::ExtiImr, bit: 20 });
                steps.push(Step::Modify { reg: Reg::RtcCr, clear: 0, set: CR_WUTIE });
            },
            Event::Timestamp => {
                steps.push(Step::SetBit { reg: Reg::ExtiRtsr, bit: 19 });
                steps.push(Step::SetBit { reg: Reg::ExtiImr, bit: 19 });
                steps.push(Step::Modify { reg: Reg::RtcCr, clear: 0, set: CR_TSIE });
            },
        }
        steps.push(Step::Write { reg: Reg::RtcWpr, value: WPR_LOCK });
        assert(steps@ =~= listen_plan(event));
        steps
    }

    /// Stops the wakeup timer and clears its flag.
    pub fn disable_wakeup(&mut self) -> (steps: Vec<Step>)
        ensures
            steps@ == wakeup_off_plan(),
            keeps_protection(steps@),
            *final(self) == *old(self),
    {
        proof {
            lemma_wakeup_keeps_protection(0);
        }
        let mut steps: Vec<Step> = Vec::new();
        steps.push(Step::Write { reg: Reg::RtcWpr, value: WPR_KEY1 });
        steps.push(Step::Write { reg: Reg::RtcWpr, value: WPR_KEY2 });
        steps.push(Step::Modify { reg: Reg::RtcCr, clear: CR_WUTE, set: 0 });
        steps.push(Step::Modify { reg: Reg::RtcIsr, clear: ISR_WUTF, set: 0 });
        steps.push(Step::Write { reg: Reg::RtcWpr, value: WPR_LOCK });
        assert(steps@ =~= wakeup_off_plan());
        steps
    }

    /// Acknowledges `event`, so that its interrupt does not fire again at
    /// once.
    pub fn unpend(&mut self, event: Event) -> (steps: Vec<Step>)
        ensures
            steps@ == unpend_plan(event),
            keeps_protection(steps@),
            *final(self) == *old(self),
    {
        proof {
            lemma_events_keep_protection(event);
        }
        let mut steps: Vec<Step> = Vec::new();
        steps.push(Step::Modify { reg: Reg::PwrCr, clear: 0, set: PWR_CR_CWUF });
        match event {
            Event::AlarmA => {
                steps.push(Step::Modify { reg: Reg::RtcIsr, clear: ISR_ALRAF, set: 0 });
                steps.push(Step::SetBit { reg: Reg::ExtiPr, bit: 17 });
            },
            Event::AlarmB => {
                steps.push(Step::Modify { reg: Reg::RtcIsr, clear: ISR_ALRBF, set: 0 });
                steps.push(Step::SetBit { reg: Reg::ExtiPr, bit: 17 });
            },
            Event::Wakeup => {
                steps.push(Step::Modify { reg: Reg::RtcIsr, clear: ISR_WUTF, set: 0 });
                steps.push(Step::SetBit { reg: Reg::ExtiPr, bit: 20 });
            },
            Event::Timestamp => {
                steps.push(Step::Modify { reg: Reg::RtcIsr, clear: ISR_TSF, set: 0 });
                steps.push(Step::SetBit { reg: Reg::ExtiPr, bit: 19 });
            },
        }
        assert(steps@ =~= unpend_plan(event));
        steps
    }

    /// Loads the low sixteen bits of `val` into the wakeup timer and starts
    /// it on the 1 Hz clock, with its interrupt enabled. The control register
    /// is written whole: whatever else it held is cleared.
    pub fn wakeup_timer(&mut self, val: u32) -> (steps: Vec<Step>)
        ensures
            steps@ == wakeup_timer_plan(val),
            keeps_protection(steps@),
            *final(self) == *old(self),
    {
        proof {
            lemma_wakeup_keeps_protection(val);
        }
        let mut steps: Vec<Step> = Vec::new();
        steps.push(Step::Write { reg: Reg::RtcWpr, value: WPR_KEY1 });
        steps.push(Step::Write { reg: Reg::RtcWpr, value: WPR_KEY2 });
        steps.push(Step::Modify { reg: Reg::RtcIsr, clear: ISR_WUTF, set: 0 });
        steps.push(Step::WaitClear { reg: Reg::RtcIsr, mask: ISR_WUTF });
        steps.push(Step::Write { reg: Reg::RtcWutr, value: val & 0xFFFF });
        steps.push(Step::Write { reg: Reg::RtcCr, value: CR_WAKEUP_RUNNING });
        steps.push(Step::Write { reg: Reg::RtcWpr, value: WPR_LOCK });
        assert(steps@ =~= wakeup_timer_plan(val));
        steps
    }

    /// The accesses that take one consistent reading of the calendar: wait
    /// until the shadow registers are synchronised, read the time register,
    /// then the date register, and clear the synchronisation flag.
    ///
    /// The read of the time register freezes the date register's shadow until
    /// that one is read too, so the order is fixed. The two values read go to
    /// [`Rtc::get_datetime`], the time register's first.
    pub fn read_calendar(&mut self) -> (steps: Vec<Step>)
        ensures
            steps@ == read_plan(),
            snapshot_order(steps@),
            keeps_protection(steps@),
            *final(self) == *old(self),
    {
        proof {
            lemma_read_keeps_protection();
        }
        let mut steps: Vec<Step> = Vec::new();
        steps.push(Step::WaitSet { reg: Reg::RtcIsr, mask: ISR_RSF });
        steps.push(Step::Read { reg: Reg::RtcTr });
        steps.push(Step::Read { reg: Reg::RtcDr });
        steps.push(Step::Modify { reg: Reg::RtcIsr, clear: ISR_RSF, set: 0 });
        proof {
            lemma_read_plan_in_order();
        }
        assert(steps@ =~= read_plan());
        steps
    }

    /// The date and time that the calendar held when `tr` was read from its
    /// time register and `dr` from its date register.
    ///
    /// The registers must hold a day that exists and a time of day: anything
    /// else is a fault of the hardware, and nothing is returned for it here.
    pub fn get_datetime(&mut self, tr: u32, dr: u32) -> (datetime: PrimitiveDateTime)
        requires
            snapshot(tr, dr).valid(),
        ensures
            datetime == snapshot(tr, dr),
            datetime.valid(),
            *final(self) == *old(self),
    {
        decode_snapshot(tr, dr)
    }

    /// The date and time that the register contents `tr` and `dr` hold, or
    /// nothing where they hold no day that exists or no time of day.
    pub fn try_get_datetime(&mut self, tr: u32, dr: u32) -> (datetime: Option<PrimitiveDateTime>)
        ensures
            snapshot(tr, dr).valid() ==> datetime == Some(snapshot(tr, dr)),
            !snapshot(tr, dr).valid() ==> datetime is None,
            *final(self) == *old(self),
    {
        if decode_snapshot(tr, dr).is_valid() {
            Some(self.get_datetime(tr, dr))
        } else {
            None
        }
    }
}

} // verus!
