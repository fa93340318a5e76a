//! Bring-up of the calendar's clock: the backup domain is opened, the
//! oscillator is started unless it runs already, the calendar is switched to
//! it and configured for the first time.

use crate::bus::{Reg, Step};
use crate::layout::{
    field, APB1ENR_PWREN, CR_FMT, CSR_BDRST_BIT, CSR_LSEBYP_BIT, CSR_LSEON_BIT, CSR_LSERDY,
    CSR_LSION, CSR_LSIRDY, CSR_RTCEN_BIT, CSR_RTCSEL, CSR_RTCSEL_SHIFT, PWR_CR_DBP, RTCSEL_LSE,
    RTCSEL_LSI,
};
use crate::protection::{
    keeps_protection, lemma_foreign_steps_pass, lemma_kept_behind_prefix, Guard,
};
use crate::rtc::LSEClockMode;
use crate::setting::prescaler_update;
use crate::transaction::{in_init_mode, lemma_init_mode_keeps_protection};
use vstd::prelude::*;

verus! {

/// Synchronous prescaler for a 1 Hz calendar on the external oscillator.
pub const LSE_PREDIV_S: u16 = 255;

/// Synchronous prescaler for a 1 Hz calendar on the internal oscillator.
pub const LSI_PREDIV_S: u16 = 249;

/// Asynchronous prescaler for a 1 Hz calendar on either oscillator.
pub const PREDIV_A: u8 = 127;

/// Access to the backup domain: the power controller's clock is switched
/// on, then the write protection of the backup domain is lifted.
pub open spec fn backup_access() -> Seq<Step> {
    seq![
        Step::Write { reg: Reg::RccApb1enr, value: APB1ENR_PWREN },
        Step::Modify { reg: Reg::PwrCr, clear: 0, set: PWR_CR_DBP },
    ]
}

/// Reset of the backup domain: the reset bit is set and cleared at once.
pub open spec fn backup_reset_plan() -> Seq<Step> {
    seq![
        Step::SetBit { reg: Reg::RccCsr, bit: CSR_BDRST_BIT },
        Step::ClearBit { reg: Reg::RccCsr, bit: CSR_BDRST_BIT },
    ]
}

/// Start of the external oscillator from a clean backup domain: switched
/// on, bypassed or not as `mode` says, and waited for until it is ready.
pub open spec fn lse_start(mode: LSEClockMode) -> Seq<Step> {
    backup_reset_plan() + seq![
        Step::SetBit { reg: Reg::RccCsr, bit: CSR_LSEON_BIT },
        match mode {
            LSEClockMode::Bypass => Step::SetBit { reg: Reg::RccCsr, bit: CSR_LSEBYP_BIT },
            LSEClockMode::Oscillator => Step::ClearBit { reg: Reg::RccCsr, bit: CSR_LSEBYP_BIT },
        },
        Step::WaitSet { reg: Reg::RccCsr, mask: CSR_LSERDY },
    ]
}

/// Start of the internal oscillator from a clean backup domain: switched on
/// and waited for until it is ready.
pub open spec fn lsi_start() -> Seq<Step> {
    backup_reset_plan() + seq![
        Step::Modify { reg: Reg::RccCsr, clear: 0, set: CSR_LSION },
        Step::WaitSet { reg: Reg::RccCsr, mask: CSR_LSIRDY },
    ]
}

/// `start`, carried out only if the oscillator's flag `ready` reads zero.
pub open spec fn unless_ready(ready: u32, start: Seq<Step>) -> Seq<Step> {
    seq![Step::IfClear { reg: Reg::RccCsr, mask: ready, count: start.len() as usize }] + start
}

/// Selection of clock source number `source` for the calendar, then the
/// calendar's clock enable.
pub open spec fn clock_on(source: u32) -> Seq<Step> {
    seq![
        Step::Modify {
            reg: Reg::RccCsr,
            clear: CSR_RTCSEL,
            set: field(source, CSR_RTCSEL_SHIFT, CSR_RTCSEL),
        },
        Step::SetBit { reg: Reg::RccCsr, bit: CSR_RTCEN_BIT },
    ]
}

/// First configuration of the calendar: 24-hour format, and the two
/// prescalers.
pub open spec fn configure(prediv_s: u16, prediv_a: u8) -> Seq<Step> {
    in_init_mode(
        seq![
            Step::Modify { reg: Reg::RtcCr, clear: CR_FMT, set: 0 },
            prescaler_update(prediv_s, prediv_a),
        ],
    )
}

/// Bring-up on the external oscillator.
pub open spec fn lse_bring_up(mode: LSEClockMode, prediv_s: u16, prediv_a: u8) -> Seq<Step> {
    backup_access() + unless_ready(CSR_LSERDY, lse_start(mode)) + clock_on(RTCSEL_LSE) + configure(
        prediv_s,
        prediv_a,
    )
}

/// Bring-up on the internal oscillator.
pub open spec fn lsi_bring_up(prediv_s: u16, prediv_a: u8) -> Seq<Step> {
    backup_access() + unless_ready(CSR_LSIRDY, lsi_start()) + clock_on(RTCSEL_LSI) + configure(
        prediv_s,
        prediv_a,
    )
}

/// Both bring-up plans keep to the write protection: what comes before the
/// first configuration touches no register of the calendar.
pub proof fn lemma_bring_up_keeps_protection(mode: LSEClockMode, prediv_s: u16, prediv_a: u8)
    ensures
        keeps_protection(lse_bring_up(mode, prediv_s, prediv_a)),
        keeps_protection(lsi_bring_up(prediv_s, prediv_a)),
{
    let configure = configure(prediv_s, prediv_a);
    lemma_init_mode_keeps_protection(
        seq![
            Step::Modify { reg: Reg::RtcCr, clear: CR_FMT, set: 0 },
            prescaler_update(prediv_s, prediv_a),
        ],
    );
    let lse_clock = backup_access() + unless_ready(CSR_LSERDY, lse_start(mode)) + clock_on(
        RTCSEL_LSE,
    );
    assert(lse_clock.len() == 10);
    lemma_kept_behind_prefix(lse_clock, configure, 0, Guard::locked());
    lemma_foreign_steps_pass(lse_clock + configure, 0, 10, Guard::locked());
    let lsi_clock = backup_access() + unless_ready(CSR_LSIRDY, lsi_start()) + clock_on(
        RTCSEL_LSI,
    );
    assert(lsi_clock.len() == 9);
    lemma_kept_behind_prefix(lsi_clock, configure, 0, Guard::locked());
    lemma_foreign_steps_pass(lsi_clock + configure, 0, 9, Guard::locked());
}

} // verus!
