//! The wakeup timer: how an interval is laid out in the timer's clock
//! selection and reload value, and the plans that start and stop the timer.

use crate::bus::{Reg, Step};
use crate::layout::{CR_WUCKSEL, CR_WUTE, ISR_WUTF, ISR_WUTWF};
use crate::protection::{keeps_protection, kept_from};
use crate::transaction::unlocked;
use vstd::prelude::*;

verus! {

/// Longest interval that the wakeup timer counts without its offset.
pub const WAKEUP_OFFSET: u32 = 0x1_0000;

/// Longest interval that the wakeup timer counts at all.
pub const WAKEUP_MAX: u32 = 0x2_0000;

/// Clock selection of the wakeup timer: the calendar's 1 Hz clock.
pub const WUCKSEL_SPRE: u32 = 0b100;

/// Clock selection of the wakeup timer: the calendar's 1 Hz clock, with
/// 65536 ticks added to the reload value.
pub const WUCKSEL_SPRE_OFFSET: u32 = 0b110;

/// The control register as `wakeup_timer` writes it: 1 Hz clock, wakeup
/// interrupt and wakeup timer enabled, every other bit zero.
pub const CR_WAKEUP_RUNNING: u32 = 0x0000_4404;

/// Whether the wakeup timer can count `interval` ticks.
pub open spec fn wakeup_interval_fits(interval: u32) -> bool {
    1 <= interval <= WAKEUP_MAX
}

/// The clock selection for an interval of `interval` ticks.
pub open spec fn wakeup_clock(interval: u32) -> u32 {
    if interval > WAKEUP_OFFSET {
        WUCKSEL_SPRE_OFFSET
    } else {
        WUCKSEL_SPRE
    }
}

/// The reload value for an interval of `interval` ticks: the timer fires one
/// tick after it has counted the value down.
pub open spec fn wakeup_reload(interval: u32) -> int {
    if interval > WAKEUP_OFFSET {
        interval - WAKEUP_OFFSET - 1
    } else {
        interval - 1
    }
}

/// The plan that starts the wakeup timer with an interval of `interval`
/// ticks.
pub open spec fn wakeup_plan(interval: u32) -> Seq<Step> {
    unlocked(
        seq![
            Step::Modify { reg: Reg::RtcCr, clear: CR_WUTE, set: 0 },
            Step::Modify { reg: Reg::RtcIsr, clear: ISR_WUTF, set: 0 },
            Step::WaitSet { reg: Reg::RtcIsr, mask: ISR_WUTWF },
            Step::Modify { reg: Reg::RtcCr, clear: CR_WUCKSEL, set: wakeup_clock(interval) },
            Step::Write { reg: Reg::RtcWutr, value: wakeup_reload(interval) as u32 },
            Step::Modify { reg: Reg::RtcCr, clear: 0, set: CR_WUTE },
        ],
    )
}

/// The plan that stops the wakeup timer.
pub open spec fn wakeup_off_plan() -> Seq<Step> {
    unlocked(
        seq![
            Step::Modify { reg: Reg::RtcCr, clear: CR_WUTE, set: 0 },
            Step::Modify { reg: Reg::RtcIsr, clear: ISR_WUTF, set: 0 },
        ],
    )
}

/// The plan that loads the low sixteen bits of `val` into the wakeup timer
/// and starts it on the 1 Hz clock.
pub open spec fn wakeup_timer_plan(val: u32) -> Seq<Step> {
    unlocked(
        seq![
            Step::Modify { reg: Reg::RtcIsr, clear: ISR_WUTF, set: 0 },
            Step::WaitClear { reg: Reg::RtcIsr, mask: ISR_WUTF },
            Step::Write { reg: Reg::RtcWutr, value: val & 0xFFFF },
            Step::Write { reg: Reg::RtcCr, value: CR_WAKEUP_RUNNING },
        ],
    )
}

/// Calls `cast::u16` on a `u32` and keeps the number where the call
/// succeeds: it does exactly where the number fits sixteen bits, and it
/// returns the number unchanged.
#[verifier::external_body]
pub(crate) fn checked_u16(value: u32) -> (narrowed: Option<u16>)
    ensures
        narrowed == (if value <= u16::MAX {
            Some(value as u16)
        } else {
            None
        }),
{
    cast::u16(value).ok()
}

/// Tells whether the wakeup timer can count `interval` ticks.
pub fn is_wakeup_interval(interval: u32) -> (fits: bool)
    ensures
        fits == wakeup_interval_fits(interval),
{
    1 <= interval && interval <= WAKEUP_MAX
}

/// The plans that work on the wakeup timer keep to the write protection.
pub proof fn lemma_wakeup_keeps_protection(interval: u32)
    ensures
        keeps_protection(wakeup_plan(interval)),
        keeps_protection(wakeup_off_plan()),
        keeps_protection(wakeup_timer_plan(interval)),
{
    assert(keeps_protection(wakeup_plan(interval))) by {
        reveal_with_fuel(kept_from, 10);
    }
    assert(keeps_protection(wakeup_off_plan())) by {
        reveal_with_fuel(kept_from, 6);
    }
    assert(keeps_protection(wakeup_timer_plan(interval))) by {
        reveal_with_fuel(kept_from, 8);
    }
}

} // verus!
