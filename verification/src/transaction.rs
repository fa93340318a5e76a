//! The register transaction: the frame that the hardware asks for around
//! every store to a protected register of the calendar.
//!
//! The two keys lift the write protection and one more write puts it back.
//! Stores to the calendar's own registers are framed by the entry into
//! initialisation mode and the exit from it as well.

use crate::bus::{Reg, Step};
use crate::layout::{ISR_INIT, ISR_INITF, WPR_KEY1, WPR_KEY2, WPR_LOCK};
use crate::protection::{
    all_calendar_stores, is_calendar_store, keeps_protection, kept_from,
    lemma_calendar_stores_pass, Guard,
};
use vstd::prelude::*;

verus! {

/// The two key writes that lift the write protection of the calendar's
/// registers.
pub open spec fn unlock_keys() -> Seq<Step> {
    seq![
        Step::Write { reg: Reg::RtcWpr, value: WPR_KEY1 },
        Step::Write { reg: Reg::RtcWpr, value: WPR_KEY2 },
    ]
}

/// `body` between the unlock keys and the write that locks the registers
/// again.
pub open spec fn unlocked(body: Seq<Step>) -> Seq<Step> {
    unlock_keys() + body.push(Step::Write { reg: Reg::RtcWpr, value: WPR_LOCK })
}

/// Entry into initialisation mode: nothing where the mode's flag is up
/// already, else the request and the wait for the flag.
pub open spec fn enter_init() -> Seq<Step> {
    seq![
        Step::IfClear { reg: Reg::RtcIsr, mask: ISR_INITF, count: 2 },
        Step::Modify { reg: Reg::RtcIsr, clear: 0, set: ISR_INIT },
        Step::WaitSet { reg: Reg::RtcIsr, mask: ISR_INITF },
    ]
}

/// Exit from initialisation mode: the request is withdrawn, and the flag is
/// waited for until it falls.
pub open spec fn exit_init() -> Seq<Step> {
    seq![
        Step::Modify { reg: Reg::RtcIsr, clear: ISR_INIT, set: 0 },
        Step::WaitClear { reg: Reg::RtcIsr, mask: ISR_INITF },
    ]
}

/// `body` carried out in initialisation mode, with the write protection
/// lifted around it.
pub open spec fn in_init_mode(body: Seq<Step>) -> Seq<Step> {
    unlocked(enter_init() + body + exit_init())
}

/// Stores to the calendar's registers, carried out in initialisation mode
/// with the write protection lifted around them, keep to the protection.
pub proof fn lemma_init_mode_keeps_protection(body: Seq<Step>)
    requires
        all_calendar_stores(body),
    ensures
        keeps_protection(in_init_mode(body)),
{
    let plan = in_init_mode(body);
    let end: int = 5 + body.len() as int;
    assert(plan.len() == end + 3);
    assert(plan[0] == (Step::Write { reg: Reg::RtcWpr, value: WPR_KEY1 }));
    assert(plan[1] == (Step::Write { reg: Reg::RtcWpr, value: WPR_KEY2 }));
    assert(plan[2] == (Step::IfClear { reg: Reg::RtcIsr, mask: ISR_INITF, count: 2 }));
    assert(plan[3] == (Step::Modify { reg: Reg::RtcIsr, clear: 0, set: ISR_INIT }));
    assert(plan[4] == (Step::WaitSet { reg: Reg::RtcIsr, mask: ISR_INITF }));
    assert forall|i: int| 5 <= i < end implies is_calendar_store(#[trigger] plan[i]) by {
        assert(plan[i] == body[i - 5]);
    }
    assert(plan[end] == (Step::Modify { reg: Reg::RtcIsr, clear: ISR_INIT, set: 0 }));
    assert(plan[end + 1] == (Step::WaitClear { reg: Reg::RtcIsr, mask: ISR_INITF }));
    assert(plan[end + 2] == (Step::Write { reg: Reg::RtcWpr, value: WPR_LOCK }));
    let inside = Guard { keys: 2, init: true };
    assert(kept_from(plan, end, inside)) by {
        reveal_with_fuel(kept_from, 4);
    }
    lemma_calendar_stores_pass(plan, 5, end, inside);
    assert(kept_from(plan, 0, Guard::locked())) by {
        reveal_with_fuel(kept_from, 5);
    }
}

} // verus!
