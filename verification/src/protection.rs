//! The write protection of the calendar's registers, and what it means for a
//! list of steps to keep to it.
//!
//! The calendar ignores a store to a protected register until the two keys
//! have been written to its write-protection register, one after the other.
//! The time, date and prescaler registers take a store only in
//! initialisation mode on top of that. Any other byte written to the
//! write-protection register locks the registers again.

use crate::bus::{Reg, Step};
use crate::layout::{ISR_INIT, ISR_INITF, WPR_KEY1, WPR_KEY2};
use vstd::prelude::*;

verus! {

/// What is known of the protection at one point of a list of steps.
pub struct Guard {
    /// How many keys of the unlock sequence have been written in a row: two
    /// lift the protection.
    pub keys: int,
    /// Whether the calendar is in initialisation mode.
    pub init: bool,
}

/// The register that `step` stores to, if it stores at all.
pub open spec fn stored_register(step: Step) -> Option<Reg> {
    match step {
        Step::Write { reg, .. } => Some(reg),
        Step::Modify { reg, .. } => Some(reg),
        Step::SetBit { reg, .. } => Some(reg),
        Step::ClearBit { reg, .. } => Some(reg),
        _ => None,
    }
}

/// Whether `step` may change the request for initialisation mode.
pub open spec fn touches_init_request(step: Step) -> bool {
    match step {
        Step::Write { reg: Reg::RtcIsr, .. } => true,
        Step::Modify { reg: Reg::RtcIsr, clear, set } => (clear | set) & ISR_INIT != 0,
        Step::SetBit { reg: Reg::RtcIsr, bit } => bit == 7,
        Step::ClearBit { reg: Reg::RtcIsr, bit } => bit == 7,
        _ => false,
    }
}

impl Guard {
    /// The protection after reset, and as every operation leaves it: locked,
    /// and out of initialisation mode.
    pub open spec fn locked() -> Guard {
        Guard { keys: 0, init: false }
    }

    /// Whether the protection is lifted.
    pub open spec fn lifted(self) -> bool {
        self.keys == 2
    }

    /// Whether the hardware takes the store of `step`, if it makes one.
    pub open spec fn admits(self, step: Step) -> bool {
        match stored_register(step) {
            Some(Reg::RtcTr) | Some(Reg::RtcDr) | Some(Reg::RtcPrer) => self.lifted() && self.init,
            Some(Reg::RtcCr) | Some(Reg::RtcWutr) => self.lifted(),
            Some(Reg::RtcIsr) => touches_init_request(step) ==> self.lifted(),
            _ => true,
        }
    }

    /// What is known once `step`, which is no guarded block, is done with.
    pub open spec fn after(self, step: Step) -> Guard {
        match step {
            Step::Write { reg: Reg::RtcWpr, value } => Guard {
                keys: if self.keys == 0 && value == WPR_KEY1 {
                    1
                } else if self.keys == 1 && value == WPR_KEY2 {
                    2
                } else {
                    0
                },
                ..self
            },
            Step::WaitSet { reg: Reg::RtcIsr, mask } => if mask == ISR_INITF {
                Guard { init: true, ..self }
            } else {
                self
            },
            Step::WaitClear { reg: Reg::RtcIsr, mask } => if mask == ISR_INITF {
                Guard { init: false, ..self }
            } else {
                self
            },
            _ => self,
        }
    }

    /// What is known once a guarded block on the bits `mask` of `reg` has
    /// been entered (`skipped` is false) or passed over (`skipped` is true).
    pub open spec fn branch(self, reg: Reg, mask: u32, skipped: bool) -> Guard {
        if reg == Reg::RtcIsr && mask == ISR_INITF {
            Guard { init: skipped, ..self }
        } else {
            self
        }
    }
}

/// Whether the steps from index `at` on keep to the write protection when
/// they start under `guard`: the hardware takes every store to a protected
/// register, whichever way the guarded blocks go, and the registers are
/// locked and out of initialisation mode at the end.
pub open spec fn kept_from(steps: Seq<Step>, at: int, guard: Guard) -> bool
    decreases steps.len() - at,
{
    if at < 0 || at >= steps.len() {
        guard == Guard::locked()
    } else {
        match steps[at] {
            Step::IfClear { reg, mask, count } => {
                &&& kept_from(steps, at + 1, guard.branch(reg, mask, false))
                &&& kept_from(
                    steps,
                    if at + 1 + count <= steps.len() {
                        at + 1 + count
                    } else {
                        steps.len() as int
                    },
                    guard.branch(reg, mask, true),
                )
            },
            step => guard.admits(step) && kept_from(steps, at + 1, guard.after(step)),
        }
    }
}

/// Whether `steps`, started on locked registers, keeps to the write
/// protection.
pub open spec fn keeps_protection(steps: Seq<Step>) -> bool {
    kept_from(steps, 0, Guard::locked())
}

/// Whether `step` is a plain store to a register of the calendar that takes
/// stores in initialisation mode: time, date, prescaler, control.
pub open spec fn is_calendar_store(step: Step) -> bool {
    match step {
        Step::Write { reg, .. } | Step::Modify { reg, .. } => reg == Reg::RtcTr || reg
            == Reg::RtcDr || reg == Reg::RtcPrer || reg == Reg::RtcCr,
        _ => false,
    }
}

/// Whether `body` holds nothing but such stores.
pub open spec fn all_calendar_stores(body: Seq<Step>) -> bool {
    forall|i: int| 0 <= i < body.len() ==> is_calendar_store(#[trigger] body[i])
}

/// Whether `step` has nothing to do with the calendar's registers.
pub open spec fn is_foreign(step: Step) -> bool {
    match step {
        Step::Write { reg, .. }
        | Step::Modify { reg, .. }
        | Step::SetBit { reg, .. }
        | Step::ClearBit { reg, .. }
        | Step::WaitSet { reg, .. }
        | Step::WaitClear { reg, .. }
        | Step::Read { reg }
        | Step::IfClear { reg, .. } => reg != Reg::RtcTr && reg != Reg::RtcDr && reg != Reg::RtcCr
            && reg != Reg::RtcIsr && reg != Reg::RtcPrer && reg != Reg::RtcWutr && reg
            != Reg::RtcWpr,
    }
}

/// A list that keeps to the protection still does so behind any `prefix`:
/// what counts from the index `at` of `rest` on is the same at that place
/// behind `prefix`.
pub proof fn lemma_kept_behind_prefix(prefix: Seq<Step>, rest: Seq<Step>, at: int, guard: Guard)
    requires
        0 <= at <= rest.len(),
    ensures
        kept_from(prefix + rest, prefix.len() + at, guard) == kept_from(rest, at, guard),
    decreases rest.len() - at,
{
    let all = prefix + rest;
    if at < rest.len() {
        assert(all[prefix.len() + at] == rest[at]);
        match rest[at] {
            Step::IfClear { reg, mask, count } => {
                lemma_kept_behind_prefix(prefix, rest, at + 1, guard.branch(reg, mask, false));
                let target = if at + 1 + count <= rest.len() {
                    at + 1 + count
                } else {
                    rest.len() as int
                };
                lemma_kept_behind_prefix(prefix, rest, target, guard.branch(reg, mask, true));
            },
            step => {
                lemma_kept_behind_prefix(prefix, rest, at + 1, guard.after(step));
            },
        }
    }
}

/// Steps that have nothing to do with the calendar neither break the
/// protection nor change it: what counts from `at` on is what counts from
/// `upto` on, where every step between the two is such a step and no guarded
/// block among them reaches beyond `upto`.
pub proof fn lemma_foreign_steps_pass(steps: Seq<Step>, at: int, upto: int, guard: Guard)
    requires
        0 <= at <= upto <= steps.len(),
        forall|i: int| at <= i < upto ==> is_foreign(#[trigger] steps[i]),
        forall|i: int|
            at <= i < upto ==> (#[trigger] steps[i] matches Step::IfClear { count, .. } ==> i + 1
                + count <= upto),
    ensures
        kept_from(steps, at, guard) == kept_from(steps, upto, guard),
    decreases upto - at,
{
    if at < upto {
        assert(is_foreign(steps[at]));
        match steps[at] {
            Step::IfClear { reg, mask, count } => {
                lemma_foreign_steps_pass(steps, at + 1, upto, guard);
                lemma_foreign_steps_pass(steps, at + 1 + count, upto, guard);
            },
            step => {
                lemma_foreign_steps_pass(steps, at + 1, upto, guard);
            },
        }
    }
}

/// Plain stores to the calendar's registers pass while the protection is
/// lifted and the calendar is in initialisation mode, and change neither.
pub proof fn lemma_calendar_stores_pass(steps: Seq<Step>, at: int, upto: int, guard: Guard)
    requires
        0 <= at <= upto <= steps.len(),
        guard.lifted(),
        guard.init,
        forall|i: int| at <= i < upto ==> is_calendar_store(#[trigger] steps[i]),
    ensures
        kept_from(steps, at, guard) == kept_from(steps, upto, guard),
    decreases upto - at,
{
    if at < upto {
        assert(is_calendar_store(steps[at]));
        lemma_calendar_stores_pass(steps, at + 1, upto, guard);
    }
}

} // verus!
