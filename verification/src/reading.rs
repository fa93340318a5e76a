//! Reading the calendar: the plan of one consistent reading, and the order
//! in which the shadow registers must be read.
//!
//! A read of the time register freezes the shadow of the date register until
//! that one is read too. A date read before its time may belong to another
//! second; a time read without its date leaves the date frozen.

use crate::bus::{Reg, Step};
use crate::layout::ISR_RSF;
use crate::protection::{keeps_protection, kept_from};
use vstd::prelude::*;

verus! {

/// The plan of one consistent reading of the calendar.
pub open spec fn read_plan() -> Seq<Step> {
    seq![
        Step::WaitSet { reg: Reg::RtcIsr, mask: ISR_RSF },
        Step::Read { reg: Reg::RtcTr },
        Step::Read { reg: Reg::RtcDr },
        Step::Modify { reg: Reg::RtcIsr, clear: ISR_RSF, set: 0 },
    ]
}

/// Whether `steps` reads the calendar in the order that the shadow registers
/// ask for, given that the date register's shadow is `frozen`: the time
/// register has been read and the date register not yet after it.
pub open spec fn ordered_from(steps: Seq<Step>, frozen: bool) -> bool
    decreases steps.len(),
{
    if steps.len() == 0 {
        !frozen
    } else {
        match steps[0] {
            Step::Read { reg: Reg::RtcTr } => ordered_from(steps.drop_first(), true),
            Step::Read { reg: Reg::RtcDr } => frozen && ordered_from(steps.drop_first(), false),
            _ => ordered_from(steps.drop_first(), frozen),
        }
    }
}

/// Whether `steps` reads the calendar in the order that the shadow registers
/// ask for: each read of the date register comes after a read of the time
/// register of its own, and no read of the time register is left without one
/// of the date register behind it.
pub open spec fn snapshot_order(steps: Seq<Step>) -> bool {
    ordered_from(steps, false)
}

/// The plan of a reading of the calendar reads in the order asked for.
pub proof fn lemma_read_plan_in_order()
    ensures
        snapshot_order(read_plan()),
{
    let s0 = read_plan();
    let s1 = s0.drop_first();
    let s2 = s1.drop_first();
    let s3 = s2.drop_first();
    let s4 = s3.drop_first();
    assert(s4.len() == 0);
    assert(ordered_from(s4, false));
    assert(ordered_from(s3, false));
    assert(ordered_from(s2, true));
    assert(ordered_from(s1, false));
}

/// The plan of a reading of the calendar keeps to the write protection.
pub proof fn lemma_read_keeps_protection()
    ensures
        keeps_protection(read_plan()),
{
    assert((0x20u32 | 0) & 0x80 == 0) by (bit_vector);
    reveal_with_fuel(kept_from, 5);
}

/// Tells whether `steps` reads the calendar in the order that the shadow
/// registers ask for.
pub fn reads_in_order(steps: &Vec<Step>) -> (ordered: bool)
    ensures
        ordered == snapshot_order(steps@),
{
    let mut frozen = false;
    let mut i: usize = 0;
    proof {
        assert(steps@.skip(0) == steps@);
    }
    while i < steps.len()
        invariant
            i <= steps.len(),
            snapshot_order(steps@) == ordered_from(steps@.skip(i as int), frozen),
        decreases steps.len() - i,
    {
        proof {
            assert(steps@.skip(i as int).drop_first() == steps@.skip(i as int + 1));
        }
        match steps[i] {
            Step::Read { reg: Reg::RtcTr } => {
                frozen = true;
            },
            Step::Read { reg: Reg::RtcDr } => {
                if !frozen {
                    return false;
                }
                frozen = false;
            },
            _ => {},
        }
        i = i + 1;
    }
    !frozen
}

} // verus!
