//! Routing of the calendar's events: the interrupt line, the enable bit and
//! the status flag of each, and the plans that listen for an event and
//! acknowledge it.

use crate::bus::{modified, Reg, Step};
use crate::layout::{
    CR_ALRAIE, CR_ALRBIE, CR_TSIE, CR_WUTIE, ISR_ALRAF, ISR_ALRBF, ISR_TSF, ISR_WUTF,
    PWR_CR_CWUF,
};
use crate::protection::{keeps_protection, kept_from};
use crate::rtc::Event;
use crate::transaction::unlocked;
use vstd::prelude::*;

verus! {

/// The interrupt line that `event` is wired to.
pub open spec fn line_of(event: Event) -> u8 {
    match event {
        Event::AlarmA => 17,
        Event::AlarmB => 17,
        Event::Wakeup => 20,
        Event::Timestamp => 19,
    }
}

/// The bit of the control register that lets `event` raise an interrupt.
pub open spec fn enable_of(event: Event) -> u32 {
    match event {
        Event::AlarmA => CR_ALRAIE,
        Event::AlarmB => CR_ALRBIE,
        Event::Wakeup => CR_WUTIE,
        Event::Timestamp => CR_TSIE,
    }
}

/// The flag of the status register that `event` raises.
pub open spec fn flag_of(event: Event) -> u32 {
    match event {
        Event::AlarmA => ISR_ALRAF,
        Event::AlarmB => ISR_ALRBF,
        Event::Wakeup => ISR_WUTF,
        Event::Timestamp => ISR_TSF,
    }
}

/// The plan that starts listening for `event`: rising edge and unmasking
/// on the event's line, then the event's interrupt enable.
pub open spec fn listen_plan(event: Event) -> Seq<Step> {
    unlocked(
        seq![
            Step::SetBit { reg: Reg::ExtiRtsr, bit: line_of(event) },
            Step::SetBit { reg: Reg::ExtiImr, bit: line_of(event) },
            Step::Modify { reg: Reg::RtcCr, clear: 0, set: enable_of(event) },
        ],
    )
}

/// The plan that acknowledges `event`: the power controller's wakeup flag is
/// cleared, then the event's status flag, then the pending bit of its line.
pub open spec fn unpend_plan(event: Event) -> Seq<Step> {
    seq![
        Step::Modify { reg: Reg::PwrCr, clear: 0, set: PWR_CR_CWUF },
        Step::Modify { reg: Reg::RtcIsr, clear: flag_of(event), set: 0 },
        Step::SetBit { reg: Reg::ExtiPr, bit: line_of(event) },
    ]
}

/// Clearing the bits of `own` in a word leaves none of them set, and leaves
/// as they were the bits of `other`, a mask that shares no bit with `own`.
proof fn lemma_clear_is_local(word: u32, own: u32, other: u32)
    by (bit_vector)
    requires
        own & other == 0,
    ensures
        ((word & !own) | 0) & own == 0,
        ((word & !own) | 0) & other == word & other,
{
}

/// Acknowledging an event lowers that event's status flag and leaves the
/// status flag of every other event as it was, whatever the status register
/// `isr` held. The two alarms share their interrupt line, so the pending bit
/// that the one clears is the other's too.
pub proof fn lemma_unpend_spares_other_events(event: Event, other: Event, isr: u32)
    requires
        event != other,
    ensures
        unpend_plan(event)[1] == (Step::Modify { reg: Reg::RtcIsr, clear: flag_of(event), set: 0 }),
        modified(isr, flag_of(event), 0) & flag_of(event) == 0,
        modified(isr, flag_of(event), 0) & flag_of(other) == isr & flag_of(other),
        line_of(Event::AlarmA) == line_of(Event::AlarmB),
{
    let own = flag_of(event);
    let spared = flag_of(other);
    assert(own & spared == 0) by (bit_vector)
        requires
            own == 0x100u32 || own == 0x200u32 || own == 0x400u32 || own == 0x800u32,
            spared == 0x100u32 || spared == 0x200u32 || spared == 0x400u32 || spared == 0x800u32,
            own != spared,
    ;
    lemma_clear_is_local(isr, flag_of(event), flag_of(other));
}

/// The plans that work on an event keep to the write protection. The
/// acknowledgement lowers a status flag, which the protection does not cover,
/// and needs no key.
pub proof fn lemma_events_keep_protection(event: Event)
    ensures
        keeps_protection(listen_plan(event)),
        keeps_protection(unpend_plan(event)),
{
    assert(keeps_protection(listen_plan(event))) by {
        reveal_with_fuel(kept_from, 7);
    }
    let flag = flag_of(event);
    assert((flag | 0) & 0x80 == 0) by (bit_vector)
        requires
            flag == 0x100u32 || flag == 0x200u32 || flag == 0x400u32 || flag == 0x800u32,
    ;
    assert(keeps_protection(unpend_plan(event))) by {
        reveal_with_fuel(kept_from, 4);
    }
}

} // verus!
