//! Configurable interrupt lines.

use crate::bus::{Reg, Step};
use crate::peripherals::{EXTI, SYSCFG};
use vstd::prelude::*;

verus! {

/// Number of interrupt lines that a 32-bit line register can address.
pub const LINES: u8 = 32;

/// Edges that can trigger a configurable interrupt line.
#[derive(Debug, Copy, Clone, PartialEq, Eq, Structural)]
pub enum TriggerEdge {
    /// Trigger on rising edges only.
    Rising,
    /// Trigger on falling edges only.
    Falling,
    /// Trigger on both rising and falling edges.
    Both,
}

/// The bit of `line` in a line register.
pub open spec fn line_mask(line: u8) -> u32 {
    1u32 << (line as u32)
}

/// The source selection register that holds the field of `line`, a line below 16.
pub open spec fn source_register(line: u8) -> Reg {
    if line < 4 {
        Reg::SyscfgExticr1
    } else if line < 8 {
        Reg::SyscfgExticr2
    } else if line < 12 {
        Reg::SyscfgExticr3
    } else {
        Reg::SyscfgExticr4
    }
}

/// Position of the source selection field of `line` within its register.
pub open spec fn source_shift(line: u8) -> u32 {
    (4 * (line % 4)) as u32
}

/// Routing of `port` to a GPIO line: the four-bit source field of the line takes
/// the low four bits of `port`. Lines from 16 up have no source field.
pub open spec fn source_plan(port: u8, line: u8) -> Seq<Step> {
    if line < 16 {
        seq![
            Step::Modify {
                reg: source_register(line),
                clear: 0xFu32 << source_shift(line),
                set: ((port & 0xF) as u32) << source_shift(line),
            },
        ]
    } else {
        Seq::empty()
    }
}

/// Selection of the trigger edges of the lines in `mask`.
pub open spec fn edge_plan(mask: u32, edge: TriggerEdge) -> Seq<Step> {
    match edge {
        TriggerEdge::Rising => seq![Step::Modify { reg: Reg::ExtiRtsr, clear: 0, set: mask }],
        TriggerEdge::Falling => seq![Step::Modify { reg: Reg::ExtiFtsr, clear: 0, set: mask }],
        TriggerEdge::Both => seq![
            Step::Modify { reg: Reg::ExtiRtsr, clear: 0, set: mask },
            Step::Modify { reg: Reg::ExtiFtsr, clear: 0, set: mask },
        ],
    }
}

/// Edge selection for `line`, then its unmasking.
pub open spec fn listen_plan(line: u8, edge: TriggerEdge) -> Seq<Step> {
    edge_plan(line_mask(line), edge).push(
        Step::Modify { reg: Reg::ExtiImr, clear: 0, set: line_mask(line) },
    )
}

/// Masking of `line`, then removal of both its trigger edges.
pub open spec fn unlisten_plan(line: u8) -> Seq<Step> {
    seq![
        Step::Modify { reg: Reg::ExtiImr, clear: line_mask(line), set: 0 },
        Step::Modify { reg: Reg::ExtiRtsr, clear: line_mask(line), set: 0 },
        Step::Modify { reg: Reg::ExtiFtsr, clear: line_mask(line), set: 0 },
    ]
}

/// Higher-level wrapper around the interrupt-line controller.
pub struct ExtiExt {
    raw: EXTI,
}

impl View for ExtiExt {
    type V = EXTI;

    closed spec fn view(&self) -> EXTI {
        self.raw
    }
}

/// The bit of `line` in a line register, computed.
fn mask_of(line: u8) -> (mask: u32)
    requires
        line < LINES,
    ensures
        mask == line_mask(line),
{
    1u32 << (line as u32)
}

/// Appends to `steps` the edge selection for the lines in `mask`.
fn push_edges(steps: &mut Vec<Step>, mask: u32, edge: TriggerEdge)
    ensures
        final(steps)@ == old(steps)@ + edge_plan(mask, edge),
{
    match edge {
        TriggerEdge::Rising => {
            steps.push(Step::Modify { reg: Reg::ExtiRtsr, clear: 0, set: mask });
        },
        TriggerEdge::Falling => {
            steps.push(Step::Modify { reg: Reg::ExtiFtsr, clear: 0, set: mask });
        },
        TriggerEdge::Both => {
            steps.push(Step::Modify { reg: Reg::ExtiRtsr, clear: 0, set: mask });
            steps.push(Step::Modify { reg: Reg::ExtiFtsr, clear: 0, set: mask });
        },
    }
}

impl ExtiExt {
    /// Creates a new wrapper from the controller's handle.
    pub fn new(raw: EXTI) -> (exti: Self)
        ensures
            exti@ == raw,
    {
        Self { raw }
    }

    /// Destroys this wrapper, returning the controller's handle.
    pub fn release(self) -> (raw: EXTI)
        ensures
            raw == self@,
    {
        self.raw
    }

    /// Starts listening on a GPIO interrupt line.
    ///
    /// GPIO lines are configurable lines whose source port is selected in the
    /// system configuration controller first.
    #[allow(unused_variables)]
    pub fn listen_gpio(
        &mut self,
        syscfg: &mut SYSCFG,
        port: u8,
        line: u8,
        edge: TriggerEdge,
    ) -> (steps: Vec<Step>)
        requires
            line < LINES,
        ensures
            steps@ == source_plan(port, line) + listen_plan(line, edge),
            final(self)@ == old(self)@,
            *final(syscfg) == *old(syscfg),
    {
        let mut steps: Vec<Step> = Vec::new();
        if line < 16 {
            let reg = if line < 4 {
                Reg::SyscfgExticr1
            } else if line < 8 {
                Reg::SyscfgExticr2
            } else if line < 12 {
                Reg::SyscfgExticr3
            } else {
                Reg::SyscfgExticr4
            };
            let shift: u32 = 4 * (line % 4) as u32;
            steps.push(
                Step::Modify { reg, clear: 0xFu32 << shift, set: ((port & 0xF) as u32) << shift },
            );
        }
        let mask = mask_of(line);
        push_edges(&mut steps, mask, edge);
        steps.push(Step::Modify { reg: Reg::ExtiImr, clear: 0, set: mask });
        steps
    }

    /// Starts listening on a configurable interrupt line.
    ///
    /// The edges that should trigger the interrupt are selected with `edge`.
    pub fn listen_configurable(&mut self, line: u8, edge: TriggerEdge) -> (steps: Vec<Step>)
        requires
            line < LINES,
        ensures
            steps@ == listen_plan(line, edge),
            final(self)@ == old(self)@,
    {
        let mut steps: Vec<Step> = Vec::new();
        let mask = mask_of(line);
        push_edges(&mut steps, mask, edge);
        steps.push(Step::Modify { reg: Reg::ExtiImr, clear: 0, set: mask });
        steps
    }

    /// Disables the interrupt on `line`.
    pub fn unlisten(&mut self, line: u8) -> (steps: Vec<Step>)
        requires
            line < LINES,
        ensures
            steps@ == unlisten_plan(line),
            final(self)@ == old(self)@,
    {
        let mask = mask_of(line);
        let mut steps: Vec<Step> = Vec::new();
        steps.push(Step::Modify { reg: Reg::ExtiImr, clear: mask, set: 0 });
        steps.push(Step::Modify { reg: Reg::ExtiRtsr, clear: mask, set: 0 });
        steps.push(Step::Modify { reg: Reg::ExtiFtsr, clear: mask, set: 0 });
        steps
    }

    /// Marks `line` as pending.
    ///
    /// The software interrupt register sets a line on a written one and ignores
    /// a written zero, so the one store touches no other line.
    pub fn pend(line: u8) -> (step: Step)
        requires
            line < LINES,
        ensures
            step == (Step::Write { reg: Reg::ExtiSwier, value: line_mask(line) }),
    {
        Step::Write { reg: Reg::ExtiSwier, value: mask_of(line) }
    }

    /// Marks `line` as not pending.
    ///
    /// The pending register clears a line on a written one and ignores a
    /// written zero, so the one store touches no other line.
    pub fn unpend(line: u8) -> (step: Step)
        requires
            line < LINES,
        ensures
            step == (Step::Write { reg: Reg::ExtiPr, value: line_mask(line) }),
    {
        Step::Write { reg: Reg::ExtiPr, value: mask_of(line) }
    }

    /// Returns whether `line` is marked as pending in `pr`, a value loaded from
    /// the pending register.
    pub fn is_pending(line: u8, pr: u32) -> (pending: bool)
        requires
            line < LINES,
        ensures
            pending == (pr & line_mask(line) != 0),
    {
        pr & mask_of(line) != 0
    }
}

} // verus!
