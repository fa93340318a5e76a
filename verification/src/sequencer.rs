//! Carrying out a list of steps, one bus access at a time.
//!
//! The sequencer decides; the caller performs. Each call of
//! [`Sequencer::advance`] names the next load or store. After a load the
//! caller hands the value in with the next call, and the sequencer decides from
//! it whether a wait is over, whether a guarded block runs, and what a
//! read-modify-write stores.

use crate::bus::{modified, Access, Step};
use vstd::prelude::*;

verus! {

/// How far a list of steps has been carried out.
pub struct Progress {
    /// The steps, in order.
    pub steps: Seq<Step>,
    /// Index of the step that comes next.
    pub pc: int,
    /// Whether the load of the step at `pc` has been handed out and its value
    /// is still owed.
    pub awaiting: bool,
    /// The values that `Read` steps have collected so far.
    pub reads: Seq<u32>,
}

impl Progress {
    /// The state before the first access.
    pub open spec fn start(steps: Seq<Step>) -> Progress {
        Progress { steps, pc: 0, awaiting: false, reads: Seq::empty() }
    }

    /// The state after the current step and `skip` steps behind it are done
    /// with; never beyond the end of the list.
    pub open spec fn past(self, skip: int) -> Progress {
        let target = self.pc + 1 + skip;
        Progress {
            pc: if target <= self.steps.len() {
                target
            } else {
                self.steps.len() as int
            },
            awaiting: false,
            ..self
        }
    }

    /// The state after the load of the current step has been handed out.
    pub open spec fn loading(self) -> Progress {
        Progress { awaiting: true, ..self }
    }

    /// The state with `value` added to the collected reads.
    pub open spec fn collecting(self, value: u32) -> Progress {
        Progress { reads: self.reads.push(value), ..self }
    }

    /// Whether every step is done with.
    pub open spec fn finished(self) -> bool {
        self.pc >= self.steps.len()
    }

    /// The state after one call that was given `input`, and the access that the
    /// call names.
    ///
    /// `input` counts only where a load is owed. A store ends the step that
    /// asked for it. A step that stores nothing is settled from `input` and the
    /// next step is looked at in the same call.
    pub open spec fn advance(self, input: u32) -> (Progress, Access)
        decreases self.steps.len() - self.pc,
    {
        if self.pc < 0 || self.finished() {
            (self, Access::Done)
        } else {
            match self.steps[self.pc] {
                Step::Write { reg, value } => (self.past(0), Access::Store { reg, value }),
                Step::SetBit { reg, bit } => (
                    self.past(0),
                    Access::StoreBit { reg, bit, high: true },
                ),
                Step::ClearBit { reg, bit } => (
                    self.past(0),
                    Access::StoreBit { reg, bit, high: false },
                ),
                Step::Modify { reg, clear, set } => if self.awaiting {
                    (self.past(0), Access::Store { reg, value: modified(input, clear, set) })
                } else {
                    (self.loading(), Access::Load { reg })
                },
                Step::WaitSet { reg, mask } => if self.awaiting && input & mask == mask {
                    self.past(0).advance(input)
                } else {
                    (self.loading(), Access::Load { reg })
                },
                Step::WaitClear { reg, mask } => if self.awaiting && input & mask == 0 {
                    self.past(0).advance(input)
                } else {
                    (self.loading(), Access::Load { reg })
                },
                Step::Read { reg } => if self.awaiting {
                    self.collecting(input).past(0).advance(input)
                } else {
                    (self.loading(), Access::Load { reg })
                },
                Step::IfClear { reg, mask, count } => if self.awaiting {
                    self.past(
                        if input & mask == 0 {
                            0
                        } else {
                            count as int
                        },
                    ).advance(input)
                } else {
                    (self.loading(), Access::Load { reg })
                },
            }
        }
    }
}

/// A list of steps on its way over the bus.
pub struct Sequencer {
    steps: Vec<Step>,
    pc: usize,
    awaiting: bool,
    reads: Vec<u32>,
}

impl View for Sequencer {
    type V = Progress;

    closed spec fn view(&self) -> Progress {
        Progress {
            steps: self.steps@,
            pc: self.pc as int,
            awaiting: self.awaiting,
            reads: self.reads@,
        }
    }
}

impl Sequencer {
    /// A sequencer that has `steps` before it.
    pub fn new(steps: Vec<Step>) -> (sequencer: Self)
        ensures
            sequencer@ == Progress::start(steps@),
    {
        Sequencer { steps, pc: 0, awaiting: false, reads: Vec::new() }
    }

    /// Whether every step is done with.
    pub fn is_finished(&self) -> (finished: bool)
        ensures
            finished == self@.finished(),
    {
        self.pc >= self.steps.len()
    }

    /// The values that `Read` steps have collected so far, in the order of the
    /// steps.
    pub fn reads(&self) -> (reads: &Vec<u32>)
        ensures
            reads@ == self@.reads,
    {
        &self.reads
    }

    /// Names the next access to the bus. `input` is the value that the last
    /// access loaded; it is not looked at where that access was no load.
    pub fn advance(&mut self, input: u32) -> (access: Access)
        ensures
            (final(self)@, access) == old(self)@.advance(input),
    {
        while self.pc < self.steps.len()
            invariant
                self@.advance(input) == old(self)@.advance(input),
            decreases self.steps.len() - self.pc,
        {
            let step = self.steps[self.pc];
            match step {
                Step::Write { reg, value } => {
                    self.awaiting = false;
                    self.pc = self.pc + 1;
                    return Access::Store { reg, value };
                },
                Step::SetBit { reg, bit } => {
                    self.awaiting = false;
                    self.pc = self.pc + 1;
                    return Access::StoreBit { reg, bit, high: true };
                },
                Step::ClearBit { reg, bit } => {
                    self.awaiting = false;
                    self.pc = self.pc + 1;
                    return Access::StoreBit { reg, bit, high: false };
                },
                Step::Modify { reg, clear, set } => {
                    if self.awaiting {
                        self.awaiting = false;
                        self.pc = self.pc + 1;
                        return Access::Store { reg, value: (input & !clear) | set };
                    }
                    self.awaiting = true;
                    return Access::Load { reg };
                },
                Step::WaitSet { reg, mask } => {
                    if !(self.awaiting && input & mask == mask) {
                        self.awaiting = true;
                        return Access::Load { reg };
                    }
                    self.awaiting = false;
                    self.pc = self.pc + 1;
                },
                Step::WaitClear { reg, mask } => {
                    if !(self.awaiting && input & mask == 0) {
                        self.awaiting = true;
                        return Access::Load { reg };
                    }
                    self.awaiting = false;
                    self.pc = self.pc + 1;
                },
                Step::Read { reg } => {
                    if !self.awaiting {
                        self.awaiting = true;
                        return Access::Load { reg };
                    }
                    self.reads.push(input);
                    self.awaiting = false;
                    self.pc = self.pc + 1;
                },
                Step::IfClear { reg, mask, count } => {
                    if !self.awaiting {
                        self.awaiting = true;
                        return Access::Load { reg };
                    }
                    let rest: usize = self.steps.len() - self.pc - 1;
                    let skip: usize = if input & mask == 0 {
                        0
                    } else if count < rest {
                        count
                    } else {
                        rest
                    };
                    self.awaiting = false;
                    self.pc = self.pc + 1 + skip;
                },
            }
        }
        Access::Done
    }
}

} // verus!
