//! Register accesses as plain data.
//!
//! A driver operation is a list of [`Step`]s. Whoever owns the bus carries the
//! list out in order; [`crate::sequencer::Sequencer`] turns it into single
//! loads and stores.

use vstd::prelude::*;

verus! {

/// The registers that the driver addresses.
#[derive(Debug, Eq, PartialEq, Copy, Clone, Structural)]
pub enum Reg {
    /// Calendar time register.
    RtcTr,
    /// Calendar date register.
    RtcDr,
    /// Calendar control register.
    RtcCr,
    /// Calendar initialisation and status register.
    RtcIsr,
    /// Calendar prescaler register.
    RtcPrer,
    /// Wakeup timer reload register.
    RtcWutr,
    /// Calendar write-protection register.
    RtcWpr,
    /// Clock control and status register.
    RccCsr,
    /// Clock enable register of the first peripheral bus.
    RccApb1enr,
    /// Power control register.
    PwrCr,
    /// Interrupt mask register of the interrupt lines.
    ExtiImr,
    /// Rising-edge trigger selection register.
    ExtiRtsr,
    /// Falling-edge trigger selection register.
    ExtiFtsr,
    /// Software interrupt event register.
    ExtiSwier,
    /// Pending register of the interrupt lines.
    ExtiPr,
    /// Line source selection for lines 0 to 3.
    SyscfgExticr1,
    /// Line source selection for lines 4 to 7.
    SyscfgExticr2,
    /// Line source selection for lines 8 to 11.
    SyscfgExticr3,
    /// Line source selection for lines 12 to 15.
    SyscfgExticr4,
}

/// One register operation of a driver routine.
#[derive(Debug, Eq, PartialEq, Copy, Clone, Structural)]
pub enum Step {
    /// Store `value` to the whole register.
    Write { reg: Reg, value: u32 },
    /// Load the register, clear the bits of `clear`, set the bits of `set`,
    /// store the result.
    Modify { reg: Reg, clear: u32, set: u32 },
    /// Set bit number `bit` alone, through the register's bit-band alias.
    SetBit { reg: Reg, bit: u8 },
    /// Clear bit number `bit` alone, through the register's bit-band alias.
    ClearBit { reg: Reg, bit: u8 },
    /// Load the register again and again until every bit of `mask` reads one.
    WaitSet { reg: Reg, mask: u32 },
    /// Load the register again and again until every bit of `mask` reads zero.
    WaitClear { reg: Reg, mask: u32 },
    /// Load the register and keep the value for the caller.
    Read { reg: Reg },
    /// Load the register; carry out the next `count` steps only if every bit of
    /// `mask` reads zero, and pass over them otherwise.
    IfClear { reg: Reg, mask: u32, count: usize },
}

/// One access to the bus.
#[derive(Debug, Eq, PartialEq, Copy, Clone, Structural)]
pub enum Access {
    /// Load the register and hand the value back.
    Load { reg: Reg },
    /// Store `value` to the register.
    Store { reg: Reg, value: u32 },
    /// Store one bit through the register's bit-band alias.
    StoreBit { reg: Reg, bit: u8, high: bool },
    /// Nothing is left to do.
    Done,
}

/// The value that a read-modify-write leaves in a register that held `current`.
pub open spec fn modified(current: u32, clear: u32, set: u32) -> u32 {
    (current & !clear) | set
}

} // verus!
