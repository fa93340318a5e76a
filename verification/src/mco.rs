//! Clock output on a pin.

use vstd::prelude::*;

verus! {

/// Division of the clock that is put out.
#[derive(Debug, Clone, Copy, PartialEq, Eq, Structural)]
pub enum MCODiv {
    Div1,
    Div2,
    Div4,
    Div8,
    Div16,
}

/// The clock that is put out.
#[derive(Debug, Clone, Copy, PartialEq, Eq, Structural)]
pub enum MCOSel {
    /// No clock is put out.
    Disabled,
    Sysclk,
    Hsi,
    Msi,
    Hse,
    Pll,
    Lsi,
    Lse,
}

impl MCODiv {
    /// The number that selects the division in the clock configuration.
    pub open spec fn code(self) -> u8 {
        match self {
            MCODiv::Div1 => 0,
            MCODiv::Div2 => 1,
            MCODiv::Div4 => 2,
            MCODiv::Div8 => 3,
            MCODiv::Div16 => 4,
        }
    }

    /// The number that selects the division in the clock configuration.
    pub fn bits(self) -> (bits: u8)
        ensures
            bits == self.code(),
    {
        match self {
            MCODiv::Div1 => 0,
            MCODiv::Div2 => 1,
            MCODiv::Div4 => 2,
            MCODiv::Div8 => 3,
            MCODiv::Div16 => 4,
        }
    }
}

impl MCOSel {
    /// The number that selects the clock in the clock configuration.
    pub open spec fn code(self) -> u8 {
        match self {
            MCOSel::Disabled => 0,
            MCOSel::Sysclk => 1,
            MCOSel::Hsi => 2,
            MCOSel::Msi => 3,
            MCOSel::Hse => 4,
            MCOSel::Pll => 5,
            MCOSel::Lsi => 6,
            MCOSel::Lse => 7,
        }
    }

    /// The number that selects the clock in the clock configuration.
    pub fn bits(self) -> (bits: u8)
        ensures
            bits == self.code(),
    {
        match self {
            MCOSel::Disabled => 0,
            MCOSel::Sysclk => 1,
            MCOSel::Hsi => 2,
            MCOSel::Msi => 3,
            MCOSel::Hse => 4,
            MCOSel::Pll => 5,
            MCOSel::Lsi => 6,
            MCOSel::Lse => 7,
        }
    }
}

/// A pin that can carry the clock output.
pub trait Pin {
    /// Hands the pin over to the clock output.
    fn into_mco(self);
}

} // verus!
