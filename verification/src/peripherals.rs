//! Handles on the peripherals.
//!
//! A handle holds no data. Whoever holds it, or a mutable borrow of it, is the
//! one party that may plan accesses to that peripheral's registers.

use vstd::prelude::*;

verus! {

/// Handle on the real-time calendar's register block.
#[derive(Debug, Eq, PartialEq, Structural)]
pub struct RTC;

/// Handle on the power controller.
#[derive(Debug, Eq, PartialEq, Structural)]
pub struct PWR;

/// Handle on the interrupt-line controller.
#[derive(Debug, Eq, PartialEq, Structural)]
pub struct EXTI;

/// Handle on the system configuration controller.
#[derive(Debug, Eq, PartialEq, Structural)]
pub struct SYSCFG;

} // verus!
