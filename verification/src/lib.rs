//! Driver core for a battery-backed real-time calendar peripheral.
//!
//! The crate never touches a register itself. Every operation is computed as a
//! list of register accesses ([`bus::Step`]) that the caller carries out on the
//! bus, and every value read back is handed in as a plain integer.
//!
//! - [`bus`] and [`sequencer`]: register accesses as data, and the state
//!   machine that carries a list of them out, one load or store at a time.
//! - [`layout`] and [`protection`]: where the bits lie in the registers, and
//!   the write protection that every plan keeps to.
//! - [`bcd`], [`calendar`] and [`codec`]: decimal digits, calendar values, and
//!   their layout in the time and date registers.
//! - [`transaction`], [`clock`], [`setting`], [`reading`], [`wakeup`] and
//!   [`event`]: the plans of the calendar's operations.
//! - [`rtc`]: the calendar itself, whose methods return those plans.
//! - [`exti`] and [`mco`]: the interrupt lines and the clock output.

pub mod bcd;
pub mod bus;
pub mod calendar;
pub mod clock;
pub mod codec;
pub mod event;
pub mod exti;
pub mod layout;
pub mod mco;
pub mod peripherals;
pub mod protection;
pub mod reading;
pub mod rtc;
pub mod sequencer;
pub mod setting;
pub mod transaction;
pub mod wakeup;
