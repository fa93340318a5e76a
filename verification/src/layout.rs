//! Bit layout of the registers, as the device's reference manual gives it.
//!
//! A field is named by the mask of its bits; where a value is placed in it,
//! the number of its lowest bit goes along.

use vstd::prelude::*;

verus! {

// Time register of the calendar.
/// Units of the seconds.
pub const TR_SU: u32 = 0x0000_000F;
/// Tens of the seconds.
pub const TR_ST: u32 = 0x0000_0070;
/// Units of the minutes.
pub const TR_MNU: u32 = 0x0000_0F00;
/// Tens of the minutes.
pub const TR_MNT: u32 = 0x0000_7000;
/// Units of the hours.
pub const TR_HU: u32 = 0x000F_0000;
/// Tens of the hours.
pub const TR_HT: u32 = 0x0030_0000;
/// Afternoon flag of the 12-hour format.
pub const TR_PM: u32 = 0x0040_0000;
/// Lowest bit of the tens of the seconds.
pub const TR_ST_SHIFT: u32 = 4;
/// Lowest bit of the units of the minutes.
pub const TR_MNU_SHIFT: u32 = 8;
/// Lowest bit of the tens of the minutes.
pub const TR_MNT_SHIFT: u32 = 12;
/// Lowest bit of the units of the hours.
pub const TR_HU_SHIFT: u32 = 16;
/// Lowest bit of the tens of the hours.
pub const TR_HT_SHIFT: u32 = 20;

// Date register of the calendar.
/// Units of the day of the month.
pub const DR_DU: u32 = 0x0000_000F;
/// Tens of the day of the month.
pub const DR_DT: u32 = 0x0000_0030;
/// Units of the month.
pub const DR_MU: u32 = 0x0000_0F00;
/// Tens of the month, a single bit.
pub const DR_MT: u32 = 0x0000_1000;
/// Day of the week, 1 for Monday to 7 for Sunday.
pub const DR_WDU: u32 = 0x0000_E000;
/// Units of the year.
pub const DR_YU: u32 = 0x000F_0000;
/// Tens of the year.
pub const DR_YT: u32 = 0x00F0_0000;
/// Lowest bit of the tens of the day.
pub const DR_DT_SHIFT: u32 = 4;
/// Lowest bit of the units of the month.
pub const DR_MU_SHIFT: u32 = 8;
/// Lowest bit of the day of the week.
pub const DR_WDU_SHIFT: u32 = 13;
/// Lowest bit of the units of the year.
pub const DR_YU_SHIFT: u32 = 16;
/// Lowest bit of the tens of the year.
pub const DR_YT_SHIFT: u32 = 20;
/// The day-of-week field as the register holds it after reset: Monday.
pub const DR_WDU_RESET: u32 = 0x0000_2000;

// Control register of the calendar.
/// Clock selection of the wakeup timer.
pub const CR_WUCKSEL: u32 = 0x0000_0007;
/// Hour format: zero for the 24-hour clock.
pub const CR_FMT: u32 = 0x0000_0040;
/// Wakeup timer enable.
pub const CR_WUTE: u32 = 0x0000_0400;
/// Alarm A interrupt enable.
pub const CR_ALRAIE: u32 = 0x0000_1000;
/// Alarm B interrupt enable.
pub const CR_ALRBIE: u32 = 0x0000_2000;
/// Wakeup timer interrupt enable.
pub const CR_WUTIE: u32 = 0x0000_4000;
/// Timestamp interrupt enable.
pub const CR_TSIE: u32 = 0x0000_8000;

// Initialisation and status register of the calendar.
/// The wakeup timer's reload value may be written.
pub const ISR_WUTWF: u32 = 0x0000_0004;
/// The shadow registers are synchronised with the calendar.
pub const ISR_RSF: u32 = 0x0000_0020;
/// The calendar is in initialisation mode.
pub const ISR_INITF: u32 = 0x0000_0040;
/// Request for initialisation mode.
pub const ISR_INIT: u32 = 0x0000_0080;
/// Alarm A has fired.
pub const ISR_ALRAF: u32 = 0x0000_0100;
/// Alarm B has fired.
pub const ISR_ALRBF: u32 = 0x0000_0200;
/// The wakeup timer has fired.
pub const ISR_WUTF: u32 = 0x0000_0400;
/// A timestamp has been taken.
pub const ISR_TSF: u32 = 0x0000_0800;

// Prescaler register of the calendar.
/// Synchronous prescaler.
pub const PRER_PREDIV_S: u32 = 0x0000_7FFF;
/// Asynchronous prescaler.
pub const PRER_PREDIV_A: u32 = 0x007F_0000;
/// Lowest bit of the asynchronous prescaler.
pub const PRER_PREDIV_A_SHIFT: u32 = 16;

// Write-protection register of the calendar.
/// First key of the unlock sequence.
pub const WPR_KEY1: u32 = 0xCA;
/// Second key of the unlock sequence.
pub const WPR_KEY2: u32 = 0x53;
/// Any other byte locks the registers again; this is the one written.
pub const WPR_LOCK: u32 = 0xFF;

// Clock control and status register.
/// Internal low-speed oscillator enable.
pub const CSR_LSION: u32 = 0x0000_0001;
/// Internal low-speed oscillator ready.
pub const CSR_LSIRDY: u32 = 0x0000_0002;
/// External low-speed oscillator ready.
pub const CSR_LSERDY: u32 = 0x0000_0200;
/// Clock source of the calendar.
pub const CSR_RTCSEL: u32 = 0x0003_0000;
/// Lowest bit of the clock source of the calendar.
pub const CSR_RTCSEL_SHIFT: u32 = 16;
/// Bit number of the external low-speed oscillator enable.
pub const CSR_LSEON_BIT: u8 = 8;
/// Bit number of the external low-speed oscillator bypass.
pub const CSR_LSEBYP_BIT: u8 = 10;
/// Bit number of the backup domain reset.
pub const CSR_BDRST_BIT: u8 = 16;
/// Bit number of the calendar's clock enable.
pub const CSR_RTCEN_BIT: u8 = 22;
/// Clock source selection: external low-speed oscillator.
pub const RTCSEL_LSE: u32 = 1;
/// Clock source selection: internal low-speed oscillator.
pub const RTCSEL_LSI: u32 = 2;

// Clock enable register of the first peripheral bus.
/// Clock enable of the power controller.
pub const APB1ENR_PWREN: u32 = 0x1000_0000;

// Power control register.
/// Clears the wakeup flag when written as one.
pub const PWR_CR_CWUF: u32 = 0x0000_0004;
/// Disables the write protection of the backup domain.
pub const PWR_CR_DBP: u32 = 0x0000_0100;

/// `value` placed in the field `mask` whose lowest bit is bit `shift`. Bits of
/// `value` that do not fit the field are dropped.
pub open spec fn field(value: u32, shift: u32, mask: u32) -> u32 {
    (value << shift) & mask
}

/// The content of the field `mask` of `word`, whose lowest bit is bit `shift`.
pub open spec fn extract(word: u32, shift: u32, mask: u32) -> u32 {
    (word & mask) >> shift
}

/// Places `value` in the field `mask` whose lowest bit is bit `shift`.
pub(crate) fn place(value: u32, shift: u32, mask: u32) -> (bits: u32)
    requires
        shift < 32,
    ensures
        bits == field(value, shift, mask),
{
    (value << shift) & mask
}

/// Reads the field `mask` of `word`, whose lowest bit is bit `shift`.
pub(crate) fn pick(word: u32, shift: u32, mask: u32) -> (value: u32)
    requires
        shift < 32,
    ensures
        value == extract(word, shift, mask),
{
    (word & mask) >> shift
}

} // verus!
