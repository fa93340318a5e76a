//! Two-digit binary-coded decimal, the format of the calendar registers.

use crate::rtc::Error;
use vstd::prelude::*;

verus! {

/// Largest word whose tens digit still fits the eight bits of a digit.
pub const BCD2_MAX: u32 = 2559;

/// The tens and units of `word`, or the invalid-input error where the tens do
/// not fit a digit's eight bits.
pub open spec fn bcd2_encode_spec(word: u32) -> Result<(u8, u8), Error> {
    if word <= BCD2_MAX {
        Ok(((word / 10) as u8, (word % 10) as u8))
    } else {
        Err(Error::InvalidInputData)
    }
}

/// The value of the digit pair `fst`, `snd`.
pub open spec fn bcd2_decode_spec(fst: u8, snd: u8) -> u32 {
    (fst * 10 + snd) as u32
}

/// Splits `word` into its tens and units.
pub fn bcd2_encode(word: u32) -> (result: Result<(u8, u8), Error>)
    ensures
        result == bcd2_encode_spec(word),
{
    let tens: u32 = word / 10;
    let units: u32 = word % 10;
    if tens > 255 {
        return Err(Error::InvalidInputData);
    }
    Ok((tens as u8, units as u8))
}

/// Joins a tens digit and a units digit; no digit pair is refused.
pub fn bcd2_decode(fst: u8, snd: u8) -> (value: u32)
    ensures
        value == bcd2_decode_spec(fst, snd),
        value == fst * 10 + snd,
{
    fst as u32 * 10 + snd as u32
}

/// Encoding a number of at most two decimal digits and decoding the digit
/// pair gives the number back.
pub proof fn lemma_bcd2_round_trip(n: u32)
    requires
        n <= 99,
    ensures
        bcd2_encode_spec(n) matches Ok(digits) && bcd2_decode_spec(digits.0, digits.1) == n,
{
}

} // verus!
