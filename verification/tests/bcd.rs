use rtc_hal::bcd::{bcd2_decode, bcd2_encode};
use rtc_hal::rtc::Error;

#[test]
fn encode_splits_tens_and_units() {
    assert_eq!(bcd2_encode(0), Ok((0, 0)));
    assert_eq!(bcd2_encode(7), Ok((0, 7)));
    assert_eq!(bcd2_encode(10), Ok((1, 0)));
    assert_eq!(bcd2_encode(59), Ok((5, 9)));
    assert_eq!(bcd2_encode(99), Ok((9, 9)));
}

#[test]
fn encode_accepts_tens_up_to_a_byte() {
    assert_eq!(bcd2_encode(100), Ok((10, 0)));
    assert_eq!(bcd2_encode(2559), Ok((255, 9)));
}

#[test]
fn encode_refuses_tens_beyond_a_byte() {
    assert_eq!(bcd2_encode(2560), Err(Error::InvalidInputData));
    assert_eq!(bcd2_encode(u32::MAX), Err(Error::InvalidInputData));
}

#[test]
fn decode_joins_tens_and_units() {
    assert_eq!(bcd2_decode(0, 0), 0);
    assert_eq!(bcd2_decode(5, 9), 59);
    assert_eq!(bcd2_decode(9, 9), 99);
    assert_eq!(bcd2_decode(15, 15), 165);
}

#[test]
fn decode_has_no_failure_path() {
    assert_eq!(bcd2_decode(26, 0), 260);
    assert_eq!(bcd2_decode(255, 255), 2805);
}

#[test]
fn round_trip_of_every_two_digit_number() {
    for n in 0u32..=99 {
        let (tens, units) = bcd2_encode(n).unwrap();
        assert!(tens <= 9 && units <= 9);
        assert_eq!(bcd2_decode(tens, units), n);
    }
}

#[test]
fn round_trip_of_every_accepted_word() {
    for n in 0u32..=2559 {
        let (tens, units) = bcd2_encode(n).unwrap();
        assert_eq!(bcd2_decode(tens, units), n);
    }
}
