//! Tests for the validated value types: frequency, field lengths, and the
//! register code enumerations.

use radio51::Error;
use radio51::FREQUENCY_OFFSET;
use radio51::Frequency;
use radio51::State;
use radio51::TxPower;
use radio51::count_mask_shift;
use radio51::packet::LengthFieldLength;
use radio51::packet::S0FieldLength;
use radio51::packet::S1FieldLength;

#[test]
fn frequency_round_trip_whole_band() {
    for mhz in 2400..=2500u32 {
        let f = Frequency::from_mhz(mhz).expect("in-band MHz value must be accepted");
        assert_eq!(f.as_mhz(), mhz);
    }
}

#[test]
fn frequency_out_of_band_is_rejected() {
    assert_eq!(Frequency::from_mhz(2399), Err(Error::ValueOutOfBounds));
    assert_eq!(Frequency::from_mhz(2501), Err(Error::ValueOutOfBounds));
    assert_eq!(Frequency::from_mhz(0), Err(Error::ValueOutOfBounds));
    assert_eq!(Frequency::from_mhz(u32::MAX), Err(Error::ValueOutOfBounds));
}

#[test]
fn frequency_band_edges() {
    assert_eq!(Frequency::from_mhz(FREQUENCY_OFFSET).unwrap().as_mhz(), 2400);
    assert_eq!(Frequency::from_mhz(FREQUENCY_OFFSET + 100).unwrap().as_mhz(), 2500);
}

#[test]
fn frequency_from_reg_value_checks_band() {
    assert!(Frequency::from_reg_value(0).is_some());
    assert!(Frequency::from_reg_value(100).is_some());
    assert!(Frequency::from_reg_value(101).is_none());
    assert_eq!(Frequency::from_reg_value(50).unwrap().as_mhz(), 2450);
}

#[test]
fn length_field_length_accepts_up_to_maximum() {
    assert_eq!(LengthFieldLength::from_bits(16).unwrap().bits(), 16);
    assert_eq!(LengthFieldLength::from_bits(0).unwrap().bits(), 0);
    assert_eq!(LengthFieldLength::from_bits(17), Err(Error::ValueOutOfBounds));
}

#[test]
fn s0_field_length_accepts_up_to_maximum() {
    assert_eq!(S0FieldLength::from_bits(8).unwrap().bits(), 8);
    assert_eq!(S0FieldLength::from_bits(9), Err(Error::ValueOutOfBounds));
}

#[test]
fn s1_field_length_accepts_up_to_maximum() {
    assert_eq!(S1FieldLength::from_bits(16).unwrap().bits(), 16);
    assert_eq!(S1FieldLength::from_bits(17), Err(Error::ValueOutOfBounds));
}

#[test]
fn state_codes_round_trip() {
    let states = [
        (State::Disabled, 0),
        (State::RxRu, 1),
        (State::RxIdle, 2),
        (State::Rx, 3),
        (State::RxDisable, 4),
        (State::TxRu, 9),
        (State::TxIdle, 10),
        (State::Tx, 11),
        (State::TxDisable, 12),
    ];
    for (s, c) in states {
        assert_eq!(s.code(), c);
        assert_eq!(State::from_code(c), Some(s));
    }
}

#[test]
fn undefined_state_codes_are_rejected() {
    for c in [5u32, 6, 7, 8, 13, 100, u32::MAX] {
        assert_eq!(State::from_code(c), None);
    }
}

#[test]
fn tx_power_codes_round_trip() {
    let powers = [
        (TxPower::Pos4dBm, 0x04u32),
        (TxPower::_0dBm, 0x00),
        (TxPower::Neg4dBm, 0xFC),
        (TxPower::Neg8dBm, 0xF8),
        (TxPower::Neg12dBm, 0xF4),
        (TxPower::Neg16dBm, 0xF0),
        (TxPower::Neg20dBm, 0xEC),
        (TxPower::Neg30dBm, 0xD8),
    ];
    for (p, c) in powers {
        assert_eq!(p.code(), c);
        assert_eq!(TxPower::from_code(c), Some(p));
    }
    assert_eq!(TxPower::from_code(0x01), None);
}

#[test]
fn count_mask_shift_finds_lowest_set_bit() {
    assert_eq!(count_mask_shift(0b1), 0);
    assert_eq!(count_mask_shift(0b1000), 3);
    assert_eq!(count_mask_shift(0b1010_0000), 5);
    assert_eq!(count_mask_shift(0x8000_0000), 31);
}
