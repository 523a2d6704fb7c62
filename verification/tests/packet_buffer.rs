//! Tests for the fixed-capacity packet buffer and its validated field
//! widths.

use radio51::packet::LengthFieldLength;
use radio51::packet::MAX_IN_MEMORY_PACKET_LENGTH;
use radio51::packet::Packet;
use radio51::packet::S0FieldLength;
use radio51::packet::S1FieldLength;

#[test]
fn new_packet_is_zeroed() {
    let p = Packet::new_zeroed();
    assert_eq!(p.buf().len(), MAX_IN_MEMORY_PACKET_LENGTH);
    assert!(p.buf().iter().all(|b| *b == 0));
    assert_eq!(p.lf_len().bits(), 0);
    assert_eq!(p.s0_len().bits(), 0);
    assert_eq!(p.s1_len().bits(), 0);
}

#[test]
fn field_length_setters_update_only_their_field() {
    let mut p = Packet::new_zeroed();
    p.set_lf_len(LengthFieldLength::from_bits(16).unwrap());
    p.set_s0_len(S0FieldLength::from_bits(8).unwrap());
    assert_eq!(p.lf_len().bits(), 16);
    assert_eq!(p.s0_len().bits(), 8);
    assert_eq!(p.s1_len().bits(), 0);
    p.set_s1_len(S1FieldLength::from_bits(2).unwrap());
    assert_eq!(p.s1_len().bits(), 2);
    assert_eq!(p.lf_len().bits(), 16);
}

#[test]
fn buffer_can_be_filled_through_the_mutable_borrow() {
    let mut p = Packet::new_zeroed();
    p.buf_mut()[0] = 0xAB;
    p.buf_mut()[MAX_IN_MEMORY_PACKET_LENGTH - 1] = 0xCD;
    assert_eq!(p.buf()[0], 0xAB);
    assert_eq!(p.buf()[MAX_IN_MEMORY_PACKET_LENGTH - 1], 0xCD);
    assert_eq!(p.buf()[1], 0);
}

#[test]
fn packets_with_equal_contents_compare_equal() {
    let a = Packet::new_zeroed();
    let b = a.clone();
    assert_eq!(a, b);
    let mut c = Packet::new_zeroed();
    c.buf_mut()[3] = 1;
    assert_ne!(a, c);
}
