//! Tests for the mode state machine, the bitmask abstraction over addresses
//! and interrupt sources, and the configuration surface.

use radio51::Address;
use radio51::Endianness;
use radio51::Error;
use radio51::Frequency;
use radio51::Interrupt;
use radio51::Mode;
use radio51::Radio;
use radio51::State;
use radio51::TxPower;
use radio51::packet::LengthFieldLength;
use radio51::regs::RegisterBlock;

#[test]
fn construction_confirms_disabled() {
    let radio = Radio::<()>::new(RegisterBlock::new());
    assert_eq!(radio.get_state(), Ok(State::Disabled));
}

#[test]
fn new_keeps_config_registers() {
    let mut regs = RegisterBlock::new();
    regs.txaddress = 3;
    regs.rxaddresses = 0x11;
    let radio = Radio::<()>::new(regs);
    assert_eq!(radio.regs.txaddress, 3);
    assert_eq!(radio.regs.rxaddresses, 0x11);
}

#[test]
fn new_zeroed_clears_address_registers() {
    let mut regs = RegisterBlock::new();
    regs.txaddress = 3;
    regs.rxaddresses = 0x11;
    let radio = Radio::<()>::new_zeroed(regs);
    assert_eq!(radio.regs.txaddress, 0);
    assert_eq!(radio.regs.rxaddresses, 0);
}

#[test]
fn enter_receive_confirms_rx_idle() {
    let radio = Radio::<()>::new_zeroed(RegisterBlock::new());
    let radio = radio.into_receiver();
    assert_eq!(radio.get_state(), Ok(State::RxIdle));
}

#[test]
fn enter_transmit_confirms_tx_idle() {
    let radio = Radio::<()>::new_zeroed(RegisterBlock::new());
    let radio = radio.into_transmitter();
    assert_eq!(radio.get_state(), Ok(State::TxIdle));
}

#[test]
fn transitions_between_sides_reconfirm() {
    let radio = Radio::<()>::new_zeroed(RegisterBlock::new());
    let radio = radio.into_receiver();
    let radio = radio.into_transmitter();
    assert_eq!(radio.get_state(), Ok(State::TxIdle));
    let radio = radio.into_receiver();
    assert_eq!(radio.get_state(), Ok(State::RxIdle));
    let radio = radio.disable();
    assert_eq!(radio.get_state(), Ok(State::Disabled));
}

#[test]
fn zero_budget_wait_times_out() {
    let mut radio = Radio::<()>::new(RegisterBlock::new());
    assert_eq!(
        radio.wait_for_state_cycles(State::RxIdle, 0),
        Err(Error::TimedOut)
    );
    // The hardware state is untouched by the failed wait.
    assert_eq!(radio.get_state(), Ok(State::Disabled));
}

#[test]
fn wait_for_already_reached_state_succeeds() {
    let mut radio = Radio::<()>::new(RegisterBlock::new());
    assert_eq!(radio.wait_for_state_cycles(State::Disabled, 1), Ok(()));
    radio.wait_for_state(State::Disabled);
    assert_eq!(radio.get_state(), Ok(State::Disabled));
}

#[test]
fn undefined_state_code_reports_unknown_state() {
    let mut radio = Radio::<()>::new(RegisterBlock::new());
    // The environment refreshes the STATE port with a corrupt snapshot.
    radio.regs.state = 7;
    assert_eq!(radio.get_state(), Err(Error::UnknownState));
    assert_eq!(
        radio.wait_for_state_cycles(State::Disabled, 5),
        Err(Error::UnknownState)
    );
}

#[test]
fn frequency_setter_and_getter_round_trip() {
    let radio = Radio::<()>::new_zeroed(RegisterBlock::new());
    let mut radio = radio.into_transmitter();
    radio.set_frequency(Frequency::from_mhz(2450).unwrap());
    assert_eq!(radio.frequency().as_mhz(), 2450);
}

#[test]
fn mode_setter_and_getter_round_trip() {
    let radio = Radio::<()>::new_zeroed(RegisterBlock::new());
    let mut radio = radio.into_transmitter();
    radio.set_mode(Mode::Ble1Mbit);
    assert_eq!(radio.mode(), Mode::Ble1Mbit);
    radio.set_mode(Mode::Nrf250Kbit);
    assert_eq!(radio.mode(), Mode::Nrf250Kbit);
}

#[test]
fn endianness_setter_and_getter_round_trip() {
    let radio = Radio::<()>::new_zeroed(RegisterBlock::new());
    let mut radio = radio.into_transmitter();
    radio.set_endianness(Endianness::Big);
    assert_eq!(radio.endianness(), Endianness::Big);
    radio.set_endianness(Endianness::Little);
    assert_eq!(radio.endianness(), Endianness::Little);
}

#[test]
fn length_field_setter_leaves_other_subfields() {
    let radio = Radio::<()>::new_zeroed(RegisterBlock::new());
    let mut radio = radio.into_receiver();
    radio.set_lf_len(LengthFieldLength::from_bits(8).unwrap());
    assert_eq!(radio.lf_len().bits(), 8);
    assert_eq!(radio.s0_len().bits(), 0);
    assert_eq!(radio.s1_len().bits(), 0);
}

#[test]
fn tx_power_setter_and_getter_round_trip() {
    let radio = Radio::<()>::new_zeroed(RegisterBlock::new());
    let mut radio = radio.into_transmitter();
    radio.set_tx_power(TxPower::Neg8dBm);
    assert_eq!(radio.tx_power(), Some(TxPower::Neg8dBm));
}

#[test]
fn corrupt_tx_power_reads_as_none() {
    let radio = Radio::<()>::new_zeroed(RegisterBlock::new());
    let mut radio = radio.into_transmitter();
    radio.regs.txpower = 0x05;
    assert_eq!(radio.tx_power(), None);
}

#[test]
fn tx_address_round_trip() {
    let radio = Radio::<()>::new_zeroed(RegisterBlock::new());
    let mut radio = radio.into_transmitter();
    radio.set_tx_address(Address::E);
    assert_eq!(radio.tx_address(), Address::E);
    radio.disable_all_tx_addresses();
    assert_eq!(radio.tx_address(), Address::A);
}

#[test]
fn rx_addresses_compose_by_single_bits() {
    let radio = Radio::<()>::new_zeroed(RegisterBlock::new());
    let mut radio = radio.into_receiver();
    radio.enable_rx_address(Address::A);
    assert_eq!(radio.rx_addresses(), 0b0000_0001);
    radio.enable_rx_address(Address::C);
    assert_eq!(radio.rx_addresses(), 0b0000_0101);
    radio.enable_rx_address(Address::H);
    assert_eq!(radio.rx_addresses(), 0b1000_0101);
}

#[test]
fn enable_then_disable_same_address_cancels() {
    let radio = Radio::<()>::new_zeroed(RegisterBlock::new());
    let mut radio = radio.into_receiver();
    radio.enable_rx_address(Address::B);
    let before = radio.rx_addresses();
    radio.enable_rx_address(Address::F);
    radio.disable_rx_address(Address::F);
    assert_eq!(radio.rx_addresses(), before);
}

#[test]
fn enable_rx_address_is_idempotent() {
    let radio = Radio::<()>::new_zeroed(RegisterBlock::new());
    let mut radio = radio.into_receiver();
    radio.enable_rx_address(Address::D);
    let once = radio.rx_addresses();
    radio.enable_rx_address(Address::D);
    assert_eq!(radio.rx_addresses(), once);
}

#[test]
fn batched_rx_addresses_apply_as_union_and_difference() {
    let radio = Radio::<()>::new_zeroed(RegisterBlock::new());
    let mut radio = radio.into_receiver();
    radio.enable_rx_addresses(&[Address::A, Address::C, Address::G]);
    assert_eq!(radio.rx_addresses(), 0b0100_0101);
    radio.disable_rx_addresses(&[Address::C, Address::H]);
    assert_eq!(radio.rx_addresses(), 0b0100_0001);
    radio.disable_all_rx_addresses();
    assert_eq!(radio.rx_addresses(), 0);
}

#[test]
fn empty_rx_address_set_is_a_no_op() {
    let radio = Radio::<()>::new_zeroed(RegisterBlock::new());
    let mut radio = radio.into_receiver();
    radio.enable_rx_address(Address::B);
    let before = radio.rx_addresses();
    radio.enable_rx_addresses(&[]);
    assert_eq!(radio.rx_addresses(), before);
    radio.disable_rx_addresses(&[]);
    assert_eq!(radio.rx_addresses(), before);
}

#[test]
fn interrupt_sources_compose_by_single_bits() {
    let radio = Radio::<()>::new_zeroed(RegisterBlock::new());
    let mut radio = radio.into_receiver();
    radio.enable_interrupt(Interrupt::Ready);
    assert_eq!(radio.read_interrupts(), 0x001);
    radio.enable_interrupt(Interrupt::End);
    assert_eq!(radio.read_interrupts(), 0x011);
    radio.disable_interrupt(Interrupt::Ready);
    assert_eq!(radio.read_interrupts(), 0x010);
}

#[test]
fn batched_interrupts_apply_as_union_and_difference() {
    let radio = Radio::<()>::new_zeroed(RegisterBlock::new());
    let mut radio = radio.into_receiver();
    radio.enable_interrupts(&[Interrupt::Address, Interrupt::Payload, Interrupt::BCMatch]);
    assert_eq!(radio.read_interrupts(), 0x004 | 0x008 | 0x200);
    radio.disable_interrupts(&[Interrupt::Payload]);
    assert_eq!(radio.read_interrupts(), 0x004 | 0x200);
}

#[test]
fn empty_interrupt_set_is_a_no_op() {
    let radio = Radio::<()>::new_zeroed(RegisterBlock::new());
    let mut radio = radio.into_receiver();
    radio.enable_interrupt(Interrupt::DevMatch);
    let before = radio.read_interrupts();
    radio.enable_interrupts(&[]);
    assert_eq!(radio.read_interrupts(), before);
    radio.disable_interrupts(&[]);
    assert_eq!(radio.read_interrupts(), before);
}

#[test]
fn receive_with_zero_budget_times_out() {
    let radio = Radio::<()>::new_zeroed(RegisterBlock::new());
    let mut radio = radio.into_receiver();
    let r = radio.receive_packet_with_timeout(0);
    assert_eq!(r.unwrap_err(), Error::TimedOut);
}

#[test]
fn receive_needs_budget_for_the_packet_to_complete() {
    let radio = Radio::<()>::new_zeroed(RegisterBlock::new());
    let mut radio = radio.into_receiver();
    // One poll only observes the active reception; the packet completes on
    // the following poll.
    let r = radio.receive_packet_with_timeout(1);
    assert_eq!(r.unwrap_err(), Error::TimedOut);
    let p = radio.receive_packet_with_timeout(2);
    assert!(p.is_ok());
    assert_eq!(radio.get_state(), Ok(State::RxIdle));
}

#[test]
fn receive_with_budget_hands_back_configured_packet() {
    let radio = Radio::<()>::new_zeroed(RegisterBlock::new());
    let mut radio = radio.into_receiver();
    radio.set_lf_len(LengthFieldLength::from_bits(8).unwrap());
    let p = radio.receive_packet_with_timeout(4).unwrap();
    assert_eq!(p.lf_len().bits(), 8);
    assert_eq!(p.s0_len().bits(), 0);
    assert_eq!(p.s1_len().bits(), 0);
    assert_eq!(radio.get_state(), Ok(State::RxIdle));
}

#[test]
fn receive_without_budget_limit_succeeds() {
    let radio = Radio::<()>::new_zeroed(RegisterBlock::new());
    let mut radio = radio.into_receiver();
    let p = radio.receive_packet().unwrap();
    assert!(p.buf().iter().all(|b| *b == 0));
    assert_eq!(radio.get_state(), Ok(State::RxIdle));
}

#[test]
fn end_to_end_transmit_then_receive_scenario() {
    let radio = Radio::<()>::new_zeroed(RegisterBlock::new());
    assert_eq!(radio.get_state(), Ok(State::Disabled));

    let mut radio = radio.into_transmitter();
    assert_eq!(radio.get_state(), Ok(State::TxIdle));
    radio.set_tx_address(Address::A);
    assert_eq!(radio.tx_address(), Address::A);

    let mut radio = radio.into_receiver();
    assert_eq!(radio.get_state(), Ok(State::RxIdle));
    radio.enable_rx_addresses(&[Address::A, Address::C]);
    assert_eq!(radio.rx_addresses(), 0b0000_0101);
}
