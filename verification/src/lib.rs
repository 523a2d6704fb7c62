//! An abstraction over a short-range radio transceiver peripheral
//!
//! This library manages the peripheral's operating mode, configuration
//! registers, address/interrupt bitmasks, and the in-memory packet buffer.
//! The register file itself is held as a plain-data model
//! ([`regs::RegisterBlock`]); the memory-mapped ports of the real peripheral
//! are an external collaborator, and code that drives them mirrors the model.
//!
//! Where a choice has to be made between a theoretically attainable
//! performance improvement and safety, safety wins: the radio mode conversion
//! functions block while they wait for the radio to confirm the switch, so
//! that an operation can never be issued in a state the peripheral cannot
//! currently handle. Everything is awaited in a spinlock; interrupts are only
//! exposed as a raw enable/disable/read surface for an outside handler.

pub mod enums;
pub mod packet;
pub mod regs;

use core::marker::PhantomData;

use vstd::prelude::*;
use vstd::pervasive::unreached;

pub use enums::Endianness;
pub use enums::Mode;
pub use enums::State;
pub use enums::TxPower;

use enums::STATE_DISABLED;
use enums::STATE_RX;
use enums::STATE_RX_RU;
use enums::STATE_RX_IDLE;
use enums::STATE_TX_IDLE;
use enums::endianness_code;
use enums::is_state_code;
use enums::mode_code;
use enums::spec_endianness_from_code;
use enums::spec_mode_from_code;
use enums::spec_state_from_code;
use enums::spec_tx_power_from_code;
use enums::state_code;
use enums::tx_power_code;

use packet::LengthFieldLength;
use packet::MAX_IN_MEMORY_PACKET_LENGTH;
use packet::MAX_LENGTH_FIELD_BITS;
use packet::MAX_S0_LENGTH_BITS;
use packet::MAX_S1_LENGTH_BITS;
use packet::Packet;
use packet::S0FieldLength;
use packet::S1FieldLength;

use regs::RegisterBlock;
use regs::endian_of;
use regs::lflen_of;
use regs::rxen_target;
use regs::s0len_of;
use regs::s1len_of;
use regs::same_config;
use regs::start_target;
use regs::stepped;

verus! {

/// The error type of the library
#[derive(Copy, Clone, PartialEq, Eq, Structural, Debug)]
pub enum Error {
    /// The radio is in an unknown state. Tread lightly - you are on very thin ice.
    UnknownState,

    /// Something that you tried to do couldn't be done fast enough.
    TimedOut,

    /// A value that you tried to convert to another falls out of range of the
    /// given container.
    ValueOutOfBounds,
}

/// The offset (in MHz) from which the frequency is calculated
pub const FREQUENCY_OFFSET: u32 = 2400;

/// The frequency, specified as `2400 MHz + f [MHz]`
#[derive(Copy, Clone, PartialEq, Eq, Structural, Debug)]
pub struct Frequency(u32);

impl Frequency {
    /// The channel offset from [`FREQUENCY_OFFSET`] that this value stands
    /// for.
    pub closed spec fn spec_offset(self) -> u32 {
        self.0
    }

    /// A frequency is valid when its channel offset lies in the 0 to 100
    /// band the hardware accepts.
    pub open spec fn wf(self) -> bool {
        self.spec_offset() <= 100
    }

    /// Decode a raw FREQUENCY register value, returning `None` if it does
    /// not lie in the valid 0 to 100 band.
    pub fn from_reg_value(reg_value: u32) -> (r: Option<Self>)
        ensures
            r is Some <==> reg_value <= 100,
            r matches Some(f) ==> f.spec_offset() == reg_value && f.wf(),
    {
        if reg_value <= 100 {
            Some(Frequency(reg_value))
        } else {
            None
        }
    }

    /// Validates that the frequency is in range, failing with
    /// [`Error::ValueOutOfBounds`] if not
    pub fn from_mhz(mhz: u32) -> (r: Result<Self, Error>)
        ensures
            r is Ok <==> FREQUENCY_OFFSET <= mhz <= FREQUENCY_OFFSET + 100,
            r matches Ok(f) ==> f.spec_offset() == mhz - FREQUENCY_OFFSET && f.wf(),
            !(FREQUENCY_OFFSET <= mhz <= FREQUENCY_OFFSET + 100) ==> r == Err::<
                Frequency,
                Error,
            >(Error::ValueOutOfBounds),
    {
        if mhz < FREQUENCY_OFFSET || mhz > FREQUENCY_OFFSET + 100 {
            Err(Error::ValueOutOfBounds)
        } else {
            Ok(Frequency(mhz - FREQUENCY_OFFSET))
        }
    }

    /// Convert the inner frequency representation to MHz
    pub fn as_mhz(&self) -> (r: u32)
        requires
            self.wf(),
        ensures
            r == self.spec_offset() + FREQUENCY_OFFSET,
    {
        self.0 + FREQUENCY_OFFSET
    }
}

/// Round-trip law for the frequency encoding: a frequency built from an MHz
/// value in the valid band is well-formed and converts back to exactly that
/// MHz value.
pub proof fn lemma_frequency_round_trip(f: Frequency, mhz: u32)
    requires
        FREQUENCY_OFFSET <= mhz <= FREQUENCY_OFFSET + 100,
        f.spec_offset() == mhz - FREQUENCY_OFFSET,
    ensures
        f.wf(),
        f.spec_offset() + FREQUENCY_OFFSET == mhz,
{
}

/// Interrupts that can be invoked by the radio
#[derive(Copy, Clone, PartialEq, Eq, Structural, Debug)]
pub enum Interrupt {
    /// RADIO has ramped up and is ready to be started
    Ready,
    /// Address sent or received
    Address,
    /// Packet payload sent or received
    Payload,
    /// Packet sent or received
    End,
    /// RADIO has been disabled
    Disabled,
    /// A device address match occurred on the last received packet
    DevMatch,
    /// No device address match occurred on the last received packet
    DevMiss,
    /// Sampling of receive signal strength complete. A new RSSI sample is
    /// ready for readout from the RSSISAMPLE register
    RSSIEnd,
    /// Bit counter reached bit count value specified in the BCC register
    BCMatch,
}

/// The single-bit position of `i` inside the interrupt-enable port.
pub open spec fn interrupt_mask(i: Interrupt) -> u32 {
    match i {
        Interrupt::Ready => 0x001,
        Interrupt::Address => 0x004,
        Interrupt::Payload => 0x008,
        Interrupt::End => 0x010,
        Interrupt::Disabled => 0x020,
        Interrupt::DevMatch => 0x040,
        Interrupt::DevMiss => 0x080,
        Interrupt::RSSIEnd => 0x100,
        Interrupt::BCMatch => 0x200,
    }
}

impl Interrupt {
    /// The single-bit mask of this interrupt source inside the
    /// interrupt-enable port.
    pub fn mask(self) -> (r: u32)
        ensures
            r == interrupt_mask(self),
    {
        match self {
            Interrupt::Ready => 0x001,
            Interrupt::Address => 0x004,
            Interrupt::Payload => 0x008,
            Interrupt::End => 0x010,
            Interrupt::Disabled => 0x020,
            Interrupt::DevMatch => 0x040,
            Interrupt::DevMiss => 0x080,
            Interrupt::RSSIEnd => 0x100,
            Interrupt::BCMatch => 0x200,
        }
    }
}

/// Whether interrupt source `i` is in the enabled set described by the raw
/// interrupt-enable value `v`.
pub open spec fn interrupt_set_contains(v: u32, i: Interrupt) -> bool {
    v & interrupt_mask(i) != 0
}

/// The bit position of `i` inside the interrupt-enable port.
pub open spec fn interrupt_bit(i: Interrupt) -> u32 {
    match i {
        Interrupt::Ready => 0,
        Interrupt::Address => 2,
        Interrupt::Payload => 3,
        Interrupt::End => 4,
        Interrupt::Disabled => 5,
        Interrupt::DevMatch => 6,
        Interrupt::DevMiss => 7,
        Interrupt::RSSIEnd => 8,
        Interrupt::BCMatch => 9,
    }
}

/// Each interrupt source occupies the bit of its own position.
pub proof fn lemma_interrupt_mask_is_bit(i: Interrupt)
    ensures
        interrupt_mask(i) == 1u32 << interrupt_bit(i),
        interrupt_bit(i) <= 9,
{
    assert(1u32 << 0u32 == 0x001 && 1u32 << 2u32 == 0x004 && 1u32 << 3u32 == 0x008 && 1u32
        << 4u32 == 0x010 && 1u32 << 5u32 == 0x020 && 1u32 << 6u32 == 0x040 && 1u32 << 7u32
        == 0x080 && 1u32 << 8u32 == 0x100 && 1u32 << 9u32 == 0x200) by (bit_vector);
}

/// Enabling one interrupt source adds exactly that source to the enabled
/// set.
pub proof fn lemma_enable_interrupt_adds_member(v: u32, a: Interrupt, b: Interrupt)
    ensures
        interrupt_set_contains(v | interrupt_mask(a), b) <==> interrupt_set_contains(v, b) || a
            == b,
{
    lemma_interrupt_mask_is_bit(a);
    lemma_interrupt_mask_is_bit(b);
    let ia = interrupt_bit(a);
    let ib = interrupt_bit(b);
    assert(((v | (1u32 << ia)) & (1u32 << ib) != 0) <==> ((v & (1u32 << ib) != 0) || ia == ib))
        by (bit_vector)
        requires
            ia <= 9,
            ib <= 9,
    ;
}

/// Disabling one interrupt source removes exactly that source from the
/// enabled set.
pub proof fn lemma_disable_interrupt_removes_member(v: u32, a: Interrupt, b: Interrupt)
    ensures
        interrupt_set_contains(v & !interrupt_mask(a), b) <==> interrupt_set_contains(v, b) && a
            != b,
{
    lemma_interrupt_mask_is_bit(a);
    lemma_interrupt_mask_is_bit(b);
    let ia = interrupt_bit(a);
    let ib = interrupt_bit(b);
    assert(((v & !(1u32 << ia)) & (1u32 << ib) != 0) <==> ((v & (1u32 << ib) != 0) && ia != ib))
        by (bit_vector)
        requires
            ia <= 9,
            ib <= 9,
    ;
}

/// Logical address. Can be used for reception or transmission
///
/// TX and RX logical addresses are represented differently: for transmission
/// the address is written as its index, for reception it contributes a
/// single bit to an enable bitmask.
#[allow(missing_docs)]
#[derive(Copy, Clone, PartialEq, Eq, Structural, Debug)]
pub enum Address {
    A,
    B,
    C,
    D,
    E,
    F,
    G,
    H,
}

/// The slot index of `a`, 0 through 7, as the TXADDRESS port holds it.
pub open spec fn addr_index(a: Address) -> u32 {
    match a {
        Address::A => 0,
        Address::B => 1,
        Address::C => 2,
        Address::D => 3,
        Address::E => 4,
        Address::F => 5,
        Address::G => 6,
        Address::H => 7,
    }
}

/// The single-bit mask of `a` inside the RXADDRESSES port: bit `addr_index(a)`.
pub open spec fn addr_rx_mask(a: Address) -> u8 {
    match a {
        Address::A => 0x01,
        Address::B => 0x02,
        Address::C => 0x04,
        Address::D => 0x08,
        Address::E => 0x10,
        Address::F => 0x20,
        Address::G => 0x40,
        Address::H => 0x80,
    }
}

impl Address {
    /// The single-bit reception mask of this address.
    pub fn into_rx_address(self) -> (r: u8)
        ensures
            r == addr_rx_mask(self),
    {
        match self {
            Address::A => 0x01,
            Address::B => 0x02,
            Address::C => 0x04,
            Address::D => 0x08,
            Address::E => 0x10,
            Address::F => 0x20,
            Address::G => 0x40,
            Address::H => 0x80,
        }
    }

    /// The transmission index of this address.
    pub fn into_tx_address(self) -> (r: u8)
        ensures
            r == addr_index(self),
    {
        match self {
            Address::A => 0,
            Address::B => 1,
            Address::C => 2,
            Address::D => 3,
            Address::E => 4,
            Address::F => 5,
            Address::G => 6,
            Address::H => 7,
        }
    }

    /// Decode a transmission index back to an address; `None` above 7.
    pub fn from_tx_address(addr: u8) -> (r: Option<Self>)
        ensures
            r is Some <==> addr <= 7,
            r matches Some(a) ==> addr_index(a) == addr,
    {
        if addr == 0 {
            Some(Address::A)
        } else if addr == 1 {
            Some(Address::B)
        } else if addr == 2 {
            Some(Address::C)
        } else if addr == 3 {
            Some(Address::D)
        } else if addr == 4 {
            Some(Address::E)
        } else if addr == 5 {
            Some(Address::F)
        } else if addr == 6 {
            Some(Address::G)
        } else if addr == 7 {
            Some(Address::H)
        } else {
            None
        }
    }
}

/// Calculates the shift needed to reach the first `true` bit in the bitmask
pub fn count_mask_shift(mask: u32) -> (r: u8)
    requires
        mask != 0,
    ensures
        r < 32,
        (mask >> (r as u32)) & 1 == 1,
        forall|j: u32| j < r ==> (mask >> j) & 1 == 0,
{
    let mut m = mask;
    let mut index: u8 = 0;
    proof {
        assert(mask >> 0u32 == mask) by (bit_vector);
    }
    while (m & 1) == 0
        invariant
            index < 32,
            m == mask >> (index as u32),
            m != 0,
            forall|j: u32| j < index ==> (mask >> j) & 1 == 0,
        decreases 32 - index,
    {
        proof {
            let i = index as u32;
            let j = (index + 1) as u32;
            assert((mask >> i) != 0 && (mask >> i) & 1 == 0 ==> i < 31 && (mask >> i) >> 1
                == mask >> j && mask >> j != 0) by (bit_vector)
                requires
                    j == i + 1,
                    i < 32,
            ;
        }
        m >>= 1;
        index += 1;
    }
    proof {
        let i = index as u32;
        assert(m & 1 != 0 ==> m & 1 == 1) by (bit_vector);
    }
    index
}

/// Whether address `a` is in the enabled set described by the raw
/// RXADDRESSES value `v`.
pub open spec fn rx_mask_contains(v: u32, a: Address) -> bool {
    v & (addr_rx_mask(a) as u32) != 0
}

/// Each address occupies the bit of its own slot index.
pub proof fn lemma_addr_mask_is_bit(a: Address)
    ensures
        (addr_rx_mask(a) as u32) == 1u32 << addr_index(a),
        addr_index(a) < 8,
{
    assert(1u32 << 0u32 == 0x01 && 1u32 << 1u32 == 0x02 && 1u32 << 2u32 == 0x04 && 1u32 << 3u32
        == 0x08 && 1u32 << 4u32 == 0x10 && 1u32 << 5u32 == 0x20 && 1u32 << 6u32 == 0x40 && 1u32
        << 7u32 == 0x80) by (bit_vector);
}

/// Enabling one address adds exactly that address to the enabled set: every
/// address is in the new set exactly when it was in the old set or is the
/// one enabled.
pub proof fn lemma_enable_rx_adds_member(v: u32, a: Address, b: Address)
    ensures
        rx_mask_contains(v | (addr_rx_mask(a) as u32), b) <==> rx_mask_contains(v, b) || a == b,
{
    lemma_addr_mask_is_bit(a);
    lemma_addr_mask_is_bit(b);
    let ia = addr_index(a);
    let ib = addr_index(b);
    assert(((v | (1u32 << ia)) & (1u32 << ib) != 0) <==> ((v & (1u32 << ib) != 0) || ia == ib))
        by (bit_vector)
        requires
            ia < 8,
            ib < 8,
    ;
}

/// Disabling one address removes exactly that address from the enabled set:
/// every address is in the new set exactly when it was in the old set and is
/// not the one disabled.
pub proof fn lemma_disable_rx_removes_member(v: u32, a: Address, b: Address)
    ensures
        rx_mask_contains(v & !(addr_rx_mask(a) as u32), b) <==> rx_mask_contains(v, b) && a != b,
{
    lemma_addr_mask_is_bit(a);
    lemma_addr_mask_is_bit(b);
    let ia = addr_index(a);
    let ib = addr_index(b);
    assert(((v & !(1u32 << ia)) & (1u32 << ib) != 0) <==> ((v & (1u32 << ib) != 0) && ia != ib))
        by (bit_vector)
        requires
            ia < 8,
            ib < 8,
    ;
}

/// The enabled-set laws of the bitmask abstraction: enabling a member not in
/// the set and then disabling it returns to the original set.
pub proof fn lemma_enable_then_disable_cancels(v: u32, m: u32)
    requires
        v & m == 0,
    ensures
        ((v | m) & !m) == v,
{
    assert(((v | m) & !m) == v) by (bit_vector)
        requires
            v & m == 0,
    ;
}

/// Enabling an already-enabled member leaves the enabled set unchanged.
pub proof fn lemma_enable_idempotent(v: u32, m: u32)
    ensures
        ((v | m) | m) == (v | m),
{
    assert(((v | m) | m) == (v | m)) by (bit_vector);
}

/// Disabling an already-disabled member leaves the enabled set unchanged.
pub proof fn lemma_disable_idempotent(v: u32, m: u32)
    ensures
        ((v & !m) & !m) == (v & !m),
{
    assert(((v & !m) & !m) == (v & !m)) by (bit_vector);
}

/// TX mode
pub struct Transmitter;

/// RX mode
pub struct Receiver;

/// Enabled mode
pub struct Enabled<T>(PhantomData<T>);

/// Disabled mode
pub struct Disabled;

/// The main RADIO abstraction
///
/// The state tag `T` records the last operation confirmed against hardware.
/// Exactly one handle exists per peripheral: every transition consumes the
/// old handle and produces a new one, so two differently-tagged handles can
/// never be alive at once.
pub struct Radio<T> {
    /// The software-visible model of the peripheral's register file. The
    /// environment that drives the physical ports keeps it in sync with live
    /// hardware.
    pub regs: RegisterBlock,
    _marker: PhantomData<T>,
}

impl<T> View for Radio<T> {
    type V = RegisterBlock;

    /// A handle is abstracted by the register file it owns.
    closed spec fn view(&self) -> RegisterBlock {
        self.regs
    }
}

/// Whether a busy-wait over the STATE port, starting from state `s` with a
/// budget of `cycles` polls, confirms `target`. The first poll observes `s`
/// itself; from the second poll on, the hardware has settled one step.
pub open spec fn poll_succeeds(s: u32, target: u32, cycles: u32) -> bool {
    ||| cycles >= 1 && s == target
    ||| cycles >= 2 && is_state_code(s) && stepped(s) == target
}

/// The outcome of a busy-wait over the STATE port: an undefined state code
/// fails the very first poll, a confirmed target succeeds, and an exhausted
/// budget times out.
pub open spec fn poll_result(s: u32, target: u32, cycles: u32) -> Result<(), Error> {
    if cycles >= 1 && !is_state_code(s) {
        Err(Error::UnknownState)
    } else if poll_succeeds(s, target, cycles) {
        Ok(())
    } else {
        Err(Error::TimedOut)
    }
}

/// The STATE port value after a busy-wait that started from `s`: unchanged
/// when no poll happened, the observed value on an immediate hit or an
/// undefined code, and the settled value otherwise.
pub open spec fn poll_final_state(s: u32, target: u32, cycles: u32) -> u32 {
    if cycles == 0 {
        s
    } else if !is_state_code(s) {
        s
    } else if s == target {
        s
    } else {
        stepped(s)
    }
}

/// How many polls of the STATE port a busy-wait from `s` performs: none
/// without budget, one on an immediate hit or an undefined code, two when
/// the settled state is confirmed, and the whole budget on a timeout.
pub open spec fn poll_reads(s: u32, target: u32, cycles: u32) -> nat {
    if cycles == 0 {
        0
    } else if !is_state_code(s) {
        1
    } else if s == target {
        1
    } else if cycles >= 2 && stepped(s) == target {
        2
    } else {
        cycles as nat
    }
}

/// A bounded wait with no cycle budget always times out, without performing
/// a single poll of the STATE port.
pub proof fn lemma_zero_budget_times_out(s: u32, target: u32)
    ensures
        poll_result(s, target, 0) == Err::<(), Error>(Error::TimedOut),
        poll_reads(s, target, 0) == 0,
        poll_final_state(s, target, 0) == s,
{
}

/// Entering receive mode from the disabled resting state is deterministic:
/// polling either confirms the receive-idle state or times out; no other
/// state can be confirmed and the state code never becomes undefined.
pub proof fn lemma_enter_receive_deterministic(cycles: u32)
    ensures
        poll_result(rxen_target(STATE_DISABLED), STATE_RX_IDLE, cycles) is Ok ==> poll_final_state(
            rxen_target(STATE_DISABLED),
            STATE_RX_IDLE,
            cycles,
        ) == STATE_RX_IDLE,
        poll_result(rxen_target(STATE_DISABLED), STATE_RX_IDLE, cycles) is Err ==> poll_result(
            rxen_target(STATE_DISABLED),
            STATE_RX_IDLE,
            cycles,
        ) == Err::<(), Error>(Error::TimedOut),
{
}

/// The core bounded busy-wait: poll the STATE port until it reads `target`,
/// giving up once `cycles` polls are spent. Between unmet polls the hardware
/// settles one step.
fn wait_state_cycles(regs: &mut RegisterBlock, target: u32, cycles: u32) -> (r: Result<(), Error>)
    requires
        is_state_code(target),
    ensures
        r == poll_result(old(regs).state, target, cycles),
        final(regs).state == poll_final_state(old(regs).state, target, cycles),
        final(regs).state_reads@ == old(regs).state_reads@ + poll_reads(
            old(regs).state,
            target,
            cycles,
        ),
        final(regs).writes@ == old(regs).writes@,
        same_config(*old(regs), *final(regs)),
{
    for i in 0..cycles
        invariant
            is_state_code(target),
            same_config(*old(regs), *regs),
            regs.writes@ == old(regs).writes@,
            regs.state_reads@ == old(regs).state_reads@ + i,
            i == 0 ==> regs.state == old(regs).state,
            i >= 1 ==> regs.state == stepped(old(regs).state),
            i >= 1 ==> is_state_code(old(regs).state) && old(regs).state != target,
            i >= 2 ==> stepped(old(regs).state) != target,
    {
        let raw = regs.read_state();
        match State::from_code(raw) {
            None => {
                return Err(Error::UnknownState);
            },
            Some(_) => {
                if raw == target {
                    return Ok(());
                }
            },
        }
        regs.step();
    }
    Err(Error::TimedOut)
}

/// The wait that never gives up: poll the STATE port until it reads
/// `target`. It cannot be cancelled, so the caller must know that progress
/// is guaranteed: the hardware either already reports the target or settles
/// into it.
fn wait_state(regs: &mut RegisterBlock, target: u32)
    requires
        is_state_code(old(regs).state),
        is_state_code(target),
        old(regs).state == target || stepped(old(regs).state) == target,
    ensures
        final(regs).state == target,
        final(regs).writes@ == old(regs).writes@,
        final(regs).state_reads@ == old(regs).state_reads@ + poll_reads(
            old(regs).state,
            target,
            2,
        ),
        same_config(*old(regs), *final(regs)),
{
    let r = wait_state_cycles(regs, target, 2);
    match r {
        Ok(_) => {},
        Err(_) => {
            proof {
                assert(false);
            }
        },
    }
}

impl Radio<()> {
    /// Constructs a new [`Radio`], setting the radio state to disabled
    ///
    /// If you are constructing [`Radio`] for the first time in your program,
    /// **you most definitely want to use [`Self::new_zeroed`] instead.** This
    /// function will not overwrite any config registers, so things will look
    /// weird if you haven't written to said registers before this function.
    ///
    /// You will probably want to use this function if you've already
    /// constructed [`Radio`] before, but need to construct a new struct for
    /// some reason.
    pub fn new(regs: RegisterBlock) -> (r: Radio<Disabled>)
        requires
            is_state_code(regs.state),
        ensures
            r@.state == STATE_DISABLED,
            same_config(regs, r@),
            r@.writes@ == regs.writes@ + 1,
    {
        let mut regs = regs;
        regs.task_disable();
        wait_state(&mut regs, STATE_DISABLED);

        Radio { regs, _marker: PhantomData }
    }

    /// Like [`Self::new`], but sets the address registers to zero, so that
    /// packets don't exhibit possibly unexpected behaviour
    pub fn new_zeroed(regs: RegisterBlock) -> (r: Radio<Disabled>)
        requires
            is_state_code(regs.state),
        ensures
            r@.state == STATE_DISABLED,
            r@.txaddress == 0,
            r@.rxaddresses == 0,
            r@.frequency == regs.frequency,
            r@.mode == regs.mode,
            r@.txpower == regs.txpower,
            r@.intenset == regs.intenset,
            r@.pcnf0 == regs.pcnf0,
            r@.pcnf1 == regs.pcnf1,
            r@.packetptr == regs.packetptr,
            r@.writes@ == regs.writes@ + 3,
    {
        let mut radio = Self::new(regs);

        radio.regs.write_txaddress(0);
        radio.regs.write_rxaddresses(0);

        radio
    }
}

impl Radio<Disabled> {
    /// Switch the radio into receiver mode, blocking until hardware confirms
    /// the receive-idle state.
    pub fn into_receiver(self) -> (r: Radio<Enabled<Receiver>>)
        requires
            is_state_code(self@.state),
        ensures
            r@.state == STATE_RX_IDLE,
            same_config(self@, r@),
            r@.writes@ == self@.writes@ + 2,
    {
        let mut regs = self.regs;
        regs.task_disable();
        wait_state(&mut regs, STATE_DISABLED);

        regs.task_rxen();
        wait_state(&mut regs, STATE_RX_IDLE);

        Radio { regs, _marker: PhantomData }
    }

    /// Switch the radio into transmitter mode, blocking until hardware
    /// confirms the transmit-idle state.
    pub fn into_transmitter(self) -> (r: Radio<Enabled<Transmitter>>)
        requires
            is_state_code(self@.state),
        ensures
            r@.state == STATE_TX_IDLE,
            same_config(self@, r@),
            r@.writes@ == self@.writes@ + 2,
    {
        let mut regs = self.regs;
        regs.task_disable();
        wait_state(&mut regs, STATE_DISABLED);

        regs.task_txen();
        wait_state(&mut regs, STATE_TX_IDLE);

        Radio { regs, _marker: PhantomData }
    }
}

impl<T> Radio<T> {
    /// Get the state which the radio is currently in, failing with
    /// [`Error::UnknownState`] if the STATE port holds a code outside the
    /// nine defined values.
    pub fn get_state(&self) -> (r: Result<State, Error>)
        ensures
            r is Ok <==> is_state_code(self@.state),
            r matches Ok(s) ==> Some(s) == spec_state_from_code(self@.state),
            !is_state_code(self@.state) ==> r == Err::<State, Error>(Error::UnknownState),
    {
        match State::from_code(self.regs.state) {
            Some(s) => Ok(s),
            None => Err(Error::UnknownState),
        }
    }

    /// Wait until radio goes into `state`. Break out of the function after
    /// `cycles` polls, returning [`Error::TimedOut`]; an undefined state
    /// code fails with [`Error::UnknownState`] on the first poll.
    pub fn wait_for_state_cycles(&mut self, state: State, cycles: u32) -> (r: Result<(), Error>)
        ensures
            r == poll_result(old(self)@.state, state_code(state), cycles),
            final(self)@.state == poll_final_state(
                old(self)@.state,
                state_code(state),
                cycles,
            ),
            final(self)@.state_reads@ == old(self)@.state_reads@ + poll_reads(
                old(self)@.state,
                state_code(state),
                cycles,
            ),
            final(self)@.writes@ == old(self)@.writes@,
            same_config(old(self)@, final(self)@),
    {
        let target = state.code();
        wait_state_cycles(&mut self.regs, target, cycles)
    }

    /// Wait until radio goes into `state`, however long that takes. This
    /// wait cannot be cancelled, so it may only be invoked where progress is
    /// guaranteed: the hardware either already reports the requested state
    /// or settles into it.
    pub fn wait_for_state(&mut self, state: State)
        requires
            is_state_code(old(self)@.state),
            old(self)@.state == state_code(state) || stepped(old(self)@.state) == state_code(
                state,
            ),
        ensures
            final(self)@.state == state_code(state),
            final(self)@.writes@ == old(self)@.writes@,
            same_config(old(self)@, final(self)@),
    {
        let target = state.code();
        wait_state(&mut self.regs, target)
    }
}

/// The OR of the single-bit reception masks of the addresses in `s`.
pub open spec fn combined_rx_mask(s: Seq<Address>) -> u8
    decreases s.len(),
{
    if s.len() == 0 {
        0
    } else {
        combined_rx_mask(s.drop_last()) | addr_rx_mask(s.last())
    }
}

/// An address is in a combined reception mask exactly when it occurs in the
/// list the mask was folded from.
pub proof fn lemma_combined_rx_mask_membership(s: Seq<Address>, b: Address)
    ensures
        rx_mask_contains(combined_rx_mask(s) as u32, b) <==> s.contains(b),
    decreases s.len(),
{
    let mb = addr_rx_mask(b) as u32;
    if s.len() == 0 {
        assert(0u32 & mb == 0) by (bit_vector);
        assert(!s.contains(b));
    } else {
        lemma_combined_rx_mask_membership(s.drop_last(), b);
        let x = combined_rx_mask(s.drop_last());
        let ma = addr_rx_mask(s.last());
        assert(((x | ma) as u32) == (x as u32) | (ma as u32)) by (bit_vector);
        lemma_enable_rx_adds_member(x as u32, s.last(), b);
        assert(s.contains(b) <==> s.drop_last().contains(b) || s.last() == b) by {
            if s.contains(b) {
                let i = choose|i: int| 0 <= i < s.len() && s[i] == b;
                if i < s.len() - 1 {
                    assert(s.drop_last()[i] == b);
                }
            }
            if s.drop_last().contains(b) {
                let i = choose|i: int|
                    0 <= i < s.drop_last().len() && s.drop_last()[i] == b;
                assert(s[i] == b);
            }
            if s.last() == b {
                assert(s[s.len() - 1] == b);
            }
        };
    }
}

/// A batched enable adds exactly the listed addresses to the enabled set.
pub proof fn lemma_enable_many_rx_adds_members(v: u32, s: Seq<Address>, b: Address)
    ensures
        rx_mask_contains(v | (combined_rx_mask(s) as u32), b) <==> rx_mask_contains(v, b)
            || s.contains(b),
{
    lemma_combined_rx_mask_membership(s, b);
    lemma_addr_mask_is_bit(b);
    let m = combined_rx_mask(s) as u32;
    let ib = addr_index(b);
    assert(((v | m) & (1u32 << ib) != 0) <==> ((v & (1u32 << ib) != 0) || (m & (1u32 << ib)
        != 0))) by (bit_vector);
}

/// A batched disable removes exactly the listed addresses from the enabled
/// set.
pub proof fn lemma_disable_many_rx_removes_members(v: u32, s: Seq<Address>, b: Address)
    ensures
        rx_mask_contains(v & !(combined_rx_mask(s) as u32), b) <==> rx_mask_contains(v, b)
            && !s.contains(b),
{
    lemma_combined_rx_mask_membership(s, b);
    lemma_addr_mask_is_bit(b);
    let m = combined_rx_mask(s) as u32;
    let ib = addr_index(b);
    assert(((v & !m) & (1u32 << ib) != 0) <==> ((v & (1u32 << ib) != 0) && (m & (1u32 << ib)
        == 0))) by (bit_vector);
}

/// The OR of the single-bit masks of the interrupt sources in `s`.
pub open spec fn combined_interrupt_mask(s: Seq<Interrupt>) -> u32
    decreases s.len(),
{
    if s.len() == 0 {
        0
    } else {
        combined_interrupt_mask(s.drop_last()) | interrupt_mask(s.last())
    }
}

impl<T> Radio<Enabled<T>> {
    /// Disable the radio, blocking until hardware confirms the disabled
    /// state.
    pub fn disable(self) -> (r: Radio<Disabled>)
        requires
            is_state_code(self@.state),
        ensures
            r@.state == STATE_DISABLED,
            same_config(self@, r@),
            r@.writes@ == self@.writes@ + 1,
    {
        let mut regs = self.regs;
        regs.task_disable();
        wait_state(&mut regs, STATE_DISABLED);

        Radio { regs, _marker: PhantomData }
    }

    /// Set the frequency on which the radio operates
    pub fn set_frequency(&mut self, freq: Frequency)
        ensures
            final(self)@ == (RegisterBlock {
                frequency: freq.spec_offset(),
                writes: Ghost(old(self)@.writes@ + 1),
                ..old(self)@
            }),
    {
        self.regs.write_frequency(freq.0);
    }

    /// Get the frequency that the radio is set to. The FREQUENCY register is
    /// written by this same software, so an out-of-band value cannot occur
    /// in a correctly driven system.
    pub fn frequency(&self) -> (r: Frequency)
        requires
            self@.frequency <= 100,
        ensures
            r.wf(),
            r.spec_offset() == self@.frequency,
    {
        match Frequency::from_reg_value(self.regs.frequency) {
            Some(f) => f,
            None => unreached(),
        }
    }

    /// Sets the mode for the radio
    pub fn set_mode(&mut self, mode: Mode)
        ensures
            final(self)@ == (RegisterBlock {
                mode: mode_code(mode),
                writes: Ghost(old(self)@.writes@ + 1),
                ..old(self)@
            }),
    {
        self.regs.write_mode(mode.code());
    }

    /// Get the mode that the radio is set to; only the two-bit mode field of
    /// the register is read.
    pub fn mode(&self) -> (r: Mode)
        ensures
            Some(r) == spec_mode_from_code(self@.mode % 4),
    {
        match Mode::from_code(self.regs.mode % 4) {
            Some(m) => m,
            None => unreached(),
        }
    }

    /// Set the order of bits of the `S0`, `LENGTH`, `S1`, and `PAYLOAD` fields.
    pub fn set_endianness(&mut self, endian: Endianness)
        ensures
            final(self)@ == (RegisterBlock {
                pcnf1: (old(self)@.pcnf1 & !0x0100_0000u32) | (endianness_code(endian) << 24),
                writes: Ghost(old(self)@.writes@ + 1),
                ..old(self)@
            }),
            endian_of(final(self)@.pcnf1) == endianness_code(endian),
    {
        self.regs.write_endian(endian.code());
    }

    /// Get the endianness that the radio is set to; only the endianness bit
    /// of the register is read.
    pub fn endianness(&self) -> (r: Endianness)
        ensures
            Some(r) == spec_endianness_from_code(endian_of(self@.pcnf1)),
    {
        let bit = (self.regs.pcnf1 >> 24) & 1;
        proof {
            let v = self@.pcnf1;
            assert(((v >> 24) & 1) <= 1) by (bit_vector);
        }
        match Endianness::from_code(bit) {
            Some(e) => e,
            None => unreached(),
        }
    }

    /// Get the `LENGTH` field length. The subfield is written by this same
    /// software, so an out-of-band value cannot occur in a correctly driven
    /// system.
    pub fn lf_len(&self) -> (r: LengthFieldLength)
        requires
            lflen_of(self@.pcnf0) <= MAX_LENGTH_FIELD_BITS,
        ensures
            r.wf(),
            r.spec_bits() == lflen_of(self@.pcnf0),
    {
        match LengthFieldLength::from_bits(self.regs.pcnf0 & 0xFF) {
            Ok(l) => l,
            Err(_) => unreached(),
        }
    }

    /// Set the `LENGTH` field length, leaving the other subfields of the
    /// packet configuration register as they are.
    pub fn set_lf_len(&mut self, len: LengthFieldLength)
        requires
            len.wf(),
        ensures
            final(self)@ == (RegisterBlock {
                pcnf0: (old(self)@.pcnf0 & !0xFFu32) | len.spec_bits(),
                writes: Ghost(old(self)@.writes@ + 1),
                ..old(self)@
            }),
            lflen_of(final(self)@.pcnf0) == len.spec_bits(),
            s0len_of(final(self)@.pcnf0) == s0len_of(old(self)@.pcnf0),
            s1len_of(final(self)@.pcnf0) == s1len_of(old(self)@.pcnf0),
    {
        self.regs.write_lflen(len.bits());
    }

    /// Get the `S0` field length. The subfield is written by this same
    /// software, so an out-of-band value cannot occur in a correctly driven
    /// system.
    pub fn s0_len(&self) -> (r: S0FieldLength)
        requires
            s0len_of(self@.pcnf0) <= MAX_S0_LENGTH_BITS,
        ensures
            r.wf(),
            r.spec_bits() == s0len_of(self@.pcnf0),
    {
        match S0FieldLength::from_bits((self.regs.pcnf0 >> 8) & 0xFF) {
            Ok(l) => l,
            Err(_) => unreached(),
        }
    }

    /// Get the `S1` field length. The subfield is written by this same
    /// software, so an out-of-band value cannot occur in a correctly driven
    /// system.
    pub fn s1_len(&self) -> (r: S1FieldLength)
        requires
            s1len_of(self@.pcnf0) <= MAX_S1_LENGTH_BITS,
        ensures
            r.wf(),
            r.spec_bits() == s1len_of(self@.pcnf0),
    {
        match S1FieldLength::from_bits((self.regs.pcnf0 >> 16) & 0xFF) {
            Ok(l) => l,
            Err(_) => unreached(),
        }
    }

    /// Returns a mask on which you can try bit ANDing to check the enabled
    /// interrupts
    pub fn read_interrupts(&self) -> (r: u32)
        ensures
            r == self@.intenset,
    {
        self.regs.intenset
    }

    /// Enable an interrupt source. Enabling one that is already enabled
    /// leaves the enabled set unchanged; one register write is issued either
    /// way.
    pub fn enable_interrupt(&mut self, interrupt: Interrupt)
        ensures
            final(self)@ == (RegisterBlock {
                intenset: old(self)@.intenset | interrupt_mask(interrupt),
                writes: Ghost(old(self)@.writes@ + 1),
                ..old(self)@
            }),
    {
        let cur = self.regs.intenset;
        self.regs.write_intenset(cur | interrupt.mask());
    }

    /// Disable an interrupt source. Disabling one that is already disabled
    /// leaves the enabled set unchanged; one register write is issued either
    /// way.
    pub fn disable_interrupt(&mut self, interrupt: Interrupt)
        ensures
            final(self)@ == (RegisterBlock {
                intenset: old(self)@.intenset & !interrupt_mask(interrupt),
                writes: Ghost(old(self)@.writes@ + 1),
                ..old(self)@
            }),
    {
        let cur = self.regs.intenset;
        self.regs.write_intenset(cur & !interrupt.mask());
    }

    /// Enable several interrupt sources at once, issuing exactly one
    /// register write. An empty set is a no-op: no register write is
    /// performed and the enabled set is left unchanged.
    pub fn enable_interrupts(&mut self, ints: &[Interrupt])
        ensures
            ints@.len() == 0 ==> final(self)@ == old(self)@,
            ints@.len() > 0 ==> final(self)@ == (RegisterBlock {
                intenset: old(self)@.intenset | combined_interrupt_mask(ints@),
                writes: Ghost(old(self)@.writes@ + 1),
                ..old(self)@
            }),
    {
        if ints.len() == 0 {
            return;
        }
        let mask = fold_interrupt_mask(ints);
        let cur = self.regs.intenset;
        self.regs.write_intenset(cur | mask);
    }

    /// Disable several interrupt sources at once, issuing exactly one
    /// register write. An empty set is a no-op: no register write is
    /// performed and the enabled set is left unchanged.
    pub fn disable_interrupts(&mut self, ints: &[Interrupt])
        ensures
            ints@.len() == 0 ==> final(self)@ == old(self)@,
            ints@.len() > 0 ==> final(self)@ == (RegisterBlock {
                intenset: old(self)@.intenset & !combined_interrupt_mask(ints@),
                writes: Ghost(old(self)@.writes@ + 1),
                ..old(self)@
            }),
    {
        if ints.len() == 0 {
            return;
        }
        let mask = fold_interrupt_mask(ints);
        let cur = self.regs.intenset;
        self.regs.write_intenset(cur & !mask);
    }
}

/// Fold the single-bit masks of `ints` into one combined mask.
fn fold_interrupt_mask(ints: &[Interrupt]) -> (r: u32)
    ensures
        r == combined_interrupt_mask(ints@),
{
    let mut mask: u32 = 0;
    for i in 0..ints.len()
        invariant
            mask == combined_interrupt_mask(ints@.take(i as int)),
    {
        proof {
            assert(ints@.take(i + 1).drop_last() =~= ints@.take(i as int));
            assert(ints@.take(i + 1).last() == ints@[i as int]);
        }
        mask = mask | ints[i].mask();
    }
    proof {
        assert(ints@.take(ints@.len() as int) =~= ints@);
    }
    mask
}

/// Fold the single-bit reception masks of `addresses` into one combined
/// mask.
fn fold_rx_mask(addresses: &[Address]) -> (r: u8)
    ensures
        r == combined_rx_mask(addresses@),
{
    let mut mask: u8 = 0;
    for i in 0..addresses.len()
        invariant
            mask == combined_rx_mask(addresses@.take(i as int)),
    {
        proof {
            assert(addresses@.take(i + 1).drop_last() =~= addresses@.take(i as int));
            assert(addresses@.take(i + 1).last() == addresses@[i as int]);
        }
        mask = mask | addresses[i].into_rx_address();
    }
    proof {
        assert(addresses@.take(addresses@.len() as int) =~= addresses@);
    }
    mask
}

impl Radio<Enabled<Transmitter>> {
    /// Switch the radio into receiver mode, blocking until hardware confirms
    /// the receive-idle state.
    pub fn into_receiver(self) -> (r: Radio<Enabled<Receiver>>)
        requires
            is_state_code(self@.state),
        ensures
            r@.state == STATE_RX_IDLE,
            same_config(self@, r@),
            r@.writes@ == self@.writes@ + 2,
    {
        let mut regs = self.regs;
        regs.task_disable();
        wait_state(&mut regs, STATE_DISABLED);

        regs.task_rxen();
        wait_state(&mut regs, STATE_RX_IDLE);

        Radio { regs, _marker: PhantomData }
    }

    /// Set the transmission power
    pub fn set_tx_power(&mut self, tx_power: TxPower)
        ensures
            final(self)@ == (RegisterBlock {
                txpower: tx_power_code(tx_power),
                writes: Ghost(old(self)@.writes@ + 1),
                ..old(self)@
            }),
    {
        self.regs.write_txpower(tx_power.code());
    }

    /// Get the transmission power the radio is set to. Returns `None` if the
    /// register value is invalid
    pub fn tx_power(&self) -> (r: Option<TxPower>)
        ensures
            r == spec_tx_power_from_code(self@.txpower),
    {
        TxPower::from_code(self.regs.txpower)
    }

    /// Sets the logical address to transmit from
    pub fn set_tx_address(&mut self, address: Address)
        ensures
            final(self)@ == (RegisterBlock {
                txaddress: addr_index(address),
                writes: Ghost(old(self)@.writes@ + 1),
                ..old(self)@
            }),
    {
        self.regs.write_txaddress(address.into_tx_address() as u32);
    }

    /// Disable all addresses for sending
    pub fn disable_all_tx_addresses(&mut self)
        ensures
            final(self)@ == (RegisterBlock {
                txaddress: 0,
                writes: Ghost(old(self)@.writes@ + 1),
                ..old(self)@
            }),
    {
        self.regs.write_txaddress(0);
    }

    /// Get the transmission address the radio is currently set to. The
    /// TXADDRESS register is written by this same software, so an
    /// out-of-band value cannot occur in a correctly driven system.
    pub fn tx_address(&self) -> (r: Address)
        requires
            self@.txaddress <= 7,
        ensures
            addr_index(r) == self@.txaddress,
    {
        match Address::from_tx_address(self.regs.txaddress as u8) {
            Some(a) => a,
            None => unreached(),
        }
    }
}

impl Radio<Enabled<Receiver>> {
    /// Switch the radio into transmitter mode, blocking until hardware
    /// confirms the transmit-idle state.
    pub fn into_transmitter(self) -> (r: Radio<Enabled<Transmitter>>)
        requires
            is_state_code(self@.state),
        ensures
            r@.state == STATE_TX_IDLE,
            same_config(self@, r@),
            r@.writes@ == self@.writes@ + 2,
    {
        let mut regs = self.regs;
        regs.task_disable();
        wait_state(&mut regs, STATE_DISABLED);

        regs.task_txen();
        wait_state(&mut regs, STATE_TX_IDLE);

        Radio { regs, _marker: PhantomData }
    }

    /// Enable a logical address for receiving. Multiple can be enabled at
    /// once by making use of [`Self::enable_rx_addresses`]. Enabling an
    /// address that is already enabled leaves the enabled set unchanged; one
    /// register write is issued either way.
    pub fn enable_rx_address(&mut self, address: Address)
        ensures
            final(self)@ == (RegisterBlock {
                rxaddresses: old(self)@.rxaddresses | (addr_rx_mask(address) as u32),
                writes: Ghost(old(self)@.writes@ + 1),
                ..old(self)@
            }),
    {
        let cur = self.regs.rxaddresses;
        let new_reg_value = cur | (address.into_rx_address() as u32);

        self.regs.write_rxaddresses(new_reg_value);
    }

    /// Disable a logical address for receiving. Multiple can be disabled at
    /// once by making use of [`Self::disable_rx_addresses`]. Disabling an
    /// address that is already disabled leaves the enabled set unchanged;
    /// one register write is issued either way.
    pub fn disable_rx_address(&mut self, address: Address)
        ensures
            final(self)@ == (RegisterBlock {
                rxaddresses: old(self)@.rxaddresses & !(addr_rx_mask(address) as u32),
                writes: Ghost(old(self)@.writes@ + 1),
                ..old(self)@
            }),
    {
        let cur = self.regs.rxaddresses;
        let mask = !(address.into_rx_address() as u32);
        let new_reg_value = cur & mask;

        self.regs.write_rxaddresses(new_reg_value);
    }

    /// Sets the logical addresses on which the radio should listen for
    /// packets. The resulting register value is calculated up front so that
    /// only one register write is needed; an empty set is a no-op and
    /// performs no register write at all.
    pub fn enable_rx_addresses(&mut self, addresses: &[Address])
        ensures
            addresses@.len() == 0 ==> final(self)@ == old(self)@,
            addresses@.len() > 0 ==> final(self)@ == (RegisterBlock {
                rxaddresses: old(self)@.rxaddresses | (combined_rx_mask(addresses@) as u32),
                writes: Ghost(old(self)@.writes@ + 1),
                ..old(self)@
            }),
    {
        if addresses.len() == 0 {
            return;
        }

        let mask = fold_rx_mask(addresses);

        let cur = self.regs.rxaddresses;
        let new_reg_value = cur | (mask as u32);

        self.regs.write_rxaddresses(new_reg_value);
    }

    /// Unsets the logical addresses on which the radio should listen for
    /// packets. The resulting register value is calculated up front so that
    /// only one register write is needed; an empty set is a no-op and
    /// performs no register write at all.
    pub fn disable_rx_addresses(&mut self, addresses: &[Address])
        ensures
            addresses@.len() == 0 ==> final(self)@ == old(self)@,
            addresses@.len() > 0 ==> final(self)@ == (RegisterBlock {
                rxaddresses: old(self)@.rxaddresses & !(combined_rx_mask(addresses@) as u32),
                writes: Ghost(old(self)@.writes@ + 1),
                ..old(self)@
            }),
    {
        if addresses.len() == 0 {
            return;
        }

        let mask = fold_rx_mask(addresses);

        let cur = self.regs.rxaddresses;
        let new_reg_value = cur & !(mask as u32);

        self.regs.write_rxaddresses(new_reg_value);
    }

    /// Disable all addresses for receiving
    pub fn disable_all_rx_addresses(&mut self)
        ensures
            final(self)@ == (RegisterBlock {
                rxaddresses: 0,
                writes: Ghost(old(self)@.writes@ + 1),
                ..old(self)@
            }),
    {
        self.regs.write_rxaddresses(0);
    }

    /// Get the receive addresses that are enabled on the radio. Only the
    /// eight address bits of the register are meaningful; the rest are never
    /// written by this software.
    pub fn rx_addresses(&self) -> (r: u8)
        requires
            self@.rxaddresses <= 0xFF,
        ensures
            r == self@.rxaddresses,
    {
        self.regs.rxaddresses as u8
    }

    /// Receives a packet, waiting for at most `cycles` polls of the STATE
    /// port before failing with [`Error::TimedOut`]. The packet's field
    /// widths are taken over from the packet configuration register; in this
    /// model of the peripheral the payload bytes come back zeroed.
    pub fn receive_packet_with_timeout(&mut self, cycles: u32) -> (r: Result<Packet, Error>)
        requires
            lflen_of(old(self)@.pcnf0) <= MAX_LENGTH_FIELD_BITS,
            s0len_of(old(self)@.pcnf0) <= MAX_S0_LENGTH_BITS,
            s1len_of(old(self)@.pcnf0) <= MAX_S1_LENGTH_BITS,
        ensures
            same_config(old(self)@, final(self)@),
            final(self)@.writes@ == old(self)@.writes@ + 1,
            final(self)@.state == poll_final_state(
                start_target(old(self)@.state),
                STATE_RX_IDLE,
                cycles,
            ),
            final(self)@.state_reads@ == old(self)@.state_reads@ + poll_reads(
                start_target(old(self)@.state),
                STATE_RX_IDLE,
                cycles,
            ),
            r is Ok <==> poll_result(start_target(old(self)@.state), STATE_RX_IDLE, cycles)
                is Ok,
            r matches Ok(p) ==> {
                &&& p.spec_lf_len().spec_bits() == lflen_of(old(self)@.pcnf0)
                &&& p.spec_s0_len().spec_bits() == s0len_of(old(self)@.pcnf0)
                &&& p.spec_s1_len().spec_bits() == s1len_of(old(self)@.pcnf0)
                &&& p.spec_buffer().len() == MAX_IN_MEMORY_PACKET_LENGTH
                &&& forall|i: int| 0 <= i < p.spec_buffer().len() ==> p.spec_buffer()[i] == 0u8
            },
            r matches Err(e) ==> Err::<(), Error>(e) == poll_result(
                start_target(old(self)@.state),
                STATE_RX_IDLE,
                cycles,
            ),
    {
        let mut p = Packet::new_zeroed();

        let lf_len = self.lf_len();
        let s0_len = self.s0_len();
        let s1_len = self.s1_len();

        p.set_lf_len(lf_len);
        p.set_s0_len(s0_len);
        p.set_s1_len(s1_len);

        self.regs.task_start();
        match wait_state_cycles(&mut self.regs, STATE_RX_IDLE, cycles) {
            Ok(_) => Ok(p),
            Err(e) => Err(e),
        }
    }

    /// Receives a packet, waiting as long as needed. This wait cannot be
    /// cancelled, so it may only be invoked where progress is guaranteed:
    /// the radio must be on its receive side.
    pub fn receive_packet(&mut self) -> (r: Result<Packet, Error>)
        requires
            lflen_of(old(self)@.pcnf0) <= MAX_LENGTH_FIELD_BITS,
            s0len_of(old(self)@.pcnf0) <= MAX_S0_LENGTH_BITS,
            s1len_of(old(self)@.pcnf0) <= MAX_S1_LENGTH_BITS,
            old(self)@.state == STATE_RX_IDLE || old(self)@.state == STATE_RX || old(
                self,
            )@.state == STATE_RX_RU,
        ensures
            same_config(old(self)@, final(self)@),
            final(self)@.state == STATE_RX_IDLE,
            r matches Ok(p) ==> {
                &&& p.spec_lf_len().spec_bits() == lflen_of(old(self)@.pcnf0)
                &&& p.spec_s0_len().spec_bits() == s0len_of(old(self)@.pcnf0)
                &&& p.spec_s1_len().spec_bits() == s1len_of(old(self)@.pcnf0)
                &&& p.spec_buffer().len() == MAX_IN_MEMORY_PACKET_LENGTH
                &&& forall|i: int| 0 <= i < p.spec_buffer().len() ==> p.spec_buffer()[i] == 0u8
            },
            r is Ok,
    {
        match self.receive_packet_with_timeout(u32::MAX) {
            Ok(p) => Ok(p),
            Err(_) => unreached(),
        }
    }
}

} // verus!
