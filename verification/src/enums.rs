//! Enumerations mirroring the radio peripheral's register encodings: the
//! operating-state readout, transmission power, protocol mode, logical
//! addresses, endianness and hardware events. Each closed enumeration maps
//! 1:1 to the bit pattern the hardware understands; the mapping is made
//! explicit through `code`/`from_code` pairs so that contracts can speak
//! about raw register values.

use vstd::prelude::*;

verus! {

/// Raw STATE register code for a disabled radio.
pub const STATE_DISABLED: u32 = 0;
/// Raw STATE register code while the radio ramps up into receive mode.
pub const STATE_RX_RU: u32 = 1;
/// Raw STATE register code while the radio waits to receive.
pub const STATE_RX_IDLE: u32 = 2;
/// Raw STATE register code while the radio is receiving.
pub const STATE_RX: u32 = 3;
/// Raw STATE register code while the radio is being disabled out of receive mode.
pub const STATE_RX_DISABLE: u32 = 4;
/// Raw STATE register code while the radio ramps up into transmit mode.
pub const STATE_TX_RU: u32 = 9;
/// Raw STATE register code while the radio waits to transmit.
pub const STATE_TX_IDLE: u32 = 10;
/// Raw STATE register code while the radio is transmitting.
pub const STATE_TX: u32 = 11;
/// Raw STATE register code while the radio is being disabled out of transmit mode.
pub const STATE_TX_DISABLE: u32 = 12;

/// Radio state; useful for determining whether it's in `Tx`, `Rx`, or `Disabled` mode
#[derive(Copy, Clone, PartialEq, Eq, Structural, Debug)]
pub enum State {
    /// The radio is disabled
    Disabled,
    /// The radio is ramping up into `Rx`
    RxRu,
    /// The radio is waiting to receive something
    RxIdle,
    /// The radio is receiving something
    Rx,
    /// The radio is being disabled while in `Rx`
    RxDisable,
    /// The radio is ramping up to transmit something
    TxRu,
    /// The radio is waiting to transmit something
    TxIdle,
    /// The radio is transmitting something
    Tx,
    /// The radio is being disabled while in `Tx`
    TxDisable,
}

/// The raw STATE register code that stands for `s`.
pub open spec fn state_code(s: State) -> u32 {
    match s {
        State::Disabled => STATE_DISABLED,
        State::RxRu => STATE_RX_RU,
        State::RxIdle => STATE_RX_IDLE,
        State::Rx => STATE_RX,
        State::RxDisable => STATE_RX_DISABLE,
        State::TxRu => STATE_TX_RU,
        State::TxIdle => STATE_TX_IDLE,
        State::Tx => STATE_TX,
        State::TxDisable => STATE_TX_DISABLE,
    }
}

/// Whether `c` is one of the nine defined STATE register codes.
pub open spec fn is_state_code(c: u32) -> bool {
    ||| c == STATE_DISABLED
    ||| c == STATE_RX_RU
    ||| c == STATE_RX_IDLE
    ||| c == STATE_RX
    ||| c == STATE_RX_DISABLE
    ||| c == STATE_TX_RU
    ||| c == STATE_TX_IDLE
    ||| c == STATE_TX
    ||| c == STATE_TX_DISABLE
}

/// The state that a STATE register code decodes to, if it is defined.
pub open spec fn spec_state_from_code(c: u32) -> Option<State> {
    if c == STATE_DISABLED {
        Some(State::Disabled)
    } else if c == STATE_RX_RU {
        Some(State::RxRu)
    } else if c == STATE_RX_IDLE {
        Some(State::RxIdle)
    } else if c == STATE_RX {
        Some(State::Rx)
    } else if c == STATE_RX_DISABLE {
        Some(State::RxDisable)
    } else if c == STATE_TX_RU {
        Some(State::TxRu)
    } else if c == STATE_TX_IDLE {
        Some(State::TxIdle)
    } else if c == STATE_TX {
        Some(State::Tx)
    } else if c == STATE_TX_DISABLE {
        Some(State::TxDisable)
    } else {
        None
    }
}

impl State {
    /// The raw STATE register code for this state.
    pub fn code(self) -> (r: u32)
        ensures
            r == state_code(self),
    {
        match self {
            State::Disabled => STATE_DISABLED,
            State::RxRu => STATE_RX_RU,
            State::RxIdle => STATE_RX_IDLE,
            State::Rx => STATE_RX,
            State::RxDisable => STATE_RX_DISABLE,
            State::TxRu => STATE_TX_RU,
            State::TxIdle => STATE_TX_IDLE,
            State::Tx => STATE_TX,
            State::TxDisable => STATE_TX_DISABLE,
        }
    }

    /// Decode a raw STATE register code; `None` if the code is not one of the
    /// nine defined values.
    pub fn from_code(c: u32) -> (r: Option<State>)
        ensures
            r == spec_state_from_code(c),
            r is Some <==> is_state_code(c),
            r is Some ==> state_code(r->0) == c,
    {
        if c == STATE_DISABLED {
            Some(State::Disabled)
        } else if c == STATE_RX_RU {
            Some(State::RxRu)
        } else if c == STATE_RX_IDLE {
            Some(State::RxIdle)
        } else if c == STATE_RX {
            Some(State::Rx)
        } else if c == STATE_RX_DISABLE {
            Some(State::RxDisable)
        } else if c == STATE_TX_RU {
            Some(State::TxRu)
        } else if c == STATE_TX_IDLE {
            Some(State::TxIdle)
        } else if c == STATE_TX {
            Some(State::Tx)
        } else if c == STATE_TX_DISABLE {
            Some(State::TxDisable)
        } else {
            None
        }
    }
}

/// Transmission power
#[derive(Copy, Clone, PartialEq, Eq, Structural, Debug)]
#[allow(missing_docs)]
pub enum TxPower {
    Pos4dBm,
    _0dBm,
    Neg4dBm,
    Neg8dBm,
    Neg12dBm,
    Neg16dBm,
    Neg20dBm,
    Neg30dBm,
}

/// The raw TXPOWER register code that stands for `p`.
pub open spec fn tx_power_code(p: TxPower) -> u32 {
    match p {
        TxPower::Pos4dBm => 0x04,
        TxPower::_0dBm => 0x00,
        TxPower::Neg4dBm => 0xFC,
        TxPower::Neg8dBm => 0xF8,
        TxPower::Neg12dBm => 0xF4,
        TxPower::Neg16dBm => 0xF0,
        TxPower::Neg20dBm => 0xEC,
        TxPower::Neg30dBm => 0xD8,
    }
}

/// The power level that a TXPOWER register code decodes to, if it is defined.
pub open spec fn spec_tx_power_from_code(c: u32) -> Option<TxPower> {
    if c == 0x04 {
        Some(TxPower::Pos4dBm)
    } else if c == 0x00 {
        Some(TxPower::_0dBm)
    } else if c == 0xFC {
        Some(TxPower::Neg4dBm)
    } else if c == 0xF8 {
        Some(TxPower::Neg8dBm)
    } else if c == 0xF4 {
        Some(TxPower::Neg12dBm)
    } else if c == 0xF0 {
        Some(TxPower::Neg16dBm)
    } else if c == 0xEC {
        Some(TxPower::Neg20dBm)
    } else if c == 0xD8 {
        Some(TxPower::Neg30dBm)
    } else {
        None
    }
}

impl TxPower {
    /// The raw TXPOWER register code for this power level.
    pub fn code(self) -> (r: u32)
        ensures
            r == tx_power_code(self),
    {
        match self {
            TxPower::Pos4dBm => 0x04,
            TxPower::_0dBm => 0x00,
            TxPower::Neg4dBm => 0xFC,
            TxPower::Neg8dBm => 0xF8,
            TxPower::Neg12dBm => 0xF4,
            TxPower::Neg16dBm => 0xF0,
            TxPower::Neg20dBm => 0xEC,
            TxPower::Neg30dBm => 0xD8,
        }
    }

    /// Decode a raw TXPOWER register code; `None` if the code is not one of
    /// the eight discrete levels.
    pub fn from_code(c: u32) -> (r: Option<TxPower>)
        ensures
            r == spec_tx_power_from_code(c),
            r is Some ==> tx_power_code(r->0) == c,
    {
        if c == 0x04 {
            Some(TxPower::Pos4dBm)
        } else if c == 0x00 {
            Some(TxPower::_0dBm)
        } else if c == 0xFC {
            Some(TxPower::Neg4dBm)
        } else if c == 0xF8 {
            Some(TxPower::Neg8dBm)
        } else if c == 0xF4 {
            Some(TxPower::Neg12dBm)
        } else if c == 0xF0 {
            Some(TxPower::Neg16dBm)
        } else if c == 0xEC {
            Some(TxPower::Neg20dBm)
        } else if c == 0xD8 {
            Some(TxPower::Neg30dBm)
        } else {
            None
        }
    }
}

/// The different protocols and speeds supported by the radio. The `Nrf` modes
/// are the vendor's proprietary implementations, while `Ble1Mbit` is just
/// Bluetooth low energy.
#[derive(Copy, Clone, PartialEq, Eq, Structural, Debug)]
#[allow(missing_docs)]
pub enum Mode {
    Nrf1Mbit,
    Nrf2Mbit,
    Nrf250Kbit,
    Ble1Mbit,
}

/// The raw MODE register code that stands for `m`.
pub open spec fn mode_code(m: Mode) -> u32 {
    match m {
        Mode::Nrf1Mbit => 0,
        Mode::Nrf2Mbit => 1,
        Mode::Nrf250Kbit => 2,
        Mode::Ble1Mbit => 3,
    }
}

/// The mode that a two-bit MODE register field decodes to.
pub open spec fn spec_mode_from_code(c: u32) -> Option<Mode> {
    if c == 0 {
        Some(Mode::Nrf1Mbit)
    } else if c == 1 {
        Some(Mode::Nrf2Mbit)
    } else if c == 2 {
        Some(Mode::Nrf250Kbit)
    } else if c == 3 {
        Some(Mode::Ble1Mbit)
    } else {
        None
    }
}

impl Mode {
    /// The raw MODE register code for this mode.
    pub fn code(self) -> (r: u32)
        ensures
            r == mode_code(self),
    {
        match self {
            Mode::Nrf1Mbit => 0,
            Mode::Nrf2Mbit => 1,
            Mode::Nrf250Kbit => 2,
            Mode::Ble1Mbit => 3,
        }
    }

    /// Decode a raw MODE register code; `None` above the two-bit range.
    pub fn from_code(c: u32) -> (r: Option<Mode>)
        ensures
            r == spec_mode_from_code(c),
            r is Some <==> c <= 3,
            r is Some ==> mode_code(r->0) == c,
    {
        if c == 0 {
            Some(Mode::Nrf1Mbit)
        } else if c == 1 {
            Some(Mode::Nrf2Mbit)
        } else if c == 2 {
            Some(Mode::Nrf250Kbit)
        } else if c == 3 {
            Some(Mode::Ble1Mbit)
        } else {
            None
        }
    }
}

/// Set the order of bits of the `S0`, `LENGTH`, `S1`, and `PAYLOAD` fields.
#[derive(Copy, Clone, PartialEq, Eq, Structural, Debug)]
pub enum Endianness {
    /// Least significant bit on air first
    Little,
    /// Most significant bit on air first
    Big,
}

/// The single-bit register encoding of `e`.
pub open spec fn endianness_code(e: Endianness) -> u32 {
    match e {
        Endianness::Little => 0,
        Endianness::Big => 1,
    }
}

/// The endianness that a single-bit register field decodes to.
pub open spec fn spec_endianness_from_code(c: u32) -> Option<Endianness> {
    if c == 0 {
        Some(Endianness::Little)
    } else if c == 1 {
        Some(Endianness::Big)
    } else {
        None
    }
}

impl Endianness {
    /// The single-bit register encoding of this endianness.
    pub fn code(self) -> (r: u32)
        ensures
            r == endianness_code(self),
    {
        match self {
            Endianness::Little => 0,
            Endianness::Big => 1,
        }
    }

    /// Decode a single-bit endianness field.
    pub fn from_code(c: u32) -> (r: Option<Endianness>)
        ensures
            r == spec_endianness_from_code(c),
            r is Some <==> c <= 1,
            r is Some ==> endianness_code(r->0) == c,
    {
        if c == 0 {
            Some(Endianness::Little)
        } else if c == 1 {
            Some(Endianness::Big)
        } else {
            None
        }
    }
}

/// **Basically** simpler representations of in-air physical addresses.
#[derive(Copy, Clone, PartialEq, Eq, Structural, Debug)]
#[allow(missing_docs)]
pub enum LogicalAddress {
    _0,
    _1,
    _2,
    _3,
    _4,
    _5,
    _6,
    _7,
}

/// Events emitted by the radio when certain things happen.
///
/// A good example is the `END` event that is emitted **when a packet is
/// received,** and at the end of the transmission of a packet.
#[derive(Copy, Clone, PartialEq, Eq, Structural, Debug)]
pub enum Event {
    /// RADIO has ramped up and is ready to be started
    Ready,
    /// Address sent or received
    Address,
    /// Packet payload sent or received
    Payload,
    /// Packet sent or received
    End,
    /// RADIO has been disabled
    Disabled,
    /// A device address match occurred on the last received packet
    DevMatch,
    /// No device address match occurred on the last received packet
    DevMiss,
    /// Sampling of receive signal strength complete. A new RSSI sample is
    /// ready for readout from the RSSISAMPLE register
    RSSIEnd,
    /// Bit counter reached bit count value specified in the BCC register
    BCMatch,
}

} // verus!
