//! A plain-data model of the radio peripheral's register file.
//!
//! The real peripheral exposes these ports as memory-mapped registers; this
//! module holds their software-visible values as ordinary fields so that the
//! driver logic above them can be specified and verified. Command ports
//! (disable / receive-enable / transmit-enable / start) do not change the
//! observed state instantly: the hardware ramps through a transient state and
//! settles only while being polled. [`RegisterBlock::step`] models that
//! settling, and it is driven from the busy-wait loops that poll the STATE
//! port.
//!
//! Two ghost counters record the interactions the driver performs: `writes`
//! counts register write transactions and `state_reads` counts the polls of
//! the STATE port made by the busy-wait loops. They let contracts state
//! protocols such as "a batched update issues exactly one register write"
//! and "a wait with no budget performs no hardware read".

use vstd::prelude::*;

use crate::enums::STATE_DISABLED;
use crate::enums::STATE_RX;
use crate::enums::STATE_RX_DISABLE;
use crate::enums::STATE_RX_IDLE;
use crate::enums::STATE_RX_RU;
use crate::enums::STATE_TX;
use crate::enums::STATE_TX_DISABLE;
use crate::enums::STATE_TX_IDLE;
use crate::enums::STATE_TX_RU;

verus! {

/// The software-visible model of the peripheral's register file.
///
/// Fields are public: they are the raw port values, and the environment that
/// drives the physical peripheral may refresh them from a live snapshot at
/// any time. Validation happens when a port is read back through the typed
/// accessors of the driver, never on the raw value itself.
pub struct RegisterBlock {
    /// FREQUENCY port: channel offset from the base frequency, 0 to 100.
    pub frequency: u32,
    /// MODE port: protocol/speed selection, two bits used.
    pub mode: u32,
    /// TXPOWER port: one of eight discrete power codes.
    pub txpower: u32,
    /// TXADDRESS port: index of the logical address to transmit from, 0 to 7.
    pub txaddress: u32,
    /// RXADDRESSES port: bitmask of logical addresses enabled for reception,
    /// eight bits used.
    pub rxaddresses: u32,
    /// Interrupt-enable port: bitmask of enabled interrupt sources, nine bits
    /// used out of 32.
    pub intenset: u32,
    /// Packet-configuration port holding the three packet sub-field lengths:
    /// the LENGTH field width in its low byte, the S0 field width in its
    /// second byte and the S1 field width in its third byte.
    pub pcnf0: u32,
    /// Packet-configuration port holding the on-air endianness in bit 24.
    pub pcnf1: u32,
    /// PACKETPTR port: base address of the in-memory packet buffer.
    pub packetptr: u32,
    /// STATE port: the live operating state reported by the hardware.
    pub state: u32,
    /// Ghost count of register write transactions issued by the driver.
    pub writes: Ghost<nat>,
    /// Ghost count of polls of the STATE port made by the busy-wait loops.
    pub state_reads: Ghost<nat>,
}

/// The two register files hold the same configuration: every port except the
/// hardware-owned STATE port and the ghost interaction counters is equal.
pub open spec fn same_config(a: RegisterBlock, b: RegisterBlock) -> bool {
    &&& a.frequency == b.frequency
    &&& a.mode == b.mode
    &&& a.txpower == b.txpower
    &&& a.txaddress == b.txaddress
    &&& a.rxaddresses == b.rxaddresses
    &&& a.intenset == b.intenset
    &&& a.pcnf0 == b.pcnf0
    &&& a.pcnf1 == b.pcnf1
    &&& a.packetptr == b.packetptr
}

/// The LENGTH field width packed into the low byte of the packet
/// configuration port.
pub open spec fn lflen_of(pcnf0: u32) -> u32 {
    pcnf0 & 0xFF
}

/// The S0 field width packed into the second byte of the packet
/// configuration port.
pub open spec fn s0len_of(pcnf0: u32) -> u32 {
    (pcnf0 >> 8) & 0xFF
}

/// The S1 field width packed into the third byte of the packet
/// configuration port.
pub open spec fn s1len_of(pcnf0: u32) -> u32 {
    (pcnf0 >> 16) & 0xFF
}

/// The endianness bit packed into bit 24 of the second packet configuration
/// port.
pub open spec fn endian_of(pcnf1: u32) -> u32 {
    (pcnf1 >> 24) & 1
}

/// The state the hardware reports right after the disable command: a running
/// side ramps down through its disabling state, a disabled radio stays
/// disabled, and a corrupt code is left as it is.
pub open spec fn disable_target(s: u32) -> u32 {
    if s == STATE_RX_RU || s == STATE_RX_IDLE || s == STATE_RX || s == STATE_RX_DISABLE {
        STATE_RX_DISABLE
    } else if s == STATE_TX_RU || s == STATE_TX_IDLE || s == STATE_TX || s == STATE_TX_DISABLE {
        STATE_TX_DISABLE
    } else {
        s
    }
}

/// The state the hardware reports right after the receive-enable command:
/// only a disabled radio starts ramping up into receive mode.
pub open spec fn rxen_target(s: u32) -> u32 {
    if s == STATE_DISABLED {
        STATE_RX_RU
    } else {
        s
    }
}

/// The state the hardware reports right after the transmit-enable command:
/// only a disabled radio starts ramping up into transmit mode.
pub open spec fn txen_target(s: u32) -> u32 {
    if s == STATE_DISABLED {
        STATE_TX_RU
    } else {
        s
    }
}

/// The state the hardware reports right after the start command: an idle
/// side becomes active, any other state is unaffected.
pub open spec fn start_target(s: u32) -> u32 {
    if s == STATE_RX_IDLE {
        STATE_RX
    } else if s == STATE_TX_IDLE {
        STATE_TX
    } else {
        s
    }
}

/// One settling step of the hardware while it is being polled: a transient
/// state reaches its resting state, a resting or corrupt state stays put.
pub open spec fn stepped(s: u32) -> u32 {
    if s == STATE_RX_RU || s == STATE_RX {
        STATE_RX_IDLE
    } else if s == STATE_TX_RU || s == STATE_TX {
        STATE_TX_IDLE
    } else if s == STATE_RX_DISABLE || s == STATE_TX_DISABLE {
        STATE_DISABLED
    } else {
        s
    }
}

impl RegisterBlock {
    /// A register file with every port zeroed, as after a reset: the radio is
    /// disabled and nothing is configured.
    pub fn new() -> (r: RegisterBlock)
        ensures
            r == (RegisterBlock {
                frequency: 0,
                mode: 0,
                txpower: 0,
                txaddress: 0,
                rxaddresses: 0,
                intenset: 0,
                pcnf0: 0,
                pcnf1: 0,
                packetptr: 0,
                state: 0,
                writes: Ghost(0),
                state_reads: Ghost(0),
            }),
    {
        RegisterBlock {
            frequency: 0,
            mode: 0,
            txpower: 0,
            txaddress: 0,
            rxaddresses: 0,
            intenset: 0,
            pcnf0: 0,
            pcnf1: 0,
            packetptr: 0,
            state: 0,
            writes: Ghost(0),
            state_reads: Ghost(0),
        }
    }

    /// Poll the STATE port once.
    pub fn read_state(&mut self) -> (r: u32)
        ensures
            r == old(self).state,
            *final(self) == (RegisterBlock {
                state_reads: Ghost(old(self).state_reads@ + 1),
                ..*old(self)
            }),
    {
        let r = self.state;
        self.state_reads = Ghost(self.state_reads@ + 1);
        r
    }

    /// One settling step of the hardware while the driver busy-waits; no
    /// driver interaction is involved.
    pub(crate) fn step(&mut self)
        ensures
            *final(self) == (RegisterBlock { state: stepped(old(self).state), ..*old(self) }),
    {
        let s = self.state;
        self.state = if s == STATE_RX_RU || s == STATE_RX {
            STATE_RX_IDLE
        } else if s == STATE_TX_RU || s == STATE_TX {
            STATE_TX_IDLE
        } else if s == STATE_RX_DISABLE || s == STATE_TX_DISABLE {
            STATE_DISABLED
        } else {
            s
        };
    }

    /// Write the disable command port.
    pub fn task_disable(&mut self)
        ensures
            *final(self) == (RegisterBlock {
                state: disable_target(old(self).state),
                writes: Ghost(old(self).writes@ + 1),
                ..*old(self)
            }),
    {
        let s = self.state;
        self.state = if s == STATE_RX_RU || s == STATE_RX_IDLE || s == STATE_RX
            || s == STATE_RX_DISABLE {
            STATE_RX_DISABLE
        } else if s == STATE_TX_RU || s == STATE_TX_IDLE || s == STATE_TX
            || s == STATE_TX_DISABLE {
            STATE_TX_DISABLE
        } else {
            s
        };
        self.writes = Ghost(self.writes@ + 1);
    }

    /// Write the receive-enable command port.
    pub fn task_rxen(&mut self)
        ensures
            *final(self) == (RegisterBlock {
                state: rxen_target(old(self).state),
                writes: Ghost(old(self).writes@ + 1),
                ..*old(self)
            }),
    {
        if self.state == STATE_DISABLED {
            self.state = STATE_RX_RU;
        }
        self.writes = Ghost(self.writes@ + 1);
    }

    /// Write the transmit-enable command port.
    pub fn task_txen(&mut self)
        ensures
            *final(self) == (RegisterBlock {
                state: txen_target(old(self).state),
                writes: Ghost(old(self).writes@ + 1),
                ..*old(self)
            }),
    {
        if self.state == STATE_DISABLED {
            self.state = STATE_TX_RU;
        }
        self.writes = Ghost(self.writes@ + 1);
    }

    /// Write the start command port.
    pub fn task_start(&mut self)
        ensures
            *final(self) == (RegisterBlock {
                state: start_target(old(self).state),
                writes: Ghost(old(self).writes@ + 1),
                ..*old(self)
            }),
    {
        if self.state == STATE_RX_IDLE {
            self.state = STATE_RX;
        } else if self.state == STATE_TX_IDLE {
            self.state = STATE_TX;
        }
        self.writes = Ghost(self.writes@ + 1);
    }

    /// Write the FREQUENCY port.
    pub fn write_frequency(&mut self, v: u32)
        ensures
            *final(self) == (RegisterBlock {
                frequency: v,
                writes: Ghost(old(self).writes@ + 1),
                ..*old(self)
            }),
    {
        self.frequency = v;
        self.writes = Ghost(self.writes@ + 1);
    }

    /// Write the MODE port.
    pub fn write_mode(&mut self, v: u32)
        ensures
            *final(self) == (RegisterBlock {
                mode: v,
                writes: Ghost(old(self).writes@ + 1),
                ..*old(self)
            }),
    {
        self.mode = v;
        self.writes = Ghost(self.writes@ + 1);
    }

    /// Write the TXPOWER port.
    pub fn write_txpower(&mut self, v: u32)
        ensures
            *final(self) == (RegisterBlock {
                txpower: v,
                writes: Ghost(old(self).writes@ + 1),
                ..*old(self)
            }),
    {
        self.txpower = v;
        self.writes = Ghost(self.writes@ + 1);
    }

    /// Write the TXADDRESS port.
    pub fn write_txaddress(&mut self, v: u32)
        ensures
            *final(self) == (RegisterBlock {
                txaddress: v,
                writes: Ghost(old(self).writes@ + 1),
                ..*old(self)
            }),
    {
        self.txaddress = v;
        self.writes = Ghost(self.writes@ + 1);
    }

    /// Write the RXADDRESSES port.
    pub fn write_rxaddresses(&mut self, v: u32)
        ensures
            *final(self) == (RegisterBlock {
                rxaddresses: v,
                writes: Ghost(old(self).writes@ + 1),
                ..*old(self)
            }),
    {
        self.rxaddresses = v;
        self.writes = Ghost(self.writes@ + 1);
    }

    /// Write the interrupt-enable port.
    pub fn write_intenset(&mut self, v: u32)
        ensures
            *final(self) == (RegisterBlock {
                intenset: v,
                writes: Ghost(old(self).writes@ + 1),
                ..*old(self)
            }),
    {
        self.intenset = v;
        self.writes = Ghost(self.writes@ + 1);
    }

    /// Write the PACKETPTR port.
    pub fn write_packetptr(&mut self, v: u32)
        ensures
            *final(self) == (RegisterBlock {
                packetptr: v,
                writes: Ghost(old(self).writes@ + 1),
                ..*old(self)
            }),
    {
        self.packetptr = v;
        self.writes = Ghost(self.writes@ + 1);
    }

    /// Write the LENGTH field width subfield of the packet configuration
    /// port, leaving the other subfields as they are.
    pub fn write_lflen(&mut self, bits: u32)
        requires
            bits <= 0xFF,
        ensures
            *final(self) == (RegisterBlock {
                pcnf0: (old(self).pcnf0 & !0xFFu32) | bits,
                writes: Ghost(old(self).writes@ + 1),
                ..*old(self)
            }),
            lflen_of(final(self).pcnf0) == bits,
            s0len_of(final(self).pcnf0) == s0len_of(old(self).pcnf0),
            s1len_of(final(self).pcnf0) == s1len_of(old(self).pcnf0),
    {
        proof {
            let v = self.pcnf0;
            assert(((v & !0xFFu32) | bits) & 0xFF == bits) by (bit_vector)
                requires
                    bits <= 0xFF,
            ;
            assert((((v & !0xFFu32) | bits) >> 8) & 0xFF == (v >> 8) & 0xFF) by (bit_vector)
                requires
                    bits <= 0xFF,
            ;
            assert((((v & !0xFFu32) | bits) >> 16) & 0xFF == (v >> 16) & 0xFF) by (bit_vector)
                requires
                    bits <= 0xFF,
            ;
        }
        self.pcnf0 = (self.pcnf0 & !0xFFu32) | bits;
        self.writes = Ghost(self.writes@ + 1);
    }

    /// Write the endianness bit of the second packet configuration port,
    /// leaving the rest of the port as it is.
    pub fn write_endian(&mut self, bit: u32)
        requires
            bit <= 1,
        ensures
            *final(self) == (RegisterBlock {
                pcnf1: (old(self).pcnf1 & !0x0100_0000u32) | (bit << 24),
                writes: Ghost(old(self).writes@ + 1),
                ..*old(self)
            }),
            endian_of(final(self).pcnf1) == bit,
    {
        proof {
            let v = self.pcnf1;
            assert((((v & !0x0100_0000u32) | (bit << 24)) >> 24) & 1 == bit) by (bit_vector)
                requires
                    bit <= 1,
            ;
        }
        self.pcnf1 = (self.pcnf1 & !0x0100_0000u32) | (bit << 24);
        self.writes = Ghost(self.writes@ + 1);
    }
}

} // verus!
