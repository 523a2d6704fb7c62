//! Symbols related to sending and receiving packets

use vstd::prelude::*;

use crate::Error;

verus! {

/// Maximum length of the `S0`, `LENGTH`, `S1`, and `PAYLOAD` fields combined
pub const MAX_IN_MEMORY_PACKET_LENGTH: usize = 254;

/// Maximum length of the `LENGTH` field
pub const MAX_LENGTH_FIELD_BITS: u32 = 16;
/// Maximum length of the `S0` field
pub const MAX_S0_LENGTH_BITS: u32 = 8;
/// Maximum length of the `S1` field
pub const MAX_S1_LENGTH_BITS: u32 = 16;

/// The buffer that holds a packet
pub type PacketBuffer = [u8; MAX_IN_MEMORY_PACKET_LENGTH];

/// Struct containing the validated length of the `LENGTH` field
#[derive(Copy, Clone, PartialEq, Eq, Structural, Debug)]
pub struct LengthFieldLength(u32);

impl LengthFieldLength {
    /// The width in bits that this value stands for.
    pub closed spec fn spec_bits(self) -> u32 {
        self.0
    }

    /// A value of this type is valid when it does not exceed the field's
    /// defined bit-width maximum.
    pub open spec fn wf(self) -> bool {
        self.spec_bits() <= MAX_LENGTH_FIELD_BITS
    }

    /// Convert `len` to this value, checking that `len` is in bounds of the
    /// field: at most [`MAX_LENGTH_FIELD_BITS`] bits.
    pub fn from_bits(len: u32) -> (r: Result<Self, Error>)
        ensures
            r is Ok <==> len <= MAX_LENGTH_FIELD_BITS,
            r matches Ok(l) ==> l.spec_bits() == len && l.wf(),
            len > MAX_LENGTH_FIELD_BITS ==> r == Err::<LengthFieldLength, Error>(
                Error::ValueOutOfBounds,
            ),
    {
        if len > MAX_LENGTH_FIELD_BITS {
            Err(Error::ValueOutOfBounds)
        } else {
            Ok(LengthFieldLength(len))
        }
    }

    /// The width in bits as a plain number.
    pub fn bits(&self) -> (r: u32)
        ensures
            r == self.spec_bits(),
    {
        self.0
    }
}

/// Struct containing the validated length of the `S0` field
#[derive(Copy, Clone, PartialEq, Eq, Structural, Debug)]
pub struct S0FieldLength(u32);

impl S0FieldLength {
    /// The width in bits that this value stands for.
    pub closed spec fn spec_bits(self) -> u32 {
        self.0
    }

    /// A value of this type is valid when it does not exceed the field's
    /// defined bit-width maximum.
    pub open spec fn wf(self) -> bool {
        self.spec_bits() <= MAX_S0_LENGTH_BITS
    }

    /// Convert `len` to this value, checking that `len` is in bounds of the
    /// field: at most [`MAX_S0_LENGTH_BITS`] bits.
    pub fn from_bits(len: u32) -> (r: Result<Self, Error>)
        ensures
            r is Ok <==> len <= MAX_S0_LENGTH_BITS,
            r matches Ok(l) ==> l.spec_bits() == len && l.wf(),
            len > MAX_S0_LENGTH_BITS ==> r == Err::<S0FieldLength, Error>(
                Error::ValueOutOfBounds,
            ),
    {
        if len > MAX_S0_LENGTH_BITS {
            Err(Error::ValueOutOfBounds)
        } else {
            Ok(S0FieldLength(len))
        }
    }

    /// The width in bits as a plain number.
    pub fn bits(&self) -> (r: u32)
        ensures
            r == self.spec_bits(),
    {
        self.0
    }
}

/// Struct containing the validated length of the `S1` field
#[derive(Copy, Clone, PartialEq, Eq, Structural, Debug)]
pub struct S1FieldLength(u32);

impl S1FieldLength {
    /// The width in bits that this value stands for.
    pub closed spec fn spec_bits(self) -> u32 {
        self.0
    }

    /// A value of this type is valid when it does not exceed the field's
    /// defined bit-width maximum.
    pub open spec fn wf(self) -> bool {
        self.spec_bits() <= MAX_S1_LENGTH_BITS
    }

    /// Convert `len` to this value, checking that `len` is in bounds of the
    /// field: at most [`MAX_S1_LENGTH_BITS`] bits.
    pub fn from_bits(len: u32) -> (r: Result<Self, Error>)
        ensures
            r is Ok <==> len <= MAX_S1_LENGTH_BITS,
            r matches Ok(l) ==> l.spec_bits() == len && l.wf(),
            len > MAX_S1_LENGTH_BITS ==> r == Err::<S1FieldLength, Error>(
                Error::ValueOutOfBounds,
            ),
    {
        if len > MAX_S1_LENGTH_BITS {
            Err(Error::ValueOutOfBounds)
        } else {
            Ok(S1FieldLength(len))
        }
    }

    /// The width in bits as a plain number.
    pub fn bits(&self) -> (r: u32)
        ensures
            r == self.spec_bits(),
    {
        self.0
    }
}

/// A packet that can be handed to the radio for transmission, or filled in
/// by the radio on reception
///
/// The peripheral is only ever given the buffer's base address for the
/// duration of one operation; ownership stays with the caller.
#[derive(Clone, PartialEq, Eq, Debug)]
pub struct Packet {
    buffer: PacketBuffer,
    lf_len: LengthFieldLength,
    s0_len: S0FieldLength,
    s1_len: S1FieldLength,
}

impl Packet {
    /// The bytes of the in-memory buffer.
    pub closed spec fn spec_buffer(self) -> Seq<u8> {
        self.buffer@
    }

    /// The configured `LENGTH` field width.
    pub closed spec fn spec_lf_len(self) -> LengthFieldLength {
        self.lf_len
    }

    /// The configured `S0` field width.
    pub closed spec fn spec_s0_len(self) -> S0FieldLength {
        self.s0_len
    }

    /// The configured `S1` field width.
    pub closed spec fn spec_s1_len(self) -> S1FieldLength {
        self.s1_len
    }

    /// Constructs a new, zeroed out packet: every buffer byte is zero and
    /// the three field widths default to zero bits.
    pub fn new_zeroed() -> (r: Self)
        ensures
            r.spec_buffer().len() == MAX_IN_MEMORY_PACKET_LENGTH,
            forall|i: int|
                0 <= i < MAX_IN_MEMORY_PACKET_LENGTH ==> r.spec_buffer()[i] == 0u8,
            r.spec_lf_len().spec_bits() == 0,
            r.spec_s0_len().spec_bits() == 0,
            r.spec_s1_len().spec_bits() == 0,
    {
        let buf: PacketBuffer = [0; MAX_IN_MEMORY_PACKET_LENGTH];

        Packet {
            buffer: buf,
            lf_len: LengthFieldLength(0),
            s0_len: S0FieldLength(0),
            s1_len: S1FieldLength(0),
        }
    }

    /// Set the length of the `LENGTH` field
    pub fn set_lf_len(&mut self, len: LengthFieldLength)
        ensures
            final(self).spec_lf_len() == len,
            final(self).spec_s0_len() == old(self).spec_s0_len(),
            final(self).spec_s1_len() == old(self).spec_s1_len(),
            final(self).spec_buffer() == old(self).spec_buffer(),
    {
        self.lf_len = len;
    }

    /// Set the length of the `S0` field
    pub fn set_s0_len(&mut self, len: S0FieldLength)
        ensures
            final(self).spec_s0_len() == len,
            final(self).spec_lf_len() == old(self).spec_lf_len(),
            final(self).spec_s1_len() == old(self).spec_s1_len(),
            final(self).spec_buffer() == old(self).spec_buffer(),
    {
        self.s0_len = len;
    }

    /// Set the length of the `S1` field
    pub fn set_s1_len(&mut self, len: S1FieldLength)
        ensures
            final(self).spec_s1_len() == len,
            final(self).spec_lf_len() == old(self).spec_lf_len(),
            final(self).spec_s0_len() == old(self).spec_s0_len(),
            final(self).spec_buffer() == old(self).spec_buffer(),
    {
        self.s1_len = len;
    }

    /// The configured `LENGTH` field width.
    pub fn lf_len(&self) -> (r: LengthFieldLength)
        ensures
            r == self.spec_lf_len(),
    {
        self.lf_len
    }

    /// The configured `S0` field width.
    pub fn s0_len(&self) -> (r: S0FieldLength)
        ensures
            r == self.spec_s0_len(),
    {
        self.s0_len
    }

    /// The configured `S1` field width.
    pub fn s1_len(&self) -> (r: S1FieldLength)
        ensures
            r == self.spec_s1_len(),
    {
        self.s1_len
    }

    /// Borrow the inner buffer. The environment that drives the physical
    /// peripheral hands the buffer's base address to the radio; the buffer
    /// must then stay untouched by other code for the full duration the
    /// peripheral holds that address.
    pub fn buf(&self) -> (r: &PacketBuffer)
        ensures
            r@ == self.spec_buffer(),
    {
        &self.buffer
    }

    /// Borrow the inner buffer mutably, to fill in a payload before a
    /// transmission or to read one out after a reception.
    pub fn buf_mut(&mut self) -> (r: &mut PacketBuffer)
        ensures
            r@ == old(self).spec_buffer(),
            final(self).spec_buffer() == final(r)@,
            final(self).spec_lf_len() == old(self).spec_lf_len(),
            final(self).spec_s0_len() == old(self).spec_s0_len(),
            final(self).spec_s1_len() == old(self).spec_s1_len(),
    {
        &mut self.buffer
    }
}

} // verus!
