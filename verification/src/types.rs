//! Core types for the J1939 protocol.

use vstd::prelude::*;

verus! {

/// Data type for SPN values.
#[derive(Clone, Copy, Debug, PartialEq, Eq, Structural)]
pub enum SpnDataType {
    /// Unsigned 8-bit integer.
    Uint8,
    /// Unsigned 16-bit integer.
    Uint16,
    /// Unsigned 32-bit integer.
    Uint32,
    /// Signed 8-bit integer.
    Int8,
    /// Signed 16-bit integer.
    Int16,
    /// Signed 32-bit integer.
    Int32,
}

impl SpnDataType {
    /// Number of payload bytes a value of this type occupies.
    pub open spec fn spec_byte_width(self) -> usize {
        match self {
            SpnDataType::Uint8 | SpnDataType::Int8 => 1,
            SpnDataType::Uint16 | SpnDataType::Int16 => 2,
            SpnDataType::Uint32 | SpnDataType::Int32 => 4,
        }
    }

    /// Whether values of this type are two's-complement signed.
    pub open spec fn spec_is_signed(self) -> bool {
        match self {
            SpnDataType::Int8 | SpnDataType::Int16 | SpnDataType::Int32 => true,
            SpnDataType::Uint8 | SpnDataType::Uint16 | SpnDataType::Uint32 => false,
        }
    }

    /// Number of payload bytes a value of this type occupies (1, 2 or 4).
    #[verifier::when_used_as_spec(spec_byte_width)]
    pub fn byte_width(self) -> (width: usize)
        ensures
            width == self.spec_byte_width(),
    {
        match self {
            SpnDataType::Uint8 | SpnDataType::Int8 => 1,
            SpnDataType::Uint16 | SpnDataType::Int16 => 2,
            SpnDataType::Uint32 | SpnDataType::Int32 => 4,
        }
    }

    /// Whether values of this type are two's-complement signed.
    #[verifier::when_used_as_spec(spec_is_signed)]
    pub fn is_signed(self) -> (signed: bool)
        ensures
            signed == self.spec_is_signed(),
    {
        match self {
            SpnDataType::Int8 | SpnDataType::Int16 | SpnDataType::Int32 => true,
            SpnDataType::Uint8 | SpnDataType::Uint16 | SpnDataType::Uint32 => false,
        }
    }
}

/// An exact scale factor or offset, written as the fraction `num / den`.
///
/// Resolutions such as 0.125 rpm/bit or 0.4 %/bit are kept as the fractions
/// 1/8 and 2/5, so that nothing is lost before a caller converts to its own
/// number format.
#[derive(Clone, Copy, Debug, PartialEq, Eq, Structural)]
pub struct Ratio {
    /// Numerator.
    pub num: i32,
    /// Denominator (positive in every catalog entry).
    pub den: u32,
}

impl Ratio {
    /// The fraction `num / den`.
    pub open spec fn spec_new(num: i32, den: u32) -> Ratio {
        Ratio { num, den }
    }

    /// The whole number `value`, as a fraction over 1.
    pub open spec fn spec_whole(value: i32) -> Ratio {
        Ratio { num: value, den: 1 }
    }

    /// The fraction `num / den`.
    #[verifier::when_used_as_spec(spec_new)]
    pub fn new(num: i32, den: u32) -> (ratio: Ratio)
        ensures
            ratio == Ratio::spec_new(num, den),
    {
        Ratio { num, den }
    }

    /// The whole number `value`, as a fraction over 1.
    #[verifier::when_used_as_spec(spec_whole)]
    pub fn whole(value: i32) -> (ratio: Ratio)
        ensures
            ratio == Ratio::spec_whole(value),
    {
        Ratio { num: value, den: 1 }
    }
}

/// An exact physical value, written as the fraction `num / den`.
#[derive(Clone, Copy, Debug, PartialEq, Eq, Structural)]
pub struct Quantity {
    /// Numerator.
    pub num: i128,
    /// Denominator.
    pub den: u64,
}

/// SPN (Suspect Parameter Number) definition.
///
/// Contains all metadata needed to decode a specific parameter from a J1939 PGN.
#[derive(Clone, Copy, Debug, PartialEq, Eq)]
pub struct SpnDef {
    /// SPN number (unique identifier per SAE J1939 standard).
    pub spn: u32,
    /// Human-readable name.
    pub name: &'static str,
    /// PGN that contains this SPN.
    pub pgn: u32,
    /// Starting byte position in the PGN data (0-indexed).
    pub start_byte: u8,
    /// Starting bit position within the byte (0-indexed, LSB first).
    pub start_bit: u8,
    /// Number of bits used for this value.
    pub bit_length: u8,
    /// Scale factor to convert raw value to engineering units.
    pub scale: Ratio,
    /// Offset to apply after scaling.
    pub offset: Ratio,
    /// Engineering unit string.
    pub unit: &'static str,
    /// Data type of the raw value.
    pub data_type: SpnDataType,
}

impl SpnDef {
    /// A definition with the given fields, in the order in which the catalog
    /// lists them.
    pub open spec fn spec_new(
        spn: u32,
        name: &'static str,
        pgn: u32,
        start_byte: u8,
        start_bit: u8,
        bit_length: u8,
        scale: Ratio,
        offset: Ratio,
        unit: &'static str,
        data_type: SpnDataType,
    ) -> SpnDef {
        SpnDef {
            spn,
            name,
            pgn,
            start_byte,
            start_bit,
            bit_length,
            scale,
            offset,
            unit,
            data_type,
        }
    }

    /// A definition with the given fields, in the order in which the catalog
    /// lists them.
    #[verifier::when_used_as_spec(spec_new)]
    pub fn new(
        spn: u32,
        name: &'static str,
        pgn: u32,
        start_byte: u8,
        start_bit: u8,
        bit_length: u8,
        scale: Ratio,
        offset: Ratio,
        unit: &'static str,
        data_type: SpnDataType,
    ) -> (spn_def: SpnDef)
        ensures
            spn_def == SpnDef::spec_new(
                spn,
                name,
                pgn,
                start_byte,
                start_bit,
                bit_length,
                scale,
                offset,
                unit,
                data_type,
            ),
    {
        SpnDef {
            spn,
            name,
            pgn,
            start_byte,
            start_bit,
            bit_length,
            scale,
            offset,
            unit,
            data_type,
        }
    }

    /// What every catalog entry satisfies: the data type lies within an
    /// 8-byte payload, the field is at least 1 bit long and ends within its
    /// data type, a field of more than one byte starts at bit 0, and scale
    /// and offset have positive denominators.
    pub open spec fn well_formed(self) -> bool {
        &&& self.start_byte + self.data_type.spec_byte_width() <= 8
        &&& 1 <= self.bit_length
        &&& self.start_bit + self.bit_length <= 8 * self.data_type.spec_byte_width()
        &&& self.data_type.spec_byte_width() > 1 ==> self.start_bit == 0
        &&& self.scale.den > 0
        &&& self.offset.den > 0
    }
}

/// Decoded SPN value with metadata.
#[derive(Clone, Copy, Debug, PartialEq, Eq)]
pub struct DecodedSpn {
    /// SPN number.
    pub spn: u32,
    /// Parameter name.
    pub name: &'static str,
    /// Decoded value in engineering units.
    pub value: Quantity,
    /// Engineering unit.
    pub unit: &'static str,
    /// Raw value before scaling, widened to 64 bits: sign-extended if the
    /// field is signed and its reading negative.
    pub raw_value: u64,
}

/// J1939 CAN ID components.
///
/// A 29-bit extended CAN ID broken down into J1939 fields.
#[derive(Clone, Copy, Debug, PartialEq, Eq, Structural)]
pub struct J1939Id {
    /// Message priority (0-7, lower is higher priority).
    pub priority: u8,
    /// Parameter Group Number.
    pub pgn: u32,
    /// Source Address (SA) of the transmitting ECU.
    pub source_address: u8,
    /// Destination Address (for PDU1 format, PS field).
    pub destination_address: u8,
}

impl J1939Id {
    /// The PDU Format byte of the PGN (bits 8-15 of the PGN).
    pub open spec fn pdu_format(&self) -> int {
        (self.pgn as int / 0x100) % 0x100
    }

    /// The data page bit of the PGN (bit 16 of the PGN).
    pub open spec fn data_page(&self) -> int {
        (self.pgn as int / 0x1_0000) % 2
    }

    /// The PDU Specific byte that goes on the wire: the low byte of the PGN
    /// for a broadcast, the destination address otherwise.
    pub open spec fn pdu_specific(&self) -> int {
        if self.pdu_format() >= 240 {
            self.pgn as int % 0x100
        } else {
            self.destination_address as int
        }
    }

    /// A PGN is broadcast (PDU2) exactly when its PDU Format is 240 or more.
    pub open spec fn spec_is_broadcast(&self) -> bool {
        self.pdu_format() >= 240
    }

    /// The 29-bit identifier laid out field by field. Only the low six bits
    /// of `priority` fit below the top of the 32-bit container.
    pub open spec fn spec_to_can_id(&self) -> int {
        (self.priority as int % 0x40) * 0x400_0000 + self.data_page() * 0x100_0000
            + self.pdu_format() * 0x1_0000 + self.pdu_specific() * 0x100
            + self.source_address as int
    }

    /// The components describe one identifier and nothing more: priority
    /// fits in 3 bits, the PGN in 17, a broadcast has the global destination
    /// and a peer-to-peer PGN has a zero low byte.
    pub open spec fn self_consistent(&self) -> bool {
        &&& self.priority <= 7
        &&& self.pgn <= 0x1_FFFF
        &&& if self.pdu_format() >= 240 {
            self.destination_address == 0xFF
        } else {
            self.pgn as int % 0x100 == 0
        }
    }

    /// Check if this is a broadcast message (PDU2 format).
    #[verifier::when_used_as_spec(spec_is_broadcast)]
    pub fn is_broadcast(&self) -> (broadcast: bool)
        ensures
            broadcast == self.spec_is_broadcast(),
    {
        let pgn = self.pgn;
        assert((pgn >> 8) & 0xFF == (pgn / 0x100) % 0x100) by (bit_vector);
        let pf = (pgn >> 8) & 0xFF;
        pf >= 240
    }

    /// Check if this is a peer-to-peer message (PDU1 format).
    pub fn is_peer_to_peer(&self) -> (peer: bool)
        ensures
            peer == !self.spec_is_broadcast(),
    {
        !self.is_broadcast()
    }

    /// Build a 29-bit CAN ID from J1939 components.
    pub fn to_can_id(&self) -> (can_id: u32)
        ensures
            can_id == self.spec_to_can_id(),
    {
        let pgn = self.pgn;
        let dp = (pgn >> 16) & 0x01;
        let pf = (pgn >> 8) & 0xFF;
        let low = pgn & 0xFF;
        assert({
            &&& dp == (pgn / 0x1_0000) % 2
            &&& pf == (pgn / 0x100) % 0x100
            &&& low == pgn % 0x100
        }) by (bit_vector)
            requires
                dp == (pgn >> 16) & 0x01,
                pf == (pgn >> 8) & 0xFF,
                low == pgn & 0xFF,
        ;
        let ps = if pf >= 240 {
            low
        } else {
            self.destination_address as u32
        };
        let priority = self.priority as u32;
        let sa = self.source_address as u32;
        assert((priority << 26) | (dp << 24) | (pf << 16) | (ps << 8) | sa == (priority % 0x40)
            * 0x400_0000 + dp * 0x100_0000 + pf * 0x1_0000 + ps * 0x100 + sa) by (bit_vector)
            requires
                priority <= 0xFF,
                dp <= 1,
                pf <= 0xFF,
                ps <= 0xFF,
                sa <= 0xFF,
        ;
        (priority << 26) | (dp << 24) | (pf << 16) | (ps << 8) | sa
    }
}

} // verus!
