//! J1939 CAN frame parsing.
//!
//! Provides utilities for parsing and building J1939 29-bit extended CAN IDs.
//!
//! J1939 CAN ID format (29 bits, bit 0 least significant):
//! ```text
//! | Priority | R | DP | PF | PS/DA | SA |
//! |   3 bit  |1b | 1b | 8b |  8b   | 8b |
//! ```
//!
//! - Priority: Message priority (0-7)
//! - R: Reserved (always 0)
//! - DP: Data Page (0 or 1)
//! - PF: PDU Format
//! - PS: PDU Specific (for PDU2) / DA: Destination Address (for PDU1)
//! - SA: Source Address

use vstd::prelude::*;

use crate::types::J1939Id;

verus! {

/// The PGN of the Request message.
pub const REQUEST_PGN: u32 = 0xEA00;

/// The priority a Request message is sent with.
pub const REQUEST_PRIORITY: u8 = 6;

/// The largest value a 29-bit identifier can take.
pub const MAX_CAN_ID: u32 = 0x1FFF_FFFF;

/// Bits 26-28 of an identifier: the priority.
pub open spec fn priority_of(can_id: u32) -> int {
    (can_id as int / 0x400_0000) % 8
}

/// Bit 25 of an identifier: reserved, zero on the wire.
pub open spec fn reserved_bit_of(can_id: u32) -> int {
    (can_id as int / 0x200_0000) % 2
}

/// Bit 24 of an identifier: the data page.
pub open spec fn data_page_of(can_id: u32) -> int {
    (can_id as int / 0x100_0000) % 2
}

/// Bits 16-23 of an identifier: the PDU Format.
pub open spec fn pdu_format_of(can_id: u32) -> int {
    (can_id as int / 0x1_0000) % 0x100
}

/// Bits 8-15 of an identifier: the PDU Specific field.
pub open spec fn pdu_specific_of(can_id: u32) -> int {
    (can_id as int / 0x100) % 0x100
}

/// Bits 0-7 of an identifier: the source address.
pub open spec fn source_address_of(can_id: u32) -> int {
    can_id as int % 0x100
}

/// The PGN an identifier carries. With a PDU Format of 240 or more (PDU2)
/// the PDU Specific field is the PGN's low byte; below 240 (PDU1) it is a
/// destination address and the PGN's low byte is zero.
pub open spec fn pgn_of(can_id: u32) -> int {
    if pdu_format_of(can_id) >= 240 {
        data_page_of(can_id) * 0x1_0000 + pdu_format_of(can_id) * 0x100 + pdu_specific_of(can_id)
    } else {
        data_page_of(can_id) * 0x1_0000 + pdu_format_of(can_id) * 0x100
    }
}

/// The destination an identifier addresses: the global address 0xFF for a
/// broadcast, the PDU Specific field otherwise.
pub open spec fn destination_of(can_id: u32) -> int {
    if pdu_format_of(can_id) >= 240 {
        0xFF
    } else {
        pdu_specific_of(can_id)
    }
}

/// The components of an identifier.
pub open spec fn spec_parse_can_id(can_id: u32) -> J1939Id {
    J1939Id {
        priority: priority_of(can_id) as u8,
        pgn: pgn_of(can_id) as u32,
        source_address: source_address_of(can_id) as u8,
        destination_address: destination_of(can_id) as u8,
    }
}

/// Parse a 29-bit J1939 CAN ID into its components.
///
/// Bits 29-31 of the container and the reserved bit 25 are ignored.
pub fn parse_can_id(can_id: u32) -> (id: J1939Id)
    ensures
        id == spec_parse_can_id(can_id),
{
    assert({
        &&& (can_id & 0xFF) == can_id % 0x100
        &&& ((can_id >> 8) & 0xFF) == (can_id / 0x100) % 0x100
        &&& ((can_id >> 16) & 0xFF) == (can_id / 0x1_0000) % 0x100
        &&& ((can_id >> 24) & 0x01) == (can_id / 0x100_0000) % 2
        &&& ((can_id >> 26) & 0x07) == (can_id / 0x400_0000) % 8
    }) by (bit_vector);
    let sa = (can_id & 0xFF) as u8;
    let ps = ((can_id >> 8) & 0xFF) as u8;
    let pf = ((can_id >> 16) & 0xFF) as u8;
    let dp = ((can_id >> 24) & 0x01) as u8;
    let priority = ((can_id >> 26) & 0x07) as u8;

    // PDU1 (PF < 240): PGN = DP.PF.00, PS is destination address
    // PDU2 (PF >= 240): PGN = DP.PF.PS, PS is part of PGN
    let (pgn, destination_address) = if pf >= 240 {
        (join_pgn(dp, pf, ps), 0xFF)
    } else {
        (join_pgn(dp, pf, 0), ps)
    };

    J1939Id { priority, pgn, source_address: sa, destination_address }
}

/// Put a data page bit, a PDU Format and a low byte together into a PGN.
fn join_pgn(dp: u8, pf: u8, low: u8) -> (pgn: u32)
    requires
        dp <= 1,
    ensures
        pgn == dp * 0x1_0000 + pf * 0x100 + low,
{
    let dp = dp as u32;
    let pf = pf as u32;
    let low = low as u32;
    assert((dp << 16) | (pf << 8) | low == dp * 0x1_0000 + pf * 0x100 + low) by (bit_vector)
        requires
            dp <= 1,
            pf <= 0xFF,
            low <= 0xFF,
    ;
    (dp << 16) | (pf << 8) | low
}

/// Build a 29-bit CAN ID from J1939 components.
///
/// The PDU Format and data page are taken from the PGN. For a broadcast PGN
/// the PDU Specific field is the PGN's low byte and `destination_address` is
/// ignored; otherwise it is `destination_address`.
pub fn build_can_id(id: &J1939Id) -> (can_id: u32)
    ensures
        can_id == id.spec_to_can_id(),
{
    id.to_can_id()
}

/// The three data bytes of a Request for `requested_pgn`: the PGN in
/// little-endian order, its bits above the 24th dropped.
pub open spec fn request_payload(requested_pgn: u32) -> Seq<u8> {
    seq![
        (requested_pgn as int % 0x100) as u8,
        ((requested_pgn as int / 0x100) % 0x100) as u8,
        ((requested_pgn as int / 0x1_0000) % 0x100) as u8,
    ]
}

/// Build a Request PGN CAN frame.
///
/// The Request PGN (0xEA00) is used to request another ECU to transmit
/// a specific PGN.
///
/// # Arguments
///
/// * `source_address` - Our source address
/// * `destination_address` - Target ECU address (0xFF for broadcast)
/// * `requested_pgn` - The PGN we want to receive
///
/// # Returns
///
/// A tuple of (CAN ID, data bytes).
pub fn build_request_pgn(source_address: u8, destination_address: u8, requested_pgn: u32) -> (frame:
    (u32, [u8; 3]))
    ensures
        frame.0 == (J1939Id {
            priority: REQUEST_PRIORITY,
            pgn: REQUEST_PGN,
            source_address,
            destination_address,
        }).spec_to_can_id(),
        frame.0 == 0x18EA_0000 + destination_address * 0x100 + source_address,
        frame.1@ == request_payload(requested_pgn),
{
    let id = J1939Id {
        priority: REQUEST_PRIORITY,
        pgn: REQUEST_PGN,
        source_address,
        destination_address,
    };

    let can_id = id.to_can_id();
    assert({
        &&& (requested_pgn & 0xFF) == requested_pgn % 0x100
        &&& ((requested_pgn >> 8) & 0xFF) == (requested_pgn / 0x100) % 0x100
        &&& ((requested_pgn >> 16) & 0xFF) == (requested_pgn / 0x1_0000) % 0x100
    }) by (bit_vector);
    let data = [
        (requested_pgn & 0xFF) as u8,
        ((requested_pgn >> 8) & 0xFF) as u8,
        ((requested_pgn >> 16) & 0xFF) as u8,
    ];
    assert(data@ =~= request_payload(requested_pgn));

    (can_id, data)
}

/// Check if a CAN ID is a valid J1939 extended frame.
///
/// J1939 uses 29-bit extended CAN IDs; an identifier is valid exactly when
/// it fits in 29 bits.
pub fn is_valid_j1939_id(can_id: u32) -> (valid: bool)
    ensures
        valid == (can_id <= MAX_CAN_ID),
{
    can_id <= MAX_CAN_ID
}

/// Extract just the PGN from a CAN ID without full parsing.
///
/// This is a faster alternative to `parse_can_id` when you only need the PGN.
pub fn extract_pgn(can_id: u32) -> (pgn: u32)
    ensures
        pgn == pgn_of(can_id),
        pgn == spec_parse_can_id(can_id).pgn,
        pgn <= 0x1_FFFF,
{
    assert({
        &&& ((can_id >> 8) & 0xFF) == (can_id / 0x100) % 0x100
        &&& ((can_id >> 16) & 0xFF) == (can_id / 0x1_0000) % 0x100
        &&& ((can_id >> 24) & 0x01) == (can_id / 0x100_0000) % 2
    }) by (bit_vector);
    let ps = ((can_id >> 8) & 0xFF) as u8;
    let pf = ((can_id >> 16) & 0xFF) as u8;
    let dp = ((can_id >> 24) & 0x01) as u8;

    if pf >= 240 {
        join_pgn(dp, pf, ps)
    } else {
        join_pgn(dp, pf, 0)
    }
}

/// Extract just the source address from a CAN ID.
pub fn extract_source_address(can_id: u32) -> (source_address: u8)
    ensures
        source_address == source_address_of(can_id),
        source_address == spec_parse_can_id(can_id).source_address,
{
    assert((can_id & 0xFF) == can_id % 0x100) by (bit_vector);
    (can_id & 0xFF) as u8
}

/// A PGN put together from a data page bit, a PDU Format and a low byte
/// splits into the same three parts again.
proof fn lemma_pgn_parts(dp: u32, pf: u32, low: u32)
    requires
        dp <= 1,
        pf <= 0xFF,
        low <= 0xFF,
    ensures
        ({
            let pgn = dp * 0x1_0000 + pf * 0x100 + low;
            &&& pgn <= 0x1_FFFF
            &&& (pgn / 0x1_0000) % 2 == dp
            &&& (pgn / 0x100) % 0x100 == pf
            &&& pgn % 0x100 == low
        }),
{
    assert({
        let pgn = dp * 0x1_0000 + pf * 0x100 + low;
        &&& pgn <= 0x1_FFFF
        &&& (pgn / 0x1_0000) % 2 == dp
        &&& (pgn / 0x100) % 0x100 == pf
        &&& pgn % 0x100 == low
    }) by (bit_vector)
        requires
            dp <= 1,
            pf <= 0xFF,
            low <= 0xFF,
    ;
}

/// An identifier put together from its five fields splits into the same
/// fields again, with a clear reserved bit.
proof fn lemma_can_id_parts(priority: u32, dp: u32, pf: u32, ps: u32, sa: u32)
    requires
        priority <= 7,
        dp <= 1,
        pf <= 0xFF,
        ps <= 0xFF,
        sa <= 0xFF,
    ensures
        ({
            let can_id = priority * 0x400_0000 + dp * 0x100_0000 + pf * 0x1_0000 + ps * 0x100 + sa;
            &&& can_id <= MAX_CAN_ID
            &&& (can_id / 0x400_0000) % 8 == priority
            &&& (can_id / 0x200_0000) % 2 == 0
            &&& (can_id / 0x100_0000) % 2 == dp
            &&& (can_id / 0x1_0000) % 0x100 == pf
            &&& (can_id / 0x100) % 0x100 == ps
            &&& can_id % 0x100 == sa
        }),
{
    assert({
        let can_id = priority * 0x400_0000 + dp * 0x100_0000 + pf * 0x1_0000 + ps * 0x100 + sa;
        &&& can_id <= 0x1FFF_FFFF
        &&& (can_id / 0x400_0000) % 8 == priority
        &&& (can_id / 0x200_0000) % 2 == 0
        &&& (can_id / 0x100_0000) % 2 == dp
        &&& (can_id / 0x1_0000) % 0x100 == pf
        &&& (can_id / 0x100) % 0x100 == ps
        &&& can_id % 0x100 == sa
    }) by (bit_vector)
        requires
            priority <= 7,
            dp <= 1,
            pf <= 0xFF,
            ps <= 0xFF,
            sa <= 0xFF,
    ;
}

/// A 29-bit identifier with a clear reserved bit is the sum of its fields,
/// each at its place.
proof fn lemma_can_id_is_sum_of_fields(can_id: u32)
    requires
        can_id <= MAX_CAN_ID,
        reserved_bit_of(can_id) == 0,
    ensures
        can_id == priority_of(can_id) * 0x400_0000 + data_page_of(can_id) * 0x100_0000
            + pdu_format_of(can_id) * 0x1_0000 + pdu_specific_of(can_id) * 0x100
            + source_address_of(can_id),
{
    assert(can_id == ((can_id / 0x400_0000) % 8) * 0x400_0000 + ((can_id / 0x100_0000) % 2)
        * 0x100_0000 + ((can_id / 0x1_0000) % 0x100) * 0x1_0000 + ((can_id / 0x100) % 0x100)
        * 0x100 + can_id % 0x100) by (bit_vector)
        requires
            can_id <= 0x1FFF_FFFF,
            (can_id / 0x200_0000) % 2 == 0,
    ;
}

/// Parsing never yields components that contradict each other: the priority
/// fits in 3 bits, the PGN in 17, a broadcast carries the global destination
/// and a peer-to-peer PGN has a zero low byte.
pub proof fn lemma_parse_is_self_consistent(can_id: u32)
    ensures
        spec_parse_can_id(can_id).self_consistent(),
        spec_parse_can_id(can_id).spec_is_broadcast() <==> pdu_format_of(can_id) >= 240,
{
    let dp = data_page_of(can_id) as u32;
    let pf = pdu_format_of(can_id) as u32;
    let ps = pdu_specific_of(can_id) as u32;
    lemma_pgn_parts(dp, pf, ps);
    lemma_pgn_parts(dp, pf, 0);
}

/// Building from parsed components reproduces the identifier, for every
/// 29-bit identifier whose reserved bit is clear, broadcast or peer-to-peer.
pub proof fn lemma_build_after_parse(can_id: u32)
    requires
        can_id <= MAX_CAN_ID,
        reserved_bit_of(can_id) == 0,
    ensures
        spec_parse_can_id(can_id).spec_to_can_id() == can_id,
{
    let dp = data_page_of(can_id) as u32;
    let pf = pdu_format_of(can_id) as u32;
    let ps = pdu_specific_of(can_id) as u32;
    lemma_pgn_parts(dp, pf, ps);
    lemma_pgn_parts(dp, pf, 0);
    lemma_can_id_is_sum_of_fields(can_id);
}

/// Parsing a built identifier gives back the components it was built from,
/// provided they are self-consistent. A broadcast PGN built with another
/// destination than 0xFF parses to the same PGN with destination 0xFF.
pub proof fn lemma_parse_after_build(id: J1939Id)
    requires
        id.priority <= 7,
        id.pgn <= 0x1_FFFF,
        !id.spec_is_broadcast() ==> id.pgn as int % 0x100 == 0,
    ensures
        id.spec_to_can_id() <= MAX_CAN_ID,
        reserved_bit_of(id.spec_to_can_id() as u32) == 0,
        spec_parse_can_id(id.spec_to_can_id() as u32) == (J1939Id {
            destination_address: if id.spec_is_broadcast() {
                0xFFu8
            } else {
                id.destination_address
            },
            ..id
        }),
        id.self_consistent() ==> spec_parse_can_id(id.spec_to_can_id() as u32) == id,
{
    let pgn = id.pgn;
    assert(pgn == ((pgn / 0x1_0000) % 2) * 0x1_0000 + ((pgn / 0x100) % 0x100) * 0x100 + pgn
        % 0x100) by (bit_vector)
        requires
            pgn <= 0x1_FFFF,
    ;
    lemma_can_id_parts(
        id.priority as u32,
        id.data_page() as u32,
        id.pdu_format() as u32,
        id.pdu_specific() as u32,
        id.source_address as u32,
    );
}

} // verus!
