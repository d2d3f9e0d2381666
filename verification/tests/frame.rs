use voltage_j1939::frame::{
    build_can_id, build_request_pgn, extract_pgn, extract_source_address, is_valid_j1939_id,
    parse_can_id,
};
use voltage_j1939::types::J1939Id;

#[test]
fn test_parse_can_id_eec1() {
    // EEC1 from SA=0x00: CAN ID = 0x0CF00400
    let id = parse_can_id(0x0CF00400);
    assert_eq!(id.priority, 3);
    assert_eq!(id.pgn, 61444);
    assert_eq!(id.source_address, 0x00);
    assert!(id.is_broadcast());
}

#[test]
fn test_parse_can_id_et1() {
    // ET1 from SA=0x00: CAN ID = 0x18FEEE00
    let id = parse_can_id(0x18FEEE00);
    assert_eq!(id.priority, 6);
    assert_eq!(id.pgn, 65262);
    assert_eq!(id.source_address, 0x00);
}

#[test]
fn test_parse_can_id_request() {
    // Request PGN to SA=0x00 from SA=0xFE
    let id = parse_can_id(0x18EA00FE);
    assert_eq!(id.priority, 6);
    assert_eq!(id.pgn, 0xEA00);
    assert_eq!(id.source_address, 0xFE);
    assert_eq!(id.destination_address, 0x00);
    assert!(id.is_peer_to_peer());
}

#[test]
fn test_build_can_id_roundtrip() {
    let original = 0x0CF00400u32;
    let id = parse_can_id(original);
    let rebuilt = build_can_id(&id);
    assert_eq!(original, rebuilt);
}

#[test]
fn test_build_request_pgn() {
    let (can_id, data) = build_request_pgn(0xFE, 0x00, 65253);
    assert_eq!(can_id, 0x18EA00FE);
    assert_eq!(data[0], 0xE5); // 65253 & 0xFF
    assert_eq!(data[1], 0xFE); // (65253 >> 8) & 0xFF
    assert_eq!(data[2], 0x00); // (65253 >> 16) & 0xFF
}

#[test]
fn test_extract_pgn() {
    assert_eq!(extract_pgn(0x0CF00400), 61444);
    assert_eq!(extract_pgn(0x18FEEE00), 65262);
    assert_eq!(extract_pgn(0x18EA00FE), 0xEA00);
}

#[test]
fn test_extract_source_address() {
    assert_eq!(extract_source_address(0x0CF00400), 0x00);
    assert_eq!(extract_source_address(0x18EA00FE), 0xFE);
}

#[test]
fn test_parse_eec1_is_broadcast_to_global_address() {
    let id = parse_can_id(0x0CF00400);
    assert_eq!(
        id,
        J1939Id { priority: 3, pgn: 61444, source_address: 0x00, destination_address: 0xFF }
    );
    assert!(!id.is_peer_to_peer());
}

#[test]
fn test_parse_request_is_peer_to_peer() {
    let id = parse_can_id(0x18EA00FE);
    assert_eq!(
        id,
        J1939Id { priority: 6, pgn: 0xEA00, source_address: 0xFE, destination_address: 0x00 }
    );
    assert!(!id.is_broadcast());
}

#[test]
fn test_pdu_format_threshold_is_240() {
    // PF = 239: peer-to-peer, PS is the destination and not part of the PGN.
    let below = parse_can_id(0x18EF1234);
    assert_eq!(below.pgn, 0xEF00);
    assert_eq!(below.destination_address, 0x12);
    assert_eq!(below.source_address, 0x34);
    assert!(below.is_peer_to_peer());
    // PF = 240: broadcast, PS is the low byte of the PGN.
    let at = parse_can_id(0x18F01234);
    assert_eq!(at.pgn, 0xF012);
    assert_eq!(at.destination_address, 0xFF);
    assert_eq!(at.source_address, 0x34);
    assert!(at.is_broadcast());
}

#[test]
fn test_parse_data_page() {
    let id = parse_can_id(0x19FEEE21);
    assert_eq!(id.priority, 6);
    assert_eq!(id.pgn, 0x1FEEE);
    assert_eq!(id.source_address, 0x21);
    let id = parse_can_id(0x0DEA05F9);
    assert_eq!(id.priority, 3);
    assert_eq!(id.pgn, 0x1EA00);
    assert_eq!(id.destination_address, 0x05);
}

#[test]
fn test_parse_ignores_bits_above_the_29th_and_the_reserved_bit() {
    let plain = parse_can_id(0x0CF00400);
    assert_eq!(parse_can_id(0xECF00400), plain);
    assert_eq!(parse_can_id(0x0EF00400), plain);
}

#[test]
fn test_build_after_parse_reproduces_identifier() {
    let ids = [
        0x0CF00400u32,
        0x18FEEE00,
        0x18EA00FE,
        0x18EAFFFE,
        0x1CECFF00,
        0x00000000,
        0x1DFFFFFF,
        0x19EF1234,
        0x0DF01234,
        0x04EFFF01,
    ];
    for can_id in ids {
        assert!(is_valid_j1939_id(can_id));
        assert_eq!(build_can_id(&parse_can_id(can_id)), can_id);
    }
}

#[test]
fn test_build_after_parse_clears_reserved_bit() {
    assert_eq!(build_can_id(&parse_can_id(0x02000000)), 0);
    assert_eq!(build_can_id(&parse_can_id(0x1FFFFFFF)), 0x1DFFFFFF);
}

#[test]
fn test_parse_after_build_gives_components_back() {
    let ids = [
        J1939Id { priority: 3, pgn: 61444, source_address: 0x00, destination_address: 0xFF },
        J1939Id { priority: 6, pgn: 0xEA00, source_address: 0xFE, destination_address: 0x00 },
        J1939Id { priority: 7, pgn: 0x1FFFF, source_address: 0xFF, destination_address: 0xFF },
        J1939Id { priority: 0, pgn: 0, source_address: 0, destination_address: 0 },
        J1939Id { priority: 5, pgn: 0x1EF00, source_address: 0x80, destination_address: 0x7F },
    ];
    for id in ids {
        assert_eq!(parse_can_id(build_can_id(&id)), id);
    }
}

#[test]
fn test_build_ignores_destination_of_broadcast() {
    let id = J1939Id { priority: 3, pgn: 61444, source_address: 0x00, destination_address: 0x42 };
    let can_id = build_can_id(&id);
    assert_eq!(can_id, 0x0CF00400);
    assert_eq!(parse_can_id(can_id).destination_address, 0xFF);
}

#[test]
fn test_build_keeps_low_six_bits_of_priority() {
    let id = J1939Id { priority: 0xFF, pgn: 61444, source_address: 0x00, destination_address: 0xFF };
    assert_eq!(build_can_id(&id), 0xFCF00400);
    let id = J1939Id { priority: 0x43, pgn: 61444, source_address: 0x00, destination_address: 0xFF };
    assert_eq!(build_can_id(&id), 0x0CF00400);
}

#[test]
fn test_build_uses_17_bits_of_pgn() {
    let id = J1939Id { priority: 6, pgn: 0xFFFEEE, source_address: 1, destination_address: 0xFF };
    assert_eq!(build_can_id(&id), 0x19FEEE01);
    // A peer-to-peer PGN with a stray low byte: the low byte is not sent.
    let id = J1939Id { priority: 6, pgn: 0xEA55, source_address: 1, destination_address: 2 };
    assert_eq!(build_can_id(&id), 0x18EA0201);
}

#[test]
fn test_build_request_pgn_payload_is_little_endian() {
    let (can_id, data) = build_request_pgn(0x21, 0xFF, 0x01F004);
    assert_eq!(can_id, 0x18EAFF21);
    assert_eq!(data, [0x04, 0xF0, 0x01]);
    // Bits above the 24th do not fit in three bytes.
    let (_, data) = build_request_pgn(0x21, 0xFF, 0xAB123456);
    assert_eq!(data, [0x56, 0x34, 0x12]);
}

#[test]
fn test_build_request_matches_parse() {
    let (can_id, _) = build_request_pgn(0xFE, 0x00, 65253);
    let id = parse_can_id(can_id);
    assert_eq!(id.priority, 6);
    assert_eq!(id.pgn, 0xEA00);
    assert_eq!(id.source_address, 0xFE);
    assert_eq!(id.destination_address, 0x00);
}

#[test]
fn test_is_valid_j1939_id() {
    assert!(is_valid_j1939_id(0));
    assert!(is_valid_j1939_id(0x0CF00400));
    assert!(is_valid_j1939_id(0x1FFFFFFF));
    assert!(!is_valid_j1939_id(0x20000000));
    assert!(!is_valid_j1939_id(0xFFFFFFFF));
}

#[test]
fn test_fast_paths_agree_with_parse() {
    let ids = [0x0CF00400u32, 0x18FEEE00, 0x18EA00FE, 0x1DFFFFFF, 0xFFFFFFFF, 0x19EF1234, 0];
    for can_id in ids {
        let id = parse_can_id(can_id);
        assert_eq!(extract_pgn(can_id), id.pgn);
        assert_eq!(extract_source_address(can_id), id.source_address);
    }
}
