use voltage_j1939::catalog::spn_definitions;
use voltage_j1939::database::{
    build_pgn_database, build_spn_database, database_stats, get_spn_def, get_spns_for_pgn,
    list_supported_pgns, SpnDatabase,
};
use voltage_j1939::types::{Ratio, SpnDataType};

fn ratio_to_f64(ratio: Ratio) -> f64 {
    ratio.num as f64 / ratio.den as f64
}

#[test]
fn test_database_stats() {
    let (pgn_count, spn_count) = database_stats();
    assert!(pgn_count >= 10, "Should have at least 10 PGNs");
    assert!(spn_count >= 50, "Should have at least 50 SPNs");
}

#[test]
fn test_get_spns_for_pgn() {
    // EEC1 should have multiple SPNs
    let spns = get_spns_for_pgn(61444);
    assert!(spns.is_some());
    let spns = spns.unwrap();
    assert!(spns.len() >= 5, "EEC1 should have at least 5 SPNs");

    // Check engine speed is present
    assert!(
        spns.iter().any(|s| s.spn == 190),
        "Should have SPN 190 (engine_speed)"
    );
}

#[test]
fn test_get_spn_def() {
    // Engine speed
    let spn = get_spn_def(190);
    assert!(spn.is_some());
    let spn = spn.unwrap();
    assert_eq!(spn.name, "engine_speed");
    assert_eq!(spn.pgn, 61444);
    assert_eq!(ratio_to_f64(spn.scale), 0.125);

    // Coolant temperature
    let spn = get_spn_def(110);
    assert!(spn.is_some());
    let spn = spn.unwrap();
    assert_eq!(spn.name, "engine_coolant_temperature");
    assert_eq!(ratio_to_f64(spn.offset), -40.0);
}

#[test]
fn test_list_supported_pgns() {
    let pgns = list_supported_pgns();
    assert!(!pgns.is_empty());
    assert!(pgns.contains(&61444)); // EEC1
    assert!(pgns.contains(&65262)); // ET1
}

#[test]
fn test_database_stats_exact() {
    assert_eq!(database_stats(), (14, 71));
}

#[test]
fn test_list_supported_pgns_exact() {
    assert_eq!(
        list_supported_pgns(),
        vec![
            61443, 61444, 65217, 65247, 65248, 65253, 65257, 65262, 65263, 65265, 65266, 65269,
            65270, 65271
        ]
    );
}

#[test]
fn test_list_supported_pgns_strictly_ascending_and_stable() {
    let pgns = list_supported_pgns();
    for pair in pgns.windows(2) {
        assert!(pair[0] < pair[1]);
    }
    for _ in 0..5 {
        assert_eq!(list_supported_pgns(), pgns);
    }
    assert_eq!(pgns.len(), database_stats().0);
}

#[test]
fn test_get_spns_for_pgn_unknown_is_none() {
    assert!(get_spns_for_pgn(0).is_none());
    assert!(get_spns_for_pgn(0xEA00).is_none());
    assert!(get_spns_for_pgn(61445).is_none());
    assert!(get_spns_for_pgn(u32::MAX).is_none());
}

#[test]
fn test_get_spns_for_pgn_never_empty_when_present() {
    let mut total = 0;
    for pgn in list_supported_pgns() {
        let spns = get_spns_for_pgn(pgn).unwrap();
        assert!(!spns.is_empty());
        assert!(spns.iter().all(|s| s.pgn == pgn));
        total += spns.len();
    }
    assert_eq!(total, spn_definitions().len());
}

#[test]
fn test_get_spns_for_pgn_keeps_catalog_order() {
    let spns = get_spns_for_pgn(61444).unwrap();
    let numbers: Vec<u32> = spns.iter().map(|s| s.spn).collect();
    assert_eq!(numbers, vec![899, 4154, 512, 513, 190, 1483, 1675, 2432]);
    let spns = get_spns_for_pgn(65253).unwrap();
    let numbers: Vec<u32> = spns.iter().map(|s| s.spn).collect();
    assert_eq!(numbers, vec![247, 249]);
    let in_catalog: Vec<u32> =
        spn_definitions().iter().filter(|s| s.pgn == 65265).map(|s| s.spn).collect();
    let spns = get_spns_for_pgn(65265).unwrap();
    let numbers: Vec<u32> = spns.iter().map(|s| s.spn).collect();
    assert_eq!(numbers, in_catalog);
    assert_eq!(numbers, vec![69, 70, 84, 595, 596, 86, 976]);
}

#[test]
fn test_get_spn_def_unknown_is_none() {
    assert!(get_spn_def(0).is_none());
    assert!(get_spn_def(99999).is_none());
    assert!(get_spn_def(191).is_none());
}

#[test]
fn test_get_spn_def_finds_every_entry() {
    for spn_def in spn_definitions() {
        assert_eq!(get_spn_def(spn_def.spn), Some(spn_def));
    }
}

#[test]
fn test_core_entries() {
    let speed = get_spn_def(190).unwrap();
    assert_eq!(speed.pgn, 61444);
    assert_eq!(speed.start_byte, 3);
    assert_eq!(speed.start_bit, 0);
    assert_eq!(speed.bit_length, 16);
    assert_eq!(speed.scale, Ratio { num: 1, den: 8 });
    assert_eq!(speed.offset, Ratio { num: 0, den: 1 });
    assert_eq!(speed.unit, "RPM");
    assert_eq!(speed.data_type, SpnDataType::Uint16);

    let coolant = get_spn_def(110).unwrap();
    assert_eq!(coolant.pgn, 65262);
    assert_eq!(coolant.start_byte, 0);
    assert_eq!(coolant.bit_length, 8);
    assert_eq!(coolant.scale, Ratio { num: 1, den: 1 });
    assert_eq!(coolant.offset, Ratio { num: -40, den: 1 });
    assert_eq!(coolant.unit, "C");
    assert_eq!(coolant.data_type, SpnDataType::Uint8);

    let hours = get_spn_def(247).unwrap();
    assert_eq!(hours.name, "engine_total_hours_of_operation");
    assert_eq!(hours.pgn, 65253);
    assert_eq!(hours.start_byte, 0);
    assert_eq!(hours.bit_length, 32);
    assert_eq!(ratio_to_f64(hours.scale), 0.05);
    assert_eq!(ratio_to_f64(hours.offset), 0.0);
    assert_eq!(hours.unit, "h");
    assert_eq!(hours.data_type, SpnDataType::Uint32);
}

#[test]
fn test_catalog_scales_convert_to_the_published_resolutions() {
    assert_eq!(ratio_to_f64(get_spn_def(91).unwrap().scale), 0.4);
    assert_eq!(ratio_to_f64(get_spn_def(6595).unwrap().scale), 0.2);
    assert_eq!(ratio_to_f64(get_spn_def(175).unwrap().scale), 0.03125);
    assert_eq!(ratio_to_f64(get_spn_def(175).unwrap().offset), -273.0);
    assert_eq!(ratio_to_f64(get_spn_def(101).unwrap().scale), 0.0078125);
    assert_eq!(ratio_to_f64(get_spn_def(101).unwrap().offset), -250.0);
    assert_eq!(ratio_to_f64(get_spn_def(184).unwrap().scale), 0.001953125);
    assert_eq!(ratio_to_f64(get_spn_def(84).unwrap().scale), 0.00390625);
    assert_eq!(ratio_to_f64(get_spn_def(249).unwrap().scale), 1000.0);
    assert_eq!(ratio_to_f64(get_spn_def(94).unwrap().scale), 4.0);
    assert_eq!(ratio_to_f64(get_spn_def(109).unwrap().scale), 2.0);
    assert_eq!(ratio_to_f64(get_spn_def(81).unwrap().scale), 0.5);
    assert_eq!(ratio_to_f64(get_spn_def(22).unwrap().scale), 0.05);
    assert_eq!(ratio_to_f64(get_spn_def(4154).unwrap().offset), -125.0);
}

#[test]
fn test_catalog_entries_are_well_formed() {
    for spn_def in spn_definitions() {
        let width = spn_def.data_type.byte_width();
        assert!(spn_def.start_byte as usize + width <= 8, "SPN {}", spn_def.spn);
        assert!(spn_def.bit_length >= 1, "SPN {}", spn_def.spn);
        assert!(spn_def.bit_length as usize <= 8 * width, "SPN {}", spn_def.spn);
        assert!(spn_def.start_bit < 8, "SPN {}", spn_def.spn);
        assert!(spn_def.scale.den > 0, "SPN {}", spn_def.spn);
        assert!(spn_def.offset.den > 0, "SPN {}", spn_def.spn);
        if width > 1 {
            assert_eq!(spn_def.start_bit, 0, "SPN {}", spn_def.spn);
        }
    }
}

#[test]
fn test_catalog_numbers_are_unique() {
    let defs = spn_definitions();
    for (i, a) in defs.iter().enumerate() {
        for b in defs.iter().skip(i + 1) {
            assert_ne!(a.spn, b.spn);
        }
    }
}

#[test]
fn test_build_pgn_database_matches_lookup() {
    let map = build_pgn_database();
    assert_eq!(map.len(), 14);
    let mut keys: Vec<u32> = map.keys().copied().collect();
    keys.sort();
    assert_eq!(keys, list_supported_pgns());
    for (pgn, spns) in &map {
        assert_eq!(Some(spns.clone()), get_spns_for_pgn(*pgn));
    }
    assert!(map.get(&0xEA00).is_none());
    assert_eq!(map[&65271].len(), 4);
    assert_eq!(map[&65271][0].spn, 114);
}

#[test]
fn test_build_spn_database_matches_lookup() {
    let map = build_spn_database();
    assert_eq!(map.len(), 71);
    for (spn, spn_def) in &map {
        assert_eq!(spn_def.spn, *spn);
        assert_eq!(Some(*spn_def), get_spn_def(*spn));
    }
    assert!(map.get(&99999).is_none());
    assert_eq!(map[&190].name, "engine_speed");
}

#[test]
fn test_spn_definitions_order() {
    let defs = spn_definitions();
    assert_eq!(defs.len(), 71);
    assert_eq!(defs[0].spn, 899);
    assert_eq!(defs[0].pgn, 61444);
    assert_eq!(defs[8].spn, 558);
    assert_eq!(defs[8].pgn, 61443);
    assert_eq!(defs[70].spn, 976);
    assert_eq!(defs[70].name, "pto_state");
}

#[test]
fn test_database_lookups_match_catalog_walk() {
    let database = SpnDatabase::new();
    for pgn in [61444u32, 61443, 65262, 65253, 65265, 0, 0xEA00, 61445, u32::MAX] {
        assert_eq!(database.get_spns_for_pgn(pgn).cloned(), get_spns_for_pgn(pgn));
    }
    for pgn in list_supported_pgns() {
        let spns = database.get_spns_for_pgn(pgn).unwrap();
        assert!(!spns.is_empty());
        assert_eq!(Some(spns.clone()), get_spns_for_pgn(pgn));
    }
    for spn_def in spn_definitions() {
        assert_eq!(database.get_spn_def(spn_def.spn), Some(&spn_def));
    }
    for spn in [0u32, 1, 191, 99999, u32::MAX] {
        assert_eq!(database.get_spn_def(spn).copied(), get_spn_def(spn));
        assert!(database.get_spn_def(spn).is_none());
    }
}

#[test]
fn test_database_core_entries() {
    let database = SpnDatabase::new();
    let eec1 = database.get_spns_for_pgn(61444).unwrap();
    assert_eq!(eec1.len(), 8);
    assert_eq!(eec1[4].spn, 190);
    assert_eq!(database.get_spn_def(190).unwrap().name, "engine_speed");
    assert_eq!(database.get_spn_def(110).unwrap().pgn, 65262);
    assert_eq!(database.get_spn_def(247).unwrap().pgn, 65253);
}
