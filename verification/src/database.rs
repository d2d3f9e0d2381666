//! J1939 SPN Database
//!
//! Lookups in the built-in catalog: the SPNs of a PGN, the definition of an
//! SPN, the list of PGNs, and the two indexes that answer the first two
//! without walking the catalog.

use std::collections::HashMap;
use vstd::prelude::*;
use vstd::std_specs::iter::IteratorSpec;

use crate::catalog::{
    catalog, eec1_spns, et1_spns, hours_spns, lemma_catalog_by_pgn, lemma_catalog_len,
    lemma_catalog_spns_are_unique, lemma_group_sizes, lemma_listed_pgns, listed_pgns, listed_spns,
    spn_definitions, PGN_EEC1, PGN_ET1, PGN_HOURS,
};
use crate::types::{Ratio, SpnDataType, SpnDef};

verus! {

/// The definitions in `defs` that belong to `pgn`, in their order in `defs`.
pub open spec fn spns_of_pgn(defs: Seq<SpnDef>, pgn: u32) -> Seq<SpnDef> {
    defs.filter(|spn_def: SpnDef| spn_def.pgn == pgn)
}

/// The definitions in `defs` that carry the number `spn`, in their order in
/// `defs`. A sound catalog has at most one.
pub open spec fn defs_with_spn(defs: Seq<SpnDef>, spn: u32) -> Seq<SpnDef> {
    defs.filter(|spn_def: SpnDef| spn_def.spn == spn)
}

/// The catalog's SPNs for a PGN, or none if the catalog has no SPN for it.
pub open spec fn spec_get_spns_for_pgn(pgn: u32) -> Option<Seq<SpnDef>> {
    let found = spns_of_pgn(catalog(), pgn);
    if found.len() == 0 {
        None
    } else {
        Some(found)
    }
}

/// The catalog's definition of an SPN: the first entry with that number, or
/// none if no entry has it.
pub open spec fn spec_get_spn_def(spn: u32) -> Option<SpnDef> {
    let found = defs_with_spn(catalog(), spn);
    if found.len() == 0 {
        None
    } else {
        Some(found.first())
    }
}

/// The PGNs for which the catalog has at least one SPN.
pub open spec fn supported_pgns() -> Set<u32> {
    Set::new(|pgn: u32| spns_of_pgn(catalog(), pgn).len() > 0)
}

/// The first `n + 1` definitions are the first `n` and the one after them.
proof fn lemma_take_next(defs: Seq<SpnDef>, n: int)
    requires
        0 <= n < defs.len(),
    ensures
        defs.take(n + 1) == defs.take(n).push(defs[n]),
{
    assert(defs.take(n + 1) =~= defs.take(n).push(defs[n]));
}

/// Whether `index` maps every PGN that has SPNs in `defs` to those SPNs, in
/// their order in `defs`, and holds no other PGN.
pub open spec fn is_pgn_index_of(index: Map<u32, Vec<SpnDef>>, defs: Seq<SpnDef>) -> bool {
    &&& forall|pgn: u32| #[trigger] index.contains_key(pgn) <==> spns_of_pgn(defs, pgn).len() > 0
    &&& forall|pgn: u32| #[trigger]
        index.contains_key(pgn) ==> index[pgn]@ == spns_of_pgn(defs, pgn)
}

/// Whether `index` maps every SPN that occurs in `defs` to the first
/// definition in `defs` with that number, and holds no other SPN.
pub open spec fn is_spn_index_of(index: Map<u32, SpnDef>, defs: Seq<SpnDef>) -> bool {
    &&& forall|spn: u32| #[trigger] index.contains_key(spn) <==> defs_with_spn(defs, spn).len() > 0
    &&& forall|spn: u32| #[trigger]
        index.contains_key(spn) ==> index[spn] == defs_with_spn(defs, spn).first()
}

/// Build PGN to SPNs mapping.
///
/// The map holds exactly the PGNs of the catalog, each with its SPNs in
/// catalog order.
pub fn build_pgn_database() -> (map: HashMap<u32, Vec<SpnDef>>)
    ensures
        is_pgn_index_of(map@, catalog()),
        map@.dom() == supported_pgns(),
        forall|pgn: u32| #[trigger] map@.contains_key(pgn) <==> spec_get_spns_for_pgn(pgn) is Some,
        forall|pgn: u32| #[trigger]
            map@.contains_key(pgn) ==> spec_get_spns_for_pgn(pgn) == Some(map@[pgn]@),
{
    let defs = spn_definitions();
    let mut map: HashMap<u32, Vec<SpnDef>> = HashMap::new();
    let mut i: usize = 0;
    while i < defs.len()
        invariant
            i <= defs@.len(),
            is_pgn_index_of(map@, defs@.take(i as int)),
        decreases defs@.len() - i,
    {
        let spn_def = defs[i];
        let ghost before = map@;
        map.entry(spn_def.pgn).or_insert(Vec::new()).push(spn_def);
        proof {
            lemma_take_next(defs@, i as int);
            let seen = defs@.take(i as int);
            assert forall|pgn: u32|
                spns_of_pgn(seen.push(spn_def), pgn) == if pgn == spn_def.pgn {
                    spns_of_pgn(seen, pgn).push(spn_def)
                } else {
                    spns_of_pgn(seen, pgn)
                } by {
                seen.lemma_filter_push(spn_def, |other: SpnDef| other.pgn == pgn);
            }
            if !before.contains_key(spn_def.pgn) {
                assert(spns_of_pgn(seen, spn_def.pgn) =~= Seq::empty());
            }
            assert(map@[spn_def.pgn]@ =~= spns_of_pgn(seen.push(spn_def), spn_def.pgn));
        }
        i += 1;
    }
    assert(defs@.take(i as int) =~= defs@);
    assert(map@.dom() =~= supported_pgns());
    map
}

/// Build SPN to definition mapping.
///
/// The map holds exactly the SPNs of the catalog. Should two entries ever
/// share a number, the first in catalog order is kept.
pub fn build_spn_database() -> (map: HashMap<u32, SpnDef>)
    ensures
        is_spn_index_of(map@, catalog()),
        forall|spn: u32| #[trigger] map@.contains_key(spn) <==> spec_get_spn_def(spn) is Some,
        forall|spn: u32| #[trigger]
            map@.contains_key(spn) ==> spec_get_spn_def(spn) == Some(map@[spn]),
{
    let defs = spn_definitions();
    let mut map: HashMap<u32, SpnDef> = HashMap::new();
    let mut i: usize = 0;
    while i < defs.len()
        invariant
            i <= defs@.len(),
            is_spn_index_of(map@, defs@.take(i as int)),
        decreases defs@.len() - i,
    {
        let spn_def = defs[i];
        map.entry(spn_def.spn).or_insert(spn_def);
        proof {
            lemma_take_next(defs@, i as int);
            let seen = defs@.take(i as int);
            assert forall|spn: u32|
                defs_with_spn(seen.push(spn_def), spn) == if spn == spn_def.spn {
                    defs_with_spn(seen, spn).push(spn_def)
                } else {
                    defs_with_spn(seen, spn)
                } by {
                seen.lemma_filter_push(spn_def, |other: SpnDef| other.spn == spn);
            }
        }
        i += 1;
    }
    assert(defs@.take(i as int) =~= defs@);
    map
}

/// The catalog's two lookup indexes, built once and read many times.
///
/// Building walks the catalog once. Every lookup after that is a single
/// hash lookup, and the indexes never change, so one database can be shared
/// by reference between all who decode.
pub struct SpnDatabase {
    by_pgn: HashMap<u32, Vec<SpnDef>>,
    by_spn: HashMap<u32, SpnDef>,
}

impl SpnDatabase {
    /// Both indexes hold the catalog, no more and no less. This holds of
    /// every database at all times.
    #[verifier::type_invariant]
    pub closed spec fn holds_catalog(&self) -> bool {
        &&& is_pgn_index_of(self.by_pgn@, catalog())
        &&& is_spn_index_of(self.by_spn@, catalog())
    }

    /// Build both indexes from the catalog.
    pub fn new() -> (database: SpnDatabase)
        ensures
            database.holds_catalog(),
    {
        SpnDatabase { by_pgn: build_pgn_database(), by_spn: build_spn_database() }
    }

    /// Get all SPNs for a given PGN.
    ///
    /// Returns what [`get_spns_for_pgn`] returns, without walking the
    /// catalog.
    pub fn get_spns_for_pgn(&self, pgn: u32) -> (spns: Option<&Vec<SpnDef>>)
        ensures
            match spns {
                Some(found) => spec_get_spns_for_pgn(pgn) == Some(found@),
                None => spec_get_spns_for_pgn(pgn) is None,
            },
            spns matches Some(found) ==> found@.len() > 0 && found@ == listed_spns(pgn),
            spns is None <==> listed_spns(pgn).len() == 0,
    {
        proof {
            use_type_invariant(self);
            lemma_catalog_by_pgn(pgn);
        }
        self.by_pgn.get(&pgn)
    }

    /// Get a specific SPN definition by SPN number.
    ///
    /// Returns what [`get_spn_def`] returns, without walking the catalog.
    pub fn get_spn_def(&self, spn: u32) -> (spn_def: Option<&SpnDef>)
        ensures
            match spn_def {
                Some(found) => spec_get_spn_def(spn) == Some(*found) && found.spn == spn,
                None => spec_get_spn_def(spn) is None,
            },
    {
        proof {
            use_type_invariant(self);
            broadcast use Seq::lemma_filter_pred;
        }
        self.by_spn.get(&spn)
    }
}

/// Get statistics about the database.
///
/// Returns (number of unique PGNs, total number of SPNs).
pub fn database_stats() -> (stats: (usize, usize))
    ensures
        stats.0 == supported_pgns().len(),
        stats.1 == catalog().len(),
        stats == (14usize, 71usize),
{
    proof {
        lemma_supported_pgns();
        lemma_catalog_len();
    }
    let pgn_count = build_pgn_database().len();
    let spn_count = spn_definitions().len();
    (pgn_count, spn_count)
}

/// Whether every element of `pgns` is less than all that follow it.
pub open spec fn strictly_ascending(pgns: Seq<u32>) -> bool {
    forall|i: int, j: int| 0 <= i < j < pgns.len() ==> pgns[i] < pgns[j]
}

/// Insert a PGN into an ascending list at its place.
fn insert_ascending(pgns: &mut Vec<u32>, pgn: u32)
    requires
        strictly_ascending(old(pgns)@),
        !old(pgns)@.contains(pgn),
    ensures
        strictly_ascending(final(pgns)@),
        final(pgns)@.len() == old(pgns)@.len() + 1,
        forall|other: u32|
            final(pgns)@.contains(other) <==> other == pgn || old(pgns)@.contains(other),
{
    let mut at: usize = 0;
    while at < pgns.len() && pgns[at] < pgn
        invariant
            at <= pgns@.len(),
            forall|i: int| 0 <= i < at ==> pgns@[i] < pgn,
        decreases pgns@.len() - at,
    {
        at += 1;
    }
    assert(at < pgns@.len() ==> pgns@[at as int] > pgn) by {
        if at < pgns@.len() {
            assert(pgns@.contains(pgns@[at as int]));
        }
    }
    pgns.insert(at, pgn);
    proof {
        let before = old(pgns)@;
        let after = pgns@;
        assert(after[at as int] == pgn);
        assert forall|other: u32| after.contains(other) <==> other == pgn || before.contains(
            other,
        ) by {
            if after.contains(other) {
                let i = choose|i: int| 0 <= i < after.len() && after[i] == other;
                if i < at {
                    assert(before[i] == other);
                } else if i > at {
                    assert(before[i - 1] == other);
                }
            }
            if before.contains(other) {
                let i = choose|i: int| 0 <= i < before.len() && before[i] == other;
                if i < at {
                    assert(after[i] == other);
                } else {
                    assert(after[i + 1] == other);
                }
            }
        }
    }
}

/// List all supported PGNs.
///
/// Returns the PGNs of the catalog in ascending order, each once.
pub fn list_supported_pgns() -> (pgns: Vec<u32>)
    ensures
        strictly_ascending(pgns@),
        pgns@.to_set() == supported_pgns(),
        pgns@.len() == supported_pgns().len(),
        pgns@ == listed_pgns(),
{
    let map = build_pgn_database();
    let ghost keys = map.keys().remaining();
    let mut pgns: Vec<u32> = Vec::new();
    for pgn in it: map.keys()
        invariant
            it.seq() == keys,
            keys.no_duplicates(),
            strictly_ascending(pgns@),
            pgns@.len() == it.index(),
            forall|other: u32|
                pgns@.contains(other) <==> exists|j: int|
                    0 <= j < pgns@.len() && *#[trigger] keys[j] == other,
    {
        insert_ascending(&mut pgns, *pgn);
    }
    proof {
        assert(pgns@.len() == keys.len());
        assert forall|other: u32| pgns@.contains(other) <==> keys.unref().contains(other) by {
            if pgns@.contains(other) {
                let j = choose|j: int| 0 <= j < pgns@.len() && *#[trigger] keys[j] == other;
                assert(keys.unref()[j] == other);
            }
            if keys.unref().contains(other) {
                let j = choose|j: int| 0 <= j < keys.unref().len() && keys.unref()[j] == other;
                assert(*keys[j] == other);
            }
        }
        assert(pgns@.to_set() =~= keys.unref().to_set());
        lemma_supported_pgns();
        lemma_ascending_list_is_unique(pgns@, listed_pgns());
    }
    pgns
}

/// Get all SPNs for a given PGN.
///
/// Returns the catalog's definitions for the PGN in catalog order, or `None`
/// if the catalog has none; the list returned is never empty.
///
/// This walks the whole catalog. To look up many PGNs, build an
/// [`SpnDatabase`] once and ask that.
pub fn get_spns_for_pgn(pgn: u32) -> (spns: Option<Vec<SpnDef>>)
    ensures
        match spns {
            Some(found) => spec_get_spns_for_pgn(pgn) == Some(found@),
            None => spec_get_spns_for_pgn(pgn) is None,
        },
        spns matches Some(found) ==> found@.len() > 0 && found@ == listed_spns(pgn),
        spns is None <==> listed_spns(pgn).len() == 0,
{
    proof {
        lemma_catalog_by_pgn(pgn);
    }
    let defs = spn_definitions();
    let mut result: Vec<SpnDef> = Vec::new();
    let mut i: usize = 0;
    while i < defs.len()
        invariant
            i <= defs@.len(),
            result@ == spns_of_pgn(defs@.take(i as int), pgn),
        decreases defs@.len() - i,
    {
        proof {
            lemma_take_next(defs@, i as int);
            defs@.take(i as int).lemma_filter_push(
                defs@[i as int],
                |spn_def: SpnDef| spn_def.pgn == pgn,
            );
        }
        if defs[i].pgn == pgn {
            result.push(defs[i]);
        }
        i += 1;
    }
    assert(defs@.take(i as int) =~= defs@);
    if result.len() == 0 {
        None
    } else {
        Some(result)
    }
}

/// Get a specific SPN definition by SPN number.
///
/// Returns the first catalog entry with that number, or `None` if there is
/// none.
///
/// This walks the catalog up to the entry. To look up many SPNs, build an
/// [`SpnDatabase`] once and ask that.
pub fn get_spn_def(spn: u32) -> (spn_def: Option<SpnDef>)
    ensures
        spn_def == spec_get_spn_def(spn),
        spn_def matches Some(found) ==> found.spn == spn,
{
    let defs = spn_definitions();
    let ghost with_spn = |spn_def: SpnDef| spn_def.spn == spn;
    let mut i: usize = 0;
    while i < defs.len()
        invariant
            i <= defs@.len(),
            defs@ == catalog(),
            with_spn == (|spn_def: SpnDef| spn_def.spn == spn),
            defs@.take(i as int).filter(with_spn).len() == 0,
        decreases defs@.len() - i,
    {
        proof {
            lemma_take_next(defs@, i as int);
            defs@.take(i as int).lemma_filter_push(defs@[i as int], with_spn);
        }
        if defs[i].spn == spn {
            proof {
                let head = defs@.take(i + 1);
                let tail = defs@.skip(i + 1);
                assert(head + tail =~= defs@);
                Seq::filter_distributes_over_add(head, tail, with_spn);
                assert(head.filter(with_spn) =~= seq![defs@[i as int]]);
            }
            return Some(defs[i]);
        }
        i += 1;
    }
    assert(defs@.take(i as int) =~= defs@);
    None
}

/// An ascending list of distinct PGNs is determined by its elements: two
/// such lists with the same elements are the same list.
pub proof fn lemma_ascending_list_is_unique(a: Seq<u32>, b: Seq<u32>)
    requires
        strictly_ascending(a),
        strictly_ascending(b),
        a.to_set() == b.to_set(),
    ensures
        a == b,
    decreases a.len(),
{
    if a.len() == 0 {
        if b.len() > 0 {
            assert(b.contains(b[0]));
            assert(a.to_set().contains(b[0]));
        }
        assert(a =~= b);
    } else {
        let top = a.last();
        assert(a.contains(top));
        assert(b.to_set().contains(top));
        let at = choose|i: int| 0 <= i < b.len() && b[i] == top;
        let other_top = b.last();
        assert(b.contains(other_top));
        assert(a.to_set().contains(other_top));
        let other_at = choose|i: int| 0 <= i < a.len() && a[i] == other_top;
        assert(top == other_top);
        let rest = a.drop_last();
        let other_rest = b.drop_last();
        assert forall|pgn: u32| rest.contains(pgn) <==> other_rest.contains(pgn) by {
            if rest.contains(pgn) {
                let i = choose|i: int| 0 <= i < rest.len() && rest[i] == pgn;
                assert(a[i] == pgn);
                assert(a.contains(pgn));
                assert(b.to_set().contains(pgn));
                let j = choose|j: int| 0 <= j < b.len() && b[j] == pgn;
                assert(other_rest[j] == pgn);
            }
            if other_rest.contains(pgn) {
                let j = choose|j: int| 0 <= j < other_rest.len() && other_rest[j] == pgn;
                assert(b[j] == pgn);
                assert(b.contains(pgn));
                assert(a.to_set().contains(pgn));
                let i = choose|i: int| 0 <= i < a.len() && a[i] == pgn;
                assert(rest[i] == pgn);
            }
        }
        assert(rest.to_set() =~= other_rest.to_set());
        lemma_ascending_list_is_unique(rest, other_rest);
        assert(a =~= rest.push(top));
        assert(b =~= other_rest.push(other_top));
    }
}

/// The PGNs with SPNs in the catalog are the 14 listed ones, and the list is
/// in ascending order.
pub proof fn lemma_supported_pgns()
    ensures
        supported_pgns() == listed_pgns().to_set(),
        supported_pgns().len() == 14,
        supported_pgns().finite(),
        strictly_ascending(listed_pgns()),
{
    lemma_listed_pgns();
    let listed = listed_pgns();
    assert forall|pgn: u32| supported_pgns().contains(pgn) <==> listed.contains(pgn) by {
        lemma_catalog_by_pgn(pgn);
    }
    assert(supported_pgns() =~= listed.to_set());
    listed.unique_seq_to_set();
}

/// Every entry of the catalog is found under its own number: the catalog
/// has no second entry with that number that could stand before it.
pub proof fn lemma_catalog_entry_is_found(i: int)
    requires
        0 <= i < catalog().len(),
    ensures
        spec_get_spn_def(catalog()[i].spn) == Some(catalog()[i]),
        defs_with_spn(catalog(), catalog()[i].spn) == seq![catalog()[i]],
{
    let defs = catalog();
    let spn = defs[i].spn;
    let with_spn = |spn_def: SpnDef| spn_def.spn == spn;
    let before = defs.take(i);
    let after = defs.skip(i + 1);
    lemma_catalog_spns_are_unique();
    assert(before.all(|spn_def: SpnDef| !with_spn(spn_def))) by {
        assert forall|k: int| 0 <= k < before.len() implies !with_spn(#[trigger] before[k]) by {
            assert(before[k] == defs[k]);
        }
    }
    assert(after.all(|spn_def: SpnDef| !with_spn(spn_def))) by {
        assert forall|k: int| 0 <= k < after.len() implies !with_spn(#[trigger] after[k]) by {
            assert(after[k] == defs[i + 1 + k]);
        }
    }
    before.lemma_all_neg_filter_empty(with_spn);
    after.lemma_all_neg_filter_empty(with_spn);
    before.lemma_filter_push(defs[i], with_spn);
    assert(defs =~= before.push(defs[i]) + after);
    Seq::filter_distributes_over_add(before.push(defs[i]), after, with_spn);
    assert(defs.filter(with_spn) =~= seq![defs[i]]);
}

/// The catalog defines engine speed (SPN 190, 16 bits at byte 3 of EEC1,
/// 1/8 rpm per bit), engine coolant temperature (SPN 110, 8 bits at byte 0
/// of ET1, 1 degree per bit from -40) and engine total hours (SPN 247, 32
/// bits at byte 0 of HOURS, 1/20 h per bit).
pub proof fn lemma_core_parameters()
    ensures
        spec_get_spn_def(190) == Some(
            SpnDef::new(
                190,
                "engine_speed",
                PGN_EEC1,
                3,
                0,
                16,
                Ratio::new(1, 8),
                Ratio::whole(0),
                "RPM",
                SpnDataType::Uint16,
            ),
        ),
        spec_get_spn_def(110) == Some(
            SpnDef::new(
                110,
                "engine_coolant_temperature",
                PGN_ET1,
                0,
                0,
                8,
                Ratio::whole(1),
                Ratio::whole(-40i32),
                "C",
                SpnDataType::Uint8,
            ),
        ),
        spec_get_spn_def(247) == Some(
            SpnDef::new(
                247,
                "engine_total_hours_of_operation",
                PGN_HOURS,
                0,
                0,
                32,
                Ratio::new(1, 20),
                Ratio::whole(0),
                "h",
                SpnDataType::Uint32,
            ),
        ),
{
    lemma_group_sizes();
    lemma_catalog_entry_is_found(4);
    assert(catalog()[4] == eec1_spns()[4]);
    lemma_catalog_entry_is_found(23);
    assert(catalog()[23] == et1_spns()[0]);
    lemma_catalog_entry_is_found(56);
    assert(catalog()[56] == hours_spns()[0]);
}

} // verus!
