//! Tables keyed by an identifier, kept in a map that takes the identifier
//! itself for its hash, and lists of identifiers.

use nohash_hasher::{IntMap, NoHashHasher};
use std::hash::BuildHasherDefault;
use vstd::prelude::*;

verus! {

/// `nohash_hasher::NoHashHasher`: the hasher that hands an integer key on as its own hash.
#[verifier::external_type_specification]
#[verifier::external_body]
#[verifier::reject_recursive_types(T)]
pub struct ExNoHashHasher<T>(NoHashHasher<T>);

/// `std::hash::BuildHasherDefault`: makes hashers by `Default`.
#[verifier::external_type_specification]
#[verifier::external_body]
#[verifier::reject_recursive_types(H)]
pub struct ExBuildHasherDefault<H>(BuildHasherDefault<H>);

/// One decoded entry of a collection: an identifier and what belongs to it.
#[derive(Debug)]
pub struct IdEntry<V> {
    /// The identifier.
    pub id: i32,
    /// What belongs to it.
    pub value: V,
}

/// The table that a list of decoded entries stands for: where an
/// identifier occurs more than once, its last entry counts.
pub open spec fn table_of<V>(entries: Seq<IdEntry<V>>) -> Map<i32, V>
    decreases entries.len(),
{
    if entries.len() == 0 {
        Map::empty()
    } else {
        table_of(entries.drop_last()).insert(entries.last().id, entries.last().value)
    }
}

/// What a table holds under `id`.
pub open spec fn entry_of<V>(table: Map<i32, V>, id: i32) -> Option<V> {
    if table.contains_key(id) {
        Some(table[id])
    } else {
        None
    }
}

/// `HashMap::insert` on a `nohash_hasher::IntMap`, the map whose hasher
/// hands an `i32` key on unchanged: the map then holds `value` under
/// `key`, and everything else as before.
#[verifier::external_body]
pub(crate) fn int_map_insert<V>(map: &mut IntMap<i32, V>, key: i32, value: V)
    ensures
        final(map)@ == old(map)@.insert(key, value),
{
    map.insert(key, value);
}

/// `HashMap::get` on a `nohash_hasher::IntMap`, the map whose hasher
/// hands an `i32` key on unchanged: what the map holds under `key`.
#[verifier::external_body]
pub(crate) fn int_map_get<'a, V>(map: &'a IntMap<i32, V>, key: i32) -> (found: Option<&'a V>)
    ensures
        match found {
            Some(value) => entry_of(map@, key) == Some(*value),
            None => entry_of(map@, key) is None,
        },
{
    map.get(&key)
}

/// Builds the table of a decoded collection.
pub fn build_table<V>(entries: Vec<IdEntry<V>>) -> (table: IntMap<i32, V>)
    ensures
        table@ == table_of(entries@),
{
    let mut table: IntMap<i32, V> = IntMap::default();
    for entry in it: entries
        invariant
            it.seq() == entries@,
            table@ == table_of(entries@.take(it.index() as int)),
    {
        proof {
            assert(entries@.take(it.index() + 1).drop_last() =~= entries@.take(it.index() as int));
        }
        int_map_insert(&mut table, entry.id, entry.value);
    }
    proof {
        assert(entries@.take(entries@.len() as int) =~= entries@);
    }
    table
}

/// The identifiers of `s` never decrease along it.
pub open spec fn ascending_ids(s: Seq<i32>) -> bool {
    forall|i: int, j: int| 0 <= i <= j < s.len() ==> s[i] <= s[j]
}

/// The identifiers of `ids` in ascending order: the same identifiers, each
/// as often as `ids` holds it.
pub fn sorted_ids(ids: Vec<i32>) -> (sorted: Vec<i32>)
    ensures
        ascending_ids(sorted@),
        sorted@.to_multiset() == ids@.to_multiset(),
        sorted@.len() == ids@.len(),
{
    let mut sorted: Vec<i32> = Vec::new();
    let mut i: usize = 0;
    proof {
        assert(ids@.take(0) =~= sorted@);
    }
    while i < ids.len()
        invariant
            i <= ids.len(),
            sorted@.len() == i,
            ascending_ids(sorted@),
            sorted@.to_multiset() == ids@.take(i as int).to_multiset(),
        decreases ids.len() - i,
    {
        let id = ids[i];
        let mut place: usize = sorted.len();
        while place > 0 && sorted[place - 1] > id
            invariant
                place <= sorted.len(),
                forall|k: int| place <= k < sorted@.len() ==> sorted@[k] > id,
            decreases place,
        {
            place -= 1;
        }
        proof {
            vstd::seq_lib::to_multiset_insert(sorted@, place as int, id);
            vstd::seq_lib::to_multiset_build(ids@.take(i as int), id);
            assert(ids@.take(i as int + 1) =~= ids@.take(i as int).push(id));
        }
        sorted.insert(place, id);
        i += 1;
    }
    proof {
        assert(ids@.take(i as int) =~= ids@);
    }
    sorted
}

} // verus!
