//! Lookup index: the entities of one kind, each with the keys of its
//! localized name and description.

use std::collections::HashMap;
use vstd::prelude::*;

verus! {

broadcast use vstd::std_specs::hash::group_hash_axioms;

/// One entity of a lookup index.
#[derive(Clone, Copy, Debug)]
pub struct LookupEntry {
    /// Identifier of the entity.
    pub id: i32,
    /// Key of the entity's name in the localization store.
    pub name_id: u32,
    /// Key of the entity's description, where it has one.
    pub description_id: Option<u32>,
}

/// No identifier occurs twice in `s`.
pub open spec fn unique_ids(s: Seq<LookupEntry>) -> bool {
    forall|i: int, j: int| 0 <= i < j < s.len() ==> s[i].id != s[j].id
}

/// The entry at position `i` of `s` has the identifier `id`.
pub open spec fn id_at(s: Seq<LookupEntry>, id: i32, i: int) -> bool {
    0 <= i < s.len() && s[i].id == id
}

/// Some entry of `s` has the identifier `id`.
pub open spec fn has_id(s: Seq<LookupEntry>, id: i32) -> bool {
    exists|i: int| id_at(s, id, i)
}

/// A position at which `id` stands in `s`, where it stands in it at all.
pub open spec fn position_of(s: Seq<LookupEntry>, id: i32) -> int {
    choose|i: int| id_at(s, id, i)
}

/// `table` after `e` was recorded: an entry with the same identifier is
/// replaced where it stands, a new identifier goes to the end.
pub open spec fn upsert(table: Seq<LookupEntry>, e: LookupEntry) -> Seq<LookupEntry> {
    if has_id(table, e.id) {
        table.update(position_of(table, e.id), e)
    } else {
        table.push(e)
    }
}

/// The table that a list of decoded entries stands for: identifiers in the
/// order of their first occurrence, each with the data of its last one.
pub open spec fn indexed(entries: Seq<LookupEntry>) -> Seq<LookupEntry>
    decreases entries.len(),
{
    if entries.len() == 0 {
        Seq::empty()
    } else {
        upsert(indexed(entries.drop_last()), entries.last())
    }
}

/// Recording an entry keeps the identifiers distinct.
pub proof fn lemma_upsert_unique(table: Seq<LookupEntry>, e: LookupEntry)
    requires
        unique_ids(table),
    ensures
        unique_ids(upsert(table, e)),
        has_id(upsert(table, e), e.id),
        forall|id: i32| id != e.id ==> (has_id(upsert(table, e), id) <==> has_id(table, id)),
{
    let next = upsert(table, e);
    if has_id(table, e.id) {
        let p = position_of(table, e.id);
        assert(id_at(table, e.id, p));
        assert(id_at(next, e.id, p));
        assert forall|id: i32| id != e.id implies (has_id(next, id) <==> has_id(table, id)) by {
            if has_id(next, id) {
                let i = choose|i: int| id_at(next, id, i);
                assert(id_at(table, id, i));
            }
            if has_id(table, id) {
                let i = choose|i: int| id_at(table, id, i);
                assert(id_at(next, id, i));
            }
        }
    } else {
        assert(id_at(next, e.id, table.len() as int));
        assert forall|i: int, j: int| 0 <= i < j < next.len() implies next[i].id != next[j].id by {
            if j == table.len() {
                assert(!id_at(table, e.id, i));
            }
        }
        assert forall|id: i32| id != e.id implies (has_id(next, id) <==> has_id(table, id)) by {
            if has_id(next, id) {
                let i = choose|i: int| id_at(next, id, i);
                assert(id_at(table, id, i));
            }
            if has_id(table, id) {
                let i = choose|i: int| id_at(table, id, i);
                assert(id_at(next, id, i));
            }
        }
    }
}

/// The table of any list of entries holds each identifier once.
pub proof fn lemma_indexed_unique(entries: Seq<LookupEntry>)
    ensures
        unique_ids(indexed(entries)),
    decreases entries.len(),
{
    if entries.len() > 0 {
        lemma_indexed_unique(entries.drop_last());
        lemma_upsert_unique(indexed(entries.drop_last()), entries.last());
    }
}

/// The table holds exactly the identifiers that occur in the list.
pub proof fn lemma_indexed_ids(entries: Seq<LookupEntry>, id: i32)
    ensures
        has_id(indexed(entries), id) <==> has_id(entries, id),
    decreases entries.len(),
{
    if entries.len() > 0 {
        let rest = entries.drop_last();
        lemma_indexed_ids(rest, id);
        lemma_indexed_unique(rest);
        lemma_upsert_unique(indexed(rest), entries.last());
        if has_id(entries, id) {
            let i = choose|i: int| id_at(entries, id, i);
            if i < rest.len() {
                assert(id_at(rest, id, i));
            }
        }
        if has_id(rest, id) {
            let i = choose|i: int| id_at(rest, id, i);
            assert(id_at(entries, id, i));
        }
        assert(id_at(entries, entries.last().id, entries.len() - 1));
    } else {
        assert(!has_id(entries, id)) by {
            if has_id(entries, id) {
                let i = choose|i: int| id_at(entries, id, i);
            }
        }
        assert(!has_id(indexed(entries), id)) by {
            if has_id(indexed(entries), id) {
                let i = choose|i: int| id_at(indexed(entries), id, i);
            }
        }
    }
}

/// The entities of one kind, in a fixed order and each identifier once.
pub struct LookupIndex {
    entries: Vec<LookupEntry>,
}

impl View for LookupIndex {
    type V = Seq<LookupEntry>;

    closed spec fn view(&self) -> Seq<LookupEntry> {
        self.entries@
    }
}

impl LookupIndex {
    #[verifier::type_invariant]
    spec fn distinct(self) -> bool {
        unique_ids(self.entries@)
    }

    /// Builds the index of a decoded collection. Where an identifier occurs
    /// more than once, the last entry's data is kept at the place of the first.
    pub fn new(entries: Vec<LookupEntry>) -> (index: Self)
        ensures
            index@ == indexed(entries@),
            unique_ids(index@),
    {
        let mut table: Vec<LookupEntry> = Vec::new();
        let mut places: HashMap<i32, usize> = HashMap::new();
        let mut i: usize = 0;
        while i < entries.len()
            invariant
                i <= entries.len(),
                table@ == indexed(entries@.take(i as int)),
                unique_ids(table@),
                forall|id: i32| places@.contains_key(id) <==> has_id(table@, id),
                forall|id: i32| #[trigger]
                    places@.contains_key(id) ==> id_at(table@, id, places@[id] as int),
            decreases entries.len() - i,
        {
            let e = entries[i];
            proof {
                assert(entries@.take(i as int + 1).drop_last() =~= entries@.take(i as int));
                lemma_upsert_unique(table@, e);
            }
            let ghost before = table@;
            let ghost known = places@;
            match places.get(&e.id) {
                Some(place) => {
                    let p: usize = *place;
                    proof {
                        assert(id_at(before, e.id, p as int));
                        assert(id_at(before, e.id, position_of(before, e.id)));
                    }
                    table.set(p, e);
                    proof {
                        assert(position_of(before, e.id) == p);
                        assert(table@ == upsert(before, e));
                        assert forall|id: i32| places@.contains_key(id) <==> has_id(
                            table@,
                            id,
                        ) by {
                            if id != e.id {
                                assert(known.contains_key(id) <==> has_id(before, id));
                            }
                        }
                        assert forall|id: i32| #[trigger]
                            places@.contains_key(id) implies id_at(
                            table@,
                            id,
                            places@[id] as int,
                        ) by {
                            assert(id_at(before, id, places@[id] as int));
                        }
                    }
                },
                None => {
                    proof {
                        assert(!has_id(before, e.id));
                    }
                    let at: usize = table.len();
                    table.push(e);
                    places.insert(e.id, at);
                    proof {
                        assert(table@ == upsert(before, e));
                        assert forall|id: i32| places@.contains_key(id) <==> has_id(
                            table@,
                            id,
                        ) by {
                            if id != e.id {
                                assert(known.contains_key(id) <==> has_id(before, id));
                            }
                        }
                        assert forall|id: i32| #[trigger]
                            places@.contains_key(id) implies id_at(
                            table@,
                            id,
                            places@[id] as int,
                        ) by {
                            if id != e.id {
                                assert(id_at(before, id, places@[id] as int));
                            }
                        }
                    }
                },
            }
            i += 1;
        }
        proof {
            assert(entries@.take(i as int) =~= entries@);
        }
        LookupIndex { entries: table }
    }

    /// The number of entities.
    pub fn len(&self) -> (n: usize)
        ensures
            n == self@.len(),
    {
        self.entries.len()
    }

    /// The entity at position `i`.
    pub fn entry(&self, i: usize) -> (e: LookupEntry)
        requires
            i < self@.len(),
        ensures
            e == self@[i as int],
    {
        self.entries[i]
    }

    /// All entities, in the order of the index; no identifier occurs twice.
    pub fn entries(&self) -> (all: &Vec<LookupEntry>)
        ensures
            all@ == self@,
            unique_ids(self@),
    {
        proof {
            use_type_invariant(self);
        }
        &self.entries
    }
}

} // verus!
