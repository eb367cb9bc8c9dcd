//! The meta groups of items.

use crate::utils::int_map::{build_table, entry_of, int_map_get, table_of, IdEntry};
use nohash_hasher::IntMap;
use vstd::prelude::*;

verus! {

/// A meta group of items.
#[derive(Clone, Copy, Debug, PartialEq, Eq, Structural)]
pub struct MetaGroup {
    /// Key of the meta group's name in the localization store.
    pub name_id: i32,
    /// Identifier of the meta group's icon.
    pub icon_id: Option<i32>,
}

/// The meta groups of items.
#[derive(Debug)]
pub struct MetaGroupsService {
    /// The table, by identifier.
    pub meta_groups: IntMap<i32, MetaGroup>,
}

impl MetaGroupsService {
    /// Sets up the service from the decoded entries of the pack's collection.
    pub fn init(entries: Vec<IdEntry<MetaGroup>>) -> (service: Self)
        ensures
            service.meta_groups@ == table_of(entries@),
    {
        MetaGroupsService { meta_groups: build_table(entries) }
    }

    /// What the pack holds under the identifier.
    pub fn get_meta_group(&self, id: i32) -> (found: Option<&MetaGroup>)
        ensures
            match found {
                Some(value) => entry_of(self.meta_groups@, id) == Some(*value),
                None => entry_of(self.meta_groups@, id) is None,
            },
    {
        int_map_get(&self.meta_groups, id)
    }
}

} // verus!
