//! The groups of items.

use crate::utils::int_map::{build_table, entry_of, int_map_get, table_of, IdEntry};
use nohash_hasher::IntMap;
use vstd::prelude::*;

verus! {

/// A group of items.
#[derive(Clone, Copy, Debug, PartialEq, Eq, Structural)]
pub struct Group {
    /// Identifier of the group.
    pub group_id: i32,
    /// Key of the group's name in the localization store.
    pub group_name_id: i32,
    /// Identifier of the group's icon.
    pub icon_id: Option<i32>,
    /// Identifier of the category that the group belongs to.
    pub category_id: i32,
    /// Whether items of the group can be anchored.
    pub anchorable: bool,
    /// Whether several items of the group can be fitted unpacked.
    pub fittable_non_singleton: bool,
    /// Whether items of the group are anchored.
    pub anchored: bool,
    /// Whether the group is shown to players.
    pub published: bool,
    /// Whether the base price of the items is used.
    pub use_base_price: bool,
}

/// The groups of items.
#[derive(Debug)]
pub struct GroupsService {
    /// The table, by identifier.
    pub groups: IntMap<i32, Group>,
}

impl GroupsService {
    /// Sets up the service from the decoded entries of the pack's collection.
    pub fn init(entries: Vec<IdEntry<Group>>) -> (service: Self)
        ensures
            service.groups@ == table_of(entries@),
    {
        GroupsService { groups: build_table(entries) }
    }

    /// What the pack holds under the identifier.
    pub fn get_group(&self, id: i32) -> (found: Option<&Group>)
        ensures
            match found {
                Some(value) => entry_of(self.groups@, id) == Some(*value),
                None => entry_of(self.groups@, id) is None,
            },
    {
        int_map_get(&self.groups, id)
    }
}

} // verus!
