//! The groups of the market.

use crate::utils::int_map::{build_table, entry_of, int_map_get, table_of, IdEntry};
use crate::utils::path::{join, joined};
use nohash_hasher::IntMap;
use vstd::prelude::*;

verus! {

/// A group of the market.
#[derive(Debug)]
pub struct MarketGroup {
    /// Key of the group's name in the localization store.
    pub name_id: i32,
    /// Key of the group's description.
    pub description_id: Option<i32>,
    /// Identifier of the group's icon.
    pub icon_id: Option<i32>,
    /// Identifier of the group that this one belongs to.
    pub parent_group_id: Option<i32>,
    /// The item types of the group.
    pub types: Vec<i32>,
    /// The groups that belong to this one.
    pub groups: Vec<i32>,
}

/// The groups of the market.
#[derive(Debug)]
pub struct MarketGroupService {
    market_groups: IntMap<i32, MarketGroup>,
    market_group_path: String,
}

impl MarketGroupService {
    /// The table of groups, by identifier.
    pub closed spec fn table(&self) -> Map<i32, MarketGroup> {
        self.market_groups@
    }

    /// The file that the groups were decoded from.
    pub closed spec fn path(&self) -> Seq<char> {
        self.market_group_path@
    }

    /// The file below `static_path` that holds the groups of the market.
    pub fn file(static_path: &str) -> (path: String)
        ensures
            path@ == joined(static_path@, "market_groups.pb"@),
    {
        join(static_path, "market_groups.pb")
    }

    /// Sets up the service from the decoded entries of the collection
    /// below `static_path`.
    pub fn init(static_path: &str, entries: Vec<IdEntry<MarketGroup>>) -> (service: Self)
        ensures
            service.table() == table_of(entries@),
            service.path() == joined(static_path@, "market_groups.pb"@),
    {
        MarketGroupService {
            market_groups: build_table(entries),
            market_group_path: Self::file(static_path),
        }
    }

    /// What the pack holds under the identifier.
    pub fn get_market_group(&self, market_group_id: i32) -> (found: Option<&MarketGroup>)
        ensures
            match found {
                Some(value) => entry_of(self.table(), market_group_id) == Some(*value),
                None => entry_of(self.table(), market_group_id) is None,
            },
    {
        int_map_get(&self.market_groups, market_group_id)
    }

    /// The file whose bytes are the whole collection, undecoded.
    pub fn raw_path(&self) -> (path: &String)
        ensures
            path@ == self.path(),
    {
        &self.market_group_path
    }
}

} // verus!
