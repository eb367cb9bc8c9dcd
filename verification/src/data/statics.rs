//! The static tables of a pack.

pub mod categories;
pub mod groups;
pub mod market_group;
pub mod meta_groups;

use crate::data::statics::categories::CategoriesService;
use crate::data::statics::groups::GroupsService;
use crate::data::statics::market_group::MarketGroupService;
use crate::data::statics::meta_groups::MetaGroupsService;
use crate::utils::path::{join, joined};
use vstd::prelude::*;

verus! {

/// The static tables of a pack.
#[derive(Debug)]
pub struct StaticsService {
    /// The categories of items.
    pub categories: CategoriesService,
    /// The groups of items.
    pub groups: GroupsService,
    /// The groups of the market.
    pub market_groups: MarketGroupService,
    /// The meta groups of items.
    pub meta_groups: MetaGroupsService,
}

impl StaticsService {
    /// The folder of the pack in `bundle_path` that holds its static tables.
    pub fn folder(bundle_path: &str) -> (path: String)
        ensures
            path@ == joined(bundle_path@, "static"@),
    {
        join(bundle_path, "static")
    }

    /// Puts the tables of a pack together. Every table is needed: where
    /// one could not be loaded, there is no service.
    pub fn init(
        categories: Option<CategoriesService>,
        groups: Option<GroupsService>,
        market_groups: Option<MarketGroupService>,
        meta_groups: Option<MetaGroupsService>,
    ) -> (service: Option<Self>)
        ensures
            match service {
                Some(s) => categories == Some(s.categories) && groups == Some(s.groups)
                    && market_groups == Some(s.market_groups) && meta_groups == Some(
                    s.meta_groups,
                ),
                None => categories is None || groups is None || market_groups is None
                    || meta_groups is None,
            },
    {
        match (categories, groups, market_groups, meta_groups) {
            (Some(categories), Some(groups), Some(market_groups), Some(meta_groups)) => Some(
                StaticsService { categories, groups, market_groups, meta_groups },
            ),
            _ => None,
        }
    }
}

} // verus!
