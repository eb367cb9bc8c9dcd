//! The categories of items.

use crate::utils::int_map::{build_table, entry_of, int_map_get, table_of, IdEntry};
use nohash_hasher::IntMap;
use vstd::prelude::*;

verus! {

/// A category of items.
#[derive(Clone, Copy, Debug, PartialEq, Eq, Structural)]
pub struct Category {
    /// Identifier of the category.
    pub category_id: i32,
    /// Key of the category's name in the localization store.
    pub category_name_id: i32,
    /// Identifier of the category's icon.
    pub icon_id: Option<i32>,
    /// Whether the category is shown to players.
    pub published: bool,
}

/// The categories of items.
#[derive(Debug)]
pub struct CategoriesService {
    /// The table, by identifier.
    pub categories: IntMap<i32, Category>,
}

impl CategoriesService {
    /// Sets up the service from the decoded entries of the pack's collection.
    pub fn init(entries: Vec<IdEntry<Category>>) -> (service: Self)
        ensures
            service.categories@ == table_of(entries@),
    {
        CategoriesService { categories: build_table(entries) }
    }

    /// What the pack holds under the identifier.
    pub fn get_category(&self, id: i32) -> (found: Option<&Category>)
        ensures
            match found {
                Some(value) => entry_of(self.categories@, id) == Some(*value),
                None => entry_of(self.categories@, id) is None,
            },
    {
        int_map_get(&self.categories, id)
    }
}

} // verus!
