//! Lookup index of the item types, and the searches over it.

use crate::data::localization::index::{indexed, unique_ids, LookupEntry, LookupIndex};
use crate::data::localization::search::{ranked_search, search_ranked, SearchField};
use crate::data::localization::{LocLanguage, LocalizationService};
use vstd::prelude::*;

verus! {

/// The item types of a pack, each with the keys of its name and description.
pub struct TypeLookup {
    index: LookupIndex,
}

impl View for TypeLookup {
    type V = Seq<LookupEntry>;

    closed spec fn view(&self) -> Seq<LookupEntry> {
        self.index@
    }
}

impl TypeLookup {
    /// Builds the lookup from the decoded entries of the pack's type collection.
    pub fn new(entries: Vec<LookupEntry>) -> (lookup: Self)
        ensures
            lookup@ == indexed(entries@),
            unique_ids(lookup@),
    {
        TypeLookup { index: LookupIndex::new(entries) }
    }

    /// The index of the types.
    pub fn index(&self) -> (index: &LookupIndex)
        ensures
            index@ == self@,
    {
        &self.index
    }
}

impl LocalizationService {
    /// Finds the types whose name in `language` contains `name`, the
    /// `limit` nearest by edit distance, nearest first.
    pub fn search_type_by_name(&self, name: &str, language: LocLanguage, limit: u32) -> (ids: Vec<
        i32,
    >)
        ensures
            ids@ == ranked_search(
                self.types(),
                self.store(),
                SearchField::Name,
                language,
                name@,
                limit as nat,
            ),
            name@.len() == 0 ==> ids@.len() == 0,
            ids@.len() <= limit,
            ids@.no_duplicates(),
    {
        search_ranked(
            self.type_lookup().index(),
            self.localizations(),
            SearchField::Name,
            language,
            name,
            limit,
        )
    }

    /// Finds the types whose description in `language` contains `desc`, the
    /// `limit` nearest by edit distance, nearest first. Types without a
    /// description are never found.
    pub fn search_type_by_description(
        &self,
        desc: &str,
        language: LocLanguage,
        limit: u32,
    ) -> (ids: Vec<i32>)
        ensures
            ids@ == ranked_search(
                self.types(),
                self.store(),
                SearchField::Description,
                language,
                desc@,
                limit as nat,
            ),
            desc@.len() == 0 ==> ids@.len() == 0,
            ids@.len() <= limit,
            ids@.no_duplicates(),
    {
        search_ranked(
            self.type_lookup().index(),
            self.localizations(),
            SearchField::Description,
            language,
            desc,
            limit,
        )
    }
}

} // verus!
