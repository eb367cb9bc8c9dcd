//! Lookup index of the NPC corporations, and the search over it.

use crate::data::localization::index::{indexed, unique_ids, LookupEntry, LookupIndex};
use crate::data::localization::search::{ranked_search, search_ranked, SearchField};
use crate::data::localization::{LocLanguage, LocalizationService};
use vstd::prelude::*;

verus! {

/// The NPC corporations of a pack, each with the keys of its name and description.
pub struct NpcCorporationLookup {
    index: LookupIndex,
}

impl View for NpcCorporationLookup {
    type V = Seq<LookupEntry>;

    closed spec fn view(&self) -> Seq<LookupEntry> {
        self.index@
    }
}

impl NpcCorporationLookup {
    /// Builds the lookup from the decoded entries of the pack's corporation collection.
    pub fn new(entries: Vec<LookupEntry>) -> (lookup: Self)
        ensures
            lookup@ == indexed(entries@),
            unique_ids(lookup@),
    {
        NpcCorporationLookup { index: LookupIndex::new(entries) }
    }

    /// The index of the corporations.
    pub fn index(&self) -> (index: &LookupIndex)
        ensures
            index@ == self@,
    {
        &self.index
    }
}

impl LocalizationService {
    /// Finds the NPC corporations whose name in `language` contains `name`,
    /// the `limit` nearest by edit distance, nearest first.
    pub fn search_npc_corporation_by_name(
        &self,
        name: &str,
        language: LocLanguage,
        limit: u32,
    ) -> (ids: Vec<i32>)
        ensures
            ids@ == ranked_search(
                self.npc_corporations(),
                self.store(),
                SearchField::Name,
                language,
                name@,
                limit as nat,
            ),
            name@.len() == 0 ==> ids@.len() == 0,
            ids@.len() <= limit,
            ids@.no_duplicates(),
    {
        search_ranked(
            self.npc_corporation_lookup().index(),
            self.localizations(),
            SearchField::Name,
            language,
            name,
            limit,
        )
    }
}

} // verus!
