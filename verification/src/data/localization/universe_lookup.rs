//! Lookup indexes of the universe: regions, constellations and solar
//! systems, and the searches over them.

use crate::data::localization::index::{indexed, unique_ids, LookupEntry, LookupIndex};
use crate::data::localization::search::{
    ascending, distinct_ids, located_search, search_located, LocSearchResult,
};
use crate::data::localization::{LocLanguage, LocalizationService};
use vstd::prelude::*;

verus! {

/// The regions, constellations and solar systems of a pack, each with the
/// key of its name.
pub struct UniverseLookup {
    region_lookup: LookupIndex,
    constellation_lookup: LookupIndex,
    system_lookup: LookupIndex,
}

impl UniverseLookup {
    /// The regions, in the order of the index.
    pub closed spec fn regions(&self) -> Seq<LookupEntry> {
        self.region_lookup@
    }

    /// The constellations, in the order of the index.
    pub closed spec fn constellations(&self) -> Seq<LookupEntry> {
        self.constellation_lookup@
    }

    /// The solar systems, in the order of the index.
    pub closed spec fn systems(&self) -> Seq<LookupEntry> {
        self.system_lookup@
    }

    /// Builds the lookups from the decoded entries of the pack's region,
    /// constellation and solar system collections.
    pub fn new(
        region_entries: Vec<LookupEntry>,
        constellation_entries: Vec<LookupEntry>,
        system_entries: Vec<LookupEntry>,
    ) -> (lookup: Self)
        ensures
            lookup.regions() == indexed(region_entries@),
            lookup.constellations() == indexed(constellation_entries@),
            lookup.systems() == indexed(system_entries@),
            unique_ids(lookup.regions()),
            unique_ids(lookup.constellations()),
            unique_ids(lookup.systems()),
    {
        UniverseLookup {
            region_lookup: LookupIndex::new(region_entries),
            constellation_lookup: LookupIndex::new(constellation_entries),
            system_lookup: LookupIndex::new(system_entries),
        }
    }

    /// The index of the regions.
    pub fn region_index(&self) -> (index: &LookupIndex)
        ensures
            index@ == self.regions(),
    {
        &self.region_lookup
    }

    /// The index of the constellations.
    pub fn constellation_index(&self) -> (index: &LookupIndex)
        ensures
            index@ == self.constellations(),
    {
        &self.constellation_lookup
    }

    /// The index of the solar systems.
    pub fn system_index(&self) -> (index: &LookupIndex)
        ensures
            index@ == self.systems(),
    {
        &self.system_lookup
    }
}

impl LocalizationService {
    /// Finds the regions whose name in `language` contains `name`. Every
    /// match is returned with the byte position of the first occurrence of
    /// the query in the lowercased name, the earliest occurrence first,
    /// matches at the same position in the order of the index.
    pub fn search_region_by_name(&self, name: &str, language: LocLanguage) -> (found: Vec<
        LocSearchResult,
    >)
        ensures
            found@ == located_search(self.regions(), self.store(), language, name@),
            name@.len() == 0 ==> found@.len() == 0,
            ascending(found@),
            distinct_ids(found@),
    {
        search_located(self.universe_lookup().region_index(), self.localizations(), language, name)
    }

    /// Finds the constellations whose name in `language` contains `name`.
    /// Every match is returned with the byte position of the first
    /// occurrence of the query in the lowercased name, the earliest
    /// occurrence first, matches at the same position in the order of the
    /// index.
    pub fn search_constellation_by_name(&self, name: &str, language: LocLanguage) -> (found: Vec<
        LocSearchResult,
    >)
        ensures
            found@ == located_search(self.constellations(), self.store(), language, name@),
            name@.len() == 0 ==> found@.len() == 0,
            ascending(found@),
            distinct_ids(found@),
    {
        search_located(
            self.universe_lookup().constellation_index(),
            self.localizations(),
            language,
            name,
        )
    }

    /// Finds the solar systems whose name in `language` contains `name`.
    /// Every match is returned with the byte position of the first
    /// occurrence of the query in the lowercased name, the earliest
    /// occurrence first, matches at the same position in the order of the
    /// index.
    pub fn search_system_by_name(&self, name: &str, language: LocLanguage) -> (found: Vec<
        LocSearchResult,
    >)
        ensures
            found@ == located_search(self.systems(), self.store(), language, name@),
            name@.len() == 0 ==> found@.len() == 0,
            ascending(found@),
            distinct_ids(found@),
    {
        search_located(self.universe_lookup().system_index(), self.localizations(), language, name)
    }
}

} // verus!
