//! Localized strings of a pack and the search over them.

pub mod index;
pub mod npc_corporation_lookup;
pub mod search;
pub mod search_laws;
pub mod type_lookup;
pub mod universe_lookup;

use crate::data::localization::index::LookupEntry;
use crate::data::localization::npc_corporation_lookup::NpcCorporationLookup;
use crate::data::localization::search::{ranked_search, search_ranked, SearchField};
use crate::data::localization::type_lookup::TypeLookup;
use crate::data::localization::universe_lookup::UniverseLookup;
use std::collections::HashMap;
use vstd::prelude::*;

verus! {

broadcast use vstd::std_specs::hash::group_hash_axioms;

/// The text of one message in every language of the client.
#[derive(Debug)]
pub struct LocString {
    /// English text.
    pub en: String,
    /// Chinese text.
    pub zh: String,
}

impl Clone for LocString {
    fn clone(&self) -> (copy: Self)
        ensures
            copy == *self,
    {
        LocString { en: self.en.clone(), zh: self.zh.clone() }
    }
}

/// A language of the client.
#[derive(Clone, Copy, Debug, PartialEq, Eq, Structural)]
pub enum LocLanguage {
    /// English.
    English,
    /// Chinese.
    Chinese,
}

/// The kinds of entity that can be searched by their localized text.
#[derive(Clone, Copy, Debug, PartialEq, Eq, Structural)]
pub enum EntityKind {
    /// Item types.
    Type,
    /// Regions of the universe.
    Region,
    /// Constellations of the universe.
    Constellation,
    /// Solar systems of the universe.
    System,
    /// NPC corporations.
    NpcCorporation,
}

/// One decoded entry of a pack's localization collection.
#[derive(Debug)]
pub struct LocalizationEntry {
    /// Key of the message.
    pub key: u32,
    /// Text of the message.
    pub text: LocString,
}

/// One decoded entry of a pack's table of interface messages.
#[derive(Debug)]
pub struct UiLocalizationEntry {
    /// Name of the interface message.
    pub key: String,
    /// Key of its text in the localization collection.
    pub message_id: u32,
}

/// The text of `loc` in `language`.
pub open spec fn text_in(loc: LocString, language: LocLanguage) -> Seq<char> {
    match language {
        LocLanguage::English => loc.en@,
        LocLanguage::Chinese => loc.zh@,
    }
}

/// The store that a list of decoded entries stands for: where a key occurs
/// more than once, its last text counts.
pub open spec fn store_of(entries: Seq<LocalizationEntry>) -> Map<u32, LocString>
    decreases entries.len(),
{
    if entries.len() == 0 {
        Map::empty()
    } else {
        store_of(entries.drop_last()).insert(entries.last().key, entries.last().text)
    }
}

/// The message key that a table of interface messages gives for `key`:
/// that of the last entry of this name.
pub open spec fn ui_message(table: Seq<UiLocalizationEntry>, key: Seq<char>) -> Option<u32>
    decreases table.len(),
{
    if table.len() == 0 {
        None
    } else if table.last().key@ == key {
        Some(table.last().message_id)
    } else {
        ui_message(table.drop_last(), key)
    }
}

/// The text that the store holds under `key` in `language`.
pub open spec fn localized(store: Map<u32, LocString>, key: u32, language: LocLanguage) -> Option<
    Seq<char>,
> {
    if store.contains_key(key) {
        Some(text_in(store[key], language))
    } else {
        None
    }
}

/// The localized strings of an activated pack, with the lookup indexes that
/// refer to them.
pub struct LocalizationService {
    localizations: HashMap<u32, LocString>,
    ui_localizations: Vec<UiLocalizationEntry>,
    type_lookup: TypeLookup,
    universe_lookup: UniverseLookup,
    npc_corporation_lookup: NpcCorporationLookup,
}

impl LocalizationService {
    /// The localization store: message key to text.
    pub closed spec fn store(&self) -> Map<u32, LocString> {
        self.localizations@
    }

    /// The table of interface messages.
    pub closed spec fn ui(&self) -> Seq<UiLocalizationEntry> {
        self.ui_localizations@
    }

    /// The item types, in the order of their index.
    pub closed spec fn types(&self) -> Seq<LookupEntry> {
        self.type_lookup@
    }

    /// The regions, in the order of their index.
    pub closed spec fn regions(&self) -> Seq<LookupEntry> {
        self.universe_lookup.regions()
    }

    /// The constellations, in the order of their index.
    pub closed spec fn constellations(&self) -> Seq<LookupEntry> {
        self.universe_lookup.constellations()
    }

    /// The solar systems, in the order of their index.
    pub closed spec fn systems(&self) -> Seq<LookupEntry> {
        self.universe_lookup.systems()
    }

    /// The NPC corporations, in the order of their index.
    pub closed spec fn npc_corporations(&self) -> Seq<LookupEntry> {
        self.npc_corporation_lookup@
    }

    /// The entities of `kind`, in the order of their index.
    pub open spec fn entities(&self, kind: EntityKind) -> Seq<LookupEntry> {
        match kind {
            EntityKind::Type => self.types(),
            EntityKind::Region => self.regions(),
            EntityKind::Constellation => self.constellations(),
            EntityKind::System => self.systems(),
            EntityKind::NpcCorporation => self.npc_corporations(),
        }
    }

    /// Puts the decoded collections of a pack together.
    pub fn init(
        localizations: Vec<LocalizationEntry>,
        ui_localizations: Vec<UiLocalizationEntry>,
        type_lookup: TypeLookup,
        universe_lookup: UniverseLookup,
        npc_corporation_lookup: NpcCorporationLookup,
    ) -> (service: Self)
        ensures
            service.store() == store_of(localizations@),
            service.ui() == ui_localizations@,
            service.types() == type_lookup@,
            service.regions() == universe_lookup.regions(),
            service.constellations() == universe_lookup.constellations(),
            service.systems() == universe_lookup.systems(),
            service.npc_corporations() == npc_corporation_lookup@,
    {
        let mut store: HashMap<u32, LocString> = HashMap::new();
        for entry in it: localizations
            invariant
                it.seq() == localizations@,
                store@ == store_of(localizations@.take(it.index() as int)),
        {
            proof {
                assert(localizations@.take(it.index() + 1).drop_last() =~= localizations@.take(
                    it.index() as int,
                ));
            }
            store.insert(entry.key, entry.text);
        }
        proof {
            assert(localizations@.take(localizations@.len() as int) =~= localizations@);
        }
        LocalizationService {
            localizations: store,
            ui_localizations,
            type_lookup,
            universe_lookup,
            npc_corporation_lookup,
        }
    }

    /// The localization store.
    pub fn localizations(&self) -> (store: &HashMap<u32, LocString>)
        ensures
            store@ == self.store(),
    {
        &self.localizations
    }

    /// The lookup of the item types.
    pub fn type_lookup(&self) -> (lookup: &TypeLookup)
        ensures
            lookup@ == self.types(),
    {
        &self.type_lookup
    }

    /// The lookups of the universe.
    pub fn universe_lookup(&self) -> (lookup: &UniverseLookup)
        ensures
            lookup.regions() == self.regions(),
            lookup.constellations() == self.constellations(),
            lookup.systems() == self.systems(),
    {
        &self.universe_lookup
    }

    /// The lookup of the NPC corporations.
    pub fn npc_corporation_lookup(&self) -> (lookup: &NpcCorporationLookup)
        ensures
            lookup@ == self.npc_corporations(),
    {
        &self.npc_corporation_lookup
    }

    /// The text under `key` in every language; `None` where the pack has
    /// no text for it.
    pub fn get_localization(&self, key: u32) -> (text: Option<LocString>)
        ensures
            text == if self.store().contains_key(key) {
                Some(self.store()[key])
            } else {
                None
            },
    {
        match self.localizations.get(&key) {
            Some(loc) => Some(loc.clone()),
            None => None,
        }
    }

    /// The text under `key` in `language`; `None` where the pack has no
    /// text for it.
    pub fn get_localization_by_language(&self, key: u32, language: LocLanguage) -> (text: Option<
        String,
    >)
        ensures
            match text {
                Some(t) => localized(self.store(), key, language) == Some(t@),
                None => localized(self.store(), key, language) is None,
            },
    {
        match self.localizations.get(&key) {
            Some(loc) => Some(
                match language {
                    LocLanguage::English => loc.en.clone(),
                    LocLanguage::Chinese => loc.zh.clone(),
                },
            ),
            None => None,
        }
    }

    /// The message key of the interface message named `key`.
    pub fn ui_message_id(&self, key: &str) -> (id: Option<u32>)
        ensures
            id == ui_message(self.ui(), key@),
    {
        let wanted = key.to_owned();
        let mut i: usize = self.ui_localizations.len();
        proof {
            assert(self.ui().take(i as int) =~= self.ui());
        }
        while i > 0
            invariant
                i <= self.ui_localizations.len(),
                wanted@ == key@,
                ui_message(self.ui(), key@) == ui_message(self.ui().take(i as int), key@),
            decreases i,
        {
            proof {
                assert(self.ui().take(i as int).drop_last() =~= self.ui().take(i as int - 1));
            }
            i -= 1;
            if self.ui_localizations[i].key == wanted {
                return Some(self.ui_localizations[i].message_id);
            }
        }
        None
    }

    /// The text of the interface message named `key` in `language`; `None`
    /// where the pack does not know the name or has no text for it.
    pub fn get_ui_localization_by_language(&self, key: &str, language: LocLanguage) -> (text:
        Option<String>)
        ensures
            match text {
                Some(t) => ui_message(self.ui(), key@) matches Some(id) && localized(
                    self.store(),
                    id,
                    language,
                ) == Some(t@),
                None => ui_message(self.ui(), key@) matches Some(id) ==> localized(
                    self.store(),
                    id,
                    language,
                ) is None,
            },
    {
        match self.ui_message_id(key) {
            Some(id) => self.get_localization_by_language(id, language),
            None => None,
        }
    }

    /// The index of the entities of `kind`.
    pub fn index_of(&self, kind: EntityKind) -> (index: &index::LookupIndex)
        ensures
            index@ == self.entities(kind),
    {
        match kind {
            EntityKind::Type => self.type_lookup.index(),
            EntityKind::Region => self.universe_lookup.region_index(),
            EntityKind::Constellation => self.universe_lookup.constellation_index(),
            EntityKind::System => self.universe_lookup.system_index(),
            EntityKind::NpcCorporation => self.npc_corporation_lookup.index(),
        }
    }

    /// Searches the entities of `kind` for `query` in the given text field
    /// and language. The query is trimmed and compared without regard to
    /// case; a blank query finds nothing. An entity matches where its text
    /// contains the query; the `limit` matches nearest to the query by edit
    /// distance are returned, nearest first, equally near ones in the order
    /// of the index.
    pub fn search(
        &self,
        kind: EntityKind,
        field: SearchField,
        query: &str,
        language: LocLanguage,
        limit: u32,
    ) -> (ids: Vec<i32>)
        ensures
            ids@ == ranked_search(
                self.entities(kind),
                self.store(),
                field,
                language,
                query@,
                limit as nat,
            ),
            query@.len() == 0 ==> ids@.len() == 0,
            ids@.len() <= limit,
            ids@.no_duplicates(),
    {
        search_ranked(self.index_of(kind), &self.localizations, field, language, query, limit)
    }
}

} // verus!
