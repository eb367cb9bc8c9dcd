//! Links to sites outside the client, with placeholders to fill in.

use crate::utils::request::{fill, filled, Pair};
use std::collections::HashMap;
use vstd::prelude::*;

verus! {

broadcast use vstd::std_specs::hash::group_hash_axioms;

/// The links that a pack may define.
#[derive(Clone, Copy, Debug, PartialEq, Eq, Hash, Structural)]
pub enum LinkKey {
    /// `MARKET-EVE-C3Q-CC`
    MarketEveC3qCc,
    /// `MARKET-EVE-C3Q-CC-EN`
    MarketEveC3qCcEn,
    /// `MARKET-EVE-TYCOON`
    MarketEveTycoon,
    /// `UNKNOWN`
    Unknown,
}

/// The link that the number `code` stands for; every number without a
/// link of its own stands for `Unknown`.
pub open spec fn link_key_of(code: u8) -> LinkKey {
    if code == 0 {
        LinkKey::MarketEveC3qCc
    } else if code == 1 {
        LinkKey::MarketEveC3qCcEn
    } else if code == 2 {
        LinkKey::MarketEveTycoon
    } else {
        LinkKey::Unknown
    }
}

/// The link that is written `name`.
pub open spec fn link_key_named(name: Seq<char>) -> Option<LinkKey> {
    if name == "MARKET-EVE-C3Q-CC"@ {
        Some(LinkKey::MarketEveC3qCc)
    } else if name == "MARKET-EVE-C3Q-CC-EN"@ {
        Some(LinkKey::MarketEveC3qCcEn)
    } else if name == "MARKET-EVE-TYCOON"@ {
        Some(LinkKey::MarketEveTycoon)
    } else if name == "UNKNOWN"@ {
        Some(LinkKey::Unknown)
    } else {
        None
    }
}

impl LinkKey {
    /// The number that stands for the link.
    pub open spec fn code(self) -> u8 {
        match self {
            LinkKey::MarketEveC3qCc => 0,
            LinkKey::MarketEveC3qCcEn => 1,
            LinkKey::MarketEveTycoon => 2,
            LinkKey::Unknown => 255,
        }
    }

    /// How the link is written.
    pub open spec fn name(self) -> Seq<char> {
        match self {
            LinkKey::MarketEveC3qCc => "MARKET-EVE-C3Q-CC"@,
            LinkKey::MarketEveC3qCcEn => "MARKET-EVE-C3Q-CC-EN"@,
            LinkKey::MarketEveTycoon => "MARKET-EVE-TYCOON"@,
            LinkKey::Unknown => "UNKNOWN"@,
        }
    }

    /// The number that stands for the link.
    pub fn to_u8(self) -> (code: u8)
        ensures
            code == self.code(),
            link_key_of(code) == self,
    {
        match self {
            LinkKey::MarketEveC3qCc => 0,
            LinkKey::MarketEveC3qCcEn => 1,
            LinkKey::MarketEveTycoon => 2,
            LinkKey::Unknown => 255,
        }
    }

    /// The link that the number `code` stands for.
    pub fn from_u8(code: u8) -> (key: Self)
        ensures
            key == link_key_of(code),
    {
        if code == 0 {
            LinkKey::MarketEveC3qCc
        } else if code == 1 {
            LinkKey::MarketEveC3qCcEn
        } else if code == 2 {
            LinkKey::MarketEveTycoon
        } else {
            LinkKey::Unknown
        }
    }

    /// How the link is written.
    pub fn as_str(&self) -> (name: &'static str)
        ensures
            name@ == self.name(),
    {
        match self {
            LinkKey::MarketEveC3qCc => "MARKET-EVE-C3Q-CC",
            LinkKey::MarketEveC3qCcEn => "MARKET-EVE-C3Q-CC-EN",
            LinkKey::MarketEveTycoon => "MARKET-EVE-TYCOON",
            LinkKey::Unknown => "UNKNOWN",
        }
    }

    /// The link that is written `name`.
    pub fn from_name(name: &str) -> (key: Option<Self>)
        ensures
            key == link_key_named(name@),
    {
        let name = name.to_owned();
        if name == "MARKET-EVE-C3Q-CC".to_owned() {
            Some(LinkKey::MarketEveC3qCc)
        } else if name == "MARKET-EVE-C3Q-CC-EN".to_owned() {
            Some(LinkKey::MarketEveC3qCcEn)
        } else if name == "MARKET-EVE-TYCOON".to_owned() {
            Some(LinkKey::MarketEveTycoon)
        } else if name == "UNKNOWN".to_owned() {
            Some(LinkKey::Unknown)
        } else {
            None
        }
    }
}

/// One entry of a pack's table of links.
#[derive(Debug)]
pub struct LinkEntry {
    /// The link.
    pub key: LinkKey,
    /// Its address with placeholders; `None` where the pack leaves it out.
    pub url: Option<String>,
}

/// The table that a list of entries stands for, by the number of the
/// link: where a link occurs more than once, its last entry counts.
pub open spec fn links_of(entries: Seq<LinkEntry>) -> Map<u8, Option<String>>
    decreases entries.len(),
{
    if entries.len() == 0 {
        Map::empty()
    } else {
        links_of(entries.drop_last()).insert(entries.last().key.code(), entries.last().url)
    }
}

/// The links of a pack.
#[derive(Debug)]
pub struct LinkService {
    links: HashMap<u8, Option<String>>,
}

impl View for LinkService {
    type V = Map<u8, Option<String>>;

    /// The table of links, by the number of the link.
    closed spec fn view(&self) -> Map<u8, Option<String>> {
        self.links@
    }
}

impl LinkService {
    /// The address template of the link `key`, where the pack has one.
    pub open spec fn template(&self, key: LinkKey) -> Option<Seq<char>> {
        if self@.contains_key(key.code()) && self@[key.code()] is Some {
            Some(self@[key.code()]->0@)
        } else {
            None
        }
    }

    /// Sets up the links from the entries of the pack's table.
    pub fn new(entries: Vec<LinkEntry>) -> (service: Self)
        ensures
            service@ == links_of(entries@),
    {
        let mut links: HashMap<u8, Option<String>> = HashMap::new();
        for entry in it: entries
            invariant
                it.seq() == entries@,
                links@ == links_of(entries@.take(it.index() as int)),
        {
            proof {
                assert(entries@.take(it.index() + 1).drop_last() =~= entries@.take(
                    it.index() as int,
                ));
            }
            links.insert(entry.key.to_u8(), entry.url);
        }
        proof {
            assert(entries@.take(entries@.len() as int) =~= entries@);
        }
        LinkService { links }
    }

    /// The address of the link `key` with `params` filled in, one after
    /// the other in the order of the list; `None` where the pack has no
    /// address for the link.
    pub fn get_link(&self, key: LinkKey, params: &Vec<Pair>) -> (link: Option<String>)
        ensures
            match link {
                Some(url) => self.template(key) matches Some(t) && url@ == filled(t, params@),
                None => self.template(key) is None,
            },
    {
        let code = key.to_u8();
        match self.links.get(&code) {
            Some(entry) => match entry {
                Some(url) => Some(fill(url.as_str(), params)),
                None => None,
            },
            None => None,
        }
    }
}

} // verus!
