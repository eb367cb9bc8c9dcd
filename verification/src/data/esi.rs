//! The requests to the remote market service that a pack defines.

use crate::utils::request::{is_rendering_of, Pair, ParamRequest, RenderedRequest};
use vstd::prelude::*;

verus! {

/// The requests that a pack may define.
#[derive(Clone, Copy, Debug, PartialEq, Eq, Hash, Structural)]
pub enum EsiKey {
    /// `MARKET-ORDERS`
    MarketOrders,
}

/// Why a request could not be made ready.
#[derive(Clone, Copy, Debug, PartialEq, Eq, Structural)]
pub enum EsiError {
    /// The pack defines no request under this key.
    UnknownKey,
    /// The request keeps a placeholder that no parameter fills.
    UnresolvedPlaceholder,
}

/// The request that is written `name`.
pub open spec fn esi_key_named(name: Seq<char>) -> Option<EsiKey> {
    if name == "MARKET-ORDERS"@ {
        Some(EsiKey::MarketOrders)
    } else {
        None
    }
}

impl EsiKey {
    /// How the request is written.
    pub open spec fn name(self) -> Seq<char> {
        match self {
            EsiKey::MarketOrders => "MARKET-ORDERS"@,
        }
    }

    /// How the request is written.
    pub fn as_str(&self) -> (name: &'static str)
        ensures
            name@ == self.name(),
    {
        match self {
            EsiKey::MarketOrders => "MARKET-ORDERS",
        }
    }

    /// The request that is written `name`.
    pub fn from_name(name: &str) -> (key: Option<Self>)
        ensures
            key == esi_key_named(name@),
    {
        if name.to_owned() == "MARKET-ORDERS".to_owned() {
            Some(EsiKey::MarketOrders)
        } else {
            None
        }
    }
}

/// One entry of a pack's table of requests.
#[derive(Debug)]
pub struct EsiEntry {
    /// The request's key.
    pub key: EsiKey,
    /// The request, with placeholders.
    pub request: ParamRequest,
}

/// The request that a table gives for `key`: that of the last entry with
/// this key.
pub open spec fn request_of(table: Seq<EsiEntry>, key: EsiKey) -> Option<ParamRequest>
    decreases table.len(),
{
    if table.len() == 0 {
        None
    } else if table.last().key == key {
        Some(table.last().request)
    } else {
        request_of(table.drop_last(), key)
    }
}

/// The request templates of a pack.
#[derive(Debug)]
pub struct EsiService {
    urls: Vec<EsiEntry>,
}

impl View for EsiService {
    type V = Seq<EsiEntry>;

    closed spec fn view(&self) -> Seq<EsiEntry> {
        self.urls@
    }
}

impl EsiService {
    /// Sets up the templates from the entries of the pack's table.
    pub fn new(entries: Vec<EsiEntry>) -> (requests: Self)
        ensures
            requests@ == entries@,
    {
        EsiService { urls: entries }
    }

    /// The template under `key`.
    pub fn get(&self, key: EsiKey) -> (request: Option<&ParamRequest>)
        ensures
            match request {
                Some(r) => request_of(self@, key) == Some(*r),
                None => request_of(self@, key) is None,
            },
    {
        let mut i: usize = self.urls.len();
        proof {
            assert(self@.take(i as int) =~= self@);
        }
        while i > 0
            invariant
                i <= self.urls.len(),
                request_of(self@, key) == request_of(self@.take(i as int), key),
            decreases i,
        {
            proof {
                assert(self@.take(i as int).drop_last() =~= self@.take(i as int - 1));
            }
            i -= 1;
            if self.urls[i].key == key {
                return Some(&self.urls[i].request);
            }
        }
        None
    }

    /// Makes the request under `key` ready to be sent with `params`.
    pub fn prepare(&self, key: EsiKey, params: &Vec<Pair>) -> (request: Result<
        RenderedRequest,
        EsiError,
    >)
        ensures
            match request {
                Ok(ready) => request_of(self@, key) matches Some(r) && r.renders(params@)
                    && is_rendering_of(ready, r, params@),
                Err(EsiError::UnknownKey) => request_of(self@, key) is None,
                Err(EsiError::UnresolvedPlaceholder) => request_of(self@, key) matches Some(r)
                    && !r.renders(params@),
            },
    {
        match self.get(key) {
            Some(template) => match template.prepare(params) {
                Ok(request) => Ok(request),
                Err(_) => Err(EsiError::UnresolvedPlaceholder),
            },
            None => Err(EsiError::UnknownKey),
        }
    }
}

} // verus!
