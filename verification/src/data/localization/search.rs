//! The search engine: which entities of an index match a query, and in what
//! order they are returned.

use crate::data::localization::index::{LookupEntry, LookupIndex};
use crate::data::localization::{text_in, LocLanguage, LocString};
use crate::utils::distance::{edit_distance, levenshtein};
use crate::utils::text::{
    byte_offset_of, chars_of, contains, find_chars, first_match_offset, lemma_first_match,
    lowercase, to_lowercase, trim, trimmed,
};
use std::collections::HashMap;
use vstd::prelude::*;

verus! {

broadcast use vstd::std_specs::hash::group_hash_axioms;

/// An entity found by a search, with its score: the lower, the better.
pub type LocSearchResult = (i32, usize);

/// The localized text of an entity that a search looks at.
#[derive(Clone, Copy, Debug, PartialEq, Eq, Structural)]
pub enum SearchField {
    /// The entity's name.
    Name,
    /// The entity's description.
    Description,
}

/// How a matching text is scored against the query.
#[derive(Clone, Copy, Debug, PartialEq, Eq, Structural)]
pub enum Scoring {
    /// By the edit distance between the text and the query.
    Distance,
    /// By the byte position of the first occurrence of the query in the text.
    Position,
}

/// The key under which the store holds the searched text of `e`.
pub open spec fn key_of(e: LookupEntry, field: SearchField) -> Option<u32> {
    match field {
        SearchField::Name => Some(e.name_id),
        SearchField::Description => e.description_id,
    }
}

/// The lowercased text that stands for `e` in a search, where the store has it.
pub open spec fn haystack(
    store: Map<u32, LocString>,
    e: LookupEntry,
    field: SearchField,
    language: LocLanguage,
) -> Option<Seq<char>> {
    match key_of(e, field) {
        Some(key) => if store.contains_key(key) {
            Some(lowercase(text_in(store[key], language)))
        } else {
            None
        },
        None => None,
    }
}

/// The score of a lowercased text against a lowercased query; `None` where
/// the query does not occur in the text.
pub open spec fn score_of(text: Seq<char>, needle: Seq<char>, scoring: Scoring) -> Option<usize> {
    match scoring {
        Scoring::Distance => if contains(text, needle) {
            Some(edit_distance(text, needle) as usize)
        } else {
            None
        },
        Scoring::Position => match first_match_offset(text, needle) {
            Some(offset) => Some(offset as usize),
            None => None,
        },
    }
}

/// What `e` contributes to a search: its identifier and score, where it matches.
pub open spec fn candidate(
    store: Map<u32, LocString>,
    e: LookupEntry,
    field: SearchField,
    language: LocLanguage,
    needle: Seq<char>,
    scoring: Scoring,
) -> Option<LocSearchResult> {
    match haystack(store, e, field, language) {
        Some(text) => match score_of(text, needle, scoring) {
            Some(score) => Some((e.id, score)),
            None => None,
        },
        None => None,
    }
}

/// The matching entities of an index, in the order of the index.
pub open spec fn candidates(
    index: Seq<LookupEntry>,
    store: Map<u32, LocString>,
    field: SearchField,
    language: LocLanguage,
    needle: Seq<char>,
    scoring: Scoring,
) -> Seq<LocSearchResult>
    decreases index.len(),
{
    if index.len() == 0 {
        Seq::empty()
    } else {
        let found = candidates(index.drop_last(), store, field, language, needle, scoring);
        match candidate(store, index.last(), field, language, needle, scoring) {
            Some(c) => found.push(c),
            None => found,
        }
    }
}

/// The identifiers of `s` are all different.
pub open spec fn distinct_ids(s: Seq<LocSearchResult>) -> bool {
    forall|i: int, j: int| 0 <= i < j < s.len() ==> s[i].0 != s[j].0
}

/// Scores never decrease along `s`.
pub open spec fn ascending(s: Seq<LocSearchResult>) -> bool {
    forall|i: int, j: int| 0 <= i <= j < s.len() ==> s[i].1 <= s[j].1
}

/// Where an entry with `score` goes in a ranking: behind the last entry
/// that scores no worse.
pub open spec fn place_for(ranking: Seq<LocSearchResult>, score: usize) -> int
    decreases ranking.len(),
{
    if ranking.len() == 0 {
        0
    } else if ranking.last().1 <= score {
        ranking.len() as int
    } else {
        place_for(ranking.drop_last(), score)
    }
}

/// `ranking` with `c` put at its place.
pub open spec fn insert_ranked(ranking: Seq<LocSearchResult>, c: LocSearchResult) -> Seq<
    LocSearchResult,
> {
    ranking.insert(place_for(ranking, c.1), c)
}

/// The entries of `found` by ascending score; entries with the same score
/// stay in the order in which they were found.
pub open spec fn ranked(found: Seq<LocSearchResult>) -> Seq<LocSearchResult>
    decreases found.len(),
{
    if found.len() == 0 {
        Seq::empty()
    } else {
        insert_ranked(ranked(found.drop_last()), found.last())
    }
}

/// The first `limit` entries of `s`, or all of them where it has fewer.
pub open spec fn top(s: Seq<LocSearchResult>, limit: nat) -> Seq<LocSearchResult> {
    if limit < s.len() {
        s.take(limit as int)
    } else {
        s
    }
}

/// The identifiers of the entries of `s`.
pub open spec fn ids_of(s: Seq<LocSearchResult>) -> Seq<i32> {
    Seq::new(s.len(), |i: int| s[i].0)
}

/// The answer to a ranked search: none for a blank query, else the
/// identifiers of the `limit` best matches by edit distance.
pub open spec fn ranked_search(
    index: Seq<LookupEntry>,
    store: Map<u32, LocString>,
    field: SearchField,
    language: LocLanguage,
    query: Seq<char>,
    limit: nat,
) -> Seq<i32> {
    let query = trimmed(query);
    if query.len() == 0 {
        Seq::empty()
    } else {
        ids_of(
            top(
                ranked(
                    candidates(index, store, field, language, lowercase(query), Scoring::Distance),
                ),
                limit,
            ),
        )
    }
}

/// The answer to a search by position: none for a blank query, else every
/// match, scored by where the query occurs, by ascending score; matches
/// with the same score stay in the order of the index.
pub open spec fn located_search(
    index: Seq<LookupEntry>,
    store: Map<u32, LocString>,
    language: LocLanguage,
    query: Seq<char>,
) -> Seq<LocSearchResult> {
    let query = trimmed(query);
    if query.len() == 0 {
        Seq::empty()
    } else {
        ranked(
            candidates(
                index,
                store,
                SearchField::Name,
                language,
                lowercase(query),
                Scoring::Position,
            ),
        )
    }
}

/// What `place_for` finds in an ascending ranking: everything before the
/// place scores no worse, everything from it on scores worse.
pub proof fn lemma_place_for(ranking: Seq<LocSearchResult>, score: usize)
    requires
        ascending(ranking),
    ensures
        0 <= place_for(ranking, score) <= ranking.len(),
        forall|i: int| 0 <= i < place_for(ranking, score) ==> ranking[i].1 <= score,
        forall|i: int| place_for(ranking, score) <= i < ranking.len() ==> ranking[i].1 > score,
    decreases ranking.len(),
{
    if ranking.len() > 0 && ranking.last().1 > score {
        let rest = ranking.drop_last();
        lemma_place_for(rest, score);
        let p = place_for(rest, score);
        assert forall|i: int| 0 <= i < p implies ranking[i].1 <= score by {
            assert(rest[i] == ranking[i]);
        }
        assert forall|i: int| p <= i < ranking.len() implies ranking[i].1 > score by {
            if i < rest.len() {
                assert(rest[i] == ranking[i]);
            }
        }
    } else if ranking.len() > 0 {
        assert forall|i: int| 0 <= i < ranking.len() implies ranking[i].1 <= score by {
            assert(ranking[i].1 <= ranking[ranking.len() - 1].1);
        }
    }
}

/// A position with only worse scores from it on, and a score that is no
/// worse just before it, is the place.
pub proof fn lemma_place_found(ranking: Seq<LocSearchResult>, score: usize, p: int)
    requires
        0 <= p <= ranking.len(),
        forall|i: int| p <= i < ranking.len() ==> ranking[i].1 > score,
        p > 0 ==> ranking[p - 1].1 <= score,
    ensures
        place_for(ranking, score) == p,
    decreases ranking.len(),
{
    if ranking.len() > 0 && ranking.last().1 > score {
        lemma_place_found(ranking.drop_last(), score, p);
    }
}

/// Putting an entry at its place keeps a ranking ascending.
pub proof fn lemma_insert_ascending(ranking: Seq<LocSearchResult>, c: LocSearchResult)
    requires
        ascending(ranking),
    ensures
        ascending(insert_ranked(ranking, c)),
{
    lemma_place_for(ranking, c.1);
}

/// Ranking: the result is in ascending order of score.
pub proof fn lemma_ranked_ascending(found: Seq<LocSearchResult>)
    ensures
        ascending(ranked(found)),
        ranked(found).len() == found.len(),
    decreases found.len(),
{
    if found.len() > 0 {
        lemma_ranked_ascending(found.drop_last());
        lemma_place_for(ranked(found.drop_last()), found.last().1);
        lemma_insert_ascending(ranked(found.drop_last()), found.last());
    }
}

/// Cutting a ranking to its best `limit` entries before or after a new
/// entry is put in gives the same best `limit` entries.
pub proof fn lemma_top_insert(ranking: Seq<LocSearchResult>, c: LocSearchResult, limit: nat)
    requires
        ascending(ranking),
    ensures
        top(insert_ranked(ranking, c), limit) == top(insert_ranked(top(ranking, limit), c), limit),
{
    if limit < ranking.len() {
        let cut = ranking.take(limit as int);
        let p = place_for(ranking, c.1);
        lemma_place_for(ranking, c.1);
        if p < limit {
            lemma_place_found(cut, c.1, p);
            assert(insert_ranked(ranking, c).take(limit as int) =~= insert_ranked(cut, c).take(
                limit as int,
            ));
        } else {
            if limit > 0 {
                assert(cut.last() == ranking[limit - 1]);
            }
            lemma_place_found(cut, c.1, limit as int);
            assert(insert_ranked(ranking, c).take(limit as int) =~= cut);
            assert(insert_ranked(cut, c).take(limit as int) =~= cut);
        }
    }
}

/// Scores a text against a query whose characters are at hand.
fn score_with(text: &str, needle: &str, needle_chars: &Vec<char>, scoring: Scoring) -> (score:
    Option<usize>)
    requires
        needle_chars@ == needle@,
    ensures
        score == score_of(text@, needle@, scoring),
{
    let chars = chars_of(text);
    match find_chars(&chars, needle_chars) {
        Some(i) => {
            proof {
                lemma_first_match(text@, needle@);
            }
            match scoring {
                Scoring::Distance => Some(levenshtein(text, needle)),
                Scoring::Position => Some(byte_offset_of(text, i)),
            }
        },
        None => None,
    }
}

/// Scores a lowercased text against a lowercased query: by the edit
/// distance between the two, or by the byte position at which the query
/// first occurs in the text. A text in which the query does not occur has
/// no score.
pub fn score(text: &str, needle: &str, scoring: Scoring) -> (score: Option<usize>)
    ensures
        score == score_of(text@, needle@, scoring),
{
    let needle_chars = chars_of(needle);
    score_with(text, needle, &needle_chars, scoring)
}

/// Collects the entities of `index` whose searched text, lowercased,
/// contains `needle`, each with its score, in the order of the index.
pub fn collect_candidates(
    index: &LookupIndex,
    store: &HashMap<u32, LocString>,
    field: SearchField,
    language: LocLanguage,
    needle: &str,
    scoring: Scoring,
) -> (found: Vec<LocSearchResult>)
    ensures
        found@ == candidates(index@, store@, field, language, needle@, scoring),
{
    let entries = index.entries();
    let needle_chars = chars_of(needle);
    let mut found: Vec<LocSearchResult> = Vec::new();
    let mut i: usize = 0;
    while i < entries.len()
        invariant
            i <= entries@.len(),
            entries@ == index@,
            needle_chars@ == needle@,
            found@ == candidates(index@.take(i as int), store@, field, language, needle@, scoring),
        decreases entries.len() - i,
    {
        let e = entries[i];
        proof {
            assert(index@.take(i as int + 1).drop_last() =~= index@.take(i as int));
        }
        let key = match field {
            SearchField::Name => Some(e.name_id),
            SearchField::Description => e.description_id,
        };
        if let Some(key) = key {
            if let Some(loc) = store.get(&key) {
                let text = match language {
                    LocLanguage::English => &loc.en,
                    LocLanguage::Chinese => &loc.zh,
                };
                let lowered = to_lowercase(text.as_str());
                if let Some(score) = score_with(
                    lowered.as_str(),
                    needle,
                    &needle_chars,
                    scoring,
                ) {
                    found.push((e.id, score));
                }
            }
        }
        i += 1;
    }
    proof {
        assert(index@.take(i as int) =~= index@);
    }
    found
}

/// Ranks `found` and keeps the best `limit` entries: ascending by score,
/// entries with the same score in the order in which they were found.
pub fn rank_top(found: &Vec<LocSearchResult>, limit: usize) -> (best: Vec<LocSearchResult>)
    ensures
        best@ == top(ranked(found@), limit as nat),
{
    let mut best: Vec<LocSearchResult> = Vec::new();
    if limit == 0 {
        return best;
    }
    let mut i: usize = 0;
    while i < found.len()
        invariant
            i <= found.len(),
            limit > 0,
            best@ == top(ranked(found@.take(i as int)), limit as nat),
            ascending(best@),
            best@.len() <= limit,
        decreases found.len() - i,
    {
        let c = found[i];
        proof {
            assert(found@.take(i as int + 1).drop_last() =~= found@.take(i as int));
            lemma_ranked_ascending(found@.take(i as int));
            lemma_top_insert(ranked(found@.take(i as int)), c, limit as nat);
            lemma_insert_ascending(best@, c);
            lemma_place_for(best@, c.1);
        }
        let mut p: usize = best.len();
        if p == limit && best[p - 1].1 <= c.1 {
            proof {
                lemma_place_found(best@, c.1, p as int);
                assert(insert_ranked(best@, c).take(limit as int) =~= best@);
            }
        } else {
            while p > 0 && best[p - 1].1 > c.1
                invariant
                    p <= best.len(),
                    forall|k: int| p <= k < best@.len() ==> best@[k].1 > c.1,
                decreases p,
            {
                p -= 1;
            }
            proof {
                lemma_place_found(best@, c.1, p as int);
            }
            best.insert(p, c);
            if best.len() > limit {
                best.truncate(limit);
            }
        }
        i += 1;
    }
    proof {
        assert(found@.take(i as int) =~= found@);
    }
    best
}

/// The identifiers of `results`, in their order.
pub fn identifiers(results: &Vec<LocSearchResult>) -> (ids: Vec<i32>)
    ensures
        ids@ == ids_of(results@),
{
    let mut ids: Vec<i32> = Vec::new();
    let mut i: usize = 0;
    while i < results.len()
        invariant
            i <= results.len(),
            ids@ == ids_of(results@.take(i as int)),
        decreases results.len() - i,
    {
        ids.push(results[i].0);
        proof {
            assert(ids@ =~= ids_of(results@.take(i as int + 1)));
        }
        i += 1;
    }
    proof {
        assert(results@.take(i as int) =~= results@);
    }
    ids
}

/// Searches `index` for `query` by edit distance. The query is trimmed
/// and compared without regard to case; a blank query finds nothing. The
/// `limit` best matches are returned, best first.
pub fn search_ranked(
    index: &LookupIndex,
    store: &HashMap<u32, LocString>,
    field: SearchField,
    language: LocLanguage,
    query: &str,
    limit: u32,
) -> (ids: Vec<i32>)
    ensures
        ids@ == ranked_search(index@, store@, field, language, query@, limit as nat),
        query@.len() == 0 ==> ids@.len() == 0,
        ids@.len() <= limit,
        ids@.no_duplicates(),
{
    // An index holds each identifier once; so does the answer.
    let _ = index.entries();
    proof {
        crate::utils::text::lemma_trimmed_len(query@);
        crate::data::localization::search_laws::lemma_search_has_no_duplicates(
            index@,
            store@,
            field,
            language,
            query@,
            limit as nat,
        );
    }
    let query = trim(query);
    if query.is_empty() {
        return Vec::new();
    }
    let needle = to_lowercase(query);
    let found = collect_candidates(index, store, field, language, needle.as_str(), Scoring::Distance);
    let best = rank_top(&found, limit as usize);
    identifiers(&best)
}

/// Ranks all of `found`: ascending by score, entries with the same score
/// in the order in which they were found.
pub fn rank_all(found: &Vec<LocSearchResult>) -> (ranking: Vec<LocSearchResult>)
    ensures
        ranking@ == ranked(found@),
        ascending(ranking@),
{
    proof {
        lemma_ranked_ascending(found@);
    }
    rank_top(found, found.len())
}

/// Searches the names of `index` for `query` by position. The query is
/// trimmed and compared without regard to case; a blank query finds
/// nothing. Every match is returned once, with the byte position at which
/// the query first occurs in the lowercased name, the earliest occurrence
/// first, matches at the same position in the order of the index.
pub fn search_located(
    index: &LookupIndex,
    store: &HashMap<u32, LocString>,
    language: LocLanguage,
    query: &str,
) -> (found: Vec<LocSearchResult>)
    ensures
        found@ == located_search(index@, store@, language, query@),
        query@.len() == 0 ==> found@.len() == 0,
        ascending(found@),
        distinct_ids(found@),
{
    // An index holds each identifier once; so does the answer.
    let _ = index.entries();
    proof {
        crate::utils::text::lemma_trimmed_len(query@);
        crate::data::localization::search_laws::lemma_located_search_has_no_duplicates(
            index@,
            store@,
            language,
            query@,
        );
    }
    let query = trim(query);
    if query.is_empty() {
        return Vec::new();
    }
    let needle = to_lowercase(query);
    let found = collect_candidates(
        index,
        store,
        SearchField::Name,
        language,
        needle.as_str(),
        Scoring::Position,
    );
    rank_all(&found)
}

} // verus!
