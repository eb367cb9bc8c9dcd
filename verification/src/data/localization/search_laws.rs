//! What holds of every search: which entities are found, and in what order.

use crate::data::localization::index::{has_id, id_at, unique_ids, LookupEntry};
use crate::data::localization::search::{
    candidate, candidates, distinct_ids, haystack, lemma_place_for, lemma_ranked_ascending,
    located_search, place_for, ranked, ranked_search, top, LocSearchResult, Scoring, SearchField,
};
use crate::data::localization::{LocLanguage, LocString};
use crate::utils::distance::lemma_distance_to_self;
use crate::utils::text::{lowercase, matches_at, trimmed};
use vstd::prelude::*;

verus! {

/// The entries that score exactly `score`.
pub open spec fn with_score(score: usize) -> spec_fn(LocSearchResult) -> bool {
    |c: LocSearchResult| c.1 == score
}

/// Ranking rearranges: the result holds the entries that were found, each
/// as often as it was found.
pub proof fn lemma_ranked_permutes(found: Seq<LocSearchResult>)
    ensures
        ranked(found).to_multiset() == found.to_multiset(),
    decreases found.len(),
{
    if found.len() > 0 {
        let rest = found.drop_last();
        lemma_ranked_permutes(rest);
        lemma_ranked_ascending(rest);
        lemma_place_for(ranked(rest), found.last().1);
        vstd::seq_lib::to_multiset_insert(ranked(rest), place_for(ranked(rest), found.last().1), found.last());
        assert(found =~= rest.push(found.last()));
        vstd::seq_lib::to_multiset_build(rest, found.last());
    } else {
        assert(ranked(found) =~= found);
    }
}

/// A sequence in which nothing has the wanted score filters to nothing.
proof fn lemma_filter_none(s: Seq<LocSearchResult>, score: usize)
    requires
        forall|i: int| 0 <= i < s.len() ==> s[i].1 != score,
    ensures
        s.filter(with_score(score)) == Seq::<LocSearchResult>::empty(),
    decreases s.len(),
{
    reveal(Seq::filter);
    if s.len() > 0 {
        lemma_filter_none(s.drop_last(), score);
    }
}

/// Ranking is stable: among the entries of any one score, the ranking keeps
/// the order in which they were found.
pub proof fn lemma_ranked_stable(found: Seq<LocSearchResult>, score: usize)
    ensures
        ranked(found).filter(with_score(score)) == found.filter(with_score(score)),
    decreases found.len(),
{
    let pred = with_score(score);
    if found.len() > 0 {
        let rest = found.drop_last();
        let last = found.last();
        let ranking = ranked(rest);
        let p = place_for(ranking, last.1);
        lemma_ranked_stable(rest, score);
        lemma_ranked_ascending(rest);
        lemma_place_for(ranking, last.1);
        let front = ranking.take(p);
        let back = ranking.skip(p);
        assert(ranking =~= front + back);
        assert(ranked(found) =~= (front + seq![last]) + back);
        Seq::filter_distributes_over_add(front, back, pred);
        Seq::filter_distributes_over_add(front + seq![last], back, pred);
        Seq::filter_distributes_over_add(front, seq![last], pred);
        assert(seq![last] =~= Seq::<LocSearchResult>::empty().push(last));
        Seq::<LocSearchResult>::empty().lemma_filter_push(last, pred);
        assert(Seq::<LocSearchResult>::empty().filter(pred) =~= Seq::<LocSearchResult>::empty()) by {
            reveal(Seq::filter);
        }
        assert(found =~= rest.push(last));
        rest.lemma_filter_push(last, pred);
        if last.1 == score {
            assert forall|i: int| 0 <= i < back.len() implies back[i].1 != score by {
                assert(back[i] == ranking[p + i]);
            }
            lemma_filter_none(back, score);
            assert(ranked(found).filter(pred) =~= found.filter(pred));
        } else {
            assert(ranked(found).filter(pred) =~= found.filter(pred));
        }
    } else {
        assert(ranked(found) =~= found);
    }
}

/// An entity whose lowercased text is the lowercased query itself matches
/// with the best score there is, zero.
pub proof fn lemma_exact_match_scores_zero(
    store: Map<u32, LocString>,
    e: LookupEntry,
    field: SearchField,
    language: LocLanguage,
    needle: Seq<char>,
)
    requires
        haystack(store, e, field, language) == Some(needle),
    ensures
        candidate(store, e, field, language, needle, Scoring::Distance) == Some((e.id, 0usize)),
{
    assert(needle.subrange(0, needle.len() as int) =~= needle);
    assert(matches_at(needle, needle, 0));
    lemma_distance_to_self(needle);
}

/// The candidates are exactly what the entries of the index contribute:
/// every matching entry is among them, and nothing else is.
pub proof fn lemma_candidates_complete(
    index: Seq<LookupEntry>,
    store: Map<u32, LocString>,
    field: SearchField,
    language: LocLanguage,
    needle: Seq<char>,
    scoring: Scoring,
)
    ensures
        forall|i: int|
            0 <= i < index.len() && candidate(
                store,
                #[trigger] index[i],
                field,
                language,
                needle,
                scoring,
            ) is Some ==> candidates(index, store, field, language, needle, scoring).contains(
                candidate(store, index[i], field, language, needle, scoring)->0,
            ),
        forall|c: LocSearchResult| #[trigger]
            candidates(index, store, field, language, needle, scoring).contains(c) ==> exists|
                i: int,
            |
                0 <= i < index.len() && candidate(
                    store,
                    #[trigger] index[i],
                    field,
                    language,
                    needle,
                    scoring,
                ) == Some(c),
        candidates(index, store, field, language, needle, scoring).len() <= index.len(),
    decreases index.len(),
{
    let found = candidates(index, store, field, language, needle, scoring);
    if index.len() > 0 {
        let rest = index.drop_last();
        let before = candidates(rest, store, field, language, needle, scoring);
        lemma_candidates_complete(rest, store, field, language, needle, scoring);
        let last = candidate(store, index.last(), field, language, needle, scoring);
        assert forall|i: int|
            0 <= i < index.len() && candidate(
                store,
                #[trigger] index[i],
                field,
                language,
                needle,
                scoring,
            ) is Some implies found.contains(
            candidate(store, index[i], field, language, needle, scoring)->0,
        ) by {
            let c = candidate(store, index[i], field, language, needle, scoring)->0;
            if i < rest.len() {
                assert(rest[i] == index[i]);
                assert(before.contains(c));
                let k = choose|k: int| 0 <= k < before.len() && before[k] == c;
                assert(found[k] == c);
            } else {
                assert(found[found.len() - 1] == c);
            }
        }
        assert forall|c: LocSearchResult| #[trigger] found.contains(c) implies exists|i: int|
            0 <= i < index.len() && candidate(
                store,
                #[trigger] index[i],
                field,
                language,
                needle,
                scoring,
            ) == Some(c) by {
            let k = choose|k: int| 0 <= k < found.len() && found[k] == c;
            if k < before.len() {
                assert(before[k] == c);
                assert(before.contains(c));
                let i = choose|i: int|
                    0 <= i < rest.len() && candidate(
                        store,
                        #[trigger] rest[i],
                        field,
                        language,
                        needle,
                        scoring,
                    ) == Some(c);
                assert(rest[i] == index[i]);
            } else {
                assert(last == Some(c));
                assert(index[index.len() - 1] == index.last());
            }
        }
    }
}

/// A query without any character finds nothing, whatever is searched.
pub proof fn lemma_empty_query_finds_nothing(
    index: Seq<LookupEntry>,
    store: Map<u32, LocString>,
    field: SearchField,
    language: LocLanguage,
    limit: nat,
)
    ensures
        ranked_search(index, store, field, language, Seq::empty(), limit) == Seq::<i32>::empty(),
        located_search(index, store, language, Seq::empty()) == Seq::<LocSearchResult>::empty(),
{
}

/// The best match comes first: nothing that was found scores better than
/// the first entry of the ranking.
pub proof fn lemma_best_comes_first(found: Seq<LocSearchResult>, i: int)
    requires
        0 <= i < found.len(),
    ensures
        ranked(found).len() == found.len(),
        ranked(found)[0].1 <= found[i].1,
{
    broadcast use vstd::seq_lib::group_to_multiset_ensures;

    lemma_ranked_ascending(found);
    lemma_ranked_permutes(found);
    let ranking = ranked(found);
    assert(found.contains(found[i]));
    assert(found.to_multiset().count(found[i]) > 0);
    assert(ranking.to_multiset().count(found[i]) > 0);
    assert(ranking.contains(found[i]));
    let j = choose|j: int| 0 <= j < ranking.len() && ranking[j] == found[i];
    assert(ranking[0].1 <= ranking[j].1);
}

/// What a ranked search returns was found: every identifier of the answer
/// belongs to an entity of the index whose text contains the query.
pub proof fn lemma_search_is_sound(
    index: Seq<LookupEntry>,
    store: Map<u32, LocString>,
    field: SearchField,
    language: LocLanguage,
    query: Seq<char>,
    limit: nat,
    k: int,
)
    requires
        0 <= k < ranked_search(index, store, field, language, query, limit).len(),
    ensures
        exists|i: int|
            0 <= i < index.len() && (#[trigger] index[i]).id == ranked_search(
                index,
                store,
                field,
                language,
                query,
                limit,
            )[k] && candidate(
                store,
                index[i],
                field,
                language,
                lowercase(trimmed(query)),
                Scoring::Distance,
            ) is Some,
{
    broadcast use vstd::seq_lib::group_to_multiset_ensures;

    let needle = lowercase(trimmed(query));
    let found = candidates(index, store, field, language, needle, Scoring::Distance);
    let ranking = ranked(found);
    let best = top(ranking, limit);
    lemma_ranked_permutes(found);
    lemma_candidates_complete(index, store, field, language, needle, Scoring::Distance);
    let c = best[k];
    assert(ranking[k] == c);
    assert(ranking.contains(c));
    assert(ranking.to_multiset().count(c) > 0);
    assert(found.to_multiset().count(c) > 0);
    assert(found.contains(c));
    let i = choose|i: int|
        0 <= i < index.len() && candidate(
            store,
            #[trigger] index[i],
            field,
            language,
            needle,
            Scoring::Distance,
        ) == Some(c);
    assert(index[i].id == c.0);
}

/// Where the limit cuts nothing off, because no more than `limit` entities
/// match, a ranked search returns every match: each entity of the index
/// whose text contains the query is in the answer.
pub proof fn lemma_search_is_complete(
    index: Seq<LookupEntry>,
    store: Map<u32, LocString>,
    field: SearchField,
    language: LocLanguage,
    query: Seq<char>,
    limit: nat,
    i: int,
)
    requires
        trimmed(query).len() > 0,
        candidates(
            index,
            store,
            field,
            language,
            lowercase(trimmed(query)),
            Scoring::Distance,
        ).len() <= limit,
        0 <= i < index.len(),
        candidate(store, index[i], field, language, lowercase(trimmed(query)), Scoring::Distance)
            is Some,
    ensures
        ranked_search(index, store, field, language, query, limit).contains(index[i].id),
{
    broadcast use vstd::seq_lib::group_to_multiset_ensures;

    let needle = lowercase(trimmed(query));
    let found = candidates(index, store, field, language, needle, Scoring::Distance);
    let ranking = ranked(found);
    lemma_ranked_permutes(found);
    lemma_ranked_ascending(found);
    lemma_candidates_complete(index, store, field, language, needle, Scoring::Distance);
    let c = candidate(store, index[i], field, language, needle, Scoring::Distance)->0;
    assert(found.contains(c));
    assert(found.to_multiset().count(c) > 0);
    assert(ranking.to_multiset().count(c) > 0);
    assert(ranking.contains(c));
    let j = choose|j: int| 0 <= j < ranking.len() && ranking[j] == c;
    assert(top(ranking, limit) == ranking);
    let answer = ranked_search(index, store, field, language, query, limit);
    assert(answer[j] == index[i].id);
}

/// Every candidate stems from an entry of the index with the same
/// identifier; where the index holds each identifier once, so do the
/// candidates.
pub proof fn lemma_candidates_distinct(
    index: Seq<LookupEntry>,
    store: Map<u32, LocString>,
    field: SearchField,
    language: LocLanguage,
    needle: Seq<char>,
    scoring: Scoring,
)
    requires
        unique_ids(index),
    ensures
        distinct_ids(candidates(index, store, field, language, needle, scoring)),
        forall|k: int|
            0 <= k < candidates(index, store, field, language, needle, scoring).len() ==> has_id(
                index,
                (#[trigger] candidates(index, store, field, language, needle, scoring)[k]).0,
            ),
    decreases index.len(),
{
    let found = candidates(index, store, field, language, needle, scoring);
    if index.len() > 0 {
        let rest = index.drop_last();
        let before = candidates(rest, store, field, language, needle, scoring);
        lemma_candidates_distinct(rest, store, field, language, needle, scoring);
        assert forall|k: int| 0 <= k < before.len() implies has_id(index, (#[trigger] before[k]).0)
            && before[k].0 != index.last().id by {
            assert(has_id(rest, before[k].0));
            let i = choose|i: int| id_at(rest, before[k].0, i);
            assert(id_at(index, before[k].0, i));
            assert(index[i].id != index[index.len() - 1].id);
        }
        assert(id_at(index, index.last().id, index.len() - 1));
        assert forall|k: int| 0 <= k < found.len() implies has_id(index, (#[trigger] found[k]).0) by {
            if k < before.len() {
                assert(found[k] == before[k]);
            }
        }
        assert forall|i: int, j: int| 0 <= i < j < found.len() implies found[i].0 != found[j].0 by {
            assert(found[i] == before[i]);
            if j < before.len() {
                assert(found[j] == before[j]);
            }
        }
    }
}

/// Ranking keeps the identifiers apart: where no identifier was found
/// twice, none stands twice in the ranking.
pub proof fn lemma_ranked_distinct(found: Seq<LocSearchResult>)
    requires
        distinct_ids(found),
    ensures
        distinct_ids(ranked(found)),
{
    broadcast use vstd::seq_lib::group_to_multiset_ensures;

    let ranking = ranked(found);
    lemma_ranked_permutes(found);
    // The entries found are all different, so the ranking, which holds the
    // same entries, holds each of them once.
    assert(found.no_duplicates()) by {
        assert forall|p: int, q: int|
            0 <= p < found.len() && 0 <= q < found.len() && p != q implies found[p]
            != found[q] by {
            if p < q {
                assert(found[p].0 != found[q].0);
            } else {
                assert(found[q].0 != found[p].0);
            }
        }
    }
    found.lemma_multiset_has_no_duplicates();
    ranking.lemma_multiset_has_no_duplicates_conv();
    // Two places of the ranking with one identifier would hold one entry twice.
    assert forall|i: int, j: int| 0 <= i < j < ranking.len() implies ranking[i].0
        != ranking[j].0 by {
        if ranking[i].0 == ranking[j].0 {
            assert(ranking.contains(ranking[i]));
            assert(ranking.contains(ranking[j]));
            assert(found.to_multiset().count(ranking[i]) > 0);
            assert(found.to_multiset().count(ranking[j]) > 0);
            assert(found.contains(ranking[i]));
            assert(found.contains(ranking[j]));
            let x = choose|x: int| 0 <= x < found.len() && found[x] == ranking[i];
            let y = choose|y: int| 0 <= y < found.len() && found[y] == ranking[j];
            assert(x == y);
            assert(ranking[i] != ranking[j]);
        }
    }
}

/// No entity is found twice: where the index holds each identifier once,
/// so does the answer of a ranked search.
pub proof fn lemma_search_has_no_duplicates(
    index: Seq<LookupEntry>,
    store: Map<u32, LocString>,
    field: SearchField,
    language: LocLanguage,
    query: Seq<char>,
    limit: nat,
)
    requires
        unique_ids(index),
    ensures
        ranked_search(index, store, field, language, query, limit).no_duplicates(),
{
    let needle = lowercase(trimmed(query));
    let found = candidates(index, store, field, language, needle, Scoring::Distance);
    let ranking = ranked(found);
    let answer = ranked_search(index, store, field, language, query, limit);
    if trimmed(query).len() > 0 {
        lemma_candidates_distinct(index, store, field, language, needle, Scoring::Distance);
        lemma_ranked_distinct(found);
        assert forall|i: int, j: int|
            0 <= i < answer.len() && 0 <= j < answer.len() && i != j implies answer[i]
            != answer[j] by {
            if i < j {
                assert(ranking[i].0 != ranking[j].0);
            } else {
                assert(ranking[j].0 != ranking[i].0);
            }
        }
    }
}

/// No entity is found twice by position either: where the index holds each
/// identifier once, so does the answer of a search by position.
pub proof fn lemma_located_search_has_no_duplicates(
    index: Seq<LookupEntry>,
    store: Map<u32, LocString>,
    language: LocLanguage,
    query: Seq<char>,
)
    requires
        unique_ids(index),
    ensures
        distinct_ids(located_search(index, store, language, query)),
{
    if trimmed(query).len() > 0 {
        let needle = lowercase(trimmed(query));
        lemma_candidates_distinct(index, store, SearchField::Name, language, needle, Scoring::Position);
        lemma_ranked_distinct(
            candidates(index, store, SearchField::Name, language, needle, Scoring::Position),
        );
    }
}

/// A search by position returns every match, the earliest occurrence
/// first: the answer is in ascending order of score, holds the candidates
/// and nothing else, and keeps matches of one score in the order of the
/// index.
pub proof fn lemma_located_search_ranks(
    index: Seq<LookupEntry>,
    store: Map<u32, LocString>,
    language: LocLanguage,
    query: Seq<char>,
    score: usize,
)
    requires
        trimmed(query).len() > 0,
    ensures
        ({
            let found = candidates(
                index,
                store,
                SearchField::Name,
                language,
                lowercase(trimmed(query)),
                Scoring::Position,
            );
            let answer = located_search(index, store, language, query);
            &&& answer.len() == found.len()
            &&& forall|i: int, j: int| 0 <= i <= j < answer.len() ==> answer[i].1 <= answer[j].1
            &&& answer.to_multiset() == found.to_multiset()
            &&& answer.filter(with_score(score)) == found.filter(with_score(score))
        }),
{
    let found = candidates(
        index,
        store,
        SearchField::Name,
        language,
        lowercase(trimmed(query)),
        Scoring::Position,
    );
    lemma_ranked_ascending(found);
    lemma_ranked_permutes(found);
    lemma_ranked_stable(found, score);
}

} // verus!
