//! What holds of every semantic search, in terms of the hits that go in and the answers
//! that come out.
use vstd::prelude::*;

use crate::ranking::{all_numbers, is_ranked, lemma_order_is_onto, precedes, rearranges};
use crate::score::{hundredths_score, law_hundredths_are_rounded, Score};
use crate::search::{
    all_answers, arrangement, effective_limit, fts_answers, fts_confidence, fts_views, fts_wanted,
    law_arrangement_presents, law_unwanted_lookups_do_not_matter, lemma_slot, result_views, shows,
    similarities, slot, vector_answers, vector_views, FtsMatch, FtsMatchView, SearchResultView,
    SemanticSearchResult, VectorMatch, VectorMatchView,
};
use crate::text::decimal;
use crate::verse::{Place, VerseView};

verus! {

/// Whether a verse is known and stands at this place: in the same book, the same chapter
/// and with the same number.
pub open spec fn stands_at(v: Option<VerseView>, place: Place) -> bool {
    &&& v is Some
    &&& v->0.book_number == place.book_number
    &&& v->0.chapter == place.chapter
    &&& v->0.verse == place.verse
}

/// Whether some vector hit gave the verse at this place.
pub open spec fn found_by_vector(vector: Seq<VectorMatchView>, place: Place) -> bool {
    exists|i: int| 0 <= i < vector.len() && stands_at((#[trigger] vector[i]).verse, place)
}

/// Whether an answer shows exactly this verse, and refers to it by the book's name, a
/// blank, the chapter, a colon and the verse.
pub open spec fn shows_verse(shown: SearchResultView, v: VerseView) -> bool {
    &&& shown.book_number == v.book_number
    &&& shown.book_name == v.book_name
    &&& shown.chapter == v.chapter
    &&& shown.verse == v.verse
    &&& shown.verse_text == v.text
    &&& shown.verse_ref == v.book_name + seq![' '] + decimal(v.chapter as int) + seq![':']
        + decimal(v.verse as int)
}

/// Whether a score is the binary64 number nearest to three quarters less four hundredths
/// for each rank.
pub open spec fn is_rank_score(s: Score, rank: int) -> bool {
    let significand = s.bits - 0x3fe0_0000_0000_0000 + 0x10_0000_0000_0000;
    &&& 0x3fe0_0000_0000_0000 <= s.bits < 0x3ff0_0000_0000_0000
    &&& -50 <= 100 * significand - (75 - 4 * rank) * 0x20_0000_0000_0000 <= 50
}

/// All hits are numbered: those of the vector index from 0, those of the full-text index
/// behind them. Whether a hit is to be answered: its verse is known, and, for a full-text
/// hit, it is one of the first seven and no vector hit gave the verse at its place.
pub open spec fn is_answered(
    vector: Seq<VectorMatchView>,
    fts: Seq<FtsMatchView>,
    hit: int,
) -> bool {
    if hit < vector.len() {
        0 <= hit && vector[hit].verse is Some
    } else {
        let rank = hit - vector.len();
        &&& rank < fts.len()
        &&& rank <= 6
        &&& fts[rank].verse is Some
        &&& !found_by_vector(vector, fts[rank].place)
    }
}

/// Whether `shown` is the answer to a hit: it shows the hit's verse, with the vector hit's
/// own similarity or with the one that belongs to the full-text hit's rank.
pub open spec fn answers_hit(
    vector: Seq<VectorMatchView>,
    fts: Seq<FtsMatchView>,
    hit: int,
    shown: SearchResultView,
) -> bool {
    if hit < vector.len() {
        &&& shows_verse(shown, vector[hit].verse->0)
        &&& shown.similarity == vector[hit].similarity
    } else {
        &&& shows_verse(shown, fts[hit - vector.len()].verse->0)
        &&& is_rank_score(shown.similarity, hit - vector.len())
    }
}

/// Whether `sources` names, for each answer in `shown`, the hit that it answers: every hit
/// that is to be answered once, and no other.
pub open spec fn accounts_for(
    vector: Seq<VectorMatchView>,
    fts: Seq<FtsMatchView>,
    shown: Seq<SearchResultView>,
    sources: Seq<int>,
) -> bool {
    &&& sources.len() == shown.len()
    &&& forall|i: int, j: int| 0 <= i < j < sources.len() ==> sources[i] != sources[j]
    &&& forall|hit: int| #[trigger] sources.contains(hit) <==> is_answered(vector, fts, hit)
    &&& forall|k: int|
        0 <= k < shown.len() ==> answers_hit(vector, fts, sources[k], #[trigger] shown[k])
}

/// Whether no answer comes before one with a higher similarity, and of two with equal
/// similarities the one whose hit came first comes first.
pub open spec fn best_first(shown: Seq<SearchResultView>, sources: Seq<int>) -> bool {
    forall|i: int, j: int|
        0 <= i < j < shown.len() ==> {
            &&& !(#[trigger] shown[i]).similarity.below((#[trigger] shown[j]).similarity)
            &&& shown[j].similarity.below(shown[i].similarity) || sources[i] < sources[j]
        }
}

/// Whether the similarities of all vector hits whose verse is known are numbers.
pub open spec fn vector_scores_are_numbers(vector: Seq<VectorMatchView>) -> bool {
    forall|i: int|
        0 <= i < vector.len() && (#[trigger] vector[i]).verse is Some
            ==> !vector[i].similarity.nan()
}

/// The hits that the vector answers come from.
spec fn vector_sources(hits: Seq<VectorMatchView>) -> Seq<int>
    decreases hits.len(),
{
    if hits.len() == 0 {
        Seq::empty()
    } else if hits.last().verse is Some {
        vector_sources(hits.drop_last()).push(hits.len() - 1)
    } else {
        vector_sources(hits.drop_last())
    }
}

/// The ranks that the full-text answers come from.
spec fn fts_sources(known: Seq<SearchResultView>, hits: Seq<FtsMatchView>) -> Seq<int>
    decreases hits.len(),
{
    if hits.len() == 0 {
        Seq::empty()
    } else if hits.last().verse is Some && fts_wanted(known, hits.len() - 1, hits.last().place) {
        fts_sources(known, hits.drop_last()).push(hits.len() - 1)
    } else {
        fts_sources(known, hits.drop_last())
    }
}

proof fn lemma_vector_sources(hits: Seq<VectorMatchView>)
    ensures
        vector_sources(hits).len() == vector_answers(hits).len(),
        forall|k: int|
            0 <= k < vector_sources(hits).len() ==> {
                let i = #[trigger] vector_sources(hits)[k];
                0 <= i < hits.len() && hits[i].verse is Some && shows_verse(
                    vector_answers(hits)[k],
                    hits[i].verse->0,
                ) && vector_answers(hits)[k].similarity == hits[i].similarity
            },
        forall|i: int, j: int|
            0 <= i < j < vector_sources(hits).len() ==> vector_sources(hits)[i]
                < vector_sources(hits)[j],
        forall|i: int|
            0 <= i < hits.len() && (#[trigger] hits[i]).verse is Some ==> vector_sources(
                hits,
            ).contains(i),
    decreases hits.len(),
{
    if hits.len() > 0 {
        let before = hits.drop_last();
        lemma_vector_sources(before);
        assert forall|i: int|
            0 <= i < hits.len() && (#[trigger] hits[i]).verse is Some implies vector_sources(
            hits,
        ).contains(i) by {
            let all = vector_sources(hits);
            if i < before.len() {
                assert(before[i].verse is Some);
                let k = choose|k: int|
                    0 <= k < vector_sources(before).len() && vector_sources(before)[k] == i;
                assert(all[k] == i);
            } else {
                assert(all[all.len() - 1] == i);
            }
        }
    }
}

proof fn lemma_fts_sources(known: Seq<SearchResultView>, hits: Seq<FtsMatchView>)
    ensures
        fts_sources(known, hits).len() == fts_answers(known, hits).len(),
        forall|k: int|
            0 <= k < fts_sources(known, hits).len() ==> {
                let r = #[trigger] fts_sources(known, hits)[k];
                0 <= r < hits.len() && hits[r].verse is Some && fts_wanted(known, r, hits[r].place)
                    && shows_verse(fts_answers(known, hits)[k], hits[r].verse->0) && fts_answers(
                    known,
                    hits,
                )[k].similarity == hundredths_score(fts_confidence(r))
            },
        forall|i: int, j: int|
            0 <= i < j < fts_sources(known, hits).len() ==> fts_sources(known, hits)[i]
                < fts_sources(known, hits)[j],
        forall|r: int|
            0 <= r < hits.len() && (#[trigger] hits[r]).verse is Some && fts_wanted(
                known,
                r,
                hits[r].place,
            ) ==> fts_sources(known, hits).contains(r),
    decreases hits.len(),
{
    if hits.len() > 0 {
        let before = hits.drop_last();
        lemma_fts_sources(known, before);
        let all = fts_sources(known, hits);
        assert forall|r: int|
            0 <= r < hits.len() && (#[trigger] hits[r]).verse is Some && fts_wanted(
                known,
                r,
                hits[r].place,
            ) implies all.contains(r) by {
            if r < before.len() {
                assert(before[r].verse is Some);
                let k = choose|k: int|
                    0 <= k < fts_sources(known, before).len() && fts_sources(known, before)[k]
                        == r;
                assert(all[k] == r);
            } else {
                assert(all[all.len() - 1] == r);
            }
        }
    }
}

/// A full-text hit is looked up exactly where it is one of the first seven and no vector
/// hit gave a verse with the same book, the same chapter and the same number.
pub proof fn law_lookups_are_for_new_places(
    vector: Seq<VectorMatchView>,
    rank: int,
    place: Place,
)
    requires
        0 <= rank,
    ensures
        fts_wanted(vector_answers(vector), rank, place) <==> rank <= 6 && !(exists|i: int|
            0 <= i < vector.len() && (#[trigger] vector[i]).verse is Some
                && vector[i].verse->0.book_number == place.book_number
                && vector[i].verse->0.chapter == place.chapter && vector[i].verse->0.verse
                == place.verse),
{
    let known = vector_answers(vector);
    let sources = vector_sources(vector);
    lemma_vector_sources(vector);
    if shows(known, place) {
        let k = choose|k: int| 0 <= k < known.len() && (#[trigger] known[k]).place() == place;
        let i = sources[k];
        assert(shows_verse(known[k], vector[i].verse->0));
        assert(stands_at(vector[i].verse, place));
    }
    if exists|i: int|
        0 <= i < vector.len() && (#[trigger] vector[i]).verse is Some
            && vector[i].verse->0.book_number == place.book_number && vector[i].verse->0.chapter
            == place.chapter && vector[i].verse->0.verse == place.verse {
        let i = choose|i: int|
            0 <= i < vector.len() && (#[trigger] vector[i]).verse is Some
                && vector[i].verse->0.book_number == place.book_number
                && vector[i].verse->0.chapter == place.chapter && vector[i].verse->0.verse
                == place.verse;
        assert(sources.contains(i));
        let k = choose|k: int| 0 <= k < sources.len() && sources[k] == i;
        assert(shows_verse(known[k], vector[i].verse->0));
        assert(known[k].place() == place);
    }
}

proof fn lemma_found_is_known(vector: Seq<VectorMatchView>, rank: int, place: Place)
    requires
        0 <= rank,
    ensures
        fts_wanted(vector_answers(vector), rank, place) <==> rank <= 6 && !found_by_vector(
            vector,
            place,
        ),
{
    law_lookups_are_for_new_places(vector, rank, place);
    if found_by_vector(vector, place) {
        let i = choose|i: int|
            0 <= i < vector.len() && stands_at((#[trigger] vector[i]).verse, place);
        assert(vector[i].verse is Some);
    }
    if !fts_wanted(vector_answers(vector), rank, place) && rank <= 6 {
        let i = choose|i: int|
            0 <= i < vector.len() && (#[trigger] vector[i]).verse is Some
                && vector[i].verse->0.book_number == place.book_number
                && vector[i].verse->0.chapter == place.chapter && vector[i].verse->0.verse
                == place.verse;
        assert(stands_at(vector[i].verse, place));
    }
}

/// The hits that all answers come from, before they are ranked.
spec fn all_sources(vector: Seq<VectorMatchView>, fts: Seq<FtsMatchView>) -> Seq<int> {
    vector_sources(vector) + fts_sources(vector_answers(vector), fts).map_values(
        |r: int| vector.len() + r,
    )
}

proof fn lemma_all_sources(vector: Seq<VectorMatchView>, fts: Seq<FtsMatchView>)
    ensures
        accounts_for(vector, fts, all_answers(vector, fts), all_sources(vector, fts)),
        forall|i: int, j: int|
            0 <= i < j < all_sources(vector, fts).len() ==> all_sources(vector, fts)[i]
                < all_sources(vector, fts)[j],
        forall|k: int|
            0 <= k < all_sources(vector, fts).len() && #[trigger] all_sources(vector, fts)[k]
                >= vector.len() ==> !all_answers(vector, fts)[k].similarity.nan(),
{
    let known = vector_answers(vector);
    let vs = vector_sources(vector);
    let fs = fts_sources(known, fts);
    let all = all_sources(vector, fts);
    let shown = all_answers(vector, fts);
    lemma_vector_sources(vector);
    lemma_fts_sources(known, fts);
    assert forall|k: int| 0 <= k < shown.len() implies answers_hit(
        vector,
        fts,
        all[k],
        #[trigger] shown[k],
    ) && is_answered(vector, fts, all[k]) && (all[k] >= vector.len()
        ==> !shown[k].similarity.nan()) by {
        if k < vs.len() {
            assert(all[k] == vs[k]);
        } else {
            let r = fs[k - vs.len()];
            assert(all[k] == vector.len() + r);
            lemma_found_is_known(vector, r, fts[r].place);
            law_hundredths_are_rounded(fts_confidence(r));
        }
    }
    assert forall|i: int, j: int| 0 <= i < j < all.len() implies all[i] < all[j] by {
        if i < vs.len() {
            assert(all[i] == vs[i]);
        } else {
            assert(all[i] == vector.len() + fs[i - vs.len()]);
        }
        if j < vs.len() {
            assert(all[j] == vs[j]);
        } else {
            assert(all[j] == vector.len() + fs[j - vs.len()]);
        }
    }
    assert forall|hit: int| #[trigger] all.contains(hit) <==> is_answered(vector, fts, hit) by {
        if all.contains(hit) {
            let k = choose|k: int| 0 <= k < all.len() && all[k] == hit;
            assert(answers_hit(vector, fts, all[k], shown[k]) && is_answered(vector, fts, all[k]));
        }
        if is_answered(vector, fts, hit) {
            if hit < vector.len() {
                assert(vs.contains(hit));
                let k = choose|k: int| 0 <= k < vs.len() && vs[k] == hit;
                assert(all[k] == hit);
            } else {
                let r = hit - vector.len();
                lemma_found_is_known(vector, r, fts[r].place);
                assert(fs.contains(r));
                let k = choose|k: int| 0 <= k < fs.len() && fs[k] == r;
                assert(all[vs.len() + k] == hit);
            }
        }
    }
}

/// A search answers every hit that is to be answered exactly once and nothing else, each
/// with its own verse and similarity: the vector hits whose verse is known, and those of
/// the first seven full-text hits whose verse is known and was not found by a vector hit.
/// Where the vector similarities are numbers, the highest similarity comes first, and ties
/// in the order of the hits.
pub proof fn law_search_answers_each_hit_once(
    vector: Seq<VectorMatchView>,
    fts: Seq<FtsMatchView>,
)
    ensures
        exists|sources: Seq<int>| #[trigger]
            accounts_for(vector, fts, arrangement(all_answers(vector, fts)), sources) && (
            vector_scores_are_numbers(vector) ==> best_first(
                arrangement(all_answers(vector, fts)),
                sources,
            )),
{
    let found = all_answers(vector, fts);
    let all = all_sources(vector, fts);
    let shown = arrangement(found);
    let scores = similarities(found);
    lemma_all_sources(vector, fts);
    law_arrangement_presents(found);
    let order = choose|order: Seq<int>| #[trigger]
        rearranges(found, shown, order) && (all_numbers(scores) ==> is_ranked(
            scores,
            order,
        ));
    let sources = Seq::new(shown.len(), |k: int| all[order[k]]);
    assert forall|hit: int| #[trigger] sources.contains(hit) <==> is_answered(
        vector,
        fts,
        hit,
    ) by {
        if sources.contains(hit) {
            let k = choose|k: int| 0 <= k < sources.len() && sources[k] == hit;
            assert(all[order[k]] == hit);
            assert(all.contains(hit));
        }
        if is_answered(vector, fts, hit) {
            assert(all.contains(hit));
            let p = choose|p: int| 0 <= p < all.len() && all[p] == hit;
            lemma_order_is_onto(order, found.len(), p);
            let k = choose|k: int| 0 <= k < order.len() && order[k] == p;
            assert(sources[k] == hit);
        }
    }
    assert forall|k: int| 0 <= k < shown.len() implies answers_hit(
        vector,
        fts,
        sources[k],
        #[trigger] shown[k],
    ) by {
        assert(shown[k] == found[order[k]]);
    }
    assert forall|i: int, j: int| 0 <= i < j < sources.len() implies sources[i]
        != sources[j] by {
        let a = order[i];
        let b = order[j];
        assert(a != b);
        if a < b {
            assert(all[a] < all[b]);
        } else {
            assert(all[b] < all[a]);
        }
    }
    assert(accounts_for(vector, fts, shown, sources));
    if vector_scores_are_numbers(vector) {
        assert forall|k: int| 0 <= k < scores.len() implies !(#[trigger] scores[k]).nan() by {
            assert(answers_hit(vector, fts, all[k], found[k]));
            assert(all.contains(all[k]));
            if all[k] < vector.len() {
                assert(vector[all[k]].verse is Some);
            }
        }
        assert(all_numbers(scores));
        assert forall|i: int, j: int| 0 <= i < j < shown.len() implies {
            &&& !(#[trigger] shown[i]).similarity.below((#[trigger] shown[j]).similarity)
            &&& shown[j].similarity.below(shown[i].similarity) || sources[i] < sources[j]
        } by {
            assert(precedes(scores, order[i], order[j]));
            assert(shown[i] == found[order[i]] && shown[j] == found[order[j]]);
            assert(scores[order[i]] == shown[i].similarity && scores[order[j]]
                == shown[j].similarity);
            assert(!scores[order[i]].nan() && !scores[order[j]].nan());
            if order[i] < order[j] {
                assert(all[order[i]] < all[order[j]]);
            }
        }
        assert(best_first(shown, sources));
    }
}

/// A full-text hit among the first seven whose verse is known is shown, with that verse's
/// text, book, chapter and number, where no vector hit gave a verse that agrees with its
/// place in book, chapter and number.
pub proof fn law_new_verses_are_shown(
    vector: Seq<VectorMatchView>,
    fts: Seq<FtsMatchView>,
    rank: int,
)
    requires
        0 <= rank < fts.len(),
        rank <= 6,
        fts[rank].verse is Some,
        forall|i: int|
            0 <= i < vector.len() && (#[trigger] vector[i]).verse is Some ==> !(
            vector[i].verse->0.book_number == fts[rank].place.book_number
                && vector[i].verse->0.chapter == fts[rank].place.chapter
                && vector[i].verse->0.verse == fts[rank].place.verse),
    ensures
        exists|k: int|
            0 <= k < arrangement(all_answers(vector, fts)).len() && shows_verse(
                #[trigger] arrangement(all_answers(vector, fts))[k],
                fts[rank].verse->0,
            ) && is_rank_score(arrangement(all_answers(vector, fts))[k].similarity, rank),
{
    law_search_answers_each_hit_once(vector, fts);
    let shown = arrangement(all_answers(vector, fts));
    let sources = choose|sources: Seq<int>| #[trigger]
        accounts_for(vector, fts, shown, sources) && (vector_scores_are_numbers(vector)
            ==> best_first(shown, sources));
    let hit = vector.len() + rank;
    assert(!found_by_vector(vector, fts[rank].place)) by {
        if found_by_vector(vector, fts[rank].place) {
            let i = choose|i: int|
                0 <= i < vector.len() && stands_at((#[trigger] vector[i]).verse, fts[rank].place);
            assert(vector[i].verse is Some);
        }
    }
    assert(is_answered(vector, fts, hit));
    assert(sources.contains(hit));
    let k = choose|k: int| 0 <= k < sources.len() && sources[k] == hit;
    assert(answers_hit(vector, fts, sources[k], shown[k]));
}

/// A full-text hit adds nothing where a vector hit gave a verse that agrees with its place
/// in book, chapter and number, nor where seven hits rank before it: the list is the one
/// without its verse.
pub proof fn law_repeated_verses_add_nothing(
    vector: Seq<VectorMatchView>,
    fts: Seq<FtsMatchView>,
    rank: int,
    i: int,
)
    requires
        0 <= rank < fts.len(),
        rank > 6 || (0 <= i < vector.len() && vector[i].verse is Some
            && vector[i].verse->0.book_number == fts[rank].place.book_number
            && vector[i].verse->0.chapter == fts[rank].place.chapter && vector[i].verse->0.verse
            == fts[rank].place.verse),
    ensures
        arrangement(all_answers(vector, fts)) == arrangement(
            all_answers(
                vector,
                fts.update(rank, FtsMatchView { place: fts[rank].place, verse: None }),
            ),
        ),
{
    let other = fts.update(rank, FtsMatchView { place: fts[rank].place, verse: None });
    law_lookups_are_for_new_places(vector, rank, fts[rank].place);
    if rank <= 6 {
        assert(vector[i].verse is Some);
    }
    assert(!fts_wanted(vector_answers(vector), rank, fts[rank].place));
    law_unwanted_lookups_do_not_matter(vector, fts, other);
}

/// A vector hit whose verse is known is always shown, with its own similarity.
pub proof fn law_vector_verses_are_shown(
    vector: Seq<VectorMatchView>,
    fts: Seq<FtsMatchView>,
    i: int,
)
    requires
        0 <= i < vector.len(),
        vector[i].verse is Some,
    ensures
        exists|k: int|
            0 <= k < arrangement(all_answers(vector, fts)).len() && shows_verse(
                #[trigger] arrangement(all_answers(vector, fts))[k],
                vector[i].verse->0,
            ) && arrangement(all_answers(vector, fts))[k].similarity == vector[i].similarity,
{
    law_search_answers_each_hit_once(vector, fts);
    let shown = arrangement(all_answers(vector, fts));
    let sources = choose|sources: Seq<int>| #[trigger]
        accounts_for(vector, fts, shown, sources) && (vector_scores_are_numbers(vector)
            ==> best_first(shown, sources));
    assert(is_answered(vector, fts, i));
    assert(sources.contains(i));
    let k = choose|k: int| 0 <= k < sources.len() && sources[k] == i;
    assert(answers_hit(vector, fts, sources[k], shown[k]));
}

/// A limit is taken as it is given; none counts as ten.
pub proof fn law_limits(n: usize)
    ensures
        effective_limit(Some(n)) == n,
        effective_limit(None) == 10,
{
}

/// The confidence of a full-text hit is three quarters less four hundredths for each rank,
/// and it is accepted from one half on: for the first seven ranks.
pub proof fn law_confidence_by_rank(rank: int)
    requires
        0 <= rank,
    ensures
        fts_confidence(rank) == 75 - 4 * rank,
        fts_confidence(rank) >= 50 <==> rank <= 6,
        rank <= 6 ==> is_rank_score(hundredths_score(fts_confidence(rank)), rank),
{
    if rank <= 6 {
        law_hundredths_are_rounded(fts_confidence(rank));
    }
}

/// The contents of answers and hits are their fields, each under its own name.
pub proof fn law_views_hold_the_fields(
    r: SemanticSearchResult,
    vector: VectorMatch,
    fts: FtsMatch,
)
    ensures
        r@.verse_ref == r.verse_ref@,
        r@.verse_text == r.verse_text@,
        r@.book_name == r.book_name@,
        r@.book_number == r.book_number,
        r@.chapter == r.chapter,
        r@.verse == r.verse,
        r@.similarity == r.similarity,
        r@.place().book_number == r.book_number,
        r@.place().chapter == r.chapter,
        r@.place().verse == r.verse,
        vector@.similarity == vector.similarity,
        vector.verse matches Some(v) ==> vector@.verse == Some(v@),
        vector.verse is None ==> vector@.verse is None,
        fts@.place == fts.place,
        fts.verse matches Some(v) ==> fts@.verse == Some(v@),
        fts.verse is None ==> fts@.verse is None,
{
}

/// The contents of a list are the contents of its items, in the same order.
pub proof fn law_list_views_hold_the_items(
    results: Seq<SemanticSearchResult>,
    vector: Seq<VectorMatch>,
    fts: Seq<FtsMatch>,
)
    ensures
        result_views(results).len() == results.len(),
        forall|i: int|
            0 <= i < results.len() ==> #[trigger] result_views(results)[i] == results[i]@,
        vector_views(vector).len() == vector.len(),
        forall|i: int| 0 <= i < vector.len() ==> #[trigger] vector_views(vector)[i] == vector[i]@,
        fts_views(fts).len() == fts.len(),
        forall|i: int| 0 <= i < fts.len() ==> #[trigger] fts_views(fts)[i] == fts[i]@,
{
}

/// Whether `at` is where a further answer comes to stand among others: everything behind
/// it has a lower similarity, and what is right before it has not.
pub open spec fn finds_place(
    others: Seq<SearchResultView>,
    further: SearchResultView,
    at: int,
) -> bool {
    &&& 0 <= at <= others.len()
    &&& forall|k: int|
        at <= k < others.len() ==> (#[trigger] others[k]).similarity.below(further.similarity)
    &&& at > 0 ==> !others[at - 1].similarity.below(further.similarity)
}

/// A further answer leaves the others in their order and comes behind every one that it
/// does not beat on the way up from the end, be the similarities numbers or not.
pub proof fn law_a_further_answer_finds_its_place(
    found: Seq<SearchResultView>,
    further: SearchResultView,
)
    ensures
        exists|at: int| #[trigger]
            finds_place(arrangement(found), further, at) && arrangement(found.push(further))
                == arrangement(found).insert(at, further),
{
    let others = arrangement(found);
    assert(found.push(further).drop_last() =~= found);
    lemma_slot(others, further.similarity);
    assert(finds_place(others, further, slot(others, further.similarity)));
}

/// Answers of which none has a lower similarity than another, such as equal ones or ones
/// whose similarities are not numbers, are shown in the order of their hits.
pub proof fn law_answers_that_tie_keep_their_order(found: Seq<SearchResultView>)
    requires
        forall|i: int, j: int|
            0 <= i < found.len() && 0 <= j < found.len()
                ==> !(#[trigger] found[i]).similarity.below((#[trigger] found[j]).similarity),
    ensures
        arrangement(found) == found,
    decreases found.len(),
{
    if found.len() > 0 {
        let before = found.drop_last();
        law_answers_that_tie_keep_their_order(before);
        if before.len() > 0 {
            assert(before.last() == found[found.len() - 2]);
        }
        assert(before.insert(before.len() as int, found.last()) =~= found);
    }
}

} // verus!
