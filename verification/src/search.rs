//! Semantic search: vector hits and full-text hits, merged and ranked.
//!
//! Vector hits come first. Full-text hits add the verses that no vector hit found,
//! with a similarity that falls with their rank, as far as it stays confident
//! enough. The answer lists the highest similarity first.
use vstd::prelude::*;

use crate::detection::{AppState, Holdings, Lookup};
use crate::ranking::{
    all_numbers, is_ranked, law_ranked_order_is_unique, law_rearranging_keeps_the_items, precedes,
    rearranges,
};
use crate::score::{hundredths_score, law_hundredths_keep_order, Score};
use crate::text::format_reference;
use crate::verse::{verse_option, Place, Verse, VerseView};

verus! {

/// Confidence of the best full-text match (rank 0), in hundredths.
pub const FTS5_RANK0_CONFIDENCE: u64 = 75;

/// Decrease of confidence per full-text rank, in hundredths.
pub const FTS5_CONFIDENCE_DECAY: u64 = 4;

/// Full-text matches below this confidence, in hundredths, are left out.
pub const FTS5_MIN_CONFIDENCE: u64 = 50;

/// How many hits are asked for where the caller names no limit.
pub const DEFAULT_LIMIT: usize = 10;

/// One answer of a semantic search.
#[derive(Debug)]
pub struct SemanticSearchResult {
    pub verse_ref: String,
    pub verse_text: String,
    pub book_name: String,
    pub book_number: i32,
    pub chapter: i32,
    pub verse: i32,
    pub similarity: Score,
}

/// The contents of a [`SemanticSearchResult`].
#[verifier::ext_equal]
pub struct SearchResultView {
    pub verse_ref: Seq<char>,
    pub verse_text: Seq<char>,
    pub book_name: Seq<char>,
    pub book_number: i32,
    pub chapter: i32,
    pub verse: i32,
    pub similarity: Score,
}

impl View for SemanticSearchResult {
    type V = SearchResultView;

    open spec fn view(&self) -> SearchResultView {
        SearchResultView {
            verse_ref: self.verse_ref@,
            verse_text: self.verse_text@,
            book_name: self.book_name@,
            book_number: self.book_number,
            chapter: self.chapter,
            verse: self.verse,
            similarity: self.similarity,
        }
    }
}

impl SearchResultView {
    /// Where the verse of the answer stands.
    pub open spec fn place(self) -> Place {
        Place { book_number: self.book_number, chapter: self.chapter, verse: self.verse }
    }
}

/// A hit of the vector index: its similarity, and the verse that the database holds
/// under its identifier, if it holds one.
#[derive(Debug)]
pub struct VectorMatch {
    pub similarity: Score,
    pub verse: Option<Verse>,
}

/// The contents of a [`VectorMatch`].
pub struct VectorMatchView {
    pub similarity: Score,
    pub verse: Option<VerseView>,
}

impl View for VectorMatch {
    type V = VectorMatchView;

    open spec fn view(&self) -> VectorMatchView {
        VectorMatchView { similarity: self.similarity, verse: verse_option(self.verse) }
    }
}

/// A hit of the full-text index: the place that it names, and the verse that stands
/// there in the active translation, if the database was asked and holds one.
#[derive(Debug)]
pub struct FtsMatch {
    pub place: Place,
    pub verse: Option<Verse>,
}

/// The contents of an [`FtsMatch`].
pub struct FtsMatchView {
    pub place: Place,
    pub verse: Option<VerseView>,
}

impl View for FtsMatch {
    type V = FtsMatchView;

    open spec fn view(&self) -> FtsMatchView {
        FtsMatchView { place: self.place, verse: verse_option(self.verse) }
    }
}

/// The contents of a list of answers.
pub open spec fn result_views(results: Seq<SemanticSearchResult>) -> Seq<SearchResultView> {
    results.map_values(|r: SemanticSearchResult| r@)
}

/// The contents of a list of vector hits.
pub open spec fn vector_views(hits: Seq<VectorMatch>) -> Seq<VectorMatchView> {
    hits.map_values(|h: VectorMatch| h@)
}

/// The contents of a list of full-text hits.
pub open spec fn fts_views(hits: Seq<FtsMatch>) -> Seq<FtsMatchView> {
    hits.map_values(|h: FtsMatch| h@)
}

/// The similarities of a list of answers.
pub open spec fn similarities(results: Seq<SearchResultView>) -> Seq<Score> {
    results.map_values(|r: SearchResultView| r.similarity)
}

/// The answer that shows verse `v` with the given similarity.
pub open spec fn answer(v: VerseView, similarity: Score) -> SearchResultView {
    SearchResultView {
        verse_ref: v.reference(),
        verse_text: v.text,
        book_name: v.book_name,
        book_number: v.book_number,
        chapter: v.chapter,
        verse: v.verse,
        similarity,
    }
}

/// The answers of the vector hits: one for each hit whose verse is known, in order.
pub open spec fn vector_answers(hits: Seq<VectorMatchView>) -> Seq<SearchResultView>
    decreases hits.len(),
{
    if hits.len() == 0 {
        Seq::empty()
    } else {
        let before = vector_answers(hits.drop_last());
        match hits.last().verse {
            Some(v) => before.push(answer(v, hits.last().similarity)),
            None => before,
        }
    }
}

/// Whether one of the answers shows the verse at `place`.
pub open spec fn shows(answers: Seq<SearchResultView>, place: Place) -> bool {
    exists|i: int| 0 <= i < answers.len() && (#[trigger] answers[i]).place() == place
}

/// The confidence of the full-text hit of this rank, in hundredths.
pub open spec fn fts_confidence(rank: int) -> int {
    FTS5_RANK0_CONFIDENCE - rank * FTS5_CONFIDENCE_DECAY
}

/// Whether the full-text hit of this rank, which names `place`, is wanted beside the
/// answers `known`: it is confident enough and none of them shows its verse.
pub open spec fn fts_wanted(known: Seq<SearchResultView>, rank: int, place: Place) -> bool {
    fts_confidence(rank) >= FTS5_MIN_CONFIDENCE && !shows(known, place)
}

/// The answers that the full-text hits add to `known`: one for each wanted hit whose
/// verse is known, in order of rank.
pub open spec fn fts_answers(
    known: Seq<SearchResultView>,
    hits: Seq<FtsMatchView>,
) -> Seq<SearchResultView>
    decreases hits.len(),
{
    if hits.len() == 0 {
        Seq::empty()
    } else {
        let rank = hits.len() - 1;
        let before = fts_answers(known, hits.drop_last());
        match hits.last().verse {
            Some(v) if fts_wanted(known, rank, hits.last().place) => before.push(
                answer(v, hundredths_score(fts_confidence(rank))),
            ),
            _ => before,
        }
    }
}

/// All the answers, before they are ranked.
pub open spec fn all_answers(
    vector: Seq<VectorMatchView>,
    fts: Seq<FtsMatchView>,
) -> Seq<SearchResultView> {
    vector_answers(vector) + fts_answers(vector_answers(vector), fts)
}

/// Whether `shown` lists exactly the answers `found`, and, where every similarity is
/// a number, the highest similarity first and ties in the order of `found`.
pub open spec fn presents(found: Seq<SearchResultView>, shown: Seq<SearchResultView>) -> bool {
    exists|order: Seq<int>| #[trigger]
        rearranges(found, shown, order) && (all_numbers(similarities(found)) ==> is_ranked(
            similarities(found),
            order,
        ))
}

/// The number of hits that the indexes are asked for.
pub open spec fn effective_limit(limit: Option<usize>) -> usize {
    match limit {
        Some(n) => n,
        None => DEFAULT_LIMIT,
    }
}

/// The number of hits to ask the indexes for.
pub fn search_limit(limit: Option<usize>) -> (k: usize)
    ensures
        k == effective_limit(limit),
{
    match limit {
        Some(n) => n,
        None => DEFAULT_LIMIT,
    }
}

fn to_answer(v: &Verse, similarity: Score) -> (r: SemanticSearchResult)
    ensures
        r@ == answer(v@, similarity),
{
    SemanticSearchResult {
        verse_ref: format_reference(v.book_name.as_str(), v.chapter, v.verse),
        verse_text: v.text.clone(),
        book_name: v.book_name.clone(),
        book_number: v.book_number,
        chapter: v.chapter,
        verse: v.verse,
        similarity,
    }
}

/// The similarity of the full-text hit of this rank; none where it is not confident
/// enough to be shown.
pub fn fts_similarity(rank: usize) -> (s: Option<Score>)
    ensures
        s == (if fts_confidence(rank as int) >= FTS5_MIN_CONFIDENCE {
            Some(hundredths_score(fts_confidence(rank as int)))
        } else {
            None::<Score>
        }),
        s is Some <==> rank <= 6,
{
    let last: u64 = (FTS5_RANK0_CONFIDENCE - FTS5_MIN_CONFIDENCE) / FTS5_CONFIDENCE_DECAY;
    if rank as u64 > last {
        return None;
    }
    let confidence: u64 = FTS5_RANK0_CONFIDENCE - rank as u64 * FTS5_CONFIDENCE_DECAY;
    Some(Score::of_hundredths(confidence))
}

fn known_answers(vector: &Vec<VectorMatch>) -> (results: Vec<SemanticSearchResult>)
    ensures
        result_views(results@) == vector_answers(vector_views(vector@)),
{
    let ghost hits = vector_views(vector@);
    let mut results: Vec<SemanticSearchResult> = Vec::new();
    for i in 0..vector.len()
        invariant
            hits == vector_views(vector@),
            result_views(results@) == vector_answers(hits.take(i as int)),
    {
        proof {
            assert(hits.take(i + 1).drop_last() =~= hits.take(i as int));
            assert(hits.take(i + 1).last() == vector@[i as int]@);
        }
        let ghost before = results@;
        if let Some(v) = &vector[i].verse {
            results.push(to_answer(v, vector[i].similarity));
            assert(result_views(results@) =~= result_views(before).push(results@.last()@));
        }
    }
    assert(hits.take(vector@.len() as int) =~= hits);
    results
}

fn shows_place(results: &Vec<SemanticSearchResult>, known: usize, place: Place) -> (b: bool)
    requires
        known <= results@.len(),
    ensures
        b == shows(result_views(results@.take(known as int)), place),
{
    let ghost answers = result_views(results@.take(known as int));
    for i in 0..known
        invariant
            known <= results@.len(),
            answers == result_views(results@.take(known as int)),
            forall|j: int| 0 <= j < i ==> (#[trigger] answers[j]).place() != place,
    {
        let r = &results[i];
        assert(answers[i as int] == r@);
        if r.book_number == place.book_number && r.chapter == place.chapter && r.verse
            == place.verse {
            assert(answers[i as int].place() == place);
            return true;
        }
    }
    false
}

/// Which full-text hits, given by the places that they name, the database is to be
/// asked for: the confident ones whose verse no vector hit shows.
pub fn fts_lookups(vector: &Vec<VectorMatch>, places: &Vec<Place>) -> (wanted: Vec<bool>)
    ensures
        wanted@.len() == places@.len(),
        forall|i: int|
            0 <= i < places@.len() ==> #[trigger] wanted@[i] == fts_wanted(
                vector_answers(vector_views(vector@)),
                i,
                places@[i],
            ),
{
    let known = known_answers(vector);
    let ghost answers = vector_answers(vector_views(vector@));
    assert(known@.take(known@.len() as int) =~= known@);
    let mut wanted: Vec<bool> = Vec::new();
    for i in 0..places.len()
        invariant
            answers == result_views(known@.take(known@.len() as int)),
            wanted@.len() == i,
            forall|j: int|
                0 <= j < i ==> #[trigger] wanted@[j] == fts_wanted(answers, j, places@[j]),
    {
        let confident = fts_similarity(i).is_some();
        let asked = confident && !shows_place(&known, known.len(), places[i]);
        wanted.push(asked);
    }
    wanted
}

/// The question that is asked about a full-text hit: the verse at its place, in the
/// active translation.
pub open spec fn fts_question(state: AppState, place: Place) -> Lookup {
    Lookup::ByPlace { translation_id: state.active_translation_id, place }
}

/// The question to ask the database about a wanted full-text hit. The index covers
/// several translations; the verse is shown in the active one.
pub fn fts_lookup(state: &AppState, place: Place) -> (l: Lookup)
    ensures
        l == fts_question(*state, place),
        l == (Lookup::ByPlace { translation_id: state.active_translation_id, place }),
{
    Lookup::ByPlace { translation_id: state.active_translation_id, place }
}

/// The question to ask the database about a vector hit: the verse with its identifier.
pub fn vector_lookup(id: i64) -> (l: Lookup)
    ensures
        l == Lookup::ById(id),
{
    Lookup::ById(id)
}

proof fn lemma_unconfident_hits_add_nothing(
    known: Seq<SearchResultView>,
    hits: Seq<FtsMatchView>,
    from: int,
)
    requires
        0 <= from <= hits.len(),
        fts_confidence(from) < FTS5_MIN_CONFIDENCE,
    ensures
        fts_answers(known, hits) == fts_answers(known, hits.take(from)),
    decreases hits.len(),
{
    if hits.len() == from {
        assert(hits.take(from) =~= hits);
    } else {
        lemma_unconfident_hits_add_nothing(known, hits.drop_last(), from);
        assert(hits.drop_last().take(from) =~= hits.take(from));
    }
}

/// Adds the answers of the wanted full-text hits to those of the vector hits. It
/// stops at the first wanted place that is not confident enough.
fn with_fts_answers(
    vector_results: Vec<SemanticSearchResult>,
    fts: &Vec<FtsMatch>,
) -> (results: Vec<SemanticSearchResult>)
    ensures
        result_views(results@) == result_views(vector_results@) + fts_answers(
            result_views(vector_results@),
            fts_views(fts@),
        ),
{
    let known: usize = vector_results.len();
    let ghost known_views = result_views(vector_results@);
    let ghost hits = fts_views(fts@);
    let mut results = vector_results;
    assert(hits.take(0) =~= Seq::empty());
    assert(results@.take(known as int) =~= vector_results@);
    let mut rank: usize = 0;
    let mut confident = true;
    while rank < fts.len() && confident
        invariant
            rank <= fts@.len(),
            hits == fts_views(fts@),
            known <= results@.len(),
            known_views == result_views(results@.take(known as int)),
            result_views(results@) == known_views + fts_answers(known_views, hits.take(rank as int)),
            !confident ==> fts_answers(known_views, hits) == fts_answers(
                known_views,
                hits.take(rank as int),
            ),
        decreases fts@.len() - rank, confident as int,
    {
        let fts_hit = &fts[rank];
        proof {
            assert(hits.take(rank + 1).drop_last() =~= hits.take(rank as int));
            assert(hits.take(rank + 1).last() == fts_hit@);
        }
        if !shows_place(&results, known, fts_hit.place) {
            match fts_similarity(rank) {
                None => {
                    proof {
                        lemma_unconfident_hits_add_nothing(known_views, hits, rank as int);
                    }
                    confident = false;
                },
                Some(similarity) => {
                    if let Some(v) = &fts_hit.verse {
                        let ghost before = results@;
                        results.push(to_answer(v, similarity));
                        assert(result_views(results@) =~= result_views(before).push(
                            results@.last()@,
                        ));
                        assert(results@.take(known as int) =~= before.take(known as int));
                    }
                },
            }
        }
        if confident {
            rank += 1;
        }
    }
    assert(hits.take(fts@.len() as int) =~= hits);
    results
}

/// Where a further answer belongs among ranked ones: behind the last of them that its
/// similarity is not above.
pub open spec fn slot(ranked: Seq<SearchResultView>, similarity: Score) -> int
    decreases ranked.len(),
{
    if ranked.len() == 0 || !ranked.last().similarity.below(similarity) {
        ranked.len() as int
    } else {
        slot(ranked.drop_last(), similarity)
    }
}

/// The answers in the order in which they are shown: each is put, in the order of
/// `found`, where it belongs among those before it. This settles the order also where
/// a similarity is not a number.
pub open spec fn arrangement(found: Seq<SearchResultView>) -> Seq<SearchResultView>
    decreases found.len(),
{
    if found.len() == 0 {
        Seq::empty()
    } else {
        let before = arrangement(found.drop_last());
        before.insert(slot(before, found.last().similarity), found.last())
    }
}

/// Everything behind the slot has a lower similarity, and what is right before it has not.
pub proof fn lemma_slot(ranked: Seq<SearchResultView>, similarity: Score)
    ensures
        0 <= slot(ranked, similarity) <= ranked.len(),
        forall|k: int|
            slot(ranked, similarity) <= k < ranked.len() ==> (
            #[trigger] ranked[k]).similarity.below(similarity),
        slot(ranked, similarity) > 0 ==> !ranked[slot(ranked, similarity)
            - 1].similarity.below(similarity),
    decreases ranked.len(),
{
    if ranked.len() > 0 && ranked.last().similarity.below(similarity) {
        let rest = ranked.drop_last();
        lemma_slot(rest, similarity);
        assert forall|k: int| slot(ranked, similarity) <= k < ranked.len() implies (
        #[trigger] ranked[k]).similarity.below(similarity) by {
            if k < rest.len() {
                assert(rest[k].similarity.below(similarity));
            }
        }
    }
}

proof fn lemma_arrangement_len(found: Seq<SearchResultView>)
    ensures
        arrangement(found).len() == found.len(),
    decreases found.len(),
{
    if found.len() > 0 {
        lemma_arrangement_len(found.drop_last());
        lemma_slot(arrangement(found.drop_last()), found.last().similarity);
    }
}

/// Whether `order` tells how `shown` presents `found`.
spec fn orders(
    found: Seq<SearchResultView>,
    shown: Seq<SearchResultView>,
    order: Seq<int>,
) -> bool {
    rearranges(found, shown, order) && (all_numbers(similarities(found)) ==> is_ranked(
        similarities(found),
        order,
    ))
}

proof fn lemma_insertion_keeps_order(
    found: Seq<SearchResultView>,
    before: Seq<SearchResultView>,
    order: Seq<int>,
)
    requires
        found.len() > 0,
        orders(found.drop_last(), before, order),
    ensures
        ({
            let at = slot(before, found.last().similarity);
            orders(found, before.insert(at, found.last()), order.insert(at, found.len() - 1))
        }),
{
    let new = found.len() - 1;
    let x = found.last();
    let at = slot(before, x.similarity);
    lemma_slot(before, x.similarity);
    let shown = before.insert(at, x);
    let next = order.insert(at, new);
    assert forall|k: int| 0 <= k < found.len() implies next[k] == (if k < at {
        order[k]
    } else if k == at {
        new
    } else {
        order[k - 1]
    }) && shown[k] == (if k < at {
        before[k]
    } else if k == at {
        x
    } else {
        before[k - 1]
    }) by {}
    assert(rearranges(found, shown, next));
    let scores = similarities(found);
    let old_scores = similarities(found.drop_last());
    if all_numbers(scores) {
        assert forall|k: int| 0 <= k < old_scores.len() implies #[trigger] old_scores[k]
            == scores[k] && !old_scores[k].nan() by {
            assert(!scores[k].nan());
        }
        assert(all_numbers(old_scores));
        assert forall|k: int| 0 <= k < before.len() implies scores[order[k]]
            == (#[trigger] before[k]).similarity && !before[k].similarity.nan() by {
            assert(before[k] == found.drop_last()[order[k]]);
            assert(!scores[order[k]].nan());
        }
        assert(scores[new] == x.similarity && !scores[new].nan());
        assert forall|i: int, j: int| 0 <= i < j < next.len() implies #[trigger] precedes(
            scores,
            next[i],
            next[j],
        ) by {
            if j == at {
                assert(before[i].similarity == scores[order[i]]);
                assert(before[at - 1].similarity == scores[order[at - 1]]);
                if i < at - 1 {
                    assert(precedes(old_scores, order[i], order[at - 1]));
                }
            } else if i == at {
                assert(before[j - 1].similarity.below(x.similarity));
            } else {
                let a = if i < at { i } else { i - 1 };
                let b = if j < at { j } else { j - 1 };
                assert(precedes(old_scores, order[a], order[b]));
            }
        }
    }
}

proof fn lemma_arrangement_order(found: Seq<SearchResultView>) -> (order: Seq<int>)
    ensures
        orders(found, arrangement(found), order),
    decreases found.len(),
{
    if found.len() == 0 {
        Seq::empty()
    } else {
        let before = arrangement(found.drop_last());
        let order = lemma_arrangement_order(found.drop_last());
        lemma_insertion_keeps_order(found, before, order);
        order.insert(slot(before, found.last().similarity), found.len() - 1)
    }
}

/// The order in which answers are shown is the highest similarity first, ties as they
/// came, with no answer lost or added.
pub proof fn law_arrangement_presents(found: Seq<SearchResultView>)
    ensures
        presents(found, arrangement(found)),
{
    let order = lemma_arrangement_order(found);
    assert(rearranges(found, arrangement(found), order));
}

/// Puts the answers in their final order: the highest similarity first, ties as they
/// came.
pub fn rank_results(results: Vec<SemanticSearchResult>) -> (ranked: Vec<SemanticSearchResult>)
    ensures
        result_views(ranked@) == arrangement(result_views(results@)),
        presents(result_views(results@), result_views(ranked@)),
{
    let ghost found = result_views(results@);
    let mut ranked = results;
    let count: usize = ranked.len();
    assert(found.take(0) =~= Seq::empty());
    assert(result_views(ranked@) =~= arrangement(found.take(0)) + found.skip(0));
    for i in 0..count
        invariant
            count == ranked@.len(),
            count == found.len(),
            result_views(ranked@) == arrangement(found.take(i as int)) + found.skip(i as int),
    {
        let ghost before = arrangement(found.take(i as int));
        let ghost current = ranked@;
        let ghost x = found[i as int];
        proof {
            lemma_arrangement_len(found.take(i as int));
            lemma_slot(before, x.similarity);
            assert forall|k: int| 0 <= k < i implies (#[trigger] current[k])@ == before[k] by {
                assert(result_views(current)[k] == before[k]);
            }
            assert(result_views(current)[i as int] == x);
            assert(before.take(i as int) =~= before);
        }
        let mut at: usize = i;
        while at > 0 && ranked[at - 1].similarity.is_below(&ranked[i].similarity)
            invariant
                at <= i < ranked@.len(),
                ranked@ == current,
                before.len() == i,
                current[i as int]@ == x,
                forall|k: int| 0 <= k < i ==> (#[trigger] current[k])@ == before[k],
                slot(before.take(at as int), x.similarity) == slot(before, x.similarity),
            decreases at,
        {
            proof {
                let rest = before.take(at as int);
                assert(rest.last() == current[at - 1]@);
                assert(rest.drop_last() =~= before.take(at - 1));
            }
            at -= 1;
        }
        proof {
            if at > 0 {
                assert(before.take(at as int).last() == current[at - 1]@);
            }
            assert(at == slot(before, x.similarity));
            assert(found.take(i + 1).drop_last() =~= found.take(i as int));
            assert(arrangement(found.take(i + 1)) == before.insert(at as int, x));
        }
        let moving = ranked.remove(i);
        ranked.insert(at, moving);
        proof {
            let target = before.insert(at as int, x) + found.skip(i + 1);
            assert forall|k: int| 0 <= k < count implies #[trigger] result_views(ranked@)[k]
                == target[k] by {
                if k > i {
                    assert(result_views(current)[k] == found.skip(i as int)[k - i]);
                }
            }
            assert(result_views(ranked@) =~= target);
        }
    }
    proof {
        assert(found.take(count as int) =~= found);
        assert(found.skip(count as int) =~= Seq::empty());
        law_arrangement_presents(found);
    }
    ranked
}

/// Answers a semantic search. `vector` holds the hits of the vector index, or nothing
/// where no embedding model is loaded; `fts` holds those of the full-text index.
pub fn semantic_search(
    vector: Option<&Vec<VectorMatch>>,
    fts: &Vec<FtsMatch>,
) -> (shown: Result<Vec<SemanticSearchResult>, String>)
    ensures
        match vector {
            None => shown matches Err(message) && message@
                == "Semantic search not available \u{2014} model or embeddings not loaded"@,
            Some(hits) => shown matches Ok(results) && result_views(results@) == arrangement(
                all_answers(vector_views(hits@), fts_views(fts@)),
            ) && presents(
                all_answers(vector_views(hits@), fts_views(fts@)),
                result_views(results@),
            ),
        },
{
    match vector {
        None => Err(
            "Semantic search not available \u{2014} model or embeddings not loaded".to_owned(),
        ),
        Some(hits) => {
            let results = with_fts_answers(known_answers(hits), fts);
            Ok(rank_results(results))
        },
    }
}

proof fn lemma_presenting_order(
    found: Seq<SearchResultView>,
    shown: Seq<SearchResultView>,
) -> (order: Seq<int>)
    requires
        presents(found, shown),
    ensures
        orders(found, shown, order),
{
    choose|order: Seq<int>| #[trigger]
        rearranges(found, shown, order) && (all_numbers(similarities(found)) ==> is_ranked(
            similarities(found),
            order,
        ))
}

/// What a search with this limit shows, given what the two indexes give for each
/// number of hits.
pub open spec fn search_with(
    vector: spec_fn(usize) -> Seq<VectorMatchView>,
    fts: spec_fn(usize) -> Seq<FtsMatchView>,
    limit: Option<usize>,
) -> Seq<SearchResultView> {
    let k = effective_limit(limit);
    arrangement(all_answers(vector(k), fts(k)))
}

/// A search without a limit shows what a search with a limit of ten shows, whatever
/// the indexes give and whatever the similarities are.
pub proof fn law_no_limit_means_ten(
    vector: spec_fn(usize) -> Seq<VectorMatchView>,
    fts: spec_fn(usize) -> Seq<FtsMatchView>,
)
    ensures
        effective_limit(None) == effective_limit(Some(10)) == 10,
        search_with(vector, fts, None) == search_with(vector, fts, Some(10)),
{
}

/// Where every similarity is a number, the answers that are found determine the list
/// that is shown, to the last position.
pub proof fn law_presentation_is_determined(
    found: Seq<SearchResultView>,
    first: Seq<SearchResultView>,
    second: Seq<SearchResultView>,
)
    requires
        all_numbers(similarities(found)),
        presents(found, first),
        presents(found, second),
    ensures
        first == second,
{
    let scores = similarities(found);
    let a = lemma_presenting_order(found, first);
    let b = lemma_presenting_order(found, second);
    law_ranked_order_is_unique(scores, a, b);
    assert(first =~= second);
}

/// The highest similarity is always first: where every similarity is a number, no
/// answer is shown before one with a higher similarity.
pub proof fn law_highest_similarity_first(
    found: Seq<SearchResultView>,
    shown: Seq<SearchResultView>,
    i: int,
    j: int,
)
    requires
        all_numbers(similarities(found)),
        presents(found, shown),
        0 <= i < j < shown.len(),
    ensures
        !shown[i].similarity.below(shown[j].similarity),
{
    let scores = similarities(found);
    let order = lemma_presenting_order(found, shown);
    assert(precedes(scores, order[i], order[j]));
    assert(shown[i] == found[order[i]] && shown[j] == found[order[j]]);
}

/// Ranking loses no answer and adds none.
pub proof fn law_ranking_keeps_the_answers(
    found: Seq<SearchResultView>,
    shown: Seq<SearchResultView>,
)
    requires
        presents(found, shown),
    ensures
        shown.len() == found.len(),
        shown.to_multiset() == found.to_multiset(),
{
    let order = lemma_presenting_order(found, shown);
    law_rearranging_keeps_the_items(found, shown, order);
}

/// A vector hit whose verse is known is always answered, with its own similarity.
pub proof fn law_found_vector_hits_are_answered(hits: Seq<VectorMatchView>, i: int)
    requires
        0 <= i < hits.len(),
        hits[i].verse is Some,
    ensures
        vector_answers(hits).contains(answer(hits[i].verse->0, hits[i].similarity)),
    decreases hits.len(),
{
    let before = hits.drop_last();
    let shown = answer(hits[i].verse->0, hits[i].similarity);
    let all = vector_answers(hits);
    if i < hits.len() - 1 {
        law_found_vector_hits_are_answered(before, i);
        let k = choose|k: int|
            0 <= k < vector_answers(before).len() && vector_answers(before)[k] == shown;
        assert(all[k] == shown);
    } else {
        assert(all[all.len() - 1] == shown);
    }
}

/// Whether `shown` is the answer of the full-text hit of rank `rank`, and that hit is
/// wanted beside `known`.
pub open spec fn comes_from_fts(
    known: Seq<SearchResultView>,
    hits: Seq<FtsMatchView>,
    rank: int,
    shown: SearchResultView,
) -> bool {
    &&& 0 <= rank < hits.len()
    &&& fts_wanted(known, rank, hits[rank].place)
    &&& hits[rank].verse matches Some(v) && shown == answer(
        v,
        hundredths_score(fts_confidence(rank)),
    )
}

/// Every answer that the full-text index adds comes from a confident hit that names
/// a place which no vector hit shows.
pub proof fn law_fts_answers_are_wanted(
    known: Seq<SearchResultView>,
    hits: Seq<FtsMatchView>,
    k: int,
)
    requires
        0 <= k < fts_answers(known, hits).len(),
    ensures
        exists|rank: int| #[trigger]
            comes_from_fts(known, hits, rank, fts_answers(known, hits)[k]),
    decreases hits.len(),
{
    let before = hits.drop_last();
    let shown = fts_answers(known, hits)[k];
    if k < fts_answers(known, before).len() {
        law_fts_answers_are_wanted(known, before, k);
        let rank = choose|rank: int| #[trigger] comes_from_fts(known, before, rank, shown);
        assert(comes_from_fts(known, hits, rank, shown));
    } else {
        assert(comes_from_fts(known, hits, hits.len() - 1, shown));
    }
}

/// A wanted full-text hit whose verse is known is always answered.
pub proof fn law_wanted_fts_hits_are_answered(
    known: Seq<SearchResultView>,
    hits: Seq<FtsMatchView>,
    rank: int,
)
    requires
        0 <= rank < hits.len(),
        fts_wanted(known, rank, hits[rank].place),
        hits[rank].verse is Some,
    ensures
        fts_answers(known, hits).contains(
            answer(hits[rank].verse->0, hundredths_score(fts_confidence(rank))),
        ),
    decreases hits.len(),
{
    let before = hits.drop_last();
    let shown = answer(hits[rank].verse->0, hundredths_score(fts_confidence(rank)));
    let all = fts_answers(known, hits);
    if rank < hits.len() - 1 {
        law_wanted_fts_hits_are_answered(known, before, rank);
        let i = choose|i: int|
            0 <= i < fts_answers(known, before).len() && fts_answers(known, before)[i] == shown;
        assert(all[i] == shown);
    } else {
        assert(all[all.len() - 1] == shown);
    }
}

/// Confidence falls from the best full-text hit to the last confident one, and stays
/// at or above the least that is accepted, in hundredths and as a score.
pub proof fn law_fts_confidence_falls(first: int, second: int)
    requires
        0 <= first < second,
        fts_confidence(second) >= FTS5_MIN_CONFIDENCE,
    ensures
        FTS5_MIN_CONFIDENCE <= fts_confidence(second) < fts_confidence(first)
            <= FTS5_RANK0_CONFIDENCE,
        hundredths_score(fts_confidence(second)).below(hundredths_score(fts_confidence(first))),
        !hundredths_score(fts_confidence(second)).below(
            hundredths_score(FTS5_MIN_CONFIDENCE as int),
        ),
{
    law_hundredths_keep_order(fts_confidence(second), fts_confidence(first));
    if fts_confidence(second) > FTS5_MIN_CONFIDENCE {
        law_hundredths_keep_order(FTS5_MIN_CONFIDENCE as int, fts_confidence(second));
    }
}

/// The full-text index adds at most seven answers.
pub proof fn law_fts_adds_at_most_seven(known: Seq<SearchResultView>, hits: Seq<FtsMatchView>)
    ensures
        fts_answers(known, hits).len() <= 7,
        fts_answers(known, hits).len() <= hits.len(),
    decreases hits.len(),
{
    if hits.len() > 7 {
        lemma_unconfident_hits_add_nothing(known, hits, 7);
        law_fts_adds_at_most_seven(known, hits.take(7));
    } else if hits.len() > 0 {
        law_fts_adds_at_most_seven(known, hits.drop_last());
    }
}

/// Only the wanted full-text hits need to be looked up: what is filled in for the
/// others changes nothing.
pub proof fn law_unwanted_lookups_do_not_matter(
    vector: Seq<VectorMatchView>,
    first: Seq<FtsMatchView>,
    second: Seq<FtsMatchView>,
)
    requires
        first.len() == second.len(),
        forall|i: int|
            0 <= i < first.len() ==> (#[trigger] first[i]).place == (#[trigger] second[i]).place,
        forall|i: int|
            0 <= i < first.len() && fts_wanted(vector_answers(vector), i, first[i].place)
                ==> (#[trigger] first[i]).verse == (#[trigger] second[i]).verse,
    ensures
        all_answers(vector, first) == all_answers(vector, second),
{
    lemma_unwanted_lookups(vector_answers(vector), first, second);
}

proof fn lemma_unwanted_lookups(
    known: Seq<SearchResultView>,
    first: Seq<FtsMatchView>,
    second: Seq<FtsMatchView>,
)
    requires
        first.len() == second.len(),
        forall|i: int|
            0 <= i < first.len() ==> (#[trigger] first[i]).place == (#[trigger] second[i]).place,
        forall|i: int|
            0 <= i < first.len() && fts_wanted(known, i, first[i].place) ==> (
            #[trigger] first[i]).verse == (#[trigger] second[i]).verse,
    ensures
        fts_answers(known, first) == fts_answers(known, second),
    decreases first.len(),
{
    if first.len() > 0 {
        lemma_unwanted_lookups(known, first.drop_last(), second.drop_last());
        let last = first.len() - 1;
        assert(first[last].place == second[last].place);
    }
}

/// Where the database finds no verse at all, the search shows nothing.
pub proof fn law_nothing_found_shows_nothing(
    vector: Seq<VectorMatchView>,
    fts: Seq<FtsMatchView>,
)
    requires
        forall|i: int| 0 <= i < vector.len() ==> (#[trigger] vector[i]).verse is None,
        forall|i: int| 0 <= i < fts.len() ==> (#[trigger] fts[i]).verse is None,
    ensures
        all_answers(vector, fts).len() == 0,
    decreases vector.len() + fts.len(),
{
    if vector.len() > 0 {
        law_nothing_found_shows_nothing(vector.drop_last(), fts);
        assert(vector.last().verse is None);
    } else if fts.len() > 0 {
        law_nothing_found_shows_nothing(vector, fts.drop_last());
        assert(fts.last().verse is None);
    }
}

/// A hit of the vector index as it comes: the identifier of a verse and its similarity.
pub struct RawVectorHit {
    pub id: i64,
    pub similarity: Score,
}

/// The vector hits with the verses that the database holds under their identifiers.
pub open spec fn vector_in(holds: Holdings, hits: Seq<RawVectorHit>) -> Seq<VectorMatchView> {
    hits.map_values(
        |h: RawVectorHit|
            VectorMatchView { similarity: h.similarity, verse: holds(Lookup::ById(h.id)) },
    )
}

/// The full-text hits with the verses that the database holds at their places, in the
/// active translation.
pub open spec fn fts_in(holds: Holdings, state: AppState, places: Seq<Place>) -> Seq<FtsMatchView> {
    places.map_values(
        |place: Place| FtsMatchView { place, verse: holds(fts_question(state, place)) },
    )
}

/// What a search shows, given what the indexes give and what the database holds.
pub open spec fn search_in(
    holds: Holdings,
    state: AppState,
    hits: Seq<RawVectorHit>,
    places: Seq<Place>,
) -> Seq<SearchResultView> {
    arrangement(all_answers(vector_in(holds, hits), fts_in(holds, state, places)))
}

/// Identifiers, similarities and places determine the list that is shown: where every
/// vector hit was looked up by its identifier, and every wanted full-text hit by its
/// place in the active translation, it is the list that the database's holdings give.
pub proof fn law_search_shows_the_active_translation(
    holds: Holdings,
    state: AppState,
    hits: Seq<RawVectorHit>,
    places: Seq<Place>,
    vector: Seq<VectorMatchView>,
    fts: Seq<FtsMatchView>,
)
    requires
        vector.len() == hits.len(),
        forall|i: int|
            0 <= i < hits.len() ==> (#[trigger] vector[i]).similarity == hits[i].similarity
                && vector[i].verse == holds(Lookup::ById(hits[i].id)),
        fts.len() == places.len(),
        forall|i: int| 0 <= i < places.len() ==> (#[trigger] fts[i]).place == places[i],
        forall|i: int|
            0 <= i < places.len() && fts_wanted(vector_answers(vector), i, places[i]) ==> (
            #[trigger] fts[i]).verse == holds(fts_question(state, places[i])),
    ensures
        arrangement(all_answers(vector, fts)) == search_in(holds, state, hits, places),
{
    assert(vector =~= vector_in(holds, hits));
    law_unwanted_lookups_do_not_matter(vector, fts, fts_in(holds, state, places));
}

/// Every verse that the full-text index adds is one that the database holds in the
/// active translation, at the place that the hit names.
pub proof fn law_fts_answers_are_of_the_active_translation(
    holds: Holdings,
    state: AppState,
    known: Seq<SearchResultView>,
    places: Seq<Place>,
    k: int,
)
    requires
        0 <= k < fts_answers(known, fts_in(holds, state, places)).len(),
    ensures
        exists|rank: int|
            0 <= rank < places.len() && (holds(
                fts_question(state, #[trigger] places[rank]),
            ) matches Some(v) && fts_answers(known, fts_in(holds, state, places))[k] == answer(
                v,
                hundredths_score(fts_confidence(rank)),
            )),
{
    let hits = fts_in(holds, state, places);
    law_fts_answers_are_wanted(known, hits, k);
    let rank = choose|rank: int| #[trigger]
        comes_from_fts(known, hits, rank, fts_answers(known, hits)[k]);
    assert(hits[rank].verse == holds(fts_question(state, places[rank])));
}

} // verus!
