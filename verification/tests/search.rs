use rhema::detection::{AppState, Lookup};
use rhema::score::Score;
use rhema::search::{
    fts_lookup, fts_lookups, rank_results, search_limit, semantic_search, vector_lookup, FtsMatch,
    SemanticSearchResult, VectorMatch,
};
use rhema::verse::{Place, Verse};

fn score(x: f64) -> Score {
    Score { bits: x.to_bits() }
}

fn verse(book: i32, chapter: i32, number: i32) -> Verse {
    Verse {
        book_number: book,
        book_name: format!("Book{book}"),
        chapter,
        verse: number,
        text: format!("text {book} {chapter} {number}"),
    }
}

fn place(book: i32, chapter: i32, number: i32) -> Place {
    Place { book_number: book, chapter, verse: number }
}

fn hit(x: f64, v: Option<Verse>) -> VectorMatch {
    VectorMatch { similarity: score(x), verse: v }
}

fn row(book: i32, chapter: i32, number: i32) -> FtsMatch {
    FtsMatch { place: place(book, chapter, number), verse: Some(verse(book, chapter, number)) }
}

fn shown(results: &[SemanticSearchResult]) -> Vec<(String, f64)> {
    results.iter().map(|r| (r.verse_ref.clone(), f64::from_bits(r.similarity.bits))).collect()
}

#[test]
fn limit_defaults_to_ten() {
    assert_eq!(search_limit(None), 10);
    assert_eq!(search_limit(Some(3)), 3);
    assert_eq!(search_limit(Some(0)), 0);
    assert_eq!(search_limit(None), search_limit(Some(10)));
}

#[test]
fn search_without_a_model_is_refused() {
    let e = semantic_search(None, &vec![row(1, 1, 1)]).unwrap_err();
    assert_eq!(e, "Semantic search not available — model or embeddings not loaded");
}

#[test]
fn a_found_verse_fills_the_answer() {
    let results = semantic_search(Some(&vec![hit(0.9, Some(verse(43, 3, 16)))]), &vec![]).unwrap();
    assert_eq!(results.len(), 1);
    let r = &results[0];
    assert_eq!(r.verse_ref, "Book43 3:16");
    assert_eq!(r.verse_text, "text 43 3 16");
    assert_eq!(r.book_name, "Book43");
    assert_eq!((r.book_number, r.chapter, r.verse), (43, 3, 16));
    assert_eq!(r.similarity, score(0.9));
}

#[test]
fn unknown_vector_hits_are_left_out() {
    let vector = vec![hit(0.9, None), hit(0.8, Some(verse(1, 1, 1))), hit(0.7, None)];
    let results = semantic_search(Some(&vector), &vec![]).unwrap();
    assert_eq!(shown(&results), vec![("Book1 1:1".to_string(), 0.8)]);
}

#[test]
fn full_text_hits_are_merged_by_similarity() {
    let vector = vec![hit(0.6, Some(verse(1, 1, 1))), hit(0.74, Some(verse(2, 1, 1)))];
    let fts = vec![row(3, 1, 1), row(4, 1, 1)];
    let results = semantic_search(Some(&vector), &fts).unwrap();
    let expected = vec![
        ("Book3 1:1".to_string(), 0.75),
        ("Book2 1:1".to_string(), 0.74),
        ("Book4 1:1".to_string(), 0.75 - 0.04),
        ("Book1 1:1".to_string(), 0.6),
    ];
    assert_eq!(shown(&results), expected);
}

#[test]
fn verses_of_vector_hits_are_not_repeated() {
    let vector = vec![hit(0.4, Some(verse(1, 2, 3)))];
    let fts = vec![row(1, 2, 3), row(1, 2, 4)];
    let results = semantic_search(Some(&vector), &fts).unwrap();
    // the rank of a hit counts the hits that were skipped before it
    assert_eq!(
        shown(&results),
        vec![("Book1 2:4".to_string(), 0.75 - 0.04), ("Book1 2:3".to_string(), 0.4)]
    );
}

#[test]
fn full_text_hits_may_repeat_each_other() {
    let results = semantic_search(Some(&vec![]), &vec![row(1, 1, 1), row(1, 1, 1)]).unwrap();
    assert_eq!(results.len(), 2);
}

#[test]
fn only_seven_full_text_hits_are_confident() {
    let fts: Vec<FtsMatch> = (1..=20).map(|i| row(i, 1, 1)).collect();
    let results = semantic_search(Some(&vec![]), &fts).unwrap();
    assert_eq!(results.len(), 7);
    for (rank, r) in results.iter().enumerate() {
        assert_eq!(r.book_number, rank as i32 + 1);
        assert_eq!(f64::from_bits(r.similarity.bits), 0.75 - (rank as f64 * 0.04));
        assert!(f64::from_bits(r.similarity.bits) >= 0.50);
    }
}

#[test]
fn full_text_hits_missing_in_the_translation_are_left_out() {
    let fts = vec![FtsMatch { place: place(1, 1, 1), verse: None }, row(2, 1, 1)];
    let results = semantic_search(Some(&vec![]), &fts).unwrap();
    assert_eq!(shown(&results), vec![("Book2 1:1".to_string(), 0.75 - 0.04)]);
}

#[test]
fn lookups_are_wanted_for_new_confident_places() {
    let vector = vec![hit(0.4, Some(verse(2, 1, 1))), hit(0.3, None)];
    let places: Vec<Place> = (1..=9).map(|i| place(i, 1, 1)).collect();
    let wanted = fts_lookups(&vector, &places);
    assert_eq!(wanted, vec![true, false, true, true, true, true, true, false, false]);
    assert!(fts_lookups(&vector, &vec![]).is_empty());
}

#[test]
fn what_is_filled_in_for_unwanted_hits_does_not_matter() {
    let vector = vec![hit(0.4, Some(verse(2, 1, 1)))];
    let full: Vec<FtsMatch> = (1..=9).map(|i| row(i, 1, 1)).collect();
    let places: Vec<Place> = full.iter().map(|f| f.place).collect();
    let wanted = fts_lookups(&vector, &places);
    let asked: Vec<FtsMatch> = (1..=9)
        .map(|i| FtsMatch {
            place: place(i, 1, 1),
            verse: if wanted[i as usize - 1] { Some(verse(i, 1, 1)) } else { None },
        })
        .collect();
    let a = semantic_search(Some(&vector), &full).unwrap();
    let b = semantic_search(Some(&vector), &asked).unwrap();
    assert_eq!(shown(&a), shown(&b));
}

#[test]
fn nothing_found_shows_nothing() {
    let fts = vec![FtsMatch { place: place(1, 1, 1), verse: None }];
    assert!(semantic_search(Some(&vec![hit(0.9, None)]), &fts).unwrap().is_empty());
}

#[test]
fn ranking_is_a_stable_descending_sort() {
    let xs = [0.3, 0.9, 0.3, -0.0, 0.0, 0.9, -1.0, 0.5, 0.3, f64::INFINITY, 0.9];
    let mut expected: Vec<(usize, f64)> = xs.iter().copied().enumerate().collect();
    expected.sort_by(|a, b| b.1.partial_cmp(&a.1).unwrap());
    let vector: Vec<VectorMatch> =
        xs.iter().enumerate().map(|(i, x)| hit(*x, Some(verse(i as i32, 1, 1)))).collect();
    let results = semantic_search(Some(&vector), &vec![]).unwrap();
    let got: Vec<(usize, u64)> = results.iter().map(|r| (r.book_number as usize, r.similarity.bits)).collect();
    let expected: Vec<(usize, u64)> = expected.iter().map(|(i, x)| (*i, x.to_bits())).collect();
    assert_eq!(got, expected);
}

#[test]
fn ranking_keeps_what_is_not_a_number() {
    let vector: Vec<VectorMatch> = [0.1, f64::NAN, 0.9, 0.5]
        .iter()
        .enumerate()
        .map(|(i, x)| hit(*x, Some(verse(i as i32, 1, 1))))
        .collect();
    let results = semantic_search(Some(&vector), &vec![]).unwrap();
    let books: Vec<i32> = results.iter().map(|r| r.book_number).collect();
    // nothing is moved past what it cannot be compared with
    assert_eq!(books, vec![0, 1, 2, 3]);
}

#[test]
fn ranking_nothing_gives_nothing() {
    assert!(rank_results(vec![]).is_empty());
}

#[test]
fn full_text_hits_are_looked_up_in_the_active_translation() {
    for active_translation_id in [1, 7] {
        let state = AppState { database_open: true, active_translation_id };
        assert_eq!(
            fts_lookup(&state, place(43, 3, 16)),
            Lookup::ByPlace { translation_id: active_translation_id, place: place(43, 3, 16) }
        );
    }
    assert_eq!(vector_lookup(5), Lookup::ById(5));
}

#[test]
fn a_search_shows_the_active_translation() {
    // a database in which the text of a verse names its translation
    let holds = |l: &Lookup| match l {
        Lookup::ById(id) => Some(verse(*id as i32, 1, 1)),
        Lookup::ByPlace { translation_id, place } => {
            let mut v = verse(place.book_number, place.chapter, place.verse);
            v.text = format!("translation {translation_id}");
            Some(v)
        }
    };
    let state = AppState { database_open: true, active_translation_id: 7 };
    let vector = vec![VectorMatch { similarity: score(0.9), verse: holds(&vector_lookup(1)) }];
    let places = vec![place(1, 1, 1), place(2, 1, 1)];
    let wanted = fts_lookups(&vector, &places);
    let fts: Vec<FtsMatch> = places
        .iter()
        .zip(wanted)
        .map(|(p, w)| FtsMatch { place: *p, verse: if w { holds(&fts_lookup(&state, *p)) } else { None } })
        .collect();
    let results = semantic_search(Some(&vector), &fts).unwrap();
    let texts: Vec<&str> = results.iter().map(|r| r.verse_text.as_str()).collect();
    assert_eq!(texts, vec!["text 1 1 1", "translation 7"]);
}
