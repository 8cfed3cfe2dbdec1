use rhema::detection::{
    detect_verses, next_lookup, source_to_string, to_result, AppState, Detection, DetectionSource, Lookup,
    MergedDetection, Replies, Reply, VerseRef,
};
use rhema::score::Score;
use rhema::verse::{Place, Verse};

fn merged(id: Option<i64>, book: i32, chapter: i32, verse_start: i32) -> MergedDetection {
    MergedDetection {
        detection: Detection {
            verse_ref: VerseRef { book_number: book, book_name: "John".to_string(), chapter, verse_start },
            verse_id: id,
            confidence: Score { bits: 0.87f64.to_bits() },
            source: DetectionSource::Semantic,
            transcript_snippet: "for God so loved".to_string(),
            is_chapter_only: true,
        },
        auto_queued: true,
    }
}

fn open() -> AppState {
    AppState { database_open: true, active_translation_id: 7 }
}

fn closed() -> AppState {
    AppState { database_open: false, active_translation_id: 7 }
}

fn verse(name: &str, number: i32) -> Verse {
    Verse {
        book_number: 43,
        book_name: name.to_string(),
        chapter: 3,
        verse: number,
        text: format!("words of {name} {number}"),
    }
}

/// Asks a database, given as a function, until no question is open.
fn ask(state: &AppState, m: &MergedDetection, holds: fn(&Lookup) -> Option<Verse>) -> (Replies, Vec<Lookup>) {
    let mut replies = Replies::none();
    let mut asked = Vec::new();
    while let Some(l) = next_lookup(state, &m.detection, &replies) {
        asked.push(l);
        let found = holds(&l);
        replies.record(&l, found);
    }
    (replies, asked)
}

fn nothing(_: &Lookup) -> Option<Verse> {
    None
}

fn everything(l: &Lookup) -> Option<Verse> {
    match l {
        Lookup::ById(id) => Some(verse("ById", *id as i32)),
        Lookup::ByPlace { translation_id, place } => Some(verse("ByPlace", *translation_id as i32 * 100 + place.verse)),
    }
}

fn places_only(l: &Lookup) -> Option<Verse> {
    match l {
        Lookup::ById(_) => None,
        _ => everything(l),
    }
}

const AT: Lookup =
    Lookup::ByPlace { translation_id: 7, place: Place { book_number: 43, chapter: 3, verse: 16 } };

#[test]
fn sources_have_names() {
    assert_eq!(source_to_string(&DetectionSource::DirectReference), "direct");
    assert_eq!(source_to_string(&DetectionSource::Semantic), "semantic");
}

#[test]
fn the_identifier_comes_first() {
    let m = merged(Some(5), 43, 3, 16);
    let (replies, asked) = ask(&open(), &m, everything);
    assert_eq!(asked, vec![Lookup::ById(5)]);
    let r = to_result(&open(), &m, &replies);
    assert_eq!(r.verse_ref, "ById 3:5");
    assert_eq!(r.verse_text, "words of ById 5");
    assert_eq!(r.book_name, "ById");
    assert_eq!((r.book_number, r.chapter, r.verse), (43, 3, 5));
}

#[test]
fn the_place_comes_second() {
    let m = merged(Some(5), 43, 3, 16);
    let (replies, asked) = ask(&open(), &m, places_only);
    assert_eq!(asked, vec![Lookup::ById(5), AT]);
    let r = to_result(&open(), &m, &replies);
    assert_eq!(r.verse_ref, "ByPlace 3:716");
    assert_eq!(r.verse_text, "words of ByPlace 716");
}

#[test]
fn without_an_identifier_only_the_place_is_asked() {
    let m = merged(None, 43, 3, 16);
    let (_, asked) = ask(&open(), &m, everything);
    assert_eq!(asked, vec![AT]);
}

#[test]
fn an_unresolved_detection_shows_its_reference() {
    let m = merged(Some(5), 43, 3, 16);
    let (replies, asked) = ask(&open(), &m, nothing);
    assert_eq!(asked.len(), 2);
    let r = to_result(&open(), &m, &replies);
    assert_eq!(r.verse_ref, "John 3:16");
    assert_eq!(r.verse_text, "");
    assert_eq!(r.book_name, "John");
    assert_eq!((r.book_number, r.chapter, r.verse), (43, 3, 16));
}

#[test]
fn an_incomplete_reference_is_not_looked_up() {
    for (b, c, v) in [(0, 3, 16), (43, 0, 16), (43, 3, 0), (-1, 3, 16), (43, -2, 16), (43, 3, -9)] {
        let m = merged(None, b, c, v);
        let (replies, asked) = ask(&open(), &m, everything);
        assert!(asked.is_empty());
        let r = to_result(&open(), &m, &replies);
        assert_eq!(r.verse_ref, format!("John {c}:{v}"));
        assert_eq!(r.verse_text, "");
    }
}

#[test]
fn without_a_database_nothing_is_asked() {
    let m = merged(Some(5), 43, 3, 16);
    let (replies, asked) = ask(&closed(), &m, everything);
    assert!(asked.is_empty());
    assert_eq!(to_result(&closed(), &m, &replies).verse_ref, "John 3:16");
    let told = Replies { by_id: Reply::Found(verse("ById", 1)), by_place: Reply::Found(verse("ByPlace", 1)) };
    assert_eq!(to_result(&closed(), &m, &told).verse_ref, "John 3:16");
}

#[test]
fn resolving_keeps_the_detection() {
    let m = merged(Some(5), 43, 3, 16);
    for holds in [nothing as fn(&Lookup) -> Option<Verse>, everything, places_only] {
        let (replies, _) = ask(&open(), &m, holds);
        let r = to_result(&open(), &m, &replies);
        assert_eq!(f64::from_bits(r.confidence.bits), 0.87);
        assert_eq!(r.source, "semantic");
        assert!(r.auto_queued);
        assert_eq!(r.transcript_snippet, "for God so loved");
        assert!(r.is_chapter_only);
    }
}

#[test]
fn detections_are_shown_in_order() {
    let all = vec![merged(Some(1), 43, 3, 16), merged(None, 0, 3, 17), merged(Some(2), 43, 3, 18)];
    let replies: Vec<Replies> = all.iter().map(|m| ask(&open(), m, everything).0).collect();
    let results = detect_verses(&open(), &all, &replies);
    let refs: Vec<&str> = results.iter().map(|r| r.verse_ref.as_str()).collect();
    assert_eq!(refs, vec!["ById 3:1", "John 3:17", "ById 3:2"]);
    assert!(detect_verses(&open(), &vec![], &vec![]).is_empty());
}

#[test]
fn results_can_be_copied() {
    let m = merged(None, 43, 3, 16);
    let r = to_result(&closed(), &m, &Replies::none());
    let copy = r.clone();
    assert_eq!(format!("{copy:?}"), format!("{r:?}"));
}
