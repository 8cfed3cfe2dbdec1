//! What holds of every detection that is shown.
use vstd::prelude::*;

use crate::detection::{
    open_question, recorded, resolved, shown, AppState, DetectionResult, DetectionResultView,
    Detection, Holdings, Lookup, MergedDetection, Replies, Reply, VerseRef,
};
use crate::text::decimal;
use crate::verse::{Place, Verse, VerseView};

verus! {

/// Whether a result shows exactly this book, chapter, verse and text, and refers to it by
/// the book's name, a blank, the chapter, a colon and the verse.
pub open spec fn shows_exactly(
    r: DetectionResultView,
    book_number: i32,
    book_name: Seq<char>,
    chapter: i32,
    verse: i32,
    text: Seq<char>,
) -> bool {
    &&& r.book_number == book_number
    &&& r.book_name == book_name
    &&& r.chapter == chapter
    &&& r.verse == verse
    &&& r.verse_text == text
    &&& r.verse_ref == book_name + seq![' '] + decimal(chapter as int) + seq![':'] + decimal(
        verse as int,
    )
}

/// A detection that is resolved to a verse shows that verse and nothing else: its book,
/// chapter, number and text, whatever reference was heard.
pub proof fn law_resolved_detections_show_the_verse(
    v: VerseView,
    m: MergedDetection,
    other: MergedDetection,
)
    ensures
        shows_exactly(shown(Some(v), m), v.book_number, v.book_name, v.chapter, v.verse, v.text),
        shown(Some(v), m).verse_ref == shown(Some(v), other).verse_ref,
        shown(Some(v), m).verse_text == shown(Some(v), other).verse_text,
        shown(Some(v), m).book_name == shown(Some(v), other).book_name,
        shown(Some(v), m).book_number == shown(Some(v), other).book_number,
        shown(Some(v), m).chapter == shown(Some(v), other).chapter,
        shown(Some(v), m).verse == shown(Some(v), other).verse,
{
}

/// A detection that is not resolved shows the reference as it was heard, without text.
pub proof fn law_unresolved_detections_show_what_was_heard(m: MergedDetection)
    ensures
        shows_exactly(
            shown(None, m),
            m.detection.verse_ref.book_number,
            m.detection.verse_ref.book_name@,
            m.detection.verse_ref.chapter,
            m.detection.verse_ref.verse_start,
            Seq::empty(),
        ),
{
}

/// What is shown beside the verse is that of the detection: confidence, queueing, snippet
/// and the chapter-only mark unchanged, and the source under its name.
pub proof fn law_shown_detections_keep_their_marks(v: Option<VerseView>, m: MergedDetection)
    ensures
        shown(v, m).confidence == m.detection.confidence,
        shown(v, m).auto_queued == m.auto_queued,
        shown(v, m).transcript_snippet == m.detection.transcript_snippet@,
        shown(v, m).is_chapter_only == m.detection.is_chapter_only,
        m.detection.source is DirectReference ==> shown(v, m).source == "direct"@,
        m.detection.source is Semantic ==> shown(v, m).source == "semantic"@,
{
}

/// Whether the replies that were given are what the database holds: that to the
/// identifier the verse with it, that to the place the verse there in the active
/// translation, and none where it holds none.
pub open spec fn replies_of(
    holds: Holdings,
    state: AppState,
    d: Detection,
    replies: Replies,
) -> bool {
    let at_place = Lookup::ByPlace {
        translation_id: state.active_translation_id,
        place: Place {
            book_number: d.verse_ref.book_number,
            chapter: d.verse_ref.chapter,
            verse: d.verse_ref.verse_start,
        },
    };
    &&& d.verse_id matches Some(id) ==> {
        &&& replies.by_id matches Reply::Found(v) ==> holds(Lookup::ById(id))
            == Some(v@)
        &&& replies.by_id is NotFound ==> holds(Lookup::ById(id)) is None
    }
    &&& replies.by_place matches Reply::Found(v) ==> holds(at_place) == Some(v@)
    &&& replies.by_place is NotFound ==> holds(at_place) is None
}

/// Once nothing is left to ask, what is shown follows from the detection and from what
/// the database holds: the verse with the detection's identifier, if it has one and the
/// database holds it; else, where book, chapter and verse were all heard, the verse there
/// in the active translation, if the database holds it; else the reference as heard.
/// Without a database it is always the reference.
pub proof fn law_detections_show_what_the_database_holds(
    holds: Holdings,
    state: AppState,
    m: MergedDetection,
    replies: Replies,
)
    requires
        replies_of(holds, state, m.detection, replies),
        open_question(state, m.detection, replies) is None,
    ensures
        ({
            let d = m.detection;
            let heard = d.verse_ref;
            let r = shown(resolved(state, d, replies), m);
            let by_id = match d.verse_id {
                Some(id) => holds(Lookup::ById(id)),
                None => None,
            };
            let by_place = holds(
                Lookup::ByPlace {
                    translation_id: state.active_translation_id,
                    place: Place {
                        book_number: heard.book_number,
                        chapter: heard.chapter,
                        verse: heard.verse_start,
                    },
                },
            );
            let heard_in_full = heard.book_number > 0 && heard.chapter > 0 && heard.verse_start
                > 0;
            &&& state.database_open && by_id is Some ==> shows_exactly(
                r,
                by_id->0.book_number,
                by_id->0.book_name,
                by_id->0.chapter,
                by_id->0.verse,
                by_id->0.text,
            )
            &&& state.database_open && by_id is None && heard_in_full && by_place is Some
                ==> shows_exactly(
                r,
                by_place->0.book_number,
                by_place->0.book_name,
                by_place->0.chapter,
                by_place->0.verse,
                by_place->0.text,
            )
            &&& !state.database_open || (by_id is None && !(heard_in_full && by_place is Some))
                ==> shows_exactly(
                r,
                heard.book_number,
                heard.book_name@,
                heard.chapter,
                heard.verse_start,
                Seq::empty(),
            )
        }),
{
}

/// The database is asked only where there is one; about the identifier only once, and
/// first; about the place only where it was heard in full, only in the active
/// translation, only once, and only where there is no identifier or no verse with it.
pub proof fn law_questions_are_asked_in_order(state: AppState, d: Detection, replies: Replies)
    ensures
        open_question(state, d, replies) matches Some(Lookup::ById(id)) ==> state.database_open
            && d.verse_id == Some(id) && replies.by_id is NotAsked,
        open_question(state, d, replies) matches Some(Lookup::ByPlace { translation_id, place })
            ==> state.database_open && translation_id == state.active_translation_id
            && place.book_number == d.verse_ref.book_number && place.chapter
            == d.verse_ref.chapter && place.verse == d.verse_ref.verse_start && place.book_number
            > 0 && place.chapter > 0 && place.verse > 0 && replies.by_place is NotAsked && (
        d.verse_id is None || replies.by_id is NotFound),
        state.database_open && d.verse_id is Some && replies.by_id is NotAsked ==> open_question(
            state,
            d,
            replies,
        ) == Some(Lookup::ById(d.verse_id->0)),
{
}

/// Recording keeps the reply to the other question, and keeps of this one the verse that
/// was found, or that none was.
pub proof fn law_recording_keeps_the_reply(
    replies: Replies,
    id: i64,
    translation_id: i64,
    place: Place,
    v: Verse,
)
    ensures
        recorded(replies, Lookup::ById(id), Some(v)).by_id == Reply::Found(v),
        recorded(replies, Lookup::ById(id), None).by_id is NotFound,
        forall|found: Option<Verse>|
            (#[trigger] recorded(replies, Lookup::ById(id), found)).by_place == replies.by_place,
        recorded(replies, Lookup::ByPlace { translation_id, place }, Some(v)).by_place
            == Reply::Found(v),
        recorded(replies, Lookup::ByPlace { translation_id, place }, None).by_place is NotFound,
        forall|found: Option<Verse>|
            (#[trigger] recorded(
                replies,
                Lookup::ByPlace { translation_id, place },
                found,
            )).by_id == replies.by_id,
{
}

/// The contents of a result, of a verse and of a place are their fields, each under its
/// own name.
pub proof fn law_views_hold_the_fields(r: DetectionResult, v: Verse, heard: VerseRef)
    ensures
        r@.verse_ref == r.verse_ref@,
        r@.verse_text == r.verse_text@,
        r@.book_name == r.book_name@,
        r@.book_number == r.book_number,
        r@.chapter == r.chapter,
        r@.verse == r.verse,
        r@.confidence == r.confidence,
        r@.source == r.source@,
        r@.auto_queued == r.auto_queued,
        r@.transcript_snippet == r.transcript_snippet@,
        r@.is_chapter_only == r.is_chapter_only,
        v@.book_number == v.book_number,
        v@.book_name == v.book_name@,
        v@.chapter == v.chapter,
        v@.verse == v.verse,
        v@.text == v.text@,
        v@.place().book_number == v.book_number,
        v@.place().chapter == v.chapter,
        v@.place().verse == v.verse,
        heard.place().book_number == heard.book_number,
        heard.place().chapter == heard.chapter,
        heard.place().verse == heard.verse_start,
{
}

} // verus!
