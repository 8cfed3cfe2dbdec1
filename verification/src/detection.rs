//! Detected passages and the verses that they stand for.
//!
//! A detection may carry the identifier of a verse in the database, a reference to a
//! place, or both. It is resolved in this order: by its identifier; by its place, in
//! the active translation; and, where the database gives neither, to the reference
//! itself, without text.
use vstd::prelude::*;

use crate::score::Score;
use crate::text::{format_reference, reference};
use crate::verse::{verse_option, Place, Verse, VerseView};

verus! {

/// How a passage was detected.
#[derive(Clone, Copy, Debug, PartialEq, Eq, Structural)]
pub enum DetectionSource {
    /// The speaker named the reference.
    DirectReference,
    /// The words resemble those of a verse.
    Semantic,
}

/// A reference as it was heard. A number that is not positive is not known.
#[derive(Debug)]
pub struct VerseRef {
    pub book_number: i32,
    pub book_name: String,
    pub chapter: i32,
    pub verse_start: i32,
}

/// A detected passage.
#[derive(Debug)]
pub struct Detection {
    pub verse_ref: VerseRef,
    /// The identifier of the verse in the database, for semantic detections.
    pub verse_id: Option<i64>,
    pub confidence: Score,
    pub source: DetectionSource,
    pub transcript_snippet: String,
    /// Whether only a chapter was named, so that the verse is a first guess.
    pub is_chapter_only: bool,
}

/// A detected passage together with what the queue does with it.
#[derive(Debug)]
pub struct MergedDetection {
    pub detection: Detection,
    pub auto_queued: bool,
}

/// What resolving a detection needs to know of the application.
#[derive(Clone, Copy, Debug)]
pub struct AppState {
    pub database_open: bool,
    pub active_translation_id: i64,
}

/// A detection as the frontend shows it.
#[derive(Clone, Debug)]
pub struct DetectionResult {
    pub verse_ref: String,
    pub verse_text: String,
    pub book_name: String,
    pub book_number: i32,
    pub chapter: i32,
    pub verse: i32,
    pub confidence: Score,
    pub source: String,
    pub auto_queued: bool,
    pub transcript_snippet: String,
    pub is_chapter_only: bool,
}

/// The contents of a [`DetectionResult`].
#[verifier::ext_equal]
pub struct DetectionResultView {
    pub verse_ref: Seq<char>,
    pub verse_text: Seq<char>,
    pub book_name: Seq<char>,
    pub book_number: i32,
    pub chapter: i32,
    pub verse: i32,
    pub confidence: Score,
    pub source: Seq<char>,
    pub auto_queued: bool,
    pub transcript_snippet: Seq<char>,
    pub is_chapter_only: bool,
}

impl View for DetectionResult {
    type V = DetectionResultView;

    open spec fn view(&self) -> DetectionResultView {
        DetectionResultView {
            verse_ref: self.verse_ref@,
            verse_text: self.verse_text@,
            book_name: self.book_name@,
            book_number: self.book_number,
            chapter: self.chapter,
            verse: self.verse,
            confidence: self.confidence,
            source: self.source@,
            auto_queued: self.auto_queued,
            transcript_snippet: self.transcript_snippet@,
            is_chapter_only: self.is_chapter_only,
        }
    }
}

/// A question to the Bible database.
#[derive(Clone, Copy, Debug, PartialEq, Eq, Structural)]
pub enum Lookup {
    /// The verse with this identifier.
    ById(i64),
    /// The verse at a place, in one translation.
    ByPlace { translation_id: i64, place: Place },
}

/// What the database said to a question.
#[derive(Debug)]
pub enum Reply {
    NotAsked,
    /// There is no such verse, or it could not be read.
    NotFound,
    Found(Verse),
}

/// What the database said of one detection so far.
#[derive(Debug)]
pub struct Replies {
    pub by_id: Reply,
    pub by_place: Reply,
}

impl Reply {
    /// The verse of the reply, if there is one.
    pub open spec fn verse(self) -> Option<VerseView> {
        match self {
            Reply::Found(v) => Some(v@),
            _ => None,
        }
    }
}

impl VerseRef {
    /// The place that the reference names.
    pub open spec fn place(self) -> Place {
        Place { book_number: self.book_number, chapter: self.chapter, verse: self.verse_start }
    }

    /// Whether the reference names a place in full.
    pub open spec fn complete(self) -> bool {
        self.book_number > 0 && self.chapter > 0 && self.verse_start > 0
    }
}

/// The verse that the replies give for a detection: that of its identifier, else that
/// of its place.
pub open spec fn resolved(state: AppState, d: Detection, replies: Replies) -> Option<VerseView> {
    if !state.database_open {
        None
    } else if d.verse_id is Some && replies.by_id is Found {
        replies.by_id.verse()
    } else if d.verse_ref.complete() {
        replies.by_place.verse()
    } else {
        None
    }
}

/// The question that is still to be asked about a detection, if any: its identifier
/// first, its place only where the identifier gave no verse.
pub open spec fn open_question(state: AppState, d: Detection, replies: Replies) -> Option<Lookup> {
    if !state.database_open {
        None
    } else if d.verse_id is Some && replies.by_id is NotAsked {
        Some(Lookup::ById(d.verse_id->0))
    } else if d.verse_id is Some && replies.by_id is Found {
        None
    } else if d.verse_ref.complete() && replies.by_place is NotAsked {
        Some(
            Lookup::ByPlace {
                translation_id: state.active_translation_id,
                place: d.verse_ref.place(),
            },
        )
    } else {
        None
    }
}

/// The name under which the frontend knows a source.
pub open spec fn source_name(source: DetectionSource) -> Seq<char> {
    match source {
        DetectionSource::DirectReference => "direct"@,
        DetectionSource::Semantic => "semantic"@,
    }
}

/// A detection as it is shown, given the verse that it was resolved to, if any.
pub open spec fn shown(verse: Option<VerseView>, m: MergedDetection) -> DetectionResultView {
    let d = m.detection;
    let heard = d.verse_ref;
    let v = match verse {
        Some(v) => v,
        None => VerseView {
            book_number: heard.book_number,
            book_name: heard.book_name@,
            chapter: heard.chapter,
            verse: heard.verse_start,
            text: Seq::empty(),
        },
    };
    DetectionResultView {
        verse_ref: v.reference(),
        verse_text: v.text,
        book_name: v.book_name,
        book_number: v.book_number,
        chapter: v.chapter,
        verse: v.verse,
        confidence: d.confidence,
        source: source_name(d.source),
        auto_queued: m.auto_queued,
        transcript_snippet: d.transcript_snippet@,
        is_chapter_only: d.is_chapter_only,
    }
}

/// The name under which the frontend knows a source.
pub fn source_to_string(source: &DetectionSource) -> (name: String)
    ensures
        name@ == source_name(*source),
{
    match source {
        DetectionSource::DirectReference => "direct".to_owned(),
        DetectionSource::Semantic => "semantic".to_owned(),
    }
}

impl Replies {
    /// Nothing asked yet.
    pub fn none() -> (r: Replies)
        ensures
            r.by_id is NotAsked,
            r.by_place is NotAsked,
    {
        Replies { by_id: Reply::NotAsked, by_place: Reply::NotAsked }
    }

    /// Notes what the database said to a question.
    pub fn record(&mut self, lookup: &Lookup, found: Option<Verse>)
        ensures
            *final(self) == recorded(*old(self), *lookup, found),
    {
        let reply = match found {
            Some(v) => Reply::Found(v),
            None => Reply::NotFound,
        };
        match lookup {
            Lookup::ById(_) => {
                self.by_id = reply;
            },
            Lookup::ByPlace { .. } => {
                self.by_place = reply;
            },
        }
    }
}

/// The replies after the database said `found` to `lookup`.
pub open spec fn recorded(replies: Replies, lookup: Lookup, found: Option<Verse>) -> Replies {
    let reply = match found {
        Some(v) => Reply::Found(v),
        None => Reply::NotFound,
    };
    match lookup {
        Lookup::ById(_) => Replies { by_id: reply, by_place: replies.by_place },
        Lookup::ByPlace { .. } => Replies { by_id: replies.by_id, by_place: reply },
    }
}

/// The next question to ask the database about a detection; none when what is known
/// is enough to show it.
pub fn next_lookup(state: &AppState, detection: &Detection, replies: &Replies) -> (l: Option<
    Lookup,
>)
    ensures
        l == open_question(*state, *detection, *replies),
{
    if !state.database_open {
        return None;
    }
    if let Some(id) = detection.verse_id {
        match replies.by_id {
            Reply::NotAsked => {
                return Some(Lookup::ById(id));
            },
            Reply::Found(_) => {
                return None;
            },
            Reply::NotFound => {},
        }
    }
    let heard = &detection.verse_ref;
    if heard.book_number > 0 && heard.chapter > 0 && heard.verse_start > 0 {
        if let Reply::NotAsked = replies.by_place {
            return Some(
                Lookup::ByPlace {
                    translation_id: state.active_translation_id,
                    place: Place {
                        book_number: heard.book_number,
                        chapter: heard.chapter,
                        verse: heard.verse_start,
                    },
                },
            );
        }
    }
    None
}

fn resolve(state: &AppState, detection: &Detection, replies: &Replies) -> (v: Verse)
    ensures
        v@ == (match resolved(*state, *detection, *replies) {
            Some(found) => found,
            None => VerseView {
                book_number: detection.verse_ref.book_number,
                book_name: detection.verse_ref.book_name@,
                chapter: detection.verse_ref.chapter,
                verse: detection.verse_ref.verse_start,
                text: Seq::empty(),
            },
        }),
{
    let heard = &detection.verse_ref;
    if state.database_open {
        if detection.verse_id.is_some() {
            if let Reply::Found(v) = &replies.by_id {
                return v.duplicate();
            }
        }
        if heard.book_number > 0 && heard.chapter > 0 && heard.verse_start > 0 {
            if let Reply::Found(v) = &replies.by_place {
                return v.duplicate();
            }
        }
    }
    Verse {
        book_number: heard.book_number,
        book_name: heard.book_name.clone(),
        chapter: heard.chapter,
        verse: heard.verse_start,
        text: String::new(),
    }
}

/// Shows a detection with the verse that the database gave for it, or with the
/// reference alone where it gave none.
pub fn to_result(state: &AppState, merged: &MergedDetection, replies: &Replies) -> (r:
    DetectionResult)
    ensures
        r@ == shown(resolved(*state, merged.detection, *replies), *merged),
{
    let v = resolve(state, &merged.detection, replies);
    DetectionResult {
        verse_ref: format_reference(v.book_name.as_str(), v.chapter, v.verse),
        verse_text: v.text,
        book_name: v.book_name,
        book_number: v.book_number,
        chapter: v.chapter,
        verse: v.verse,
        confidence: merged.detection.confidence,
        source: source_to_string(&merged.detection.source),
        auto_queued: merged.auto_queued,
        transcript_snippet: merged.detection.transcript_snippet.clone(),
        is_chapter_only: merged.detection.is_chapter_only,
    }
}

/// Shows every detection of a piece of transcript, in the order in which they were
/// made; `replies[i]` is what the database said of `merged[i]`.
pub fn detect_verses(
    state: &AppState,
    merged: &Vec<MergedDetection>,
    replies: &Vec<Replies>,
) -> (results: Vec<DetectionResult>)
    requires
        replies@.len() == merged@.len(),
    ensures
        results@.len() == merged@.len(),
        forall|i: int|
            0 <= i < merged@.len() ==> (#[trigger] results@[i])@ == shown(
                resolved(*state, merged@[i].detection, replies@[i]),
                merged@[i],
            ),
{
    let mut results: Vec<DetectionResult> = Vec::new();
    for i in 0..merged.len()
        invariant
            replies@.len() == merged@.len(),
            results@.len() == i,
            forall|j: int|
                0 <= j < i ==> (#[trigger] results@[j])@ == shown(
                    resolved(*state, merged@[j].detection, replies@[j]),
                    merged@[j],
                ),
    {
        results.push(to_result(state, &merged[i], &replies[i]));
    }
    results
}

/// What the database holds, as a function from questions to verses.
pub type Holdings = spec_fn(Lookup) -> Option<VerseView>;

/// Whether every reply that was given is the one that these holdings give.
pub open spec fn truthful(holds: Holdings, state: AppState, d: Detection, replies: Replies) -> bool {
    let at = Lookup::ByPlace {
        translation_id: state.active_translation_id,
        place: d.verse_ref.place(),
    };
    &&& !(replies.by_id is NotAsked) && d.verse_id is Some ==> replies.by_id.verse() == holds(
        Lookup::ById(d.verse_id->0),
    )
    &&& !(replies.by_place is NotAsked) ==> replies.by_place.verse() == holds(at)
}

/// The verse that a detection stands for, given what the database holds: the one with
/// its identifier; else the one at its place in the active translation; else none.
pub open spec fn meant(holds: Holdings, state: AppState, d: Detection) -> Option<VerseView> {
    let by_id = if d.verse_id is Some {
        holds(Lookup::ById(d.verse_id->0))
    } else {
        None
    };
    if !state.database_open {
        None
    } else if by_id is Some {
        by_id
    } else if d.verse_ref.complete() {
        holds(
            Lookup::ByPlace {
                translation_id: state.active_translation_id,
                place: d.verse_ref.place(),
            },
        )
    } else {
        None
    }
}

/// Once no question is open, a detection whose questions were answered truthfully is
/// resolved to the verse that it means: by identifier first, by place second.
pub proof fn law_resolution_order(
    holds: Holdings,
    state: AppState,
    d: Detection,
    replies: Replies,
)
    requires
        truthful(holds, state, d, replies),
        open_question(state, d, replies) is None,
    ensures
        resolved(state, d, replies) == meant(holds, state, d),
{
}

/// Asking and recording keeps replies truthful, answers the question that was asked,
/// and leaves fewer questions: at most two are asked of any detection.
pub proof fn law_each_question_is_asked_once(
    holds: Holdings,
    state: AppState,
    d: Detection,
    replies: Replies,
    found: Option<Verse>,
)
    requires
        truthful(holds, state, d, replies),
        open_question(state, d, replies) is Some,
        verse_option(found) == holds(open_question(state, d, replies)->0),
    ensures
        truthful(
            holds,
            state,
            d,
            recorded(replies, open_question(state, d, replies)->0, found),
        ),
        unasked(recorded(replies, open_question(state, d, replies)->0, found)) < unasked(replies)
            <= 2,
{
}

/// How many of the two kinds of question were not asked yet.
pub open spec fn unasked(replies: Replies) -> int {
    (if replies.by_id is NotAsked {
        1int
    } else {
        0
    }) + (if replies.by_place is NotAsked {
        1int
    } else {
        0
    })
}

/// Without a database, and for a detection that carries neither an identifier nor a
/// complete reference, nothing is asked and the reference is shown as it was heard,
/// without text.
pub proof fn law_unresolved_detections_show_the_reference(
    state: AppState,
    m: MergedDetection,
    replies: Replies,
)
    requires
        !state.database_open || (m.detection.verse_id is None
            && !m.detection.verse_ref.complete()),
    ensures
        open_question(state, m.detection, replies) is None,
        shown(resolved(state, m.detection, replies), m).verse_text.len() == 0,
        shown(resolved(state, m.detection, replies), m).verse_ref == reference(
            m.detection.verse_ref.book_name@,
            m.detection.verse_ref.chapter,
            m.detection.verse_ref.verse_start,
        ),
{
}

/// Resolving changes only what is said of the verse: confidence, source, queueing,
/// snippet and the chapter-only mark are those of the detection.
pub proof fn law_resolution_keeps_the_detection(
    m: MergedDetection,
    first: Option<VerseView>,
    second: Option<VerseView>,
)
    ensures
        shown(first, m).confidence == m.detection.confidence,
        shown(first, m).is_chapter_only == m.detection.is_chapter_only,
        shown(first, m).auto_queued == m.auto_queued,
        shown(first, m).transcript_snippet == m.detection.transcript_snippet@,
        shown(first, m).source == shown(second, m).source,
{
}

} // verus!
