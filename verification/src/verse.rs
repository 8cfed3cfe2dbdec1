//! Verses as the Bible database holds them.
use vstd::prelude::*;

use crate::text::reference;

verus! {

/// A verse of one translation.
#[derive(Debug)]
pub struct Verse {
    pub book_number: i32,
    pub book_name: String,
    pub chapter: i32,
    pub verse: i32,
    pub text: String,
}

/// The contents of a [`Verse`].
#[verifier::ext_equal]
pub struct VerseView {
    pub book_number: i32,
    pub book_name: Seq<char>,
    pub chapter: i32,
    pub verse: i32,
    pub text: Seq<char>,
}

/// A place in the Bible, whatever the translation.
#[derive(Clone, Copy, Debug, PartialEq, Eq, Structural)]
pub struct Place {
    pub book_number: i32,
    pub chapter: i32,
    pub verse: i32,
}

impl View for Verse {
    type V = VerseView;

    open spec fn view(&self) -> VerseView {
        VerseView {
            book_number: self.book_number,
            book_name: self.book_name@,
            chapter: self.chapter,
            verse: self.verse,
            text: self.text@,
        }
    }
}

impl VerseView {
    /// Where the verse stands.
    pub open spec fn place(self) -> Place {
        Place { book_number: self.book_number, chapter: self.chapter, verse: self.verse }
    }

    /// The verse's human-readable reference.
    pub open spec fn reference(self) -> Seq<char> {
        reference(self.book_name, self.chapter, self.verse)
    }
}

impl Verse {
    /// A copy of the verse.
    pub fn duplicate(&self) -> (v: Verse)
        ensures
            v@ == self@,
    {
        Verse {
            book_number: self.book_number,
            book_name: self.book_name.clone(),
            chapter: self.chapter,
            verse: self.verse,
            text: self.text.clone(),
        }
    }
}

/// The contents of a verse that may be missing.
pub open spec fn verse_option(v: Option<Verse>) -> Option<VerseView> {
    match v {
        Some(v) => Some(v@),
        None => None,
    }
}

} // verus!
