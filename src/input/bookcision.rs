//! Highlights in the bookcision JSON export format.
//!
//! These records mirror the export's fields one for one; reading them from
//! JSON text is left to the caller.
use vstd::prelude::*;

use crate::highlights::{Book, BookModel, Highlight, HighlightModel, Location, LocationModel, highlight_models};

verus! {

/// Bookcision export of a book's kindle highlights.
#[derive(Debug)]
pub struct JsonBook {
    pub asin: String,
    pub title: String,
    pub authors: String,
    pub highlights: Vec<JsonHighlight>,
}

/// One highlight of a bookcision export.
#[derive(Debug)]
pub struct JsonHighlight {
    pub text: String,
    pub is_note_only: bool,
    pub location: JsonHighlightLocation,
    pub note: Option<String>,
}

/// Location of a highlight in a bookcision export.
#[derive(Debug)]
pub struct JsonHighlightLocation {
    pub value: u32,
    pub url: String,
}

impl JsonHighlight {
    /// A record marked as note only must carry its note.
    pub open spec fn is_complete(&self) -> bool {
        self.is_note_only ==> self.note is Some
    }

    /// The highlight a complete record stands for: a note when marked as note
    /// only (its text is not used), a comment when it has a note, a quote
    /// otherwise.
    pub open spec fn model(&self) -> HighlightModel {
        let location = LocationModel { value: self.location.value as nat, link: self.location.url@ };
        match self.note {
            Some(note) => if self.is_note_only {
                HighlightModel::Note { note: note@, location }
            } else {
                HighlightModel::Comment { quote: self.text@, note: note@, location }
            },
            None => HighlightModel::Quote { quote: self.text@, location },
        }
    }

    /// Whether the record is complete.
    pub fn has_required_note(&self) -> (r: bool)
        ensures
            r == self.is_complete(),
    {
        !self.is_note_only || self.note.is_some()
    }

    /// The highlight a complete record stands for.
    pub fn to_highlight(&self) -> (r: Highlight)
        requires
            self.is_complete(),
        ensures
            r@ == self.model(),
    {
        let location = Location::new(self.location.value as usize, self.location.url.as_str());
        match &self.note {
            Some(note) => if self.is_note_only {
                Highlight::note(note.as_str(), location)
            } else {
                Highlight::comment(self.text.as_str(), note.as_str(), location)
            },
            None => Highlight::quote(self.text.as_str(), location),
        }
    }
}

impl JsonBook {
    /// Every highlight record is complete.
    pub open spec fn is_complete(&self) -> bool {
        forall|i: int| 0 <= i < self.highlights@.len() ==> #[trigger] self.highlights@[i].is_complete()
    }

    /// The book a complete export stands for; the asin is not used.
    pub open spec fn model(&self) -> BookModel {
        BookModel {
            title: self.title@,
            authors: self.authors@,
            highlights: self.highlights@.map_values(|h: JsonHighlight| h.model()),
        }
    }

    /// The book of the export, in the order of its records; `None` when a
    /// record marked as note only has no note.
    pub fn to_book(&self) -> (r: Option<Book>)
        ensures
            r is Some <==> self.is_complete(),
            r matches Some(b) ==> b@ == self.model(),
    {
        let mut highlights: Vec<Highlight> = Vec::new();
        let n = self.highlights.len();
        let mut i: usize = 0;
        while i < n
            invariant
                n == self.highlights@.len(),
                i <= n,
                forall|k: int| 0 <= k < i ==> #[trigger] self.highlights@[k].is_complete(),
                highlight_models(highlights@) =~= self.highlights@.take(i as int).map_values(
                    |h: JsonHighlight| h.model(),
                ),
            decreases n - i,
        {
            let record = &self.highlights[i];
            if !record.has_required_note() {
                return None;
            }
            let ghost done = self.highlights@.take(i as int).map_values(|h: JsonHighlight| h.model());
            highlights.push(record.to_highlight());
            assert(self.highlights@.take(i + 1).map_values(|h: JsonHighlight| h.model()) =~= done.push(
                record.model(),
            ));
            assert(highlight_models(highlights@) =~= done.push(record.model()));
            i = i + 1;
        }
        assert(self.highlights@.take(n as int) =~= self.highlights@);
        Some(Book::new(self.title.as_str(), self.authors.as_str(), highlights))
    }
}

} // verus!
