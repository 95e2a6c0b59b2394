//! Data model for book highlights.
use vstd::prelude::*;

pub mod examples;

verus! {

/// What a [`Location`] stands for: its position in the book and its link.
pub struct LocationModel {
    pub value: nat,
    pub link: Seq<char>,
}

/// What a [`Highlight`] stands for, with every text as a sequence of characters.
pub enum HighlightModel {
    Quote { quote: Seq<char>, location: LocationModel },
    Note { note: Seq<char>, location: LocationModel },
    Comment { quote: Seq<char>, note: Seq<char>, location: LocationModel },
}

impl HighlightModel {
    /// Location of the highlight, whatever its kind.
    pub open spec fn location(self) -> LocationModel {
        match self {
            HighlightModel::Quote { location, .. } => location,
            HighlightModel::Note { location, .. } => location,
            HighlightModel::Comment { location, .. } => location,
        }
    }
}

/// What a [`Book`] stands for: title, authors and the highlights in order.
pub struct BookModel {
    pub title: Seq<char>,
    pub authors: Seq<char>,
    pub highlights: Seq<HighlightModel>,
}

/// Book with highlighted passages.
///
/// Holds basic data on the book and a list of highlights.
#[derive(Debug)]
pub struct Book {
    title: String,
    authors: String,
    highlights: Vec<Highlight>,
}

/// Highlighted part or passage in the book.
///
/// Each passage is always related to some location in the book.
/// The highlight can have the quote from the book's text and readers comment.
#[derive(Debug)]
pub enum Highlight {
    /// Word-by-word quote from the book's text.
    Quote { quote: String, location: Location },
    /// Margin note for the particular book location.
    Note { note: String, location: Location },
    /// Quote from the book and readers comment on the quote.
    Comment { quote: String, note: String, location: Location },
}

/// Location of highlighted passage.
///
/// Contains the numeric value of the passage as well as a link to reach the highlight.
#[derive(Debug)]
pub struct Location {
    value: usize,
    link: String,
}

/// The models of a sequence of highlights, in the same order.
pub open spec fn highlight_models(hs: Seq<Highlight>) -> Seq<HighlightModel> {
    hs.map_values(|h: Highlight| h@)
}

impl View for Location {
    type V = LocationModel;

    closed spec fn view(&self) -> LocationModel {
        LocationModel { value: self.value as nat, link: self.link@ }
    }
}

impl View for Highlight {
    type V = HighlightModel;

    open spec fn view(&self) -> HighlightModel {
        match self {
            Highlight::Quote { quote, location } => HighlightModel::Quote {
                quote: quote@,
                location: location@,
            },
            Highlight::Note { note, location } => HighlightModel::Note {
                note: note@,
                location: location@,
            },
            Highlight::Comment { quote, note, location } => HighlightModel::Comment {
                quote: quote@,
                note: note@,
                location: location@,
            },
        }
    }
}

impl View for Book {
    type V = BookModel;

    closed spec fn view(&self) -> BookModel {
        BookModel {
            title: self.title@,
            authors: self.authors@,
            highlights: highlight_models(self.highlights@),
        }
    }
}

impl Book {
    /// Create new book with highlights.
    pub fn new(title: &str, authors: &str, highlights: Vec<Highlight>) -> (r: Self)
        ensures
            r@.title == title@,
            r@.authors == authors@,
            r@.highlights == highlight_models(highlights@),
    {
        Book { title: title.to_owned(), authors: authors.to_owned(), highlights }
    }

    /// Book title.
    pub fn title(&self) -> (r: &str)
        ensures
            r@ == self@.title,
    {
        self.title.as_str()
    }

    /// Book authors.
    pub fn authors(&self) -> (r: &str)
        ensures
            r@ == self@.authors,
    {
        self.authors.as_str()
    }

    /// Book highlights.
    ///
    /// Returns a clone of the highlights vector.
    pub fn highlights(&self) -> (r: Vec<Highlight>)
        ensures
            highlight_models(r@) == self@.highlights,
    {
        let r = self.highlights.clone();
        assert(r@ =~= self.highlights@);
        r
    }
}

impl Clone for Book {
    fn clone(&self) -> (r: Self)
        ensures
            r@ == self@,
    {
        Book {
            title: self.title.clone(),
            authors: self.authors.clone(),
            highlights: self.highlights(),
        }
    }
}

impl Highlight {
    /// Convenience constructor for note only highlight.
    pub fn note(note: &str, location: Location) -> (r: Self)
        ensures
            r@ == (HighlightModel::Note { note: note@, location: location@ }),
    {
        Highlight::Note { note: note.to_owned(), location }
    }

    /// Convenience constructor for quote.
    pub fn quote(quote: &str, location: Location) -> (r: Self)
        ensures
            r@ == (HighlightModel::Quote { quote: quote@, location: location@ }),
    {
        Highlight::Quote { quote: quote.to_owned(), location }
    }

    /// Convenience constructor for comment on quote.
    pub fn comment(quote: &str, note: &str, location: Location) -> (r: Self)
        ensures
            r@ == (HighlightModel::Comment { quote: quote@, note: note@, location: location@ }),
    {
        Highlight::Comment { quote: quote.to_owned(), note: note.to_owned(), location }
    }

    /// Location of the highlight, whatever its kind.
    pub fn location(&self) -> (r: Location)
        ensures
            r@ == self@.location(),
    {
        match self {
            Highlight::Quote { location, .. } => location.clone(),
            Highlight::Note { location, .. } => location.clone(),
            Highlight::Comment { location, .. } => location.clone(),
        }
    }
}

impl Clone for Highlight {
    fn clone(&self) -> (r: Self)
        ensures
            r == *self,
    {
        match self {
            Highlight::Quote { quote, location } => Highlight::Quote {
                quote: quote.clone(),
                location: location.clone(),
            },
            Highlight::Note { note, location } => Highlight::Note {
                note: note.clone(),
                location: location.clone(),
            },
            Highlight::Comment { quote, note, location } => Highlight::Comment {
                quote: quote.clone(),
                note: note.clone(),
                location: location.clone(),
            },
        }
    }
}

impl Location {
    /// Creates a new location with the numeric location value and the link.
    pub fn new(value: usize, link: &str) -> (r: Self)
        ensures
            r@ == (LocationModel { value: value as nat, link: link@ }),
    {
        Location { value, link: link.to_owned() }
    }

    /// Numeric position of the passage in the book.
    pub fn value(&self) -> (r: usize)
        ensures
            r as nat == self@.value,
    {
        self.value
    }

    /// Link that reaches the passage.
    pub fn link(&self) -> (r: &str)
        ensures
            r@ == self@.link,
    {
        self.link.as_str()
    }
}

impl Clone for Location {
    fn clone(&self) -> (r: Self)
        ensures
            r == *self,
    {
        Location { value: self.value, link: self.link.clone() }
    }
}

} // verus!
