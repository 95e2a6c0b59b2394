//! Sample data entries to quickly try the system.
use vstd::prelude::*;

use crate::highlights::{Book, BookModel, Highlight, HighlightModel, Location, LocationModel};

verus! {

/// Example of a book on chess and life by Garry Kasparov
pub fn chess_book() -> (r: Book)
    ensures
        r@ == (BookModel {
            title: "How Life Imitates Chess: Making the Right Moves, from the Board to the Boardroom"@,
            authors: "Garry Kasparov"@,
            highlights: seq![
                HighlightModel::Quote {
                    quote: "the reality is that we discard our decisions almost as soon as we make them"@,
                    location: LocationModel {
                        value: 157,
                        link: "kindle://book?action=open&asin=B0049U443Q&location=157"@,
                    },
                },
                HighlightModel::Note {
                    note: "Create a personalized map of your decision-making process"@,
                    location: LocationModel {
                        value: 294,
                        link: "kindle://book?action=open&asin=B0049U443Q&location=294"@,
                    },
                },
                HighlightModel::Comment {
                    quote: "Drawing it as an actual map might be fun"@,
                    note: "The map tells you which areas of your mind are well-known to you and which are still uncharted."@,
                    location: LocationModel {
                        value: 295,
                        link: "kindle://book?action=open&asin=B0049U443Q&location=295"@,
                    },
                },
            ],
        }),
{
    let mut highlights: Vec<Highlight> = Vec::new();
    highlights.push(
        Highlight::quote(
            "the reality is that we discard our decisions almost as soon as we make them",
            Location::new(157, "kindle://book?action=open&asin=B0049U443Q&location=157"),
        ),
    );
    highlights.push(
        Highlight::note(
            "Create a personalized map of your decision-making process",
            Location::new(294, "kindle://book?action=open&asin=B0049U443Q&location=294"),
        ),
    );
    highlights.push(
        Highlight::comment(
            "Drawing it as an actual map might be fun",
            "The map tells you which areas of your mind are well-known to you and which are still uncharted.",
            Location::new(295, "kindle://book?action=open&asin=B0049U443Q&location=295"),
        ),
    );
    let r = Book::new(
        "How Life Imitates Chess: Making the Right Moves, from the Board to the Boardroom",
        "Garry Kasparov",
        highlights,
    );
    assert(r@.highlights =~= seq![highlights@[0]@, highlights@[1]@, highlights@[2]@]);
    r
}

/// Example with basic attributes
pub fn basic_attributes() -> (r: Book)
    ensures
        r@ == (BookModel {
            title: "Title"@,
            authors: "Author"@,
            highlights: seq![
                HighlightModel::Quote {
                    quote: "Quote_1"@,
                    location: LocationModel { value: 1, link: "book://test?location=1"@ },
                },
                HighlightModel::Note {
                    note: "Note_2"@,
                    location: LocationModel { value: 2, link: "book://test?location=2"@ },
                },
                HighlightModel::Comment {
                    quote: "Quote_3"@,
                    note: "Note_3"@,
                    location: LocationModel { value: 3, link: "book://test?location=3"@ },
                },
            ],
        }),
{
    let mut highlights: Vec<Highlight> = Vec::new();
    highlights.push(Highlight::quote("Quote_1", Location::new(1, "book://test?location=1")));
    highlights.push(Highlight::note("Note_2", Location::new(2, "book://test?location=2")));
    highlights.push(
        Highlight::comment("Quote_3", "Note_3", Location::new(3, "book://test?location=3")),
    );
    let r = Book::new("Title", "Author", highlights);
    assert(r@.highlights =~= seq![highlights@[0]@, highlights@[1]@, highlights@[2]@]);
    r
}

/// Example from imaginary rustonomicon
pub fn rustonomicon() -> (r: Book)
    ensures
        r@ == (BookModel {
            title: "Rustonomicon"@,
            authors: "The Rust Community"@,
            highlights: seq![
                HighlightModel::Quote {
                    quote: "This is a helpful quote from the Rustonomicon"@,
                    location: LocationModel {
                        value: 157,
                        link: "kindle://book?action=open&asin=c3dd2fe1-0cc9-42d1-b11f-da858a10f1de&location=157"@,
                    },
                },
                HighlightModel::Note {
                    note: "Note to self: don't forget to lint your project."@,
                    location: LocationModel {
                        value: 693,
                        link: "kindle://book?action=open&asin=c3dd2fe1-0cc9-42d1-b11f-da858a10f1de&location=693"@,
                    },
                },
                HighlightModel::Comment {
                    quote: "This is an interesting quote from the Rustonomicon"@,
                    note: "This quote needs clarification, so that's why the note is here"@,
                    location: LocationModel {
                        value: 305,
                        link: "kindle://book?action=open&asin=c3dd2fe1-0cc9-42d1-b11f-da858a10f1de&location=305"@,
                    },
                },
            ],
        }),
{
    let mut highlights: Vec<Highlight> = Vec::new();
    highlights.push(
        Highlight::quote(
            "This is a helpful quote from the Rustonomicon",
            Location::new(
                157,
                "kindle://book?action=open&asin=c3dd2fe1-0cc9-42d1-b11f-da858a10f1de&location=157",
            ),
        ),
    );
    highlights.push(
        Highlight::note(
            "Note to self: don't forget to lint your project.",
            Location::new(
                693,
                "kindle://book?action=open&asin=c3dd2fe1-0cc9-42d1-b11f-da858a10f1de&location=693",
            ),
        ),
    );
    highlights.push(
        Highlight::comment(
            "This is an interesting quote from the Rustonomicon",
            "This quote needs clarification, so that's why the note is here",
            Location::new(
                305,
                "kindle://book?action=open&asin=c3dd2fe1-0cc9-42d1-b11f-da858a10f1de&location=305",
            ),
        ),
    );
    let r = Book::new("Rustonomicon", "The Rust Community", highlights);
    assert(r@.highlights =~= seq![highlights@[0]@, highlights@[1]@, highlights@[2]@]);
    r
}

} // verus!
