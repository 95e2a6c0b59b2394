use highlights::highlights::examples::{basic_attributes, chess_book, rustonomicon};
use highlights::highlights::{Book, Highlight, Location};

#[test]
fn book_accessors() {
    let book = Book::new(
        "The Hitchhikers Guide",
        "Douglas Adams",
        vec![Highlight::quote(
            "An ultimate answer is 42",
            Location::new(42, "https://ultimate.answers.org/42"),
        )],
    );
    assert_eq!(book.title(), "The Hitchhikers Guide");
    assert_eq!(book.authors(), "Douglas Adams");
    let highlights = book.highlights();
    assert_eq!(highlights.len(), 1);
    let location = highlights[0].location();
    assert_eq!(location.value(), 42);
    assert_eq!(location.link(), "https://ultimate.answers.org/42");
}

#[test]
fn highlight_constructors() {
    match Highlight::comment("q", "n", Location::new(3, "l")) {
        Highlight::Comment { quote, note, location } => {
            assert_eq!(quote, "q");
            assert_eq!(note, "n");
            assert_eq!(location.value(), 3);
        }
        _ => panic!("expected a comment"),
    }
    assert!(matches!(Highlight::note("n", Location::new(1, "l")), Highlight::Note { .. }));
    assert!(matches!(Highlight::quote("q", Location::new(1, "l")), Highlight::Quote { .. }));
}

#[test]
fn example_books() {
    let chess = chess_book();
    assert_eq!(chess.authors(), "Garry Kasparov");
    assert_eq!(chess.highlights().len(), 3);
    assert_eq!(chess.highlights()[2].location().value(), 295);

    let basic = basic_attributes();
    assert_eq!(basic.title(), "Title");
    assert_eq!(basic.highlights()[1].location().link(), "book://test?location=2");

    let nomicon = rustonomicon();
    assert_eq!(nomicon.title(), "Rustonomicon");
    assert_eq!(nomicon.highlights()[1].location().value(), 693);
}

#[test]
fn clones_are_equal_in_content() {
    let book = chess_book();
    let copy = book.clone();
    assert_eq!(copy.title(), book.title());
    assert_eq!(copy.highlights().len(), book.highlights().len());
}
