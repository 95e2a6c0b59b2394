use highlights::highlights::examples::{basic_attributes, chess_book, rustonomicon};
use highlights::highlights::{Book, Highlight, Location};
use highlights::render::markdown::{render_book, MarkdownRenderer, NoteStyle, QuoteStyle, RenderSettings};
use highlights::render::Render;

fn render_with(settings: RenderSettings, book: &Book) -> String {
    MarkdownRenderer::new(settings).as_string(book)
}

fn comment_book() -> Book {
    Book::new(
        "T",
        "A",
        vec![Highlight::comment("Q", "N", Location::new(9, "u"))],
    )
}

#[test]
fn default_document_of_basic_book() {
    let markdown = render_with(RenderSettings::default(), &basic_attributes());
    assert_eq!(
        markdown,
        "# Title\n\n*by Author*\n\n\
         \n---\n> Quote_1\n\n[Location 1](book://test?location=1)\n\
         \n---\nNote_2\n\n[Location 2](book://test?location=2)\n\
         \n---\n> Quote_3\n\nNote_3\n\n[Location 3](book://test?location=3)\n"
    );
}

#[test]
fn default_document_keeps_order() {
    let markdown = render_with(RenderSettings::default(), &basic_attributes());
    let wanted = [
        "# Title",
        "*by Author*",
        "---",
        "> Quote_1",
        "[Location 1](book://test?location=1)",
        "---",
        "Note_2",
        "[Location 2](book://test?location=2)",
        "---",
        "> Quote_3",
        "Note_3",
        "[Location 3](book://test?location=3)",
    ];
    let mut from = 0;
    for w in wanted.iter() {
        let at = markdown[from..].find(w).expect("missing or out of order");
        from += at + w.len();
    }
}

#[test]
fn italic_quotes_are_not_blockquoted() {
    let settings = RenderSettings::new().quote_style(QuoteStyle::Italic).build();
    let markdown = render_with(settings, &basic_attributes());
    assert!(markdown.contains("*Quote_1*\n"));
    assert!(markdown.contains("*Quote_3*\n"));
    assert!(!markdown.contains("> Quote_1"));
    assert!(!markdown.contains("> Quote_3"));
}

#[test]
fn no_rule_without_split_lines() {
    let settings = RenderSettings::new().disable_split_lines().build();
    let markdown = render_with(settings, &basic_attributes());
    assert!(!markdown.contains("---"));
    assert_eq!(
        markdown,
        "# Title\n\n*by Author*\n\n\
         \n\n> Quote_1\n\n[Location 1](book://test?location=1)\n\
         \n\nNote_2\n\n[Location 2](book://test?location=2)\n\
         \n\n> Quote_3\n\nNote_3\n\n[Location 3](book://test?location=3)\n"
    );
}

#[test]
fn one_rule_per_highlight() {
    for book in [basic_attributes(), chess_book(), rustonomicon()] {
        let markdown = render_with(RenderSettings::default(), &book);
        assert_eq!(markdown.matches("---").count(), book.highlights().len());
    }
}

#[test]
fn book_without_highlights() {
    for settings in [
        RenderSettings::new(),
        RenderSettings::new().disable_split_lines().quote_style(QuoteStyle::Bold).build(),
    ] {
        let book = Book::new("Empty", "Nobody", vec![]);
        assert_eq!(render_with(settings, &book), "# Empty\n\n*by Nobody*\n\n");
    }
}

#[test]
fn rendering_twice_gives_the_same_text() {
    let settings = RenderSettings::new().note_style(NoteStyle::NestedQuote).build();
    let renderer = MarkdownRenderer::new(settings);
    let book = chess_book();
    assert_eq!(renderer.as_string(&book), renderer.as_string(&book));
}

#[test]
fn render_appends_to_output() {
    let renderer = MarkdownRenderer::default();
    let book = Book::new("T", "A", vec![]);
    let mut out = String::from("prefix\n");
    renderer.render(&book, &mut out);
    assert_eq!(out, "prefix\n# T\n\n*by A*\n\n");
}

#[test]
fn location_line_for_every_style() {
    let quote_styles = [QuoteStyle::BlockQuote, QuoteStyle::Italic, QuoteStyle::Plain, QuoteStyle::Bold];
    let note_styles = [
        NoteStyle::Plain,
        NoteStyle::Bold,
        NoteStyle::Italic,
        NoteStyle::BlockQuote,
        NoteStyle::NestedQuote,
    ];
    for q in quote_styles {
        for n in note_styles {
            let settings = RenderSettings::new().quote_style(q).note_style(n).build();
            let markdown = render_with(settings, &chess_book());
            assert!(markdown.contains("\n[Location 157](kindle://book?action=open&asin=B0049U443Q&location=157)\n"));
            assert!(markdown.contains("\n[Location 294](kindle://book?action=open&asin=B0049U443Q&location=294)\n"));
            assert!(markdown.ends_with("\n[Location 295](kindle://book?action=open&asin=B0049U443Q&location=295)\n"));
        }
    }
}

#[test]
fn location_values_in_decimal() {
    for (value, text) in [(0usize, "0"), (10, "10"), (1234567, "1234567"), (usize::MAX, "18446744073709551615")] {
        let book = Book::new("T", "A", vec![Highlight::note("n", Location::new(value, "l"))]);
        let markdown = render_with(RenderSettings::default(), &book);
        assert!(markdown.ends_with(&format!("\n[Location {}](l)\n", text)));
    }
}

#[test]
fn quote_styles_on_quote() {
    let book = Book::new("T", "A", vec![Highlight::quote("q", Location::new(1, "u"))]);
    for (style, body) in [
        (QuoteStyle::BlockQuote, "> q\n"),
        (QuoteStyle::Italic, "*q*\n"),
        (QuoteStyle::Plain, "q\n"),
        (QuoteStyle::Bold, "**q**\n"),
    ] {
        let markdown = render_with(RenderSettings::new().quote_style(style).build(), &book);
        assert_eq!(markdown, format!("# T\n\n*by A*\n\n\n---\n{}\n[Location 1](u)\n", body));
    }
}

#[test]
fn note_styles_on_note() {
    let book = Book::new("T", "A", vec![Highlight::note("n", Location::new(1, "u"))]);
    for (style, body) in [
        (NoteStyle::Plain, "n\n"),
        (NoteStyle::Bold, "**n**\n"),
        (NoteStyle::Italic, "*n*\n"),
        (NoteStyle::BlockQuote, "> n\n"),
        (NoteStyle::NestedQuote, "> n\n"),
    ] {
        let markdown = render_with(RenderSettings::new().note_style(style).build(), &book);
        assert_eq!(markdown, format!("# T\n\n*by A*\n\n\n---\n{}\n[Location 1](u)\n", body));
    }
}

#[test]
fn nested_quote_continues_blockquote() {
    let settings = RenderSettings::new().note_style(NoteStyle::NestedQuote).build();
    let markdown = render_with(settings, &comment_book());
    assert_eq!(markdown, "# T\n\n*by A*\n\n\n---\n> Q\n> > N\n\n[Location 9](u)\n");
}

#[test]
fn nested_quote_without_blockquote_is_separate() {
    let settings = RenderSettings::new()
        .quote_style(QuoteStyle::Bold)
        .note_style(NoteStyle::NestedQuote)
        .build();
    let markdown = render_with(settings, &comment_book());
    assert_eq!(markdown, "# T\n\n*by A*\n\n\n---\n**Q**\n\n> N\n\n[Location 9](u)\n");
}

#[test]
fn other_note_styles_separate_comment() {
    let settings = RenderSettings::new().note_style(NoteStyle::Italic).build();
    let markdown = render_with(settings, &comment_book());
    assert_eq!(markdown, "# T\n\n*by A*\n\n\n---\n> Q\n\n*N*\n\n[Location 9](u)\n");
}

#[test]
fn render_book_uses_default_settings() {
    let mut out = String::from("start\n");
    render_book(&basic_attributes(), &mut out);
    assert_eq!(
        out,
        "start\n# Title\n\n*by Author*\n\n\
         \n---\n> Quote_1\n\n[Location 1](book://test?location=1)\n\
         \n---\nNote_2\n\n[Location 2](book://test?location=2)\n\
         \n---\n> Quote_3\n\nNote_3\n\n[Location 3](book://test?location=3)\n"
    );
}

#[test]
fn render_book_lines() {
    let book = Book::new(
        "Title",
        "Author",
        vec![Highlight::comment("Quote", "Note", Location::new(1, "http://book.org/comments/1"))],
    );
    let mut out = String::new();
    render_book(&book, &mut out);
    let lines: Vec<&str> = out.lines().collect();
    assert!(lines.contains(&"# Title"));
    assert!(lines.contains(&"*by Author*"));
    assert!(lines.contains(&"> Quote"));
    assert!(lines.contains(&"Note"));
    assert!(lines.contains(&"[Location 1](http://book.org/comments/1)"));
}

#[test]
fn render_book_empty() {
    let mut out = String::new();
    render_book(&Book::new("t", "a", vec![]), &mut out);
    assert_eq!(out, "# t\n\n*by a*\n\n");
}
