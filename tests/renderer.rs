use highlights::highlights::examples::basic_attributes;
use highlights::highlights::{Book, Highlight, Location};
use highlights::render::markdown::{MarkdownRenderer, QuoteStyle, RenderSettings};
use highlights::render::Render;

fn render_with(render_settings: RenderSettings, book: Book) -> String {
    let mut renderer = MarkdownRenderer::new(render_settings);
    let mut output = String::new();
    renderer.render(&book, &mut output);
    output
}

fn render_markdown(new_book: &Book) -> String {
    let renderer = MarkdownRenderer::default();
    renderer.as_string(new_book)
}

#[test]
fn split_highlights_via_horizontal_lines() {
    let markdown = render_with(RenderSettings::default(), basic_attributes());

    assert_eq!(markdown.matches("---").count(), 3);

    assert!(markdown.contains("> Quote_1\n"));
    assert!(markdown.contains("Note_2\n"));
    assert!(markdown.contains("> Quote_3\n"));
    assert!(markdown.contains("Note_3\n"));
}

#[test]
fn split_highlights_line_feeds() {
    let settings = RenderSettings::new().disable_split_lines().build();
    let markdown = render_with(settings, basic_attributes());

    assert!(
        !markdown.contains("---"),
        "highlights must not be split by lines"
    );
}

#[test]
fn quote_style_blockquote() {
    let settings = RenderSettings::new()
        .quote_style(QuoteStyle::BlockQuote)
        .build();
    let markdown = render_with(settings, basic_attributes());

    assert!(markdown.contains("> Quote_1"));
    assert!(markdown.contains("> Quote_3"));
}

#[test]
fn quote_style_italic() {
    let settings = RenderSettings::new()
        .quote_style(QuoteStyle::Italic)
        .build();
    let markdown = render_with(settings, basic_attributes());

    assert!(markdown.contains("*Quote_1*\n"));
    assert!(markdown.contains("*Quote_3*\n"));
}

#[test]
fn quote_style_bold() {
    let settings = RenderSettings::new().quote_style(QuoteStyle::Bold).build();
    let markdown = render_with(settings, basic_attributes());

    assert!(markdown.contains("**Quote_1**\n"));
    assert!(markdown.contains("**Quote_3**\n"));
}

#[test]
fn quote_style_plain() {
    let settings = RenderSettings::new().quote_style(QuoteStyle::Plain).build();
    let markdown = render_with(settings, basic_attributes());

    assert!(markdown.contains("Quote_1\n"));
    assert!(markdown.contains("Quote_3\n"));
}

#[test]
fn render_title() {
    let book = Book::new("Title", "Author", vec![]);

    let markdown = render_markdown(&book);
    let lines: Vec<&str> = markdown.lines().collect();

    assert!(lines.contains(&"# Title"));
    assert!(lines.contains(&"*by Author*"));
}

#[test]
fn render_quote() {
    let book = Book::new(
        "Title",
        "Author",
        vec![Highlight::quote(
            "Quote",
            Location::new(1, "http://book.org/quotes/1"),
        )],
    );

    let markdown = render_markdown(&book);
    let lines: Vec<&str> = markdown.lines().collect();

    assert!(lines.contains(&"> Quote"));
    assert!(lines.contains(&"[Location 1](http://book.org/quotes/1)"));
}

#[test]
fn render_note() {
    let book = Book::new(
        "Title",
        "Author",
        vec![Highlight::note(
            "Note",
            Location::new(1, "http://book.org/notes/1"),
        )],
    );

    let markdown = render_markdown(&book);
    let lines: Vec<&str> = markdown.lines().collect();

    assert!(lines.contains(&"Note"));
    assert!(lines.contains(&"[Location 1](http://book.org/notes/1)"));
}

#[test]
fn render_comment() {
    let book = Book::new(
        "Title",
        "Author",
        vec![Highlight::comment(
            "Quote",
            "Note",
            Location::new(1, "http://book.org/comments/1"),
        )],
    );

    let markdown = render_markdown(&book);
    let lines: Vec<&str> = markdown.lines().collect();

    assert!(lines.contains(&"> Quote"));
    assert!(lines.contains(&"Note"));
    assert!(lines.contains(&"[Location 1](http://book.org/comments/1)"));
}
