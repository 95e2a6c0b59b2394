//! Markdown format rendering for book highlights.
use vstd::prelude::*;

use crate::render::Render;
use crate::highlights::{Book, BookModel, Highlight, HighlightModel, LocationModel, highlight_models};
use crate::render::markdown::markup::{
    blockquote_markup, blockquote_prefix, bold_markup, decimal, heading_markup, italic_markup,
    line_of, link_markup, newline, push_decimal, rule_markup,
};

pub mod laws;
mod line_writer;
pub mod markup;
pub mod writer;

pub use line_writer::MarkdownWriter;

verus! {

/// Controls style of rendered quote.
#[derive(Debug, Copy, Clone, PartialEq, Eq, Structural)]
pub enum QuoteStyle {
    /// Render as blockquote (default): `> Lorem ipsum dolor sit amet.`
    BlockQuote,
    /// Render as italic: `*Lorem ipsum dolor sit amet.*`
    Italic,
    /// Render as plain text: `Lorem ipsum dolor sit amet.`
    Plain,
    /// Render as bold: `**Lorem ipsum dolor sit amet.**`
    Bold,
}

/// Controls style of rendered notes.
#[derive(Debug, Copy, Clone, PartialEq, Eq, Structural)]
pub enum NoteStyle {
    Plain,
    Bold,
    Italic,
    BlockQuote,
    /// Renders notes as blockquotes.
    /// Renders comments as nested blockquotes if quotes are rendered as blockquotes.
    NestedQuote,
}

/// What a [`RenderSettings`] stands for.
pub struct SettingsModel {
    pub split_lines_enabled: bool,
    pub quote_style: QuoteStyle,
    pub note_style: NoteStyle,
}

/// The settings a new [`RenderSettings`] starts from.
pub open spec fn default_settings() -> SettingsModel {
    SettingsModel {
        split_lines_enabled: true,
        quote_style: QuoteStyle::BlockQuote,
        note_style: NoteStyle::Plain,
    }
}

/// Rendering settings for markdown highlight documents.
#[derive(Debug, Copy, Clone)]
pub struct RenderSettings {
    split_lines_enabled: bool,
    quote_style: QuoteStyle,
    note_style: NoteStyle,
}

impl View for RenderSettings {
    type V = SettingsModel;

    closed spec fn view(&self) -> SettingsModel {
        SettingsModel {
            split_lines_enabled: self.split_lines_enabled,
            quote_style: self.quote_style,
            note_style: self.note_style,
        }
    }
}

impl RenderSettings {
    /// Settings with horizontal lines between highlights, quotes as
    /// blockquotes and notes as plain text.
    pub fn new() -> (r: Self)
        ensures
            r@ == default_settings(),
    {
        RenderSettings {
            split_lines_enabled: true,
            quote_style: QuoteStyle::BlockQuote,
            note_style: NoteStyle::Plain,
        }
    }

    /// Split highlights via horizontal lines.
    pub fn enable_split_lines(&mut self) -> (r: &mut RenderSettings)
        ensures
            r@ == (SettingsModel { split_lines_enabled: true, ..old(self)@ }),
            final(self)@ == final(r)@,
    {
        self.split_lines_enabled = true;
        self
    }

    /// Split highlights via line feeds.
    pub fn disable_split_lines(&mut self) -> (r: &mut RenderSettings)
        ensures
            r@ == (SettingsModel { split_lines_enabled: false, ..old(self)@ }),
            final(self)@ == final(r)@,
    {
        self.split_lines_enabled = false;
        self
    }

    /// Set style of the quote rendering.
    ///
    /// Defaults to blockquote
    pub fn quote_style(&mut self, style: QuoteStyle) -> (r: &mut RenderSettings)
        ensures
            r@ == (SettingsModel { quote_style: style, ..old(self)@ }),
            final(self)@ == final(r)@,
    {
        self.quote_style = style;
        self
    }

    /// Set style of the note rendering.
    ///
    /// Defaults to plain
    pub fn note_style(&mut self, style: NoteStyle) -> (r: &mut RenderSettings)
        ensures
            r@ == (SettingsModel { note_style: style, ..old(self)@ }),
            final(self)@ == final(r)@,
    {
        self.note_style = style;
        self
    }

    /// Snapshot of the settings as configured so far.
    pub fn build(&self) -> (r: Self)
        ensures
            r@ == self@,
    {
        RenderSettings {
            split_lines_enabled: self.split_lines_enabled,
            quote_style: self.quote_style,
            note_style: self.note_style,
        }
    }

    /// Whether highlights are split by horizontal lines.
    pub fn split_lines_enabled(&self) -> (r: bool)
        ensures
            r == self@.split_lines_enabled,
    {
        self.split_lines_enabled
    }

    /// Style of quotes.
    pub fn get_quote_style(&self) -> (r: QuoteStyle)
        ensures
            r == self@.quote_style,
    {
        self.quote_style
    }

    /// Style of notes.
    pub fn get_note_style(&self) -> (r: NoteStyle)
        ensures
            r == self@.note_style,
    {
        self.note_style
    }
}

impl Default for RenderSettings {
    fn default() -> (r: Self)
        ensures
            r@ == default_settings(),
    {
        RenderSettings::new()
    }
}

/// A quote in the given style, as one line.
pub open spec fn quote_markup(style: QuoteStyle, text: Seq<char>) -> Seq<char> {
    match style {
        QuoteStyle::BlockQuote => line_of(blockquote_markup(text)),
        QuoteStyle::Italic => line_of(italic_markup(text)),
        QuoteStyle::Plain => line_of(text),
        QuoteStyle::Bold => line_of(bold_markup(text)),
    }
}

/// A note in the given style, as one line; a nested quote with nothing to
/// nest into is a blockquote.
pub open spec fn note_markup(style: NoteStyle, text: Seq<char>) -> Seq<char> {
    match style {
        NoteStyle::Plain => line_of(text),
        NoteStyle::Bold => line_of(bold_markup(text)),
        NoteStyle::Italic => line_of(italic_markup(text)),
        NoteStyle::BlockQuote => line_of(blockquote_markup(text)),
        NoteStyle::NestedQuote => line_of(blockquote_markup(text)),
    }
}

/// Whether the note of a comment continues the blockquote of its quote.
pub open spec fn nests_note(settings: SettingsModel) -> bool {
    settings.note_style == NoteStyle::NestedQuote && settings.quote_style == QuoteStyle::BlockQuote
}

/// What stands between the quote and the note of a comment: the opening of
/// another line of the same blockquote, or a blank line.
pub open spec fn comment_joint(settings: SettingsModel) -> Seq<char> {
    if nests_note(settings) {
        blockquote_prefix()
    } else {
        newline()
    }
}

/// The text of a highlight, styled by the settings.
pub open spec fn highlight_body(settings: SettingsModel, h: HighlightModel) -> Seq<char> {
    match h {
        HighlightModel::Quote { quote, .. } => quote_markup(settings.quote_style, quote),
        HighlightModel::Note { note, .. } => note_markup(settings.note_style, note),
        HighlightModel::Comment { quote, note, .. } => quote_markup(settings.quote_style, quote)
            + comment_joint(settings) + note_markup(settings.note_style, note),
    }
}

/// What precedes each highlight: a line feed, then a horizontal rule line
/// or a second line feed.
pub open spec fn separator(settings: SettingsModel) -> Seq<char> {
    newline() + if settings.split_lines_enabled {
        line_of(rule_markup())
    } else {
        newline()
    }
}

/// `Location `
pub open spec fn location_label() -> Seq<char> {
    seq!['L', 'o', 'c', 'a', 't', 'i', 'o', 'n', ' ']
}

/// `[Location {value}]({link})` and a line feed.
pub open spec fn location_line(location: LocationModel) -> Seq<char> {
    line_of(link_markup(location_label() + decimal(location.value), location.link))
}

/// Separator, body, blank line and link line of one highlight.
pub open spec fn highlight_section(settings: SettingsModel, h: HighlightModel) -> Seq<char> {
    separator(settings) + highlight_body(settings, h) + newline() + location_line(h.location())
}

/// The sections of the highlights, in order.
pub open spec fn highlight_sections(settings: SettingsModel, hs: Seq<HighlightModel>) -> Seq<char>
    decreases hs.len(),
{
    if hs.len() == 0 {
        Seq::empty()
    } else {
        highlight_sections(settings, hs.drop_last()) + highlight_section(settings, hs.last())
    }
}

/// `by `
pub open spec fn by_label() -> Seq<char> {
    seq!['b', 'y', ' ']
}

/// Title heading, blank line, italic authors line, blank line.
pub open spec fn book_header(book: BookModel) -> Seq<char> {
    line_of(heading_markup(book.title)) + newline() + line_of(italic_markup(by_label() + book.authors))
        + newline()
}

/// The Markdown document of a book under the given settings.
pub open spec fn markdown_document(settings: SettingsModel, book: BookModel) -> Seq<char> {
    book_header(book) + highlight_sections(settings, book.highlights)
}

/// Renders book highlights to markdown format.
pub struct MarkdownRenderer {
    render_settings: RenderSettings,
}

impl View for MarkdownRenderer {
    type V = SettingsModel;

    /// The settings the renderer was made with.
    closed spec fn view(&self) -> SettingsModel {
        self.render_settings@
    }
}

impl MarkdownRenderer {
    /// Create renderer with defined render settings.
    pub fn new(render_settings: RenderSettings) -> (r: Self)
        ensures
            r@ == render_settings@,
    {
        MarkdownRenderer { render_settings }
    }

    /// Writes the document of `book` to `md`.
    fn do_render_book(&self, book: &Book, md: &mut MarkdownWriter)
        ensures
            final(md)@ == old(md)@ + markdown_document(self@, book@),
    {
        md.heading(book.title());
        md.lf();
        let mut authors = String::new();
        proof {
            reveal_strlit("by ");
        }
        authors.append("by ");
        authors.append(book.authors());
        md.italic(authors.as_str());
        md.lf();
        assert(md@ =~= old(md)@ + book_header(book@));

        let highlights = book.highlights();
        let ghost hs = highlight_models(highlights@);
        let n = highlights.len();
        let mut i: usize = 0;
        while i < n
            invariant
                n == highlights.len(),
                i <= n,
                hs == book@.highlights,
                hs == highlight_models(highlights@),
                md@ == old(md)@ + book_header(book@) + highlight_sections(self@, hs.take(i as int)),
            decreases n - i,
        {
            let ghost before = md@;
            self.highlight(md, &highlights[i]);
            assert(md@ == before + highlight_section(self@, hs[i as int]));
            assert(hs.take(i + 1).drop_last() =~= hs.take(i as int));
            i = i + 1;
        }
        assert(hs.take(n as int) =~= hs);
    }

    /// Writes the section of one highlight: separator, body, blank line and
    /// link line.
    fn highlight(&self, md: &mut MarkdownWriter, highlight: &Highlight)
        ensures
            final(md)@ == old(md)@ + highlight_section(self@, highlight@),
    {
        md.lf();
        if self.render_settings.split_lines_enabled {
            md.line();
        } else {
            md.lf();
        }
        assert(md@ =~= old(md)@ + separator(self@));
        self.body(md, highlight);
        md.lf();
        let location = highlight.location();
        let mut name = String::new();
        proof {
            reveal_strlit("Location ");
        }
        name.append("Location ");
        push_decimal(&mut name, location.value());
        assert(name@ =~= location_label() + decimal(location@.value));
        md.link(name.as_str(), location.link());
        assert(md@ =~= old(md)@ + highlight_section(self@, highlight@));
    }

    /// Writes the text of a highlight in the configured styles.
    fn body(&self, md: &mut MarkdownWriter, highlight: &Highlight)
        ensures
            final(md)@ == old(md)@ + highlight_body(self@, highlight@),
    {
        match highlight {
            Highlight::Quote { quote: quote_text, .. } => {
                self.quote(md, quote_text.as_str());
            },
            Highlight::Note { note: note_text, .. } => {
                self.note(md, note_text.as_str());
            },
            Highlight::Comment { quote: quote_text, note: note_text, .. } => {
                self.quote(md, quote_text.as_str());
                match self.render_settings.note_style {
                    NoteStyle::NestedQuote => match self.render_settings.quote_style {
                        QuoteStyle::BlockQuote => md.start_blockquote(),
                        _ => md.lf(),
                    },
                    _ => md.lf(),
                }
                self.note(md, note_text.as_str());
                assert(md@ =~= old(md)@ + highlight_body(self@, highlight@));
            },
        }
    }

    /// Writes a quote in the configured quote style.
    fn quote(&self, md: &mut MarkdownWriter, text: &str)
        ensures
            final(md)@ == old(md)@ + quote_markup(self@.quote_style, text@),
    {
        match self.render_settings.quote_style {
            QuoteStyle::BlockQuote => md.blockquote(text),
            QuoteStyle::Italic => md.italic(text),
            QuoteStyle::Plain => md.text(text),
            QuoteStyle::Bold => md.bold(text),
        }
    }

    /// Writes a note in the configured note style.
    fn note(&self, md: &mut MarkdownWriter, text: &str)
        ensures
            final(md)@ == old(md)@ + note_markup(self@.note_style, text@),
    {
        match self.render_settings.note_style {
            NoteStyle::Plain => md.text(text),
            NoteStyle::Bold => md.bold(text),
            NoteStyle::Italic => md.italic(text),
            NoteStyle::BlockQuote | NoteStyle::NestedQuote => md.blockquote(text),
        }
    }
}

impl Default for MarkdownRenderer {
    fn default() -> (r: Self)
        ensures
            r@ == default_settings(),
    {
        MarkdownRenderer::new(RenderSettings::default())
    }
}

impl Render for MarkdownRenderer {
    open spec fn document(&self, book: BookModel) -> Seq<char> {
        markdown_document(self@, book)
    }

    /// Renders highlights to markdown format.
    fn render(&self, book: &Book, out: &mut String) {
        let mut start = String::new();
        core::mem::swap(&mut start, out);
        let mut md = MarkdownWriter::new(start);
        self.do_render_book(book, &mut md);
        *out = md.into_inner();
    }
}

/// Renders the book into markdown format with the default settings, after
/// what `w` already holds.
pub fn render_book(book: &Book, w: &mut String)
    ensures
        final(w)@ == old(w)@ + markdown_document(default_settings(), book@),
{
    MarkdownRenderer::default().render(book, w);
}

} // verus!
