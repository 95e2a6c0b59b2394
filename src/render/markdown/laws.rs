//! What holds of every rendered document.
use vstd::prelude::*;

use crate::highlights::{Book, BookModel, Highlight, HighlightModel, LocationModel};
use crate::render::markdown::markup::{decimal, newline};
use crate::render::markdown::{
    MarkdownRenderer, NoteStyle, QuoteStyle, RenderSettings, SettingsModel, book_header,
    comment_joint, highlight_body, highlight_section, highlight_sections, location_label,
    location_line, note_markup, quote_markup, separator,
};
use crate::render::Render;

verus! {

/// A book without highlights renders as `# {title}`, a blank line,
/// `*by {authors}*` and a blank line, and nothing else, whatever the settings.
pub proof fn lemma_book_without_highlights(renderer: MarkdownRenderer, book: Book)
    requires
        book@.highlights.len() == 0,
    ensures
        renderer.document(book@) == seq!['#', ' '] + book@.title + seq!['\n', '\n', '*', 'b', 'y', ' ']
            + book@.authors + seq!['*', '\n', '\n'],
{
    assert(highlight_sections(renderer@, book@.highlights) =~= Seq::empty());
    assert(renderer.document(book@) =~= seq!['#', ' '] + book@.title + seq![
        '\n',
        '\n',
        '*',
        'b',
        'y',
        ' ',
    ] + book@.authors + seq!['*', '\n', '\n']);
}

/// The section of every highlight ends with the line
/// `[Location {value}]({link})`, whatever the settings.
pub proof fn lemma_location_line(settings: RenderSettings, highlight: Highlight)
    ensures
        ({
            let section = highlight_section(settings@, highlight@);
            let link_line = seq!['[', 'L', 'o', 'c', 'a', 't', 'i', 'o', 'n', ' ']
                + decimal(highlight@.location().value) + seq![']', '(']
                + highlight@.location().link + seq![')', '\n'];
            &&& link_line.len() <= section.len()
            &&& section.subrange(section.len() - link_line.len(), section.len() as int) == link_line
        }),
{
    let section = highlight_section(settings@, highlight@);
    let link_line = seq!['[', 'L', 'o', 'c', 'a', 't', 'i', 'o', 'n', ' ']
        + decimal(highlight@.location().value) + seq![']', '('] + highlight@.location().link
        + seq![')', '\n'];
    assert(section.subrange(section.len() - link_line.len(), section.len() as int) =~= link_line);
}

/// Rendering depends on the settings and on the book's contents alone: the
/// same book rendered twice with the same settings gives the same text.
pub proof fn lemma_render_is_deterministic(
    first: MarkdownRenderer,
    second: MarkdownRenderer,
    book: Book,
    again: Book,
)
    requires
        first@ == second@,
        book@ == again@,
    ensures
        first.document(book@) == second.document(again@),
{
}

/// The markup of each quote style: `> ` for a blockquote, `*` around italic,
/// `**` around bold, nothing around plain text; each ends the line.
pub proof fn lemma_quote_styles(text: Seq<char>)
    ensures
        quote_markup(QuoteStyle::BlockQuote, text) == seq!['>', ' '] + text + seq!['\n'],
        quote_markup(QuoteStyle::Italic, text) == seq!['*'] + text + seq!['*', '\n'],
        quote_markup(QuoteStyle::Plain, text) == text + seq!['\n'],
        quote_markup(QuoteStyle::Bold, text) == seq!['*', '*'] + text + seq!['*', '*', '\n'],
{
    assert(quote_markup(QuoteStyle::BlockQuote, text) =~= seq!['>', ' '] + text + seq!['\n']);
    assert(quote_markup(QuoteStyle::Italic, text) =~= seq!['*'] + text + seq!['*', '\n']);
    assert(quote_markup(QuoteStyle::Bold, text) =~= seq!['*', '*'] + text + seq!['*', '*', '\n']);
}

/// The markup of each note style: plain text, `**` around bold, `*` around
/// italic, and `> ` for both a blockquote and a nested quote; each ends the
/// line.
pub proof fn lemma_note_styles(text: Seq<char>)
    ensures
        note_markup(NoteStyle::Plain, text) == text + seq!['\n'],
        note_markup(NoteStyle::Bold, text) == seq!['*', '*'] + text + seq!['*', '*', '\n'],
        note_markup(NoteStyle::Italic, text) == seq!['*'] + text + seq!['*', '\n'],
        note_markup(NoteStyle::BlockQuote, text) == seq!['>', ' '] + text + seq!['\n'],
        note_markup(NoteStyle::NestedQuote, text) == seq!['>', ' '] + text + seq!['\n'],
{
    assert(note_markup(NoteStyle::Bold, text) =~= seq!['*', '*'] + text + seq!['*', '*', '\n']);
    assert(note_markup(NoteStyle::Italic, text) =~= seq!['*'] + text + seq!['*', '\n']);
    assert(note_markup(NoteStyle::BlockQuote, text) =~= seq!['>', ' '] + text + seq!['\n']);
    assert(note_markup(NoteStyle::NestedQuote, text) =~= seq!['>', ' '] + text + seq!['\n']);
}

/// Every highlight, under every pair of styles, renders its quote in the
/// quote style and its note in the note style: a quote is its quote markup,
/// a note its note markup, and a comment starts with the quote markup and
/// ends with the note markup.
pub proof fn lemma_style_selection(settings: RenderSettings, highlight: Highlight)
    ensures
        ({
            let body = highlight_body(settings@, highlight@);
            match highlight@ {
                HighlightModel::Quote { quote, .. } => body == quote_markup(
                    settings@.quote_style,
                    quote,
                ),
                HighlightModel::Note { note, .. } => body == note_markup(
                    settings@.note_style,
                    note,
                ),
                HighlightModel::Comment { quote, note, .. } => {
                    let q = quote_markup(settings@.quote_style, quote);
                    let n = note_markup(settings@.note_style, note);
                    &&& q.len() + n.len() <= body.len()
                    &&& body.take(q.len() as int) == q
                    &&& body.skip(body.len() - n.len()) == n
                },
            }
        }),
{
    let body = highlight_body(settings@, highlight@);
    match highlight@ {
        HighlightModel::Comment { quote, note, .. } => {
            let q = quote_markup(settings@.quote_style, quote);
            let n = note_markup(settings@.note_style, note);
            assert(body.take(q.len() as int) =~= q);
            assert(body.skip(body.len() - n.len()) =~= n);
        },
        _ => {},
    }
}

/// A comment whose note is a nested quote under blockquoted quotes is one
/// blockquote: `> {quote}`, then `> > {note}` on the next line. Under every
/// other pair of styles the quote's line is followed by a blank line and the
/// note.
pub proof fn lemma_comment_layout(
    settings: RenderSettings,
    quote: Seq<char>,
    note: Seq<char>,
    location: LocationModel,
)
    ensures
        ({
            let body = highlight_body(
                settings@,
                HighlightModel::Comment { quote, note, location },
            );
            if settings@.note_style == NoteStyle::NestedQuote && settings@.quote_style
                == QuoteStyle::BlockQuote {
                body == seq!['>', ' '] + quote + seq!['\n', '>', ' ', '>', ' '] + note + seq!['\n']
            } else {
                let q = quote_markup(settings@.quote_style, quote);
                &&& body == q + seq!['\n'] + note_markup(settings@.note_style, note)
                &&& q.last() == '\n'
            }
        }),
{
    let body = highlight_body(settings@, HighlightModel::Comment { quote, note, location });
    if settings@.note_style == NoteStyle::NestedQuote && settings@.quote_style
        == QuoteStyle::BlockQuote {
        assert(body =~= seq!['>', ' '] + quote + seq!['\n', '>', ' ', '>', ' '] + note + seq!['\n']);
    } else {
        let q = quote_markup(settings@.quote_style, quote);
        assert(body =~= q + seq!['\n'] + note_markup(settings@.note_style, note));
    }
}

/// Whether `---` starts at position `i` of `s`.
pub open spec fn rule_at(s: Seq<char>, i: int) -> bool {
    &&& 0 <= i
    &&& i + 3 <= s.len()
    &&& s[i] == '-'
    &&& s[i + 1] == '-'
    &&& s[i + 2] == '-'
}

/// How many times `---` occurs in `s`, counting each starting position.
pub open spec fn rule_count(s: Seq<char>) -> nat
    decreases s.len(),
{
    if s.len() < 3 {
        0
    } else {
        (if rule_at(s, 0) {
            1nat
        } else {
            0nat
        }) + rule_count(s.drop_first())
    }
}

/// Whether no text of the highlight holds `---`.
pub open spec fn highlight_free_of_rules(h: HighlightModel) -> bool {
    &&& rule_count(h.location().link) == 0
    &&& match h {
        HighlightModel::Quote { quote, .. } => rule_count(quote) == 0,
        HighlightModel::Note { note, .. } => rule_count(note) == 0,
        HighlightModel::Comment { quote, note, .. } => rule_count(quote) == 0 && rule_count(note)
            == 0,
    }
}

/// Whether no text of the book holds `---`.
pub open spec fn book_free_of_rules(book: BookModel) -> bool {
    &&& rule_count(book.title) == 0
    &&& rule_count(book.authors) == 0
    &&& forall|i: int|
        0 <= i < book.highlights.len() ==> #[trigger] highlight_free_of_rules(book.highlights[i])
}

/// Whether `s` holds no `-` at all.
spec fn dash_free(s: Seq<char>) -> bool {
    forall|i: int| 0 <= i < s.len() ==> s[i] != '-'
}

proof fn lemma_dash_free_count(s: Seq<char>)
    requires
        dash_free(s),
    ensures
        rule_count(s) == 0,
    decreases s.len(),
{
    if s.len() >= 3 {
        lemma_dash_free_count(s.drop_first());
    }
}

/// Counting `---` splits at a joint where one side does not touch it with a `-`.
proof fn lemma_count_join(a: Seq<char>, b: Seq<char>)
    requires
        a.len() == 0 || b.len() == 0 || a.last() != '-' || b[0] != '-',
    ensures
        rule_count(a + b) == rule_count(a) + rule_count(b),
    decreases a.len(),
{
    if a.len() == 0 {
        assert(a + b =~= b);
    } else if b.len() == 0 {
        assert(a + b =~= a);
    } else {
        let ab = a + b;
        assert(ab.drop_first() =~= a.drop_first() + b);
        lemma_count_join(a.drop_first(), b);
        if a.len() < 3 {
            assert(rule_count(a.drop_first()) == 0);
            if ab.len() >= 3 {
                assert(!rule_at(ab, 0)) by {
                    if a.len() == 1 {
                        assert(ab[0] == a.last());
                        assert(ab[1] == b[0]);
                    } else {
                        assert(ab[1] == a.last());
                        assert(ab[2] == b[0]);
                    }
                }
            }
        } else {
            assert(rule_at(ab, 0) == rule_at(a, 0));
        }
    }
}

/// Text between two pieces of markup without `-` keeps its count.
proof fn lemma_count_wrapped(p: Seq<char>, t: Seq<char>, x: Seq<char>)
    requires
        dash_free(p),
        dash_free(x),
    ensures
        rule_count(p + t + x) == rule_count(t),
{
    lemma_dash_free_count(p);
    lemma_dash_free_count(x);
    lemma_count_join(p, t);
    lemma_count_join(p + t, x);
}

proof fn lemma_decimal_dash_free(n: nat)
    ensures
        dash_free(decimal(n)),
    decreases n,
{
    if n >= 10 {
        lemma_decimal_dash_free(n / 10);
    }
}

proof fn lemma_quote_markup_count(style: QuoteStyle, t: Seq<char>)
    ensures
        rule_count(quote_markup(style, t)) == rule_count(t),
        quote_markup(style, t).len() > 0,
        quote_markup(style, t).last() == '\n',
{
    lemma_quote_styles(t);
    match style {
        QuoteStyle::BlockQuote => lemma_count_wrapped(seq!['>', ' '], t, seq!['\n']),
        QuoteStyle::Italic => lemma_count_wrapped(seq!['*'], t, seq!['*', '\n']),
        QuoteStyle::Plain => {
            assert(seq![] + t =~= t);
            lemma_count_wrapped(seq![], t, seq!['\n']);
        },
        QuoteStyle::Bold => lemma_count_wrapped(seq!['*', '*'], t, seq!['*', '*', '\n']),
    }
}

proof fn lemma_note_markup_count(style: NoteStyle, t: Seq<char>)
    ensures
        rule_count(note_markup(style, t)) == rule_count(t),
{
    lemma_note_styles(t);
    match style {
        NoteStyle::Plain => {
            assert(seq![] + t =~= t);
            lemma_count_wrapped(seq![], t, seq!['\n']);
        },
        NoteStyle::Bold => lemma_count_wrapped(seq!['*', '*'], t, seq!['*', '*', '\n']),
        NoteStyle::Italic => lemma_count_wrapped(seq!['*'], t, seq!['*', '\n']),
        _ => lemma_count_wrapped(seq!['>', ' '], t, seq!['\n']),
    }
}

proof fn lemma_section_count(settings: SettingsModel, h: HighlightModel)
    requires
        highlight_free_of_rules(h),
    ensures
        rule_count(highlight_section(settings, h)) == if settings.split_lines_enabled {
            1nat
        } else {
            0nat
        },
        highlight_section(settings, h).len() > 0,
        highlight_section(settings, h).last() == '\n',
{
    let sep = separator(settings);
    if settings.split_lines_enabled {
        assert(sep =~= seq!['\n', '-', '-', '-', '\n']);
        reveal_with_fuel(rule_count, 5);
        assert(rule_count(sep) == 1);
    } else {
        assert(sep =~= seq!['\n', '\n']);
        lemma_dash_free_count(sep);
    }
    let body = highlight_body(settings, h);
    match h {
        HighlightModel::Quote { quote, .. } => {
            lemma_quote_markup_count(settings.quote_style, quote);
        },
        HighlightModel::Note { note, .. } => {
            lemma_note_markup_count(settings.note_style, note);
        },
        HighlightModel::Comment { quote, note, .. } => {
            let q = quote_markup(settings.quote_style, quote);
            let j = comment_joint(settings);
            lemma_quote_markup_count(settings.quote_style, quote);
            lemma_note_markup_count(settings.note_style, note);
            lemma_dash_free_count(j);
            lemma_count_join(q, j);
            lemma_count_join(q + j, note_markup(settings.note_style, note));
        },
    }
    lemma_count_join(sep, body);
    lemma_dash_free_count(newline());
    lemma_count_join(sep + body, newline());
    let location = h.location();
    let label = location_label() + decimal(location.value);
    lemma_decimal_dash_free(location.value);
    let p = seq!['['] + label + seq![']', '('];
    assert(dash_free(p)) by {
        assert forall|i: int| 0 <= i < p.len() implies p[i] != '-' by {
            if 1 <= i < 10 {
                assert(p[i] == location_label()[i - 1]);
            } else if 10 <= i < p.len() - 2 {
                assert(p[i] == decimal(location.value)[i - 10]);
            }
        }
    }
    let ll = location_line(location);
    assert(ll =~= p + location.link + seq![')', '\n']);
    lemma_count_wrapped(p, location.link, seq![')', '\n']);
    lemma_count_join(sep + body + newline(), ll);
}

proof fn lemma_sections_count(settings: SettingsModel, hs: Seq<HighlightModel>)
    requires
        forall|i: int| 0 <= i < hs.len() ==> #[trigger] highlight_free_of_rules(hs[i]),
    ensures
        rule_count(highlight_sections(settings, hs)) == if settings.split_lines_enabled {
            hs.len()
        } else {
            0
        },
    decreases hs.len(),
{
    if hs.len() > 0 {
        let init = hs.drop_last();
        assert forall|i: int| 0 <= i < init.len() implies #[trigger] highlight_free_of_rules(
            init[i],
        ) by {
            assert(init[i] == hs[i]);
        }
        lemma_sections_count(settings, init);
        assert(highlight_free_of_rules(hs[hs.len() - 1]));
        lemma_section_count(settings, hs.last());
        lemma_count_join(highlight_sections(settings, init), highlight_section(settings, hs.last()));
    }
}

/// With split lines off no `---` occurs anywhere in the document; with split
/// lines on `---` occurs exactly once per highlight. Texts of the book that
/// themselves hold `---` are left out.
pub proof fn lemma_rule_lines(renderer: MarkdownRenderer, book: Book)
    requires
        book_free_of_rules(book@),
    ensures
        rule_count(renderer.document(book@)) == if renderer@.split_lines_enabled {
            book@.highlights.len()
        } else {
            0
        },
{
    let b = book@;
    let a = seq!['#', ' '];
    let m = seq!['\n', '\n', '*', 'b', 'y', ' '];
    let z = seq!['*', '\n', '\n'];
    let header = book_header(b);
    assert(header =~= a + b.title + m + b.authors + z);
    lemma_count_wrapped(a, b.title, m);
    lemma_count_join(a + b.title + m, b.authors);
    lemma_dash_free_count(z);
    lemma_count_join(a + b.title + m + b.authors, z);
    lemma_sections_count(renderer@, b.highlights);
    lemma_count_join(header, highlight_sections(renderer@, b.highlights));
}

} // verus!
