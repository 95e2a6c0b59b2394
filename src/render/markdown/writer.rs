//! Writer of Markdown fragments: no element ends its own line.
use vstd::prelude::*;

use crate::render::markdown::markup::{
    blockquote_markup, heading_markup, italic_markup, link_markup, newline, rule_markup,
};

verus! {

/// Emits Markdown elements onto a text buffer; line feeds are written
/// separately.
pub struct MarkdownWriter {
    writer: String,
}

impl View for MarkdownWriter {
    type V = Seq<char>;

    /// The text written so far.
    closed spec fn view(&self) -> Seq<char> {
        self.writer@
    }
}

impl MarkdownWriter {
    /// Writer that appends to `writer`.
    pub fn new(writer: String) -> (r: Self)
        ensures
            r@ == writer@,
    {
        MarkdownWriter { writer }
    }

    /// The text written so far, including what `writer` held at the start.
    pub fn into_inner(self) -> (r: String)
        ensures
            r@ == self@,
    {
        self.writer
    }

    /// `# {title}`
    pub fn heading(&mut self, title: &str)
        ensures
            final(self)@ == old(self)@ + heading_markup(title@),
    {
        proof {
            reveal_strlit("# ");
        }
        self.writer.append("# ");
        self.writer.append(title);
        assert(self@ =~= old(self)@ + heading_markup(title@));
    }

    /// `> {quote}`
    pub fn blockquote(&mut self, quote: &str)
        ensures
            final(self)@ == old(self)@ + blockquote_markup(quote@),
    {
        proof {
            reveal_strlit("> ");
        }
        self.writer.append("> ");
        self.writer.append(quote);
        assert(self@ =~= old(self)@ + blockquote_markup(quote@));
    }

    /// `{text}`
    pub fn text(&mut self, text: &str)
        ensures
            final(self)@ == old(self)@ + text@,
    {
        self.writer.append(text);
    }

    /// `*{text}*`
    pub fn italic(&mut self, text: &str)
        ensures
            final(self)@ == old(self)@ + italic_markup(text@),
    {
        proof {
            reveal_strlit("*");
        }
        self.writer.append("*");
        self.writer.append(text);
        self.writer.append("*");
        assert(self@ =~= old(self)@ + italic_markup(text@));
    }

    /// `[{title}]({url})`
    pub fn link(&mut self, title: &str, url: &str)
        ensures
            final(self)@ == old(self)@ + link_markup(title@, url@),
    {
        proof {
            reveal_strlit("[");
            reveal_strlit("](");
            reveal_strlit(")");
        }
        self.writer.append("[");
        self.writer.append(title);
        self.writer.append("](");
        self.writer.append(url);
        self.writer.append(")");
        assert(self@ =~= old(self)@ + link_markup(title@, url@));
    }

    /// `---`
    pub fn line(&mut self)
        ensures
            final(self)@ == old(self)@ + rule_markup(),
    {
        proof {
            reveal_strlit("---");
        }
        self.writer.append("---");
    }

    /// A line feed.
    pub fn lf(&mut self)
        ensures
            final(self)@ == old(self)@ + newline(),
    {
        proof {
            reveal_strlit("\n");
        }
        self.writer.append("\n");
    }

    /// Two line feeds, which end a block.
    pub fn end_block(&mut self)
        ensures
            final(self)@ == old(self)@ + newline() + newline(),
    {
        proof {
            reveal_strlit("\n\n");
        }
        self.writer.append("\n\n");
        assert(self@ =~= old(self)@ + newline() + newline());
    }
}

} // verus!
