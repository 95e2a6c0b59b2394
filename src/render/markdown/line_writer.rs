//! Writer of whole Markdown lines: each element ends with its own line feed.
use vstd::prelude::*;

use crate::render::markdown::markup::{
    blockquote_markup, blockquote_prefix, bold_markup, heading_markup, italic_markup,
    line_of, link_markup, newline, rule_markup,
};

verus! {

/// Emits Markdown elements, one line each, onto a text buffer.
pub struct MarkdownWriter {
    writer: String,
}

impl View for MarkdownWriter {
    type V = Seq<char>;

    /// The text written so far.
    closed spec fn view(&self) -> Seq<char> {
        self.writer@
    }
}

impl MarkdownWriter {
    /// Writer that appends to `writer`.
    pub fn new(writer: String) -> (r: Self)
        ensures
            r@ == writer@,
    {
        MarkdownWriter { writer }
    }

    /// The text written so far, including what `writer` held at the start.
    pub fn into_inner(self) -> (r: String)
        ensures
            r@ == self@,
    {
        self.writer
    }

    /// `# {title}` and a line feed.
    pub fn heading(&mut self, title: &str)
        ensures
            final(self)@ == old(self)@ + line_of(heading_markup(title@)),
    {
        proof {
            reveal_strlit("# ");
            reveal_strlit("\n");
        }
        self.writer.append("# ");
        self.writer.append(title);
        self.writer.append("\n");
        assert(self@ =~= old(self)@ + line_of(heading_markup(title@)));
    }

    /// `> {quote}` and a line feed.
    pub fn blockquote(&mut self, quote: &str)
        ensures
            final(self)@ == old(self)@ + line_of(blockquote_markup(quote@)),
    {
        proof {
            reveal_strlit("> ");
            reveal_strlit("\n");
        }
        self.writer.append("> ");
        self.writer.append(quote);
        self.writer.append("\n");
        assert(self@ =~= old(self)@ + line_of(blockquote_markup(quote@)));
    }

    /// `> `, which opens a line of a blockquote.
    pub fn start_blockquote(&mut self)
        ensures
            final(self)@ == old(self)@ + blockquote_prefix(),
    {
        proof {
            reveal_strlit("> ");
        }
        self.writer.append("> ");
        assert(self@ =~= old(self)@ + blockquote_prefix());
    }

    /// `{text}` and a line feed.
    pub fn text(&mut self, text: &str)
        ensures
            final(self)@ == old(self)@ + line_of(text@),
    {
        proof {
            reveal_strlit("\n");
        }
        self.writer.append(text);
        self.writer.append("\n");
        assert(self@ =~= old(self)@ + line_of(text@));
    }

    /// `**{text}**` and a line feed.
    pub fn bold(&mut self, text: &str)
        ensures
            final(self)@ == old(self)@ + line_of(bold_markup(text@)),
    {
        proof {
            reveal_strlit("**");
            reveal_strlit("**\n");
        }
        self.writer.append("**");
        self.writer.append(text);
        self.writer.append("**\n");
        assert(self@ =~= old(self)@ + line_of(bold_markup(text@)));
    }

    /// `*{text}*` and a line feed.
    pub fn italic(&mut self, text: &str)
        ensures
            final(self)@ == old(self)@ + line_of(italic_markup(text@)),
    {
        proof {
            reveal_strlit("*");
            reveal_strlit("*\n");
        }
        self.writer.append("*");
        self.writer.append(text);
        self.writer.append("*\n");
        assert(self@ =~= old(self)@ + line_of(italic_markup(text@)));
    }

    /// `[{title}]({url})` and a line feed.
    pub fn link(&mut self, title: &str, url: &str)
        ensures
            final(self)@ == old(self)@ + line_of(link_markup(title@, url@)),
    {
        proof {
            reveal_strlit("[");
            reveal_strlit("](");
            reveal_strlit(")\n");
        }
        self.writer.append("[");
        self.writer.append(title);
        self.writer.append("](");
        self.writer.append(url);
        self.writer.append(")\n");
        assert(self@ =~= old(self)@ + line_of(link_markup(title@, url@)));
    }

    /// `---` and a line feed.
    pub fn line(&mut self)
        ensures
            final(self)@ == old(self)@ + line_of(rule_markup()),
    {
        proof {
            reveal_strlit("---\n");
        }
        self.writer.append("---\n");
        assert(self@ =~= old(self)@ + line_of(rule_markup()));
    }

    /// A line feed.
    pub fn lf(&mut self)
        ensures
            final(self)@ == old(self)@ + newline(),
    {
        proof {
            reveal_strlit("\n");
        }
        self.writer.append("\n");
        assert(self@ =~= old(self)@ + newline());
    }
}

} // verus!
