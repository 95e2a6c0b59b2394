//! Rendering abstraction to export highlights.
use vstd::prelude::*;

use crate::highlights::{Book, BookModel};

pub mod markdown;

verus! {

/// Render format to export book highlights.
pub trait Render {
    /// The document this renderer makes of a book.
    spec fn document(&self, book: BookModel) -> Seq<char>;

    /// Render book into specified output, after what it already holds.
    fn render(&self, book: &Book, out: &mut String)
        ensures
            final(out)@ == old(out)@ + self.document(book@),
    ;

    /// Renders book highlights into a new string.
    fn as_string(&self, book: &Book) -> (r: String)
        ensures
            r@ == self.document(book@),
    {
        let mut out = String::new();
        self.render(book, &mut out);
        assert(out@ =~= self.document(book@));
        out
    }
}

} // verus!
