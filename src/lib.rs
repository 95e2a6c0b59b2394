//! Convert book highlights (quotes, margin notes and commented quotes) into
//! styled Markdown documents.
pub mod error;
pub mod highlights;
pub mod input;
pub mod render;

pub use error::HighlightError;
