//! Input formats to read highlights from.
pub mod bookcision;
