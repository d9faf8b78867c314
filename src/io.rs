//! Text output.
pub mod terminal;
