//! Core of a terminal text editor: grapheme-aware text rows, a row-addressed
//! buffer with structural edits, and a viewport engine that keeps the cursor
//! visible under minimal scrolling.
//!
//! The model reconciles three coordinate systems: byte content, grapheme
//! cluster index (the cursor position), and rendered screen column (each
//! cluster occupies one or two columns on screen).

pub mod buffer;
pub mod command;
pub mod editor;
pub mod geometry;
pub mod grapheme;
pub mod line;
pub mod view;

pub use geometry::{Position, Size};
