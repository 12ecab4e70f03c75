//! Editing of glyph outlines.

pub mod nudge;
pub mod selection;
