//! The text editor: sorts laid out in text buffers, the buffer cursor, and
//! the editing operations that typing performs on them.

pub mod buffer;
pub mod buffer_manager;
pub mod editing;
pub mod flow;
pub mod font;
pub mod glyph_selection;
pub mod input;
pub mod legacy;
pub mod navigation;
pub mod placement;
