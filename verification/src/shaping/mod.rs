//! Arabic and right-to-left text shaping: contextual letter forms and the
//! glyph names that stand for them.

pub mod arabic;
pub mod harfbuzz;
pub mod rtl;
