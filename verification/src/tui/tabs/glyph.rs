//! The Glyph tab: the glyph being edited.

use vstd::prelude::*;

verus! {

/// State of the Glyph tab.
#[derive(Debug, Clone)]
pub struct GlyphState {
    pub current_glyph: Option<String>,
}

impl GlyphState {
    /// No glyph yet.
    pub fn new() -> (r: Self)
        ensures
            r.current_glyph is None,
    {
        GlyphState { current_glyph: None }
    }
}

} // verus!
