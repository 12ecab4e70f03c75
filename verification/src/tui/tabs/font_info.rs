//! The Font Info tab: the font's naming and metrics.

use vstd::prelude::*;
use crate::tui::communication::FontInfo;

verus! {

/// State of the Font Info tab.
#[derive(Debug, Clone)]
pub struct FontInfoState {
    pub font_info: Option<FontInfo>,
}

impl FontInfoState {
    /// No font information yet.
    pub fn new() -> (r: Self)
        ensures
            r.font_info is None,
    {
        FontInfoState { font_info: None }
    }

    /// Show `info`.
    pub fn update(&mut self, info: FontInfo)
        ensures
            final(self).font_info == Some(info),
    {
        self.font_info = Some(info);
    }
}

impl Default for FontInfoState {
    fn default() -> (r: Self)
        ensures
            r.font_info is None,
    {
        FontInfoState::new()
    }
}

} // verus!
