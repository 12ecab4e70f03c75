//! The Edit tab: the editing commands and their shortcuts.

use vstd::prelude::*;

verus! {

/// State of the Edit tab.
#[derive(Debug, Clone)]
pub struct EditState {
    pub selected_index: usize,
}

impl EditState {
    /// The first command selected.
    pub fn new() -> (r: Self)
        ensures
            r.selected_index == 0,
    {
        EditState { selected_index: 0 }
    }
}

impl Default for EditState {
    fn default() -> (r: Self)
        ensures
            r.selected_index == 0,
    {
        EditState::new()
    }
}

} // verus!
