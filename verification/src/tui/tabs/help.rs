//! The Help tab: the key bindings.

use vstd::prelude::*;

verus! {

/// State of the Help tab.
#[derive(Debug, Clone)]
pub struct HelpState {
    pub scroll_offset: usize,
}

impl HelpState {
    /// At the top.
    pub fn new() -> (r: Self)
        ensures
            r.scroll_offset == 0,
    {
        HelpState { scroll_offset: 0 }
    }
}

} // verus!
