//! The Path tab: path editing tools.

use vstd::prelude::*;

verus! {

/// State of the Path tab; it holds nothing yet.
#[derive(Debug, Clone)]
pub struct PathState {}

impl PathState {
    /// The Path tab's state.
    pub fn new() -> (r: Self)
        ensures
            r == (PathState {}),
    {
        PathState {}
    }
}

} // verus!
