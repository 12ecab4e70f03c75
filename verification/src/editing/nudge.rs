//! Nudging selected points with the arrow keys.

use vstd::prelude::*;

verus! {

/// Whether a nudge is under way and when the last one happened.
#[derive(Debug, Clone, Copy, PartialEq, Eq, Structural)]
pub struct NudgeState {
    pub is_nudging: bool,
    /// Time of the last nudge, in milliseconds since startup.
    pub last_nudge_time: u64,
}

impl Default for NudgeState {
    /// Not nudging, never nudged.
    fn default() -> (r: Self)
        ensures
            r == (NudgeState { is_nudging: false, last_nudge_time: 0 }),
    {
        NudgeState { is_nudging: false, last_nudge_time: 0 }
    }
}

/// Announces that the selection was edited (moved by a nudge), so that
/// what depends on it is brought up to date.
#[derive(Debug, Clone, Copy, PartialEq, Eq, Structural)]
pub struct EditEvent {}

} // verus!
