//! Editor settings.

use vstd::prelude::*;

verus! {

/// How far the arrow keys move selected points, in font units.
#[derive(Debug, Clone, Copy, PartialEq, Eq, Structural)]
pub struct NudgeSettings {
    /// With no modifier.
    pub default: i32,
    /// With Shift held.
    pub shift: i32,
    /// With Cmd or Ctrl held.
    pub cmd: i32,
}

/// The editor's settings.
#[derive(Debug, Clone, Copy, PartialEq, Eq, Structural)]
pub struct BezySettings {
    pub nudge: NudgeSettings,
}

impl Default for NudgeSettings {
    /// One unit, ten with Shift, a hundred with Cmd or Ctrl.
    fn default() -> (r: Self)
        ensures
            r == (NudgeSettings { default: 1, shift: 10, cmd: 100 }),
            0 < r.default < r.shift < r.cmd,
    {
        NudgeSettings { default: 1, shift: 10, cmd: 100 }
    }
}

impl Default for BezySettings {
    fn default() -> (r: Self)
        ensures
            r.nudge == (NudgeSettings { default: 1, shift: 10, cmd: 100 }),
    {
        BezySettings { nudge: NudgeSettings::default() }
    }
}

} // verus!
