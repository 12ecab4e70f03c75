//! The drawing tools of the toolbar: what the toolbar shows for each, and
//! what entering and leaving a tool switches.

use vstd::prelude::*;
use crate::tools::tool_state::InputMode;

verus! {

/// What the toolbar shows for a tool.
#[derive(Debug, Clone, Copy)]
pub struct ToolInfo {
    /// The tool's identifier.
    pub name: &'static str,
    pub display_name: &'static str,
    /// The tool's glyph in the icon font.
    pub icon: &'static str,
    pub tooltip: &'static str,
    /// The key that selects the tool.
    pub shortcut: Option<char>,
}

/// Entering a tool: its mode flag is set and input goes to its mode.
fn enter_mode(mode_active: &mut bool, input_mode: &mut InputMode, mode: InputMode)
    ensures
        *final(mode_active),
        *final(input_mode) == mode,
{
    *mode_active = true;
    *input_mode = mode;
}

/// Leaving a tool: its mode flag is cleared and input returns to normal.
fn leave_mode(mode_active: &mut bool, input_mode: &mut InputMode)
    ensures
        !*final(mode_active),
        *final(input_mode) == InputMode::Normal,
{
    *mode_active = false;
    *input_mode = InputMode::Normal;
}

/// The select tool.
pub struct SelectTool;

impl SelectTool {
    pub fn info(&self) -> (r: ToolInfo)
        ensures
            r.name@ == "select"@,
            r.display_name@ == "Select"@,
            r.icon@ == "\u{E010}"@,
            r.tooltip@ == "Select and manipulate objects"@,
            r.shortcut == Some('v'),
    {
        ToolInfo {
            name: "select",
            display_name: "Select",
            icon: "\u{E010}",
            tooltip: "Select and manipulate objects",
            shortcut: Some('v'),
        }
    }

    pub fn on_activate(&self, mode_active: &mut bool, input_mode: &mut InputMode)
        ensures
            *final(mode_active),
            *final(input_mode) == InputMode::Select,
    {
        enter_mode(mode_active, input_mode, InputMode::Select);
    }

    pub fn on_deactivate(&self, mode_active: &mut bool, input_mode: &mut InputMode)
        ensures
            !*final(mode_active),
            *final(input_mode) == InputMode::Normal,
    {
        leave_mode(mode_active, input_mode);
    }
}

/// The knife tool, which cuts contours.
pub struct KnifeTool;

impl KnifeTool {
    pub fn info(&self) -> (r: ToolInfo)
        ensures
            r.name@ == "knife"@,
            r.display_name@ == "Knife"@,
            r.icon@ == "\u{E012}"@,
            r.tooltip@ == "Cut contours at specific points"@,
            r.shortcut == Some('k'),
    {
        ToolInfo {
            name: "knife",
            display_name: "Knife",
            icon: "\u{E012}",
            tooltip: "Cut contours at specific points",
            shortcut: Some('k'),
        }
    }

    pub fn on_activate(&self, mode_active: &mut bool, input_mode: &mut InputMode)
        ensures
            *final(mode_active),
            *final(input_mode) == InputMode::Knife,
    {
        enter_mode(mode_active, input_mode, InputMode::Knife);
    }

    pub fn on_deactivate(&self, mode_active: &mut bool, input_mode: &mut InputMode)
        ensures
            !*final(mode_active),
            *final(input_mode) == InputMode::Normal,
    {
        leave_mode(mode_active, input_mode);
    }
}

/// The measure tool, for distances and angles.
pub struct MeasureTool;

impl MeasureTool {
    pub fn info(&self) -> (r: ToolInfo)
        ensures
            r.name@ == "measure"@,
            r.display_name@ == "Measure"@,
            r.icon@ == "\u{E015}"@,
            r.tooltip@ == "Measure distances and angles"@,
            r.shortcut == Some('m'),
    {
        ToolInfo {
            name: "measure",
            display_name: "Measure",
            icon: "\u{E015}",
            tooltip: "Measure distances and angles",
            shortcut: Some('m'),
        }
    }

    pub fn on_activate(&self, mode_active: &mut bool, input_mode: &mut InputMode)
        ensures
            *final(mode_active),
            *final(input_mode) == InputMode::Measure,
    {
        enter_mode(mode_active, input_mode, InputMode::Measure);
    }

    pub fn on_deactivate(&self, mode_active: &mut bool, input_mode: &mut InputMode)
        ensures
            !*final(mode_active),
            *final(input_mode) == InputMode::Normal,
    {
        leave_mode(mode_active, input_mode);
    }
}

/// The shapes tool, for rectangles and ovals.
pub struct ShapesTool;

impl ShapesTool {
    pub fn info(&self) -> (r: ToolInfo)
        ensures
            r.name@ == "shapes"@,
            r.display_name@ == "Shapes"@,
            r.icon@ == "\u{E016}"@,
            r.tooltip@ == "Create geometric shapes"@,
            r.shortcut == Some('r'),
    {
        ToolInfo {
            name: "shapes",
            display_name: "Shapes",
            icon: "\u{E016}",
            tooltip: "Create geometric shapes",
            shortcut: Some('r'),
        }
    }

    pub fn on_activate(&self, mode_active: &mut bool, input_mode: &mut InputMode)
        ensures
            *final(mode_active),
            *final(input_mode) == InputMode::Shape,
    {
        enter_mode(mode_active, input_mode, InputMode::Shape);
    }

    pub fn on_deactivate(&self, mode_active: &mut bool, input_mode: &mut InputMode)
        ensures
            !*final(mode_active),
            *final(input_mode) == InputMode::Normal,
    {
        leave_mode(mode_active, input_mode);
    }
}

} // verus!
