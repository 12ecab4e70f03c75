//! Unified tool state: the single source of truth for which editing tool is
//! active, the previously active tool, and a stack of temporarily active tools
//! (such as holding the space bar to pan).

use vstd::prelude::*;
use crate::strings::str_equals;

verus! {

/// Identifier of an editing tool.
#[derive(Debug, Clone, Copy, PartialEq, Eq, Structural, Hash)]
pub enum ToolId {
    Select,
    Pen,
    Knife,
    Pan,
    Text,
    Shapes,
    Measure,
    Hyper,
    Metaballs,
    Ai,
}

impl Default for ToolId {
    fn default() -> (r: Self)
        ensures
            r == ToolId::Select,
    {
        ToolId::Select
    }
}

/// Abstract state of a [`ToolState`].
pub struct ToolStateView {
    pub active: ToolId,
    pub changed: bool,
    pub previous: Option<ToolId>,
    pub stack: Seq<ToolId>,
}

/// The single source of truth for which tool is currently active.
#[derive(Debug)]
pub struct ToolState {
    /// Currently active tool
    pub active: ToolId,
    /// Whether the active tool changed this frame
    pub active_changed: bool,
    /// Previous tool (for undo and temporary modes)
    pub previous: Option<ToolId>,
    /// Stack of tools to return to after temporary tool modes
    pub temporary_stack: Vec<ToolId>,
}

impl View for ToolState {
    type V = ToolStateView;

    open spec fn view(&self) -> ToolStateView {
        ToolStateView {
            active: self.active,
            changed: self.active_changed,
            previous: self.previous,
            stack: self.temporary_stack@,
        }
    }
}


/// The state after switching to `tool`: a different tool becomes active and
/// the old one is remembered; switching to the active tool changes nothing.
pub open spec fn activated(s: ToolStateView, tool: ToolId) -> ToolStateView {
    if s.active != tool {
        ToolStateView { active: tool, changed: true, previous: Some(s.active), stack: s.stack }
    } else {
        s
    }
}

/// The state after temporarily switching to `tool`: the active tool is saved
/// on the stack.
pub open spec fn pushed(s: ToolStateView, tool: ToolId) -> ToolStateView {
    ToolStateView { active: tool, changed: true, previous: s.previous, stack: s.stack.push(s.active) }
}

/// The state after leaving a temporary tool: the tool on top of the stack
/// becomes active again; with an empty stack nothing changes.
pub open spec fn popped(s: ToolStateView) -> ToolStateView {
    if s.stack.len() > 0 {
        ToolStateView {
            active: s.stack.last(),
            changed: true,
            previous: s.previous,
            stack: s.stack.drop_last(),
        }
    } else {
        s
    }
}

/// The state after the end-of-frame reset of the change flag.
pub open spec fn cleared(s: ToolStateView) -> ToolStateView {
    ToolStateView { changed: false, ..s }
}

impl ToolState {
    /// The state at startup: the select tool, unchanged, with no history.
    pub fn new() -> (r: Self)
        ensures
            r@ == (ToolStateView {
                active: ToolId::Select,
                changed: false,
                previous: None,
                stack: Seq::<ToolId>::empty(),
            }),
    {
        ToolState {
            active: ToolId::Select,
            active_changed: false,
            previous: None,
            temporary_stack: Vec::new(),
        }
    }

    /// Switch to a new tool.
    pub fn activate(&mut self, tool: ToolId)
        ensures
            final(self)@ == activated(old(self)@, tool),
    {
        if self.active != tool {
            self.previous = Some(self.active);
            self.active = tool;
            self.active_changed = true;
        }
    }

    /// Push a temporary tool (like spacebar pan).
    pub fn push_temporary(&mut self, tool: ToolId)
        ensures
            final(self)@ == pushed(old(self)@, tool),
    {
        self.temporary_stack.push(self.active);
        self.active = tool;
        self.active_changed = true;
    }

    /// Pop the temporary tool and return to the one saved before it; returns
    /// whether there was one.
    pub fn pop_temporary(&mut self) -> (r: bool)
        ensures
            r == (old(self)@.stack.len() > 0),
            final(self)@ == popped(old(self)@),
    {
        if let Some(previous) = self.temporary_stack.pop() {
            self.active = previous;
            self.active_changed = true;
            true
        } else {
            false
        }
    }

    /// Whether the active tool changed this frame.
    pub fn just_changed(&self) -> (r: bool)
        ensures
            r == self@.changed,
    {
        self.active_changed
    }

    /// Reset the changed flag (called at the end of a frame).
    pub fn clear_changed(&mut self)
        ensures
            final(self)@ == cleared(old(self)@),
    {
        self.active_changed = false;
    }

    /// Whether `tool` is the active tool.
    pub fn is_active(&self, tool: ToolId) -> (r: bool)
        ensures
            r == (self@.active == tool),
    {
        self.active == tool
    }

    /// The previously active tool.
    pub fn previous(&self) -> (r: Option<ToolId>)
        ensures
            r == self@.previous,
    {
        self.previous
    }
}

impl Default for ToolState {
    fn default() -> (r: Self)
        ensures
            r@ == (ToolStateView {
                active: ToolId::Select,
                changed: false,
                previous: None,
                stack: Seq::<ToolId>::empty(),
            }),
    {
        ToolState::new()
    }
}

/// Leaving a temporary tool returns to the tool that was active before it
/// and restores the stack of temporary tools.
pub proof fn push_then_pop_restores(s: ToolStateView, tool: ToolId)
    ensures
        popped(pushed(s, tool)).active == s.active,
        popped(pushed(s, tool)).stack == s.stack,
        popped(pushed(s, tool)).previous == s.previous,
{
    assert(pushed(s, tool).stack.drop_last() =~= s.stack);
}

/// Activating the tool that is already active changes nothing; activating
/// any tool makes it the active one.
pub proof fn activate_is_idempotent(s: ToolStateView, tool: ToolId)
    ensures
        activated(s, tool).active == tool,
        activated(activated(s, tool), tool) == activated(s, tool),
        s.active == tool ==> activated(s, tool) == s,
{
}

/// Leaving a temporary tool when none is active reports nothing done and
/// changes nothing.
pub proof fn pop_on_empty_stack_changes_nothing(s: ToolStateView)
    requires
        s.stack.len() == 0,
    ensures
        popped(s) == s,
{
}


/// The display name of a tool.
pub open spec fn tool_name(t: ToolId) -> Seq<char> {
    match t {
        ToolId::Select => "Select"@,
        ToolId::Pen => "Pen"@,
        ToolId::Knife => "Knife"@,
        ToolId::Pan => "Pan"@,
        ToolId::Text => "Text"@,
        ToolId::Shapes => "Shapes"@,
        ToolId::Measure => "Measure"@,
        ToolId::Hyper => "Hyper"@,
        ToolId::Metaballs => "Metaballs"@,
        ToolId::Ai => "AI"@,
    }
}

/// The string identifier of a tool, as used by the user interface.
pub open spec fn tool_key(t: ToolId) -> Seq<char> {
    match t {
        ToolId::Select => "select"@,
        ToolId::Pen => "pen"@,
        ToolId::Knife => "knife"@,
        ToolId::Pan => "pan"@,
        ToolId::Text => "text"@,
        ToolId::Shapes => "shapes"@,
        ToolId::Measure => "measure"@,
        ToolId::Hyper => "hyper"@,
        ToolId::Metaballs => "metaballs"@,
        ToolId::Ai => "ai"@,
    }
}

/// The tool whose string identifier is `s`, if any.
pub open spec fn tool_for_key(s: Seq<char>) -> Option<ToolId> {
    if s == "select"@ {
        Some(ToolId::Select)
    } else if s == "pen"@ {
        Some(ToolId::Pen)
    } else if s == "knife"@ {
        Some(ToolId::Knife)
    } else if s == "pan"@ {
        Some(ToolId::Pan)
    } else if s == "text"@ {
        Some(ToolId::Text)
    } else if s == "shapes"@ {
        Some(ToolId::Shapes)
    } else if s == "measure"@ {
        Some(ToolId::Measure)
    } else if s == "hyper"@ {
        Some(ToolId::Hyper)
    } else if s == "metaballs"@ {
        Some(ToolId::Metaballs)
    } else if s == "ai"@ {
        Some(ToolId::Ai)
    } else {
        None
    }
}

impl ToolId {
    /// The tool's display name.
    pub fn name(&self) -> (r: &'static str)
        ensures
            r@ == tool_name(*self),
    {
        match self {
            ToolId::Select => "Select",
            ToolId::Pen => "Pen",
            ToolId::Knife => "Knife",
            ToolId::Pan => "Pan",
            ToolId::Text => "Text",
            ToolId::Shapes => "Shapes",
            ToolId::Measure => "Measure",
            ToolId::Hyper => "Hyper",
            ToolId::Metaballs => "Metaballs",
            ToolId::Ai => "AI",
        }
    }

    /// Convert from a string identifier (used in the user interface).
    pub fn from_str(s: &str) -> (r: Option<Self>)
        ensures
            r == tool_for_key(s@),
    {
        if str_equals(s, "select") {
            Some(ToolId::Select)
        } else if str_equals(s, "pen") {
            Some(ToolId::Pen)
        } else if str_equals(s, "knife") {
            Some(ToolId::Knife)
        } else if str_equals(s, "pan") {
            Some(ToolId::Pan)
        } else if str_equals(s, "text") {
            Some(ToolId::Text)
        } else if str_equals(s, "shapes") {
            Some(ToolId::Shapes)
        } else if str_equals(s, "measure") {
            Some(ToolId::Measure)
        } else if str_equals(s, "hyper") {
            Some(ToolId::Hyper)
        } else if str_equals(s, "metaballs") {
            Some(ToolId::Metaballs)
        } else if str_equals(s, "ai") {
            Some(ToolId::Ai)
        } else {
            None
        }
    }

    /// Convert to the string identifier (used in the user interface).
    pub fn as_str(&self) -> (r: &'static str)
        ensures
            r@ == tool_key(*self),
    {
        match self {
            ToolId::Select => "select",
            ToolId::Pen => "pen",
            ToolId::Knife => "knife",
            ToolId::Pan => "pan",
            ToolId::Text => "text",
            ToolId::Shapes => "shapes",
            ToolId::Measure => "measure",
            ToolId::Hyper => "hyper",
            ToolId::Metaballs => "metaballs",
            ToolId::Ai => "ai",
        }
    }
}

/// Every tool is found again from its string identifier.
pub proof fn key_round_trip(t: ToolId)
    ensures
        tool_for_key(tool_key(t)) == Some(t),
{
    reveal_strlit("select");
    reveal_strlit("pen");
    reveal_strlit("knife");
    reveal_strlit("pan");
    reveal_strlit("text");
    reveal_strlit("shapes");
    reveal_strlit("measure");
    reveal_strlit("hyper");
    reveal_strlit("metaballs");
    reveal_strlit("ai");
    let keys = seq!["select"@, "pen"@, "knife"@, "pan"@, "text"@, "shapes"@, "measure"@, "hyper"@, "metaballs"@, "ai"@];
    assert forall|i: int, j: int| 0 <= i < j < 10 implies keys[i] != keys[j] by {
        assert(keys[i].len() != keys[j].len() || keys[i][0] != keys[j][0] || keys[i][1] != keys[j][1]);
    }
    assert(keys[0] == "select"@);
    assert(keys[1] == "pen"@);
    assert(keys[2] == "knife"@);
    assert(keys[3] == "pan"@);
    assert(keys[4] == "text"@);
    assert(keys[5] == "shapes"@);
    assert(keys[6] == "measure"@);
    assert(keys[7] == "hyper"@);
    assert(keys[8] == "metaballs"@);
    assert(keys[9] == "ai"@);
}

/// How the editor interprets pointer and key input.
#[derive(Debug, Clone, Copy, PartialEq, Eq, Structural)]
pub enum InputMode {
    Normal,
    Select,
    Pen,
    Knife,
    Pan,
    Text,
    Shape,
    Measure,
    Hyper,
    Metaball,
}

/// The input mode that goes with a tool.
pub open spec fn input_mode_for(tool: ToolId) -> InputMode {
    match tool {
        ToolId::Select => InputMode::Select,
        ToolId::Pen => InputMode::Pen,
        ToolId::Knife => InputMode::Knife,
        ToolId::Pan => InputMode::Pan,
        ToolId::Text => InputMode::Text,
        ToolId::Shapes => InputMode::Shape,
        ToolId::Measure => InputMode::Measure,
        ToolId::Hyper => InputMode::Hyper,
        ToolId::Metaballs => InputMode::Metaball,
        ToolId::Ai => InputMode::Normal,
    }
}

/// A request to switch tools, for good or temporarily.
#[derive(Debug, Clone, Copy, PartialEq, Eq, Structural)]
pub struct SwitchToolEvent {
    pub tool: ToolId,
    pub temporary: bool,
}

/// The tool state after one switch request.
pub open spec fn switched(s: ToolStateView, ev: SwitchToolEvent) -> ToolStateView {
    if ev.temporary {
        pushed(s, ev.tool)
    } else {
        activated(s, ev.tool)
    }
}

/// The tool state after a run of switch requests.
pub open spec fn switched_all(s: ToolStateView, evs: Seq<SwitchToolEvent>) -> ToolStateView
    decreases evs.len(),
{
    if evs.len() == 0 {
        s
    } else {
        switched_all(switched(s, evs[0]), evs.drop_first())
    }
}

/// Apply the switch requests of one frame in order, and set the input mode
/// to that of the last requested tool.
pub fn handle_tool_switch(tool_state: &mut ToolState, events: &Vec<SwitchToolEvent>, input_mode: &mut InputMode)
    ensures
        final(tool_state)@ == switched_all(old(tool_state)@, events@),
        *final(input_mode) == if events@.len() == 0 {
            *old(input_mode)
        } else {
            input_mode_for(events@.last().tool)
        },
{
    let ghost goal = switched_all(tool_state@, events@);
    let mut i: usize = 0;
    assert(events@.skip(0) =~= events@);
    while i < events.len()
        invariant
            i <= events@.len(),
            switched_all(tool_state@, events@.skip(i as int)) == goal,
            *input_mode == if i == 0 {
                *old(input_mode)
            } else {
                input_mode_for(events@[i - 1].tool)
            },
        decreases events@.len() - i,
    {
        let event = events[i];
        assert(events@.skip(i as int)[0] == event);
        assert(events@.skip(i as int).drop_first() =~= events@.skip(i as int + 1));
        if event.temporary {
            tool_state.push_temporary(event.tool);
        } else {
            tool_state.activate(event.tool);
        }
        *input_mode = match event.tool {
            ToolId::Select => InputMode::Select,
            ToolId::Pen => InputMode::Pen,
            ToolId::Knife => InputMode::Knife,
            ToolId::Pan => InputMode::Pan,
            ToolId::Text => InputMode::Text,
            ToolId::Shapes => InputMode::Shape,
            ToolId::Measure => InputMode::Measure,
            ToolId::Hyper => InputMode::Hyper,
            ToolId::Metaballs => InputMode::Metaball,
            ToolId::Ai => InputMode::Normal,
        };
        i = i + 1;
    }
    assert(events@.skip(events@.len() as int).len() == 0);
}

/// The tool name the toolbar switches to at the end of a frame: the active
/// tool's identifier when the tool changed this frame.
pub fn sync_current_tool(tool_state: &ToolState) -> (r: Option<&'static str>)
    ensures
        match r {
            Some(name) => tool_state@.changed && name@ == tool_key(tool_state@.active),
            None => !tool_state@.changed,
        },
{
    if tool_state.just_changed() {
        Some(tool_state.active.as_str())
    } else {
        None
    }
}

/// End of frame: the changed flag is reset.
pub fn clear_tool_changed(tool_state: &mut ToolState)
    ensures
        final(tool_state)@ == cleared(old(tool_state)@),
{
    tool_state.clear_changed();
}

/// The run condition of systems that belong to one tool: whether `tool` is
/// the active tool.
pub fn tool_is_active(tool: ToolId, tool_state: &ToolState) -> (r: bool)
    ensures
        r == (tool_state@.active == tool),
{
    tool_state.is_active(tool)
}

/// Brings a tool's mode flag in line with the tool state: the flag is set
/// exactly while the tool is active. Returns whether the tool was just
/// deactivated, which is when its gesture state is to be reset.
pub fn sync_tool_mode(tool_state: &ToolState, tool: ToolId, mode_active: &mut bool) -> (just_deactivated: bool)
    ensures
        *final(mode_active) == (tool_state@.active == tool),
        just_deactivated == (*old(mode_active) && tool_state@.active != tool),
{
    let should_be_active = tool_state.is_active(tool);
    if *mode_active != should_be_active {
        *mode_active = should_be_active;
        !should_be_active
    } else {
        false
    }
}

} // verus!
