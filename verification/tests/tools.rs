use bezy::tools::editing_tools::{KnifeTool, MeasureTool, SelectTool, ShapesTool};
use bezy::tools::input_routing::{route_input_event, should_handle_input, InputConsumerKind, InputEventKind};
use bezy::tools::tool_state::{
    clear_tool_changed, handle_tool_switch, sync_current_tool, sync_tool_mode, tool_is_active, InputMode,
    SwitchToolEvent,
};
use bezy::tools::{ToolId, ToolState};

#[test]
fn test_tool_state_activation() {
    let mut tool_state = ToolState::default();

    // Default should be Select
    assert_eq!(tool_state.active, ToolId::Select);
    assert!(!tool_state.just_changed());

    // Activate Pen tool
    tool_state.activate(ToolId::Pen);
    assert_eq!(tool_state.active, ToolId::Pen);
    assert!(tool_state.just_changed());
    assert_eq!(tool_state.previous(), Some(ToolId::Select));

    // Clear changed flag
    tool_state.clear_changed();
    assert!(!tool_state.just_changed());

    // Activate same tool (no change)
    tool_state.activate(ToolId::Pen);
    assert!(!tool_state.just_changed());
}

#[test]
fn test_temporary_tool_stack() {
    let mut tool_state = ToolState::default();

    // Start with Select
    assert_eq!(tool_state.active, ToolId::Select);

    // Push temporary Pan tool
    tool_state.push_temporary(ToolId::Pan);
    assert_eq!(tool_state.active, ToolId::Pan);
    assert!(tool_state.just_changed());

    // Pop back to Select
    let popped = tool_state.pop_temporary();
    assert!(popped);
    assert_eq!(tool_state.active, ToolId::Select);
    assert!(tool_state.just_changed());

    // Pop when empty returns false
    tool_state.clear_changed();
    let popped = tool_state.pop_temporary();
    assert!(!popped);
    assert!(!tool_state.just_changed());
}

#[test]
fn test_tool_id_conversion() {
    // Test string conversion
    assert_eq!(ToolId::from_str("select"), Some(ToolId::Select));
    assert_eq!(ToolId::from_str("pen"), Some(ToolId::Pen));
    assert_eq!(ToolId::from_str("invalid"), None);

    // Test to string
    assert_eq!(ToolId::Select.as_str(), "select");
    assert_eq!(ToolId::Pen.as_str(), "pen");

    // Test display name
    assert_eq!(ToolId::Select.name(), "Select");
    assert_eq!(ToolId::Pen.name(), "Pen");
}

#[test]
fn test_tool_is_active() {
    let mut tool_state = ToolState::default();

    assert!(tool_state.is_active(ToolId::Select));
    assert!(!tool_state.is_active(ToolId::Pen));

    tool_state.activate(ToolId::Pen);
    assert!(!tool_state.is_active(ToolId::Select));
    assert!(tool_state.is_active(ToolId::Pen));
}

#[test]
fn nested_temporary_tools_unwind_in_order() {
    let mut tool_state = ToolState::new();
    tool_state.activate(ToolId::Knife);
    tool_state.push_temporary(ToolId::Pan);
    tool_state.push_temporary(ToolId::Measure);
    assert_eq!(tool_state.active, ToolId::Measure);
    assert!(tool_state.pop_temporary());
    assert_eq!(tool_state.active, ToolId::Pan);
    assert!(tool_state.pop_temporary());
    assert_eq!(tool_state.active, ToolId::Knife);
    assert!(!tool_state.pop_temporary());
    assert_eq!(tool_state.active, ToolId::Knife);
    // The previous tool is untouched by temporary tools.
    assert_eq!(tool_state.previous(), Some(ToolId::Select));
}

#[test]
fn every_tool_round_trips_through_its_key() {
    let all = [
        ToolId::Select,
        ToolId::Pen,
        ToolId::Knife,
        ToolId::Pan,
        ToolId::Text,
        ToolId::Shapes,
        ToolId::Measure,
        ToolId::Hyper,
        ToolId::Metaballs,
        ToolId::Ai,
    ];
    for t in all {
        assert_eq!(ToolId::from_str(t.as_str()), Some(t));
    }
    assert_eq!(ToolId::Ai.name(), "AI");
    assert_eq!(ToolId::Metaballs.as_str(), "metaballs");
    assert_eq!(ToolId::from_str("Select"), None);
    assert_eq!(ToolId::from_str(""), None);
    assert_eq!(ToolId::default(), ToolId::Select);
}

#[test]
fn switch_events_apply_in_order_and_set_the_input_mode() {
    let mut tool_state = ToolState::default();
    let mut mode = InputMode::Normal;
    handle_tool_switch(&mut tool_state, &vec![], &mut mode);
    assert_eq!(mode, InputMode::Normal);
    assert_eq!(tool_state.active, ToolId::Select);

    let events = vec![
        SwitchToolEvent { tool: ToolId::Pen, temporary: false },
        SwitchToolEvent { tool: ToolId::Pan, temporary: true },
    ];
    handle_tool_switch(&mut tool_state, &events, &mut mode);
    assert_eq!(tool_state.active, ToolId::Pan);
    assert_eq!(tool_state.previous(), Some(ToolId::Select));
    assert_eq!(mode, InputMode::Pan);
    assert!(tool_state.pop_temporary());
    assert_eq!(tool_state.active, ToolId::Pen);

    let events = vec![SwitchToolEvent { tool: ToolId::Shapes, temporary: false }];
    handle_tool_switch(&mut tool_state, &events, &mut mode);
    assert_eq!(mode, InputMode::Shape);
    let events = vec![SwitchToolEvent { tool: ToolId::Ai, temporary: false }];
    handle_tool_switch(&mut tool_state, &events, &mut mode);
    assert_eq!(mode, InputMode::Normal);
}

#[test]
fn toolbar_follows_changes_and_frames_clear_them() {
    let mut tool_state = ToolState::default();
    assert_eq!(sync_current_tool(&tool_state), None);
    tool_state.activate(ToolId::Knife);
    assert_eq!(sync_current_tool(&tool_state), Some("knife"));
    assert!(tool_is_active(ToolId::Knife, &tool_state));
    assert!(!tool_is_active(ToolId::Select, &tool_state));
    clear_tool_changed(&mut tool_state);
    assert!(!tool_state.just_changed());
    assert_eq!(sync_current_tool(&tool_state), None);
    assert_eq!(tool_state.active, ToolId::Knife);
}

#[test]
fn input_goes_to_the_consumer_of_the_mode() {
    assert_eq!(route_input_event(InputEventKind::MouseClick, InputMode::Knife), Some(InputConsumerKind::Knife));
    assert_eq!(route_input_event(InputEventKind::MouseDrag, InputMode::Select), Some(InputConsumerKind::Selection));
    assert_eq!(route_input_event(InputEventKind::MouseClick, InputMode::Measure), Some(InputConsumerKind::Measure));
    assert_eq!(route_input_event(InputEventKind::KeyPress, InputMode::Text), Some(InputConsumerKind::Text));
    assert_eq!(route_input_event(InputEventKind::TextInput, InputMode::Text), Some(InputConsumerKind::Text));
    // Keys outside text mode, and wheel events in text mode, go nowhere.
    assert_eq!(route_input_event(InputEventKind::KeyPress, InputMode::Select), None);
    assert_eq!(route_input_event(InputEventKind::MouseWheel, InputMode::Text), None);
    // The camera takes the wheel in other modes, and drags nobody else takes.
    assert_eq!(route_input_event(InputEventKind::MouseWheel, InputMode::Select), Some(InputConsumerKind::Camera));
    assert_eq!(route_input_event(InputEventKind::MouseDrag, InputMode::Pan), Some(InputConsumerKind::Camera));
    // Pen input is handled by the pen tool's own systems, not by routing.
    assert_eq!(route_input_event(InputEventKind::MouseClick, InputMode::Pen), None);
    assert!(should_handle_input(InputConsumerKind::Pen, InputEventKind::MouseRelease, InputMode::Pen));
    assert!(!should_handle_input(InputConsumerKind::Pen, InputEventKind::MouseRelease, InputMode::Select));
    assert!(!should_handle_input(InputConsumerKind::Camera, InputEventKind::MouseDrag, InputMode::Text));
    assert!(!should_handle_input(InputConsumerKind::Selection, InputEventKind::Other, InputMode::Select));
}

#[test]
fn toolbar_entries_and_entering_tools() {
    let info = KnifeTool.info();
    assert_eq!(info.name, "knife");
    assert_eq!(info.display_name, "Knife");
    assert_eq!(info.icon, "\u{E012}");
    assert_eq!(info.shortcut, Some('k'));
    assert_eq!(SelectTool.info().tooltip, "Select and manipulate objects");
    assert_eq!(MeasureTool.info().shortcut, Some('m'));
    assert_eq!(ShapesTool.info().name, "shapes");

    let mut active = false;
    let mut mode = InputMode::Normal;
    ShapesTool.on_activate(&mut active, &mut mode);
    assert!(active);
    assert_eq!(mode, InputMode::Shape);
    ShapesTool.on_deactivate(&mut active, &mut mode);
    assert!(!active);
    assert_eq!(mode, InputMode::Normal);
    MeasureTool.on_activate(&mut active, &mut mode);
    assert_eq!(mode, InputMode::Measure);
}

#[test]
fn mode_flags_follow_the_active_tool() {
    let mut tool_state = ToolState::default();
    let mut knife_mode = false;
    assert!(!sync_tool_mode(&tool_state, ToolId::Knife, &mut knife_mode));
    assert!(!knife_mode);
    tool_state.activate(ToolId::Knife);
    assert!(!sync_tool_mode(&tool_state, ToolId::Knife, &mut knife_mode));
    assert!(knife_mode);
    assert!(!sync_tool_mode(&tool_state, ToolId::Knife, &mut knife_mode));
    tool_state.activate(ToolId::Pen);
    assert!(sync_tool_mode(&tool_state, ToolId::Knife, &mut knife_mode));
    assert!(!knife_mode);
}
