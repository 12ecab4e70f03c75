//! Routing of pointer and key input to the tool that consumes it, by
//! priority: text input first, then the mode-specific tools, then
//! selection, and camera control last.

use vstd::prelude::*;
use crate::tools::tool_state::InputMode;

verus! {

/// The kinds of input event.
#[derive(Debug, Clone, Copy, PartialEq, Eq, Structural)]
pub enum InputEventKind {
    MouseClick,
    MouseDrag,
    MouseRelease,
    MouseWheel,
    KeyPress,
    TextInput,
    Other,
}

/// The consumers of input.
#[derive(Debug, Clone, Copy, PartialEq, Eq, Structural)]
pub enum InputConsumerKind {
    Selection,
    Pen,
    Knife,
    Shape,
    Hyper,
    Text,
    Camera,
    Measure,
}

/// Whether a consumer takes an event in an input mode: each tool takes its
/// own pointer events in its own mode, text input takes keys in text mode,
/// and the camera takes drags and wheel turns outside text mode.
pub open spec fn handles(consumer: InputConsumerKind, event: InputEventKind, mode: InputMode) -> bool {
    let click_or_drag = event == InputEventKind::MouseClick || event == InputEventKind::MouseDrag;
    match consumer {
        InputConsumerKind::Selection => click_or_drag && mode == InputMode::Select,
        InputConsumerKind::Pen => (click_or_drag || event == InputEventKind::MouseRelease) && mode
            == InputMode::Pen,
        InputConsumerKind::Knife => click_or_drag && mode == InputMode::Knife,
        InputConsumerKind::Shape => click_or_drag && mode == InputMode::Shape,
        InputConsumerKind::Hyper => click_or_drag && mode == InputMode::Hyper,
        InputConsumerKind::Text => (event == InputEventKind::KeyPress || event
            == InputEventKind::TextInput) && mode == InputMode::Text,
        InputConsumerKind::Camera => (event == InputEventKind::MouseDrag || event
            == InputEventKind::MouseWheel) && mode != InputMode::Text,
        InputConsumerKind::Measure => click_or_drag && mode == InputMode::Measure,
    }
}

/// Whether `consumer` takes `event` in input mode `mode`.
pub fn should_handle_input(consumer: InputConsumerKind, event: InputEventKind, mode: InputMode) -> (r: bool)
    ensures
        r == handles(consumer, event, mode),
{
    let click_or_drag = event == InputEventKind::MouseClick || event == InputEventKind::MouseDrag;
    match consumer {
        InputConsumerKind::Selection => click_or_drag && mode == InputMode::Select,
        InputConsumerKind::Pen => (click_or_drag || event == InputEventKind::MouseRelease) && mode
            == InputMode::Pen,
        InputConsumerKind::Knife => click_or_drag && mode == InputMode::Knife,
        InputConsumerKind::Shape => click_or_drag && mode == InputMode::Shape,
        InputConsumerKind::Hyper => click_or_drag && mode == InputMode::Hyper,
        InputConsumerKind::Text => (event == InputEventKind::KeyPress || event
            == InputEventKind::TextInput) && mode == InputMode::Text,
        InputConsumerKind::Camera => (event == InputEventKind::MouseDrag || event
            == InputEventKind::MouseWheel) && mode != InputMode::Text,
        InputConsumerKind::Measure => click_or_drag && mode == InputMode::Measure,
    }
}

/// The order in which consumers are asked.
pub open spec fn routing_order() -> Seq<InputConsumerKind> {
    seq![
        InputConsumerKind::Text,
        InputConsumerKind::Knife,
        InputConsumerKind::Shape,
        InputConsumerKind::Hyper,
        InputConsumerKind::Measure,
        InputConsumerKind::Selection,
        InputConsumerKind::Camera,
    ]
}

/// The consumer an event goes to: the first in routing order that takes
/// it, if any.
pub open spec fn routed_to(event: InputEventKind, mode: InputMode) -> Option<InputConsumerKind> {
    first_taker(routing_order(), event, mode)
}

/// The first consumer of `order` that takes the event.
pub open spec fn first_taker(order: Seq<InputConsumerKind>, event: InputEventKind, mode: InputMode) -> Option<InputConsumerKind>
    decreases order.len(),
{
    if order.len() == 0 {
        None
    } else if handles(order[0], event, mode) {
        Some(order[0])
    } else {
        first_taker(order.drop_first(), event, mode)
    }
}

/// Route one event to its consumer; `None` when no consumer takes it.
pub fn route_input_event(event: InputEventKind, mode: InputMode) -> (r: Option<InputConsumerKind>)
    ensures
        r == routed_to(event, mode),
{
    let order = [
        InputConsumerKind::Text,
        InputConsumerKind::Knife,
        InputConsumerKind::Shape,
        InputConsumerKind::Hyper,
        InputConsumerKind::Measure,
        InputConsumerKind::Selection,
        InputConsumerKind::Camera,
    ];
    let ghost o = routing_order();
    assert(order@ =~= o);
    let mut i: usize = 0;
    assert(o.skip(0) =~= o);
    while i < 7
        invariant
            o == routing_order(),
            order@ == o,
            i <= 7,
            first_taker(o.skip(i as int), event, mode) == first_taker(o, event, mode),
        decreases 7 - i,
    {
        assert(o.skip(i as int).drop_first() =~= o.skip(i as int + 1));
        let c = order[i];
        assert(c == o[i as int]);
        assert(o.skip(i as int)[0] == c);
        if should_handle_input(c, event, mode) {
            assert(first_taker(o.skip(i as int), event, mode) == Some(c));
            return Some(c);
        }
        i = i + 1;
    }
    assert(o.skip(7).len() == 0);
    None
}

/// An event in a tool's own mode reaches that tool: clicks and drags in the
/// knife, shape, hyper, measure and select modes go to that tool, keys in
/// text mode go to text input, and text mode never moves the camera.
pub proof fn routing_respects_modes(event: InputEventKind)
    ensures
        (event == InputEventKind::MouseClick || event == InputEventKind::MouseDrag) ==> {
            &&& routed_to(event, InputMode::Knife) == Some(InputConsumerKind::Knife)
            &&& routed_to(event, InputMode::Shape) == Some(InputConsumerKind::Shape)
            &&& routed_to(event, InputMode::Hyper) == Some(InputConsumerKind::Hyper)
            &&& routed_to(event, InputMode::Measure) == Some(InputConsumerKind::Measure)
            &&& routed_to(event, InputMode::Select) == Some(InputConsumerKind::Selection)
        },
        (event == InputEventKind::KeyPress || event == InputEventKind::TextInput) ==> routed_to(
            event,
            InputMode::Text,
        ) == Some(InputConsumerKind::Text),
        routed_to(event, InputMode::Text) != Some(InputConsumerKind::Camera),
{
    reveal_with_fuel(first_taker, 8);
}

} // verus!
