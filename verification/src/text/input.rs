//! Typing into the text editor: each key press of the text tool becomes one
//! editing operation at the cursor of the active buffer.

use vstd::prelude::*;
use crate::strings::str_equals;
use crate::text::buffer::{
    members, sorts_view, ActiveTextBuffer, BufferSortRespawnQueue, TextEditorState,
    TextPlacementMode,
};
use crate::text::editing::{
    after_delete, after_insert_char, after_insert_line_break, delete_character_at_buffer_cursor,
    insert_character_at_buffer_cursor, insert_line_break_at_buffer_cursor, model_of,
    with_cursor, EditorModel,
};
use crate::text::font::{
    advance_width_of, font_value, get_glyph_advance_width, glyph_name_for_char, glyph_named,
    unicode_to_glyph_name, FontGlyphs,
};
use crate::text::navigation::{
    lemma_line_starts, goal_x, handle_arrow_left, handle_arrow_right, is_first_closest, line_first, line_last,
    move_cursor_line, nav_x, target_line, LineNavigation,
};

verus! {

/// Whether `c` is a control character (general category Cc).
pub open spec fn is_control_char(c: char) -> bool {
    (c as int) <= 0x1F || (0x7F <= (c as int) && (c as int) <= 0x9F)
}

/// Whether `c` is a control character: U+0000 to U+001F or U+007F to
/// U+009F, as `char::is_control` decides.
fn char_is_control(c: char) -> (r: bool)
    ensures
        r == is_control_char(c),
{
    let n = c as u32;
    n <= 0x1F || (0x7F <= n && n <= 0x9F)
}

/// The width of the space inserted by the space bar: the font's `space`
/// glyph when it has one, else 250.
pub open spec fn space_width(font: Option<FontGlyphs>) -> int {
    match font {
        Some(f) => if glyph_named(f.glyphs@, "space"@) is Some {
            advance_width_of(font, "space"@)
        } else {
            250
        },
        None => 250,
    }
}

/// Typing a space inserts the `space` glyph.
pub open spec fn after_space(m: EditorModel, font: Option<FontGlyphs>) -> EditorModel {
    after_insert_char(m, ' ', "space"@, space_width(font) as i32)
}

/// Typing `c` inserts the font's glyph for it; without one nothing happens.
pub open spec fn after_character(m: EditorModel, c: char, font: Option<FontGlyphs>) -> EditorModel {
    match glyph_name_for_char(font, c) {
        Some(name) => after_insert_char(m, c, name@, advance_width_of(font, name@) as i32),
        None => m,
    }
}

/// Enter inserts a line break, except in freeform placement.
pub open spec fn after_newline(m: EditorModel, mode: TextPlacementMode) -> EditorModel {
    match mode {
        TextPlacementMode::Freeform => m,
        _ => after_insert_line_break(m),
    }
}

/// Backspace deletes toward the start of the text: left of the cursor, or
/// at the cursor in right-to-left text.
pub open spec fn after_backspace(m: EditorModel, mode: TextPlacementMode) -> EditorModel {
    after_delete(m, mode != TextPlacementMode::RTLText)
}

/// The delete key deletes at the cursor, or left of it in right-to-left
/// text.
pub open spec fn after_delete_key(m: EditorModel, mode: TextPlacementMode) -> EditorModel {
    after_delete(m, mode == TextPlacementMode::RTLText)
}

/// Whether inserting a glyph is within the machine's limits.
pub open spec fn insert_ok(m: EditorModel) -> bool {
    &&& m.sorts.len() < usize::MAX
    &&& m.active.buffer_entity matches Some(e) ==> e.cursor.position < usize::MAX
}

/// Whether Enter can insert its line break: the cursor, used as an index
/// into all sorts, must not be past their end.
pub open spec fn newline_ok(m: EditorModel, mode: TextPlacementMode) -> bool {
    mode != TextPlacementMode::Freeform ==> {
        &&& m.sorts.len() < usize::MAX
        &&& m.active.buffer_entity matches Some(e) ==> e.cursor.position <= m.sorts.len()
    }
}

/// Insert the glyph for `character` at the cursor of the active buffer.
pub fn handle_unicode_character(
    character: char,
    text_editor_state: &mut TextEditorState,
    font: Option<&FontGlyphs>,
    active_buffer: &mut ActiveTextBuffer,
    respawn_queue: &mut BufferSortRespawnQueue,
)
    requires
        insert_ok(model_of(*old(text_editor_state), *old(active_buffer), *old(respawn_queue))),
    ensures
        model_of(*final(text_editor_state), *final(active_buffer), *final(respawn_queue))
            == after_character(
            model_of(*old(text_editor_state), *old(active_buffer), *old(respawn_queue)),
            character,
            font_value(font),
        ),
{
    if let Some(glyph_name) = unicode_to_glyph_name(character, font) {
        let advance_width = get_glyph_advance_width(glyph_name.as_str(), font);
        insert_character_at_buffer_cursor(
            character,
            glyph_name,
            advance_width,
            text_editor_state,
            active_buffer,
            respawn_queue,
        );
    }
}

/// Insert a space at the cursor of the active buffer.
pub fn handle_space_character(
    text_editor_state: &mut TextEditorState,
    font: Option<&FontGlyphs>,
    active_buffer: &mut ActiveTextBuffer,
    respawn_queue: &mut BufferSortRespawnQueue,
)
    requires
        insert_ok(model_of(*old(text_editor_state), *old(active_buffer), *old(respawn_queue))),
    ensures
        model_of(*final(text_editor_state), *final(active_buffer), *final(respawn_queue))
            == after_space(
            model_of(*old(text_editor_state), *old(active_buffer), *old(respawn_queue)),
            font_value(font),
        ),
{
    let glyph_name = String::from_str("space");
    proof {
        reveal_strlit("space");
    }
    let glyph_exists = match font {
        Some(f) => f.contains(glyph_name.as_str()),
        None => false,
    };
    let advance_width = if glyph_exists {
        get_glyph_advance_width(glyph_name.as_str(), font)
    } else {
        250
    };
    insert_character_at_buffer_cursor(
        ' ',
        glyph_name,
        advance_width,
        text_editor_state,
        active_buffer,
        respawn_queue,
    );
}

/// Enter: a line break at the cursor, except in freeform placement.
pub fn handle_newline_character(
    text_editor_state: &mut TextEditorState,
    current_placement_mode: TextPlacementMode,
    active_buffer: &mut ActiveTextBuffer,
    respawn_queue: &mut BufferSortRespawnQueue,
)
    requires
        newline_ok(
            model_of(*old(text_editor_state), *old(active_buffer), *old(respawn_queue)),
            current_placement_mode,
        ),
    ensures
        model_of(*final(text_editor_state), *final(active_buffer), *final(respawn_queue))
            == after_newline(
            model_of(*old(text_editor_state), *old(active_buffer), *old(respawn_queue)),
            current_placement_mode,
        ),
{
    match current_placement_mode {
        TextPlacementMode::Freeform => {},
        _ => {
            insert_line_break_at_buffer_cursor(text_editor_state, active_buffer, respawn_queue);
        },
    }
}

/// Backspace: delete toward the start of the text.
pub fn handle_backspace(
    text_editor_state: &mut TextEditorState,
    current_placement_mode: TextPlacementMode,
    active_buffer: &mut ActiveTextBuffer,
    respawn_queue: &mut BufferSortRespawnQueue,
)
    ensures
        model_of(*final(text_editor_state), *final(active_buffer), *final(respawn_queue))
            == after_backspace(
            model_of(*old(text_editor_state), *old(active_buffer), *old(respawn_queue)),
            current_placement_mode,
        ),
{
    match current_placement_mode {
        TextPlacementMode::RTLText => {
            delete_character_at_buffer_cursor(text_editor_state, active_buffer, respawn_queue, false);
        },
        _ => {
            delete_character_at_buffer_cursor(text_editor_state, active_buffer, respawn_queue, true);
        },
    }
}

/// Delete key: delete toward the end of the text.
pub fn handle_delete(
    text_editor_state: &mut TextEditorState,
    current_placement_mode: TextPlacementMode,
    active_buffer: &mut ActiveTextBuffer,
    respawn_queue: &mut BufferSortRespawnQueue,
)
    ensures
        model_of(*final(text_editor_state), *final(active_buffer), *final(respawn_queue))
            == after_delete_key(
            model_of(*old(text_editor_state), *old(active_buffer), *old(respawn_queue)),
            current_placement_mode,
        ),
{
    match current_placement_mode {
        TextPlacementMode::RTLText => {
            delete_character_at_buffer_cursor(text_editor_state, active_buffer, respawn_queue, true);
        },
        _ => {
            delete_character_at_buffer_cursor(text_editor_state, active_buffer, respawn_queue, false);
        },
    }
}

/// A key as the keyboard reports it.
#[derive(Debug, Clone)]
pub enum Key {
    Character(String),
    Backspace,
    Delete,
    Enter,
    Space,
    ArrowLeft,
    ArrowRight,
    ArrowUp,
    ArrowDown,
    Other,
}

/// A key as a plain value.
pub enum KeyView {
    Character(Seq<char>),
    Backspace,
    Delete,
    Enter,
    Space,
    ArrowLeft,
    ArrowRight,
    ArrowUp,
    ArrowDown,
    Other,
}

impl View for Key {
    type V = KeyView;

    open spec fn view(&self) -> KeyView {
        match self {
            Key::Character(s) => KeyView::Character(s@),
            Key::Backspace => KeyView::Backspace,
            Key::Delete => KeyView::Delete,
            Key::Enter => KeyView::Enter,
            Key::Space => KeyView::Space,
            Key::ArrowLeft => KeyView::ArrowLeft,
            Key::ArrowRight => KeyView::ArrowRight,
            Key::ArrowUp => KeyView::ArrowUp,
            Key::ArrowDown => KeyView::ArrowDown,
            Key::Other => KeyView::Other,
        }
    }
}

/// One keyboard event: a key pressed or released.
#[derive(Debug, Clone)]
pub struct KeyboardInput {
    pub logical_key: Key,
    pub pressed: bool,
}

/// A keyboard event as a plain value.
pub struct KeyboardInputView {
    pub key: KeyView,
    pub pressed: bool,
}

impl View for KeyboardInput {
    type V = KeyboardInputView;

    open spec fn view(&self) -> KeyboardInputView {
        KeyboardInputView { key: self.logical_key@, pressed: self.pressed }
    }
}

/// The cursor position that a line move of the active buffer lands on.
pub open spec fn line_move_target(m: EditorModel, direction: LineNavigation, font: Option<FontGlyphs>) -> Option<int> {
    match m.active.buffer_entity {
        None => None,
        Some(e) => {
            let mm = members(m.sorts, e.buffer.id);
            let c = e.cursor.position as int;
            if mm.len() == 0 {
                None
            } else {
                match target_line(mm, c, direction) {
                    None => None,
                    Some(t) => Some(
                        choose|p: int|
                            is_first_closest(
                                mm,
                                font,
                                line_first(mm, t),
                                line_last(mm, t),
                                goal_x(mm, font, c),
                                p,
                            ),
                    ),
                }
            }
        },
    }
}

/// Up or down arrow: the cursor moves to the closest position on the line
/// above or below, when there is one.
pub open spec fn after_line_move(m: EditorModel, direction: LineNavigation, font: Option<FontGlyphs>) -> EditorModel {
    match line_move_target(m, direction, font) {
        Some(p) => EditorModel { active: with_cursor(m.active, p), ..m },
        None => m,
    }
}

/// Left arrow: one step back, unless at the start.
pub open spec fn after_arrow_left(m: EditorModel) -> EditorModel {
    match m.active.buffer_entity {
        Some(e) => if e.cursor.position > 0 {
            EditorModel { active: with_cursor(m.active, e.cursor.position - 1), ..m }
        } else {
            m
        },
        None => m,
    }
}

/// Right arrow: one step forward, unless after the buffer's last sort.
pub open spec fn after_arrow_right(m: EditorModel) -> EditorModel {
    match m.active.buffer_entity {
        Some(e) => if e.cursor.position < members(m.sorts, e.buffer.id).len() {
            EditorModel { active: with_cursor(m.active, e.cursor.position + 1), ..m }
        } else {
            m
        },
        None => m,
    }
}

/// One character of a typed string: control characters are skipped, a
/// space inserts the space glyph, a newline is left to the Enter key.
pub open spec fn apply_char(m: EditorModel, c: char, font: Option<FontGlyphs>) -> EditorModel {
    if is_control_char(c) && c != '\n' {
        m
    } else if c == ' ' {
        after_space(m, font)
    } else if c == '\n' {
        m
    } else {
        after_character(m, c, font)
    }
}

/// Whether one character can be applied within the machine's limits.
pub open spec fn char_ok(m: EditorModel, c: char) -> bool {
    (is_control_char(c) && c != '\n') || c == '\n' || insert_ok(m)
}

/// The characters of a typed string applied in order.
pub open spec fn apply_chars(m: EditorModel, cs: Seq<char>, font: Option<FontGlyphs>) -> EditorModel
    decreases cs.len(),
{
    if cs.len() == 0 {
        m
    } else {
        apply_chars(apply_char(m, cs[0], font), cs.drop_first(), font)
    }
}

/// Whether every character of `cs` can be applied in turn.
pub open spec fn chars_ok(m: EditorModel, cs: Seq<char>, font: Option<FontGlyphs>) -> bool
    decreases cs.len(),
{
    cs.len() == 0 || (char_ok(m, cs[0]) && chars_ok(apply_char(m, cs[0], font), cs.drop_first(), font))
}

/// One key press (releases change nothing).
pub open spec fn apply_key(
    m: EditorModel,
    ev: KeyboardInputView,
    mode: TextPlacementMode,
    font: Option<FontGlyphs>,
) -> EditorModel {
    if !ev.pressed {
        m
    } else {
        match ev.key {
            KeyView::Character(cs) => apply_chars(m, cs, font),
            KeyView::Backspace => after_backspace(m, mode),
            KeyView::Delete => after_delete_key(m, mode),
            KeyView::Enter => after_newline(m, mode),
            KeyView::Space => after_space(m, font),
            KeyView::ArrowLeft => after_arrow_left(m),
            KeyView::ArrowRight => after_arrow_right(m),
            KeyView::ArrowUp => after_line_move(m, LineNavigation::Up, font),
            KeyView::ArrowDown => after_line_move(m, LineNavigation::Down, font),
            KeyView::Other => m,
        }
    }
}

/// Whether one key press can be applied within the machine's limits.
pub open spec fn key_ok(
    m: EditorModel,
    ev: KeyboardInputView,
    mode: TextPlacementMode,
    font: Option<FontGlyphs>,
) -> bool {
    !ev.pressed || match ev.key {
        KeyView::Character(cs) => chars_ok(m, cs, font),
        KeyView::Enter => newline_ok(m, mode),
        KeyView::Space => insert_ok(m),
        KeyView::ArrowUp | KeyView::ArrowDown => m.sorts.len() < usize::MAX,
        _ => true,
    }
}

/// The key events applied in order.
pub open spec fn apply_events(
    m: EditorModel,
    evs: Seq<KeyboardInputView>,
    mode: TextPlacementMode,
    font: Option<FontGlyphs>,
) -> EditorModel
    decreases evs.len(),
{
    if evs.len() == 0 {
        m
    } else {
        apply_events(apply_key(m, evs[0], mode, font), evs.drop_first(), mode, font)
    }
}

/// Whether every key event can be applied in turn.
pub open spec fn events_ok(
    m: EditorModel,
    evs: Seq<KeyboardInputView>,
    mode: TextPlacementMode,
    font: Option<FontGlyphs>,
) -> bool
    decreases evs.len(),
{
    evs.len() == 0 || (key_ok(m, evs[0], mode, font) && events_ok(
        apply_key(m, evs[0], mode, font),
        evs.drop_first(),
        mode,
        font,
    ))
}

/// Typing reaches the text only with the text tool in a typing mode.
pub open spec fn typing_enabled(current_tool: Option<Seq<char>>, mode: TextPlacementMode) -> bool {
    current_tool == Some("text"@) && mode != TextPlacementMode::Freeform
}

/// The events as plain values.
pub open spec fn events_view(evs: Seq<KeyboardInput>) -> Seq<KeyboardInputView> {
    evs.map_values(|e: KeyboardInput| e@)
}

/// The tool name as plain characters.
pub open spec fn tool_view(current_tool: Option<&str>) -> Option<Seq<char>> {
    match current_tool {
        Some(s) => Some(s@),
        None => None,
    }
}

/// Two first-closest positions of the same range are the same position.
pub proof fn lemma_first_closest_unique(
    m: Seq<crate::text::buffer::SortView>,
    font: Option<FontGlyphs>,
    lo: int,
    hi: int,
    x: int,
    p: int,
    q: int,
)
    requires
        is_first_closest(m, font, lo, hi, x, p),
        is_first_closest(m, font, lo, hi, x, q),
    ensures
        p == q,
{
    let dp = nav_x(m, font, p);
    let dq = nav_x(m, font, q);
}

/// Move the cursor one line up or down.
pub fn handle_line_move(
    text_editor_state: &TextEditorState,
    active_buffer: &mut ActiveTextBuffer,
    direction: LineNavigation,
    font: Option<&FontGlyphs>,
    respawn_queue: &BufferSortRespawnQueue,
)
    requires
        text_editor_state.buffer@.len() < usize::MAX,
    ensures
        model_of(*text_editor_state, *final(active_buffer), *respawn_queue) == after_line_move(
            model_of(*text_editor_state, *old(active_buffer), *respawn_queue),
            direction,
            font_value(font),
        ),
{
    let ghost m = model_of(*text_editor_state, *active_buffer, *respawn_queue);
    move_cursor_line(text_editor_state, active_buffer, direction, font);
    proof {
        if let Some(e) = m.active.buffer_entity {
            let mm = members(m.sorts, e.buffer.id);
            let c = e.cursor.position as int;
            if mm.len() > 0 {
                if let Some(t) = target_line(mm, c, direction) {
                    let f = font_value(font);
                    let e2 = final(active_buffer).buffer_entity->0;
                    let p = e2.cursor.position as int;
                    let q = choose|p: int|
                        is_first_closest(
                            mm,
                            f,
                            line_first(mm, t),
                            line_last(mm, t),
                            goal_x(mm, f, c),
                            p,
                        );
                    lemma_first_closest_unique(
                        mm,
                        f,
                        line_first(mm, t),
                        line_last(mm, t),
                        goal_x(mm, f, c),
                        p,
                        q,
                    );
                }
            }
        }
    }
}

/// Apply the characters of a typed string in order.
fn handle_typed_string(
    chars: &str,
    text_editor_state: &mut TextEditorState,
    font: Option<&FontGlyphs>,
    active_buffer: &mut ActiveTextBuffer,
    respawn_queue: &mut BufferSortRespawnQueue,
)
    requires
        chars_ok(
            model_of(*old(text_editor_state), *old(active_buffer), *old(respawn_queue)),
            chars@,
            font_value(font),
        ),
    ensures
        model_of(*final(text_editor_state), *final(active_buffer), *final(respawn_queue))
            == apply_chars(
            model_of(*old(text_editor_state), *old(active_buffer), *old(respawn_queue)),
            chars@,
            font_value(font),
        ),
{
    let ghost f = font_value(font);
    let ghost goal = apply_chars(
        model_of(*text_editor_state, *active_buffer, *respawn_queue),
        chars@,
        f,
    );
    let n = chars.unicode_len();
    let mut i: usize = 0;
    assert(chars@.skip(0) =~= chars@);
    while i < n
        invariant
            f == font_value(font),
            n == chars@.len(),
            i <= n,
            apply_chars(model_of(*text_editor_state, *active_buffer, *respawn_queue), chars@.skip(i as int), f)
                == goal,
            chars_ok(model_of(*text_editor_state, *active_buffer, *respawn_queue), chars@.skip(i as int), f),
        decreases n - i,
    {
        let c = chars.get_char(i);
        assert(chars@.skip(i as int)[0] == c);
        assert(chars@.skip(i as int).drop_first() =~= chars@.skip(i as int + 1));
        if char_is_control(c) && c != '\n' {
        } else if c == ' ' {
            handle_space_character(text_editor_state, font, active_buffer, respawn_queue);
        } else if c == '\n' {
        } else {
            handle_unicode_character(c, text_editor_state, font, active_buffer, respawn_queue);
        }
        i = i + 1;
    }
    assert(chars@.skip(n as int).len() == 0);
}

/// Apply one key press.
fn handle_key(
    ev: &KeyboardInput,
    current_placement_mode: TextPlacementMode,
    font: Option<&FontGlyphs>,
    text_editor_state: &mut TextEditorState,
    active_buffer: &mut ActiveTextBuffer,
    respawn_queue: &mut BufferSortRespawnQueue,
)
    requires
        key_ok(
            model_of(*old(text_editor_state), *old(active_buffer), *old(respawn_queue)),
            ev@,
            current_placement_mode,
            font_value(font),
        ),
    ensures
        model_of(*final(text_editor_state), *final(active_buffer), *final(respawn_queue))
            == apply_key(
            model_of(*old(text_editor_state), *old(active_buffer), *old(respawn_queue)),
            ev@,
            current_placement_mode,
            font_value(font),
        ),
{
    if !ev.pressed {
        return;
    }
    match &ev.logical_key {
        Key::Character(s) => {
            handle_typed_string(s.as_str(), text_editor_state, font, active_buffer, respawn_queue);
        },
        Key::Backspace => {
            handle_backspace(text_editor_state, current_placement_mode, active_buffer, respawn_queue);
        },
        Key::Delete => {
            handle_delete(text_editor_state, current_placement_mode, active_buffer, respawn_queue);
        },
        Key::Enter => {
            handle_newline_character(
                text_editor_state,
                current_placement_mode,
                active_buffer,
                respawn_queue,
            );
        },
        Key::Space => {
            handle_space_character(text_editor_state, font, active_buffer, respawn_queue);
        },
        Key::ArrowLeft => {
            handle_arrow_left(active_buffer);
        },
        Key::ArrowRight => {
            handle_arrow_right(text_editor_state, active_buffer);
        },
        Key::ArrowUp => {
            handle_line_move(text_editor_state, active_buffer, LineNavigation::Up, font, respawn_queue);
        },
        Key::ArrowDown => {
            handle_line_move(
                text_editor_state,
                active_buffer,
                LineNavigation::Down,
                font,
                respawn_queue,
            );
        },
        Key::Other => {},
    }
}

/// Apply the keyboard events of one frame to the text, when the text tool
/// is active in a typing mode (insert, left-to-right or right-to-left
/// text); otherwise nothing changes.
pub fn handle_unicode_text_input(
    key_evr: &Vec<KeyboardInput>,
    current_tool: Option<&str>,
    current_placement_mode: TextPlacementMode,
    font: Option<&FontGlyphs>,
    text_editor_state: &mut TextEditorState,
    active_buffer: &mut ActiveTextBuffer,
    respawn_queue: &mut BufferSortRespawnQueue,
)
    requires
        typing_enabled(tool_view(current_tool), current_placement_mode) ==> events_ok(
            model_of(*old(text_editor_state), *old(active_buffer), *old(respawn_queue)),
            events_view(key_evr@),
            current_placement_mode,
            font_value(font),
        ),
    ensures
        model_of(*final(text_editor_state), *final(active_buffer), *final(respawn_queue)) == if typing_enabled(
            tool_view(current_tool),
            current_placement_mode,
        ) {
            apply_events(
                model_of(*old(text_editor_state), *old(active_buffer), *old(respawn_queue)),
                events_view(key_evr@),
                current_placement_mode,
                font_value(font),
            )
        } else {
            model_of(*old(text_editor_state), *old(active_buffer), *old(respawn_queue))
        },
{
    let is_text_tool = match current_tool {
        Some(name) => {
            proof {
                reveal_strlit("text");
            }
            str_equals(name, "text")
        },
        None => false,
    };
    if !is_text_tool {
        return;
    }
    if let TextPlacementMode::Freeform = current_placement_mode {
        return;
    }
    let ghost f = font_value(font);
    let ghost evs = events_view(key_evr@);
    let ghost goal = apply_events(
        model_of(*text_editor_state, *active_buffer, *respawn_queue),
        evs,
        current_placement_mode,
        f,
    );
    let n = key_evr.len();
    let mut i: usize = 0;
    assert(evs.skip(0) =~= evs);
    while i < n
        invariant
            f == font_value(font),
            evs == events_view(key_evr@),
            n == evs.len(),
            i <= n,
            apply_events(
                model_of(*text_editor_state, *active_buffer, *respawn_queue),
                evs.skip(i as int),
                current_placement_mode,
                f,
            ) == goal,
            events_ok(
                model_of(*text_editor_state, *active_buffer, *respawn_queue),
                evs.skip(i as int),
                current_placement_mode,
                f,
            ),
        decreases n - i,
    {
        assert(evs.skip(i as int)[0] == key_evr@[i as int]@);
        assert(evs.skip(i as int).drop_first() =~= evs.skip(i as int + 1));
        handle_key(
            &key_evr[i],
            current_placement_mode,
            font,
            text_editor_state,
            active_buffer,
            respawn_queue,
        );
        i = i + 1;
    }
    assert(evs.skip(n as int).len() == 0);
}

/// Left arrow then right arrow returns the cursor to where it was, when it
/// could move left.
pub proof fn left_then_right_restores(m: EditorModel)
    requires
        m.active.buffer_entity matches Some(e) && 0 < e.cursor.position <= members(
            m.sorts,
            e.buffer.id,
        ).len(),
    ensures
        after_arrow_right(after_arrow_left(m)) == m,
{
    let e = m.active.buffer_entity->0;
    let m1 = after_arrow_left(m);
    assert(members(m1.sorts, e.buffer.id) == members(m.sorts, e.buffer.id));
    assert(m1.active.buffer_entity == Some(
        crate::text::buffer::BufferEntity {
            buffer: e.buffer,
            cursor: crate::text::buffer::BufferCursor { position: (e.cursor.position - 1) as usize },
        },
    ));
}

/// Cursor moves never leave the buffer: a cursor within the buffer's sorts
/// stays within them after any arrow key.
pub proof fn cursor_moves_stay_in_buffer(m: EditorModel, font: Option<FontGlyphs>)
    requires
        m.active.buffer_entity matches Some(e) && e.cursor.position <= members(
            m.sorts,
            e.buffer.id,
        ).len(),
    ensures
        ({
            let e = m.active.buffer_entity->0;
            let n = members(m.sorts, e.buffer.id).len();
            &&& after_arrow_left(m).active.buffer_entity matches Some(e2) && e2.buffer == e.buffer
                && e2.cursor.position <= n
            &&& after_arrow_right(m).active.buffer_entity matches Some(e2) && e2.buffer == e.buffer
                && e2.cursor.position <= n
            &&& after_line_move(m, LineNavigation::Up, font).active.buffer_entity matches Some(e2)
                && e2.buffer == e.buffer && e2.cursor.position <= n
            &&& after_line_move(m, LineNavigation::Down, font).active.buffer_entity matches Some(e2)
                && e2.buffer == e.buffer && e2.cursor.position <= n
        }),
{
    let e = m.active.buffer_entity->0;
    let mm = members(m.sorts, e.buffer.id);
    let c = e.cursor.position as int;
    lemma_line_starts(mm);
    if mm.len() > 0 {
        if let Some(t) = target_line(mm, c, LineNavigation::Up) {
            crate::text::navigation::lemma_target_line_range(mm, c, LineNavigation::Up);
            lemma_first_closest_exists(mm, font, line_first(mm, t), line_last(mm, t), goal_x(mm, font, c));
        }
        if let Some(t) = target_line(mm, c, LineNavigation::Down) {
            crate::text::navigation::lemma_target_line_range(mm, c, LineNavigation::Down);
            lemma_first_closest_exists(mm, font, line_first(mm, t), line_last(mm, t), goal_x(mm, font, c));
        }
    }
}

/// Every nonempty range has a first closest position.
pub proof fn lemma_first_closest_exists(
    m: Seq<crate::text::buffer::SortView>,
    font: Option<FontGlyphs>,
    lo: int,
    hi: int,
    x: int,
)
    requires
        lo <= hi,
    ensures
        exists|p: int| #[trigger] is_first_closest(m, font, lo, hi, x, p),
    decreases hi - lo,
{
    if lo == hi {
        assert(is_first_closest(m, font, lo, hi, x, lo));
    } else {
        lemma_first_closest_exists(m, font, lo, hi - 1, x);
        let p = choose|p: int| #[trigger] is_first_closest(m, font, lo, hi - 1, x, p);
        if crate::text::navigation::distance(nav_x(m, font, hi), x) < crate::text::navigation::distance(
            nav_x(m, font, p),
            x,
        ) {
            assert(is_first_closest(m, font, lo, hi, x, hi));
        } else {
            assert(is_first_closest(m, font, lo, hi, x, p));
        }
    }
}

} // verus!
