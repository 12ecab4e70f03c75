use bezy::text::buffer::{
    ActiveTextBuffer, BufferCursor, BufferEntity, BufferId, BufferSortRespawnQueue, Point,
    SortData, SortKind, SortLayoutMode, TextBuffer, TextEditorState, TextPlacementMode,
};
use bezy::text::font::{FontGlyphs, GlyphRecord};
use bezy::text::glyph_selection::{change_active_sort_glyph, handle_glyph_selection, GlyphNavigation};
use bezy::text::input::{
    handle_backspace, handle_delete, handle_space_character, handle_unicode_character,
    handle_unicode_text_input, Key, KeyboardInput,
};
use bezy::text::legacy::{
    get_simple_arabic_glyph_name, glyph_name_to_char, handle_arabic_text_input,
    insert_arabic_glyph, ArabicKeyEvent, KeyCode,
};
use bezy::text::placement::{
    create_startup_layout, handle_sort_placement_input, migrate_sort_advance_widths,
};

fn font() -> FontGlyphs {
    FontGlyphs {
        glyphs: vec![
            GlyphRecord { name: "a".to_string(), advance_width: 520, codepoints: vec!['a'] },
            GlyphRecord { name: "b".to_string(), advance_width: 540, codepoints: vec!['b'] },
            GlyphRecord { name: "space".to_string(), advance_width: 200, codepoints: vec![' '] },
            GlyphRecord { name: "alef-ar".to_string(), advance_width: 300, codepoints: vec!['\u{0627}'] },
        ],
    }
}

fn entity(id: u64, cursor: usize) -> ActiveTextBuffer {
    ActiveTextBuffer {
        buffer_entity: Some(BufferEntity {
            buffer: TextBuffer { id: BufferId(id), layout_mode: SortLayoutMode::LTRText, root_position: Point { x: 0, y: 0 } },
            cursor: BufferCursor { position: cursor },
        }),
    }
}

fn cursor(a: &ActiveTextBuffer) -> usize {
    a.buffer_entity.unwrap().cursor.position
}

fn names(state: &TextEditorState) -> Vec<String> {
    state
        .buffer
        .iter()
        .map(|s| match &s.kind {
            SortKind::Glyph { glyph_name, .. } => glyph_name.clone(),
            SortKind::LineBreak => "\n".to_string(),
        })
        .collect()
}

fn widths(state: &TextEditorState) -> Vec<i32> {
    state
        .buffer
        .iter()
        .map(|s| match &s.kind {
            SortKind::Glyph { advance_width, .. } => *advance_width,
            SortKind::LineBreak => 0,
        })
        .collect()
}

fn press(key: Key) -> KeyboardInput {
    KeyboardInput { logical_key: key, pressed: true }
}

#[test]
fn typing_a_word_with_spaces_newlines_and_corrections() {
    let f = font();
    let mut state = TextEditorState { buffer: vec![], cursor_position: 0 };
    let mut a = entity(1, 0);
    let mut q = BufferSortRespawnQueue { indices: vec![] };
    let events = vec![
        press(Key::Character("ab".to_string())),
        KeyboardInput { logical_key: Key::Character("b".to_string()), pressed: false },
        press(Key::Space),
        press(Key::Character("a\u{7}\nz".to_string())),
        press(Key::Enter),
        press(Key::Character("b".to_string())),
        press(Key::ArrowLeft),
        press(Key::Backspace),
    ];
    handle_unicode_text_input(&events, Some("text"), TextPlacementMode::Insert, Some(&f), &mut state, &mut a, &mut q);
    // "z" has no glyph, the bell is a control character, the newline in a
    // string is left to Enter; the final backspace removes the line break.
    assert_eq!(names(&state), vec!["a", "b", "space", "a", "b"]);
    assert_eq!(widths(&state), vec![520, 540, 200, 520, 540]);
    assert_eq!(cursor(&a), 4);
}

#[test]
fn typing_needs_the_text_tool_in_a_typing_mode() {
    let f = font();
    let events = vec![press(Key::Character("a".to_string()))];
    for (tool, mode) in [
        (Some("select"), TextPlacementMode::Insert),
        (None, TextPlacementMode::Insert),
        (Some("text"), TextPlacementMode::Freeform),
    ] {
        let mut state = TextEditorState { buffer: vec![], cursor_position: 0 };
        let mut a = entity(1, 0);
        let mut q = BufferSortRespawnQueue { indices: vec![] };
        handle_unicode_text_input(&events, tool, mode, Some(&f), &mut state, &mut a, &mut q);
        assert!(state.buffer.is_empty());
        assert_eq!(cursor(&a), 0);
    }
}

#[test]
fn space_without_a_space_glyph_is_250_wide() {
    let mut state = TextEditorState { buffer: vec![], cursor_position: 0 };
    let mut a = entity(1, 0);
    let mut q = BufferSortRespawnQueue { indices: vec![] };
    handle_space_character(&mut state, None, &mut a, &mut q);
    assert_eq!(names(&state), vec!["space"]);
    assert_eq!(widths(&state), vec![250]);
    handle_unicode_character('a', &mut state, None, &mut a, &mut q);
    assert_eq!(state.buffer.len(), 1);
}

#[test]
fn backspace_and_delete_follow_the_text_direction() {
    let f = font();
    let mut state = TextEditorState { buffer: vec![], cursor_position: 0 };
    let mut a = entity(1, 0);
    let mut q = BufferSortRespawnQueue { indices: vec![] };
    handle_unicode_character('a', &mut state, Some(&f), &mut a, &mut q);
    handle_unicode_character('b', &mut state, Some(&f), &mut a, &mut q);
    handle_unicode_character('a', &mut state, Some(&f), &mut a, &mut q);
    let mut a1 = entity(1, 1);
    // Right to left, backspace deletes at the cursor.
    handle_backspace(&mut state, TextPlacementMode::RTLText, &mut a1, &mut q);
    assert_eq!(names(&state), vec!["a", "a"]);
    assert_eq!(cursor(&a1), 1);
    // Right to left, delete removes left of the cursor.
    handle_delete(&mut state, TextPlacementMode::RTLText, &mut a1, &mut q);
    assert_eq!(names(&state), vec!["a"]);
    assert_eq!(cursor(&a1), 0);
}

#[test]
fn arabic_keyboard_in_right_to_left_mode() {
    let f = font();
    let mut state = TextEditorState { buffer: vec![], cursor_position: 0 };
    let evs = vec![
        ArabicKeyEvent { key_code: KeyCode::KeyA, pressed: true },
        ArabicKeyEvent { key_code: KeyCode::Other, pressed: true },
        ArabicKeyEvent { key_code: KeyCode::KeyB, pressed: false },
        ArabicKeyEvent { key_code: KeyCode::KeyL, pressed: true },
    ];
    handle_arabic_text_input(&evs, TextPlacementMode::LTRText, &mut state, Some(&f));
    assert!(state.buffer.is_empty());
    handle_arabic_text_input(&evs, TextPlacementMode::RTLText, &mut state, Some(&f));
    assert_eq!(names(&state), vec!["alef-ar", "lam-ar"]);
    assert_eq!(widths(&state), vec![300, 500]);
    assert_eq!(state.cursor_position, 2);
    assert_eq!(state.buffer[0].layout_mode, SortLayoutMode::RTLText);
    assert_eq!(state.buffer[1].buffer_cursor_position, Some(1));
    insert_arabic_glyph(&mut state, "beh-ar", None);
    assert_eq!(names(&state), vec!["alef-ar", "lam-ar", "beh-ar"]);
}

#[test]
fn arabic_glyph_names_and_back() {
    assert_eq!(get_simple_arabic_glyph_name('\u{0648}'), "waw-ar");
    assert_eq!(get_simple_arabic_glyph_name('\u{0639}'), "uni0639");
    assert_eq!(get_simple_arabic_glyph_name('A'), "uni0041");
    assert_eq!(glyph_name_to_char("beh-ar.init"), Some('\u{0628}'));
    assert_eq!(glyph_name_to_char("yeh-ar"), Some('\u{064A}'));
    assert_eq!(glyph_name_to_char("space"), Some(' '));
    assert_eq!(glyph_name_to_char("spaces"), None);
    assert_eq!(glyph_name_to_char("beh"), None);
}

fn active_sort(name: &str, is_active: bool) -> SortData {
    SortData {
        kind: SortKind::Glyph { codepoint: Some('a'), glyph_name: name.to_string(), advance_width: 600 },
        is_active,
        layout_mode: SortLayoutMode::LTRText,
        root_position: Point { x: 5, y: 6 },
        buffer_cursor_position: None,
        buffer_id: Some(BufferId(3)),
    }
}

#[test]
fn glyph_selection_errors() {
    let mut nav = GlyphNavigation { current_glyph: None };
    let mut q = BufferSortRespawnQueue { indices: vec![] };
    let mut none: Option<TextEditorState> = None;
    assert_eq!(
        handle_glyph_selection(0xD800, &mut nav, &mut none, &mut q, Some("text"), Some(TextPlacementMode::Insert)),
        Err("Invalid Unicode codepoint".to_string())
    );
    assert_eq!(nav.current_glyph, None);
    assert_eq!(
        handle_glyph_selection(0x41, &mut nav, &mut none, &mut q, Some("text"), Some(TextPlacementMode::Insert)),
        Err("No TextEditorState available for glyph change".to_string())
    );
    assert_eq!(nav.current_glyph, Some("U+0041".to_string()));
    let mut no_active = Some(TextEditorState { buffer: vec![active_sort("a", false)], cursor_position: 0 });
    assert_eq!(
        handle_glyph_selection(0x42, &mut nav, &mut no_active, &mut q, Some("select"), None),
        Err("No active sort - click on a glyph in the editor first".to_string())
    );
    let mut s = TextEditorState { buffer: vec![active_sort("a", true)], cursor_position: 0 };
    assert_eq!(
        change_active_sort_glyph(0x42, None, "U+0042", &mut s, &mut q),
        Err("Invalid Unicode codepoint".to_string())
    );
}

#[test]
fn glyph_selection_types_or_changes_the_active_sort() {
    let mut nav = GlyphNavigation { current_glyph: None };
    let mut q = BufferSortRespawnQueue { indices: vec![] };
    let mut state = Some(TextEditorState {
        buffer: vec![active_sort("a", false), active_sort("b", true), active_sort("c", true)],
        cursor_position: 1,
    });
    // Not in insert mode: the first active sort shows the glyph.
    assert_eq!(
        handle_glyph_selection(0x1F600, &mut nav, &mut state, &mut q, Some("text"), Some(TextPlacementMode::LTRText)),
        Ok("U+1F600".to_string())
    );
    let st = state.as_ref().unwrap();
    assert_eq!(names(st), vec!["a", "U+1F600", "c"]);
    match &st.buffer[1].kind {
        SortKind::Glyph { codepoint, advance_width, .. } => {
            assert_eq!(*codepoint, Some('\u{1F600}'));
            assert_eq!(*advance_width, 500);
        }
        SortKind::LineBreak => panic!("expected a glyph"),
    }
    assert_eq!(st.buffer[1].root_position, Point { x: 5, y: 6 });
    assert_eq!(q.indices, vec![1]);
    // In insert mode of the text tool: typed at the editor's cursor.
    let mut q = BufferSortRespawnQueue { indices: vec![] };
    assert_eq!(
        handle_glyph_selection(0x62, &mut nav, &mut state, &mut q, Some("text"), Some(TextPlacementMode::Insert)),
        Ok("U+0062".to_string())
    );
    let st = state.as_ref().unwrap();
    assert_eq!(names(st), vec!["a", "U+0062", "U+1F600", "c"]);
    assert_eq!(st.cursor_position, 2);
    assert_eq!(q.indices, vec![1, 2, 3]);
    assert_eq!(nav.current_glyph, Some("U+0062".to_string()));
}

#[test]
fn clicking_places_a_new_buffer_and_switches_to_insert() {
    let f = font();
    let mut state = TextEditorState { buffer: vec![active_sort("x", true)], cursor_position: 0 };
    let mut a = ActiveTextBuffer { buffer_entity: None };
    let mut mode = TextPlacementMode::RTLText;
    // Not the text tool, hovering, no click, Insert mode: nothing happens.
    assert!(!handle_sort_placement_input(true, false, Some("pen"), &mut mode, Some(Point { x: 1, y: 2 }), &mut state, &mut a, BufferId(8), "a".to_string(), 'a', Some(&f)));
    assert!(!handle_sort_placement_input(true, true, Some("text"), &mut mode, Some(Point { x: 1, y: 2 }), &mut state, &mut a, BufferId(8), "a".to_string(), 'a', Some(&f)));
    assert!(!handle_sort_placement_input(false, false, Some("text"), &mut mode, Some(Point { x: 1, y: 2 }), &mut state, &mut a, BufferId(8), "a".to_string(), 'a', Some(&f)));
    let mut insert = TextPlacementMode::Insert;
    assert!(!handle_sort_placement_input(true, false, Some("text"), &mut insert, Some(Point { x: 1, y: 2 }), &mut state, &mut a, BufferId(8), "a".to_string(), 'a', Some(&f)));
    assert_eq!(state.buffer.len(), 1);
    assert!(a.buffer_entity.is_none());
    // A click in right-to-left placement.
    assert!(handle_sort_placement_input(true, false, Some("text"), &mut mode, Some(Point { x: 1, y: 2 }), &mut state, &mut a, BufferId(8), "alef-ar".to_string(), '\u{0627}', Some(&f)));
    assert_eq!(mode, TextPlacementMode::Insert);
    assert_eq!(names(&state), vec!["alef-ar", "x"]);
    assert_eq!(widths(&state), vec![300, 600]);
    assert!(state.buffer[0].is_active);
    assert!(!state.buffer[1].is_active);
    assert_eq!(state.buffer[0].root_position, Point { x: 1, y: 2 });
    assert_eq!(state.buffer[0].layout_mode, SortLayoutMode::RTLText);
    let e = a.buffer_entity.unwrap();
    assert_eq!(e.cursor.position, 1);
    assert_eq!(e.buffer.id, BufferId(8));
    assert_eq!(e.buffer.layout_mode, SortLayoutMode::RTLText);
}

#[test]
fn startup_layout_and_width_migration() {
    let f = font();
    let mut state = TextEditorState { buffer: vec![], cursor_position: 0 };
    assert_eq!(create_startup_layout(&mut state, true, Some(&f), BufferId(1)), None);
    assert!(state.buffer.is_empty());
    assert_eq!(create_startup_layout(&mut state, false, None, BufferId(1)), Some(500));
    assert_eq!(names(&state), vec!["a"]);
    assert!(state.buffer[0].is_active);
    assert_eq!(state.buffer[0].buffer_cursor_position, Some(1));
    // A second call finds the editor non-empty.
    assert_eq!(create_startup_layout(&mut state, false, Some(&f), BufferId(2)), None);
    assert_eq!(state.buffer.len(), 1);
    // Without a font nothing is migrated yet.
    assert_eq!(migrate_sort_advance_widths(&mut state, None), None);
    state.buffer.push(active_sort("b", false));
    assert_eq!(migrate_sort_advance_widths(&mut state, Some(&f)), Some(1));
    assert_eq!(widths(&state), vec![520, 600]);
    assert_eq!(migrate_sort_advance_widths(&mut state, Some(&f)), Some(0));
}
