use bezy::text::buffer::{
    ActiveTextBuffer, BufferCursor, BufferEntity, BufferId, BufferSortRespawnQueue, Point,
    SortData, SortKind, SortLayoutMode, TextBuffer, TextEditorState,
};
use bezy::text::editing::{
    delete_character_at_buffer_cursor, insert_character_at_buffer_cursor,
    insert_line_break_at_buffer_cursor,
};
use bezy::text::flow::{
    calculate_cursor_position, calculate_ltr_offset, calculate_rtl_offset,
    calculate_text_flow_offset, collect_buffer_sorts, get_line_height, FontMetrics, Offset,
};
use bezy::text::font::{get_glyph_advance_width, unicode_to_glyph_name, FontGlyphs, GlyphRecord};
use bezy::text::buffer_manager::{
    create_text_buffer, get_buffer_cursor_position, set_buffer_cursor_position,
    update_active_buffer,
};
use bezy::text::flow::get_active_buffer_info;
use bezy::text::navigation::{
    calculate_line_navigation_position, count_buffer_sorts, handle_arrow_down, handle_arrow_left,
    handle_arrow_right, handle_arrow_up, LineNavigation,
};

fn glyph(name: &str, c: char, w: i32, id: u64, mode: SortLayoutMode) -> SortData {
    SortData {
        kind: SortKind::Glyph { codepoint: Some(c), glyph_name: name.to_string(), advance_width: w },
        is_active: false,
        layout_mode: mode,
        root_position: Point { x: 0, y: 0 },
        buffer_cursor_position: None,
        buffer_id: Some(BufferId(id)),
    }
}

fn line_break(id: u64) -> SortData {
    SortData {
        kind: SortKind::LineBreak,
        is_active: false,
        layout_mode: SortLayoutMode::LTRText,
        root_position: Point { x: 0, y: 0 },
        buffer_cursor_position: None,
        buffer_id: Some(BufferId(id)),
    }
}

fn active(id: u64, mode: SortLayoutMode, cursor: usize) -> ActiveTextBuffer {
    ActiveTextBuffer {
        buffer_entity: Some(BufferEntity {
            buffer: TextBuffer { id: BufferId(id), layout_mode: mode, root_position: Point { x: 100, y: 200 } },
            cursor: BufferCursor { position: cursor },
        }),
    }
}

fn names(state: &TextEditorState) -> Vec<String> {
    state
        .buffer
        .iter()
        .map(|s| match &s.kind {
            SortKind::Glyph { glyph_name, .. } => glyph_name.clone(),
            SortKind::LineBreak => "\n".to_string(),
        })
        .collect()
}

fn cursor(a: &ActiveTextBuffer) -> usize {
    a.buffer_entity.unwrap().cursor.position
}

fn empty_queue() -> BufferSortRespawnQueue {
    BufferSortRespawnQueue { indices: vec![] }
}

#[test]
fn first_glyph_of_a_buffer_goes_to_the_end() {
    let mut state = TextEditorState { buffer: vec![glyph("x", 'x', 300, 9, SortLayoutMode::LTRText)], cursor_position: 0 };
    let mut a = active(1, SortLayoutMode::LTRText, 0);
    let mut q = empty_queue();
    assert!(insert_character_at_buffer_cursor('a', "a".to_string(), 500, &mut state, &mut a, &mut q));
    assert_eq!(names(&state), vec!["x", "a"]);
    assert_eq!(cursor(&a), 1);
    assert_eq!(q.indices, vec![1]);
    let s = &state.buffer[1];
    assert_eq!(s.buffer_id, Some(BufferId(1)));
    assert_eq!(s.root_position, Point { x: 100, y: 200 });
    assert!(!s.is_active);
}

#[test]
fn typing_goes_to_the_cursor_among_the_buffers_own_sorts() {
    // Buffer 1 owns positions 0, 2 and 3; buffer 2 owns position 1.
    let mut state = TextEditorState {
        buffer: vec![
            glyph("a", 'a', 500, 1, SortLayoutMode::LTRText),
            glyph("z", 'z', 500, 2, SortLayoutMode::LTRText),
            glyph("b", 'b', 500, 1, SortLayoutMode::LTRText),
            glyph("c", 'c', 500, 1, SortLayoutMode::LTRText),
        ],
        cursor_position: 0,
    };
    let mut a = active(1, SortLayoutMode::LTRText, 1);
    let mut q = empty_queue();
    assert!(insert_character_at_buffer_cursor('q', "q".to_string(), 400, &mut state, &mut a, &mut q));
    // The cursor-th (1st) member is at index 2.
    assert_eq!(names(&state), vec!["a", "z", "q", "b", "c"]);
    assert_eq!(cursor(&a), 2);
    assert_eq!(q.indices, vec![2, 3, 4]);

    // A cursor past the buffer's end inserts after its last sort.
    let mut a = active(2, SortLayoutMode::LTRText, 7);
    let mut q = empty_queue();
    assert!(insert_character_at_buffer_cursor('y', "y".to_string(), 400, &mut state, &mut a, &mut q));
    assert_eq!(names(&state), vec!["a", "z", "y", "q", "b", "c"]);
    assert_eq!(cursor(&a), 8);
    assert_eq!(q.indices, vec![2, 3, 4, 5]);
}

#[test]
fn without_an_active_buffer_nothing_is_typed() {
    let mut state = TextEditorState { buffer: vec![], cursor_position: 0 };
    let mut a = ActiveTextBuffer { buffer_entity: None };
    let mut q = empty_queue();
    assert!(!insert_character_at_buffer_cursor('a', "a".to_string(), 500, &mut state, &mut a, &mut q));
    assert!(!insert_line_break_at_buffer_cursor(&mut state, &mut a, &mut q));
    assert!(!delete_character_at_buffer_cursor(&mut state, &mut a, &mut q, true));
    assert!(state.buffer.is_empty());
    assert!(q.indices.is_empty());
}

#[test]
fn line_break_goes_to_the_cursor_index() {
    let mut state = TextEditorState {
        buffer: vec![glyph("a", 'a', 500, 1, SortLayoutMode::LTRText), glyph("b", 'b', 500, 1, SortLayoutMode::LTRText)],
        cursor_position: 0,
    };
    let mut a = active(1, SortLayoutMode::RTLText, 1);
    let mut q = empty_queue();
    assert!(insert_line_break_at_buffer_cursor(&mut state, &mut a, &mut q));
    assert_eq!(names(&state), vec!["a", "\n", "b"]);
    assert_eq!(state.buffer[1].layout_mode, SortLayoutMode::RTLText);
    assert_eq!(cursor(&a), 2);
    assert_eq!(q.indices, vec![1, 2]);
}

#[test]
fn deleting_left_and_right_and_at_the_edges() {
    let sorts = vec![
        glyph("a", 'a', 500, 1, SortLayoutMode::LTRText),
        glyph("b", 'b', 500, 1, SortLayoutMode::LTRText),
        glyph("c", 'c', 500, 1, SortLayoutMode::LTRText),
    ];
    // Backspace at the start deletes nothing.
    let mut state = TextEditorState { buffer: sorts.clone(), cursor_position: 0 };
    let mut a = active(1, SortLayoutMode::LTRText, 0);
    let mut q = empty_queue();
    assert!(!delete_character_at_buffer_cursor(&mut state, &mut a, &mut q, true));
    assert_eq!(state.buffer.len(), 3);
    // Delete at the end deletes nothing.
    let mut a = active(1, SortLayoutMode::LTRText, 3);
    assert!(!delete_character_at_buffer_cursor(&mut state, &mut a, &mut q, false));
    assert_eq!(state.buffer.len(), 3);
    // Backspace after "b" removes "b" and moves left.
    let mut a = active(1, SortLayoutMode::LTRText, 2);
    assert!(delete_character_at_buffer_cursor(&mut state, &mut a, &mut q, true));
    assert_eq!(names(&state), vec!["a", "c"]);
    assert_eq!(cursor(&a), 1);
    assert_eq!(q.indices, vec![1]);
    // Delete at the cursor removes "c" and stays.
    let mut q = empty_queue();
    assert!(delete_character_at_buffer_cursor(&mut state, &mut a, &mut q, false));
    assert_eq!(names(&state), vec!["a"]);
    assert_eq!(cursor(&a), 1);
    assert!(q.indices.is_empty());
    // Backspace past the end of the sorts deletes nothing.
    let mut a = active(1, SortLayoutMode::LTRText, 5);
    assert!(!delete_character_at_buffer_cursor(&mut state, &mut a, &mut q, true));
}

#[test]
fn insert_then_backspace_restores() {
    let sorts = vec![
        glyph("a", 'a', 500, 1, SortLayoutMode::LTRText),
        glyph("b", 'b', 500, 1, SortLayoutMode::LTRText),
    ];
    for c in 0..=2usize {
        let mut state = TextEditorState { buffer: sorts.clone(), cursor_position: 0 };
        let mut a = active(1, SortLayoutMode::LTRText, c);
        let mut q = empty_queue();
        insert_character_at_buffer_cursor('x', "x".to_string(), 450, &mut state, &mut a, &mut q);
        delete_character_at_buffer_cursor(&mut state, &mut a, &mut q, true);
        assert_eq!(names(&state), vec!["a", "b"]);
        assert_eq!(cursor(&a), c);
    }
    // The same for a line break.
    let mut state = TextEditorState { buffer: sorts.clone(), cursor_position: 0 };
    let mut a = active(1, SortLayoutMode::LTRText, 1);
    let mut q = empty_queue();
    insert_line_break_at_buffer_cursor(&mut state, &mut a, &mut q);
    delete_character_at_buffer_cursor(&mut state, &mut a, &mut q, true);
    assert_eq!(names(&state), vec!["a", "b"]);
    assert_eq!(cursor(&a), 1);
}

#[test]
fn backspace_after_typing_into_a_later_buffer_removes_by_editor_index() {
    // Buffer 1 is empty and comes after a sort of buffer 2: the typed glyph
    // goes to the end, but backspace removes the sort at the cursor's index
    // among all sorts.
    let mut state = TextEditorState { buffer: vec![glyph("q", 'q', 500, 2, SortLayoutMode::LTRText)], cursor_position: 0 };
    let mut a = active(1, SortLayoutMode::LTRText, 0);
    let mut q = empty_queue();
    insert_character_at_buffer_cursor('x', "x".to_string(), 450, &mut state, &mut a, &mut q);
    assert_eq!(names(&state), vec!["q", "x"]);
    delete_character_at_buffer_cursor(&mut state, &mut a, &mut q, true);
    assert_eq!(names(&state), vec!["x"]);
    assert_eq!(cursor(&a), 0);
}

fn sample_line() -> Vec<SortData> {
    vec![
        glyph("a", 'a', 500, 1, SortLayoutMode::LTRText),
        glyph("b", 'b', 600, 1, SortLayoutMode::LTRText),
        line_break(1),
        glyph("c", 'c', 300, 1, SortLayoutMode::LTRText),
    ]
}

#[test]
fn left_to_right_offsets() {
    let s = sample_line();
    assert_eq!(calculate_ltr_offset(&s, 0, 1000), Offset { x: 0, y: 0 });
    assert_eq!(calculate_ltr_offset(&s, 1, 1000), Offset { x: 500, y: 0 });
    assert_eq!(calculate_ltr_offset(&s, 2, 1000), Offset { x: 1100, y: 0 });
    assert_eq!(calculate_ltr_offset(&s, 3, 1000), Offset { x: 0, y: -1000 });
    assert_eq!(calculate_ltr_offset(&s, 4, 1000), Offset { x: 300, y: -1000 });
    // Past the end counts every sort.
    assert_eq!(calculate_ltr_offset(&s, 9, 1000), Offset { x: 300, y: -1000 });
}

#[test]
fn right_to_left_offsets() {
    let s = sample_line();
    // Every glyph at or after the target pushes the pen left.
    assert_eq!(calculate_rtl_offset(&s, 0, 1000), Offset { x: -1400, y: 0 });
    assert_eq!(calculate_rtl_offset(&s, 1, 1000), Offset { x: -900, y: 0 });
    // A line break exactly at the target: one line down, at the right edge.
    assert_eq!(calculate_rtl_offset(&s, 2, 1000), Offset { x: 0, y: -1000 });
    assert_eq!(calculate_rtl_offset(&s, 3, 1000), Offset { x: -300, y: 0 });
    assert_eq!(calculate_rtl_offset(&s, 4, 1000), Offset { x: 0, y: 0 });
    assert_eq!(calculate_rtl_offset(&s, 5, 1000), Offset { x: 0, y: 0 });
    assert_eq!(
        calculate_text_flow_offset(&s, 1, 1000, SortLayoutMode::RTLText),
        Offset { x: -900, y: 0 }
    );
    assert_eq!(
        calculate_text_flow_offset(&s, 1, 1000, SortLayoutMode::Freeform),
        Offset { x: 500, y: 0 }
    );
}

#[test]
fn cursor_position_and_line_height() {
    assert_eq!(get_line_height(None), 1024);
    assert_eq!(get_line_height(Some(FontMetrics { units_per_em: 1000, descender: Some(-200) })), 1200);
    assert_eq!(get_line_height(Some(FontMetrics { units_per_em: 1000, descender: None })), 1256);
    let mut buffer = sample_line();
    buffer.insert(1, glyph("other", 'o', 999, 2, SortLayoutMode::LTRText));
    let state = TextEditorState { buffer, cursor_position: 0 };
    assert_eq!(collect_buffer_sorts(&state, BufferId(1)).len(), 4);
    let a = active(1, SortLayoutMode::LTRText, 4);
    let metrics = Some(FontMetrics { units_per_em: 1000, descender: Some(-200) });
    assert_eq!(calculate_cursor_position(&state, metrics, &a), Some(Offset { x: 400, y: -1000 }));
    let none = ActiveTextBuffer { buffer_entity: None };
    assert_eq!(calculate_cursor_position(&state, metrics, &none), None);
}

#[test]
fn arrows_move_within_the_buffer() {
    let state = TextEditorState { buffer: sample_line(), cursor_position: 0 };
    assert_eq!(count_buffer_sorts(&state, BufferId(1)), 4);
    let mut a = active(1, SortLayoutMode::LTRText, 3);
    handle_arrow_right(&state, &mut a);
    assert_eq!(cursor(&a), 4);
    handle_arrow_right(&state, &mut a);
    assert_eq!(cursor(&a), 4);
    handle_arrow_left(&mut a);
    assert_eq!(cursor(&a), 3);
    let mut a = active(1, SortLayoutMode::LTRText, 0);
    handle_arrow_left(&mut a);
    assert_eq!(cursor(&a), 0);
}

#[test]
fn up_and_down_keep_the_horizontal_position() {
    // Line 0: a(500) b(600); line 1: c(300).
    let state = TextEditorState { buffer: sample_line(), cursor_position: 0 };
    // From after "b" (x = 1100) down: positions 3 (x 0) and 4 (x 300): 4.
    assert_eq!(calculate_line_navigation_position(&state, BufferId(1), 2, LineNavigation::Down, None), Some(4));
    // From after "c" (x = 300) up: positions 0..=3 have x 0, 500, 1100, 0: 500 is closest.
    assert_eq!(calculate_line_navigation_position(&state, BufferId(1), 4, LineNavigation::Up, None), Some(1));
    // First line going up, last line going down: no move.
    assert_eq!(calculate_line_navigation_position(&state, BufferId(1), 1, LineNavigation::Up, None), None);
    assert_eq!(calculate_line_navigation_position(&state, BufferId(1), 3, LineNavigation::Down, None), None);
    // An empty buffer: no move.
    assert_eq!(calculate_line_navigation_position(&state, BufferId(7), 0, LineNavigation::Down, None), None);
    // The font's widths take precedence: "c" 1000 wide puts x at 1000.
    let font = FontGlyphs {
        glyphs: vec![GlyphRecord { name: "c".to_string(), advance_width: 1000, codepoints: vec!['c'] }],
    };
    assert_eq!(
        calculate_line_navigation_position(&state, BufferId(1), 4, LineNavigation::Up, Some(&font)),
        Some(2)
    );
}

#[test]
fn font_lookups() {
    let font = FontGlyphs {
        glyphs: vec![
            GlyphRecord { name: "A".to_string(), advance_width: 600, codepoints: vec!['A'] },
            GlyphRecord { name: "A.alt".to_string(), advance_width: 610, codepoints: vec!['A', 'a'] },
        ],
    };
    assert_eq!(get_glyph_advance_width("A", Some(&font)), 600);
    assert_eq!(get_glyph_advance_width("B", Some(&font)), 500);
    assert_eq!(get_glyph_advance_width("A", None), 500);
    assert_eq!(unicode_to_glyph_name('A', Some(&font)), Some("A".to_string()));
    assert_eq!(unicode_to_glyph_name('a', Some(&font)), Some("A.alt".to_string()));
    assert_eq!(unicode_to_glyph_name('b', Some(&font)), None);
    assert_eq!(unicode_to_glyph_name('A', None), None);
}

#[test]
fn arrow_up_and_down_move_between_lines() {
    let state = TextEditorState { buffer: sample_line(), cursor_position: 0 };
    let mut a = active(1, SortLayoutMode::LTRText, 2);
    handle_arrow_down(&state, &mut a, None);
    assert_eq!(cursor(&a), 4);
    handle_arrow_down(&state, &mut a, None);
    assert_eq!(cursor(&a), 4);
    handle_arrow_up(&state, &mut a, None);
    assert_eq!(cursor(&a), 1);
    handle_arrow_up(&state, &mut a, None);
    assert_eq!(cursor(&a), 1);
    let mut none = ActiveTextBuffer { buffer_entity: None };
    handle_arrow_up(&state, &mut none, None);
    assert!(none.buffer_entity.is_none());
}

#[test]
fn buffers_are_created_and_their_cursors_moved() {
    let mut b = create_text_buffer(BufferId(9), SortLayoutMode::RTLText, Point { x: -5, y: 40 }, 3);
    assert_eq!(b.buffer.id, BufferId(9));
    assert_eq!(b.buffer.layout_mode, SortLayoutMode::RTLText);
    assert_eq!(b.buffer.root_position, Point { x: -5, y: 40 });
    assert_eq!(get_buffer_cursor_position(Some(&b)), Some(3));
    assert_eq!(get_buffer_cursor_position(None), None);
    set_buffer_cursor_position(&mut b, 7);
    assert_eq!(b.cursor.position, 7);
    assert_eq!(b.buffer.id, BufferId(9));

    let mut act = ActiveTextBuffer { buffer_entity: None };
    update_active_buffer(&mut act, None);
    assert!(act.buffer_entity.is_none());
    update_active_buffer(&mut act, Some(b));
    assert_eq!(act.buffer_entity.map(|e| e.buffer.id), Some(BufferId(9)));
    let other = create_text_buffer(BufferId(2), SortLayoutMode::LTRText, Point { x: 0, y: 0 }, 0);
    update_active_buffer(&mut act, None);
    assert_eq!(act.buffer_entity.map(|e| e.buffer.id), Some(BufferId(9)));
    update_active_buffer(&mut act, Some(other));
    assert_eq!(act.buffer_entity.map(|e| e.buffer.id), Some(BufferId(2)));

    let info = get_active_buffer_info(&act).unwrap();
    assert_eq!(info.buffer_id, BufferId(2));
    assert_eq!(info.cursor_position, 0);
    assert_eq!(info.layout_mode, SortLayoutMode::LTRText);
    assert!(get_active_buffer_info(&ActiveTextBuffer { buffer_entity: None }).is_none());
}
