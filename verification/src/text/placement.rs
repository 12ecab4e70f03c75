//! Placing text buffers: a click of the text tool starts a new text flow,
//! the editor starts with one default sort, and sorts created before the
//! font was loaded get the font's advance widths.

use vstd::prelude::*;
use crate::strings::str_equals;
use crate::text::buffer::{
    lemma_sorts_view_insert, sorts_view, ActiveTextBuffer, BufferCursor, BufferEntity, BufferId,
    Point, SortData, SortKind, SortKindView, SortLayoutMode, SortView, TextBuffer,
    TextEditorState, TextPlacementMode,
};
use crate::text::font::{
    advance_width_of, fallback_advance_width, font_value, get_glyph_advance_width, glyph_named,
    FontGlyphs,
};

verus! {

/// The sorts with every sort made inactive.
pub open spec fn deactivated(s: Seq<SortView>) -> Seq<SortView> {
    s.map_values(|x: SortView| SortView { is_active: false, ..x })
}

/// Make every sort inactive, so that at most one is active afterwards.
pub fn deactivate_all_sorts(text_editor_state: &mut TextEditorState)
    ensures
        sorts_view(final(text_editor_state).buffer@) == deactivated(sorts_view(old(text_editor_state).buffer@)),
        final(text_editor_state).cursor_position == old(text_editor_state).cursor_position,
{
    let ghost s0 = sorts_view(text_editor_state.buffer@);
    let n = text_editor_state.buffer.len();
    let mut i: usize = 0;
    while i < n
        invariant
            n == s0.len(),
            text_editor_state.buffer@.len() == n,
            text_editor_state.cursor_position == old(text_editor_state).cursor_position,
            i <= n,
            forall|k: int| 0 <= k < i ==> (#[trigger] text_editor_state.buffer@[k])@ == deactivated(s0)[k],
            forall|k: int| i <= k < n ==> (#[trigger] text_editor_state.buffer@[k])@ == s0[k],
        decreases n - i,
    {
        if text_editor_state.buffer[i].is_active {
            let old_sort = &text_editor_state.buffer[i];
            let new_sort = SortData {
                kind: old_sort.kind.duplicate(),
                is_active: false,
                layout_mode: old_sort.layout_mode,
                root_position: old_sort.root_position,
                buffer_cursor_position: old_sort.buffer_cursor_position,
                buffer_id: old_sort.buffer_id,
            };
            text_editor_state.buffer.set(i, new_sort);
        }
        i = i + 1;
    }
    assert(sorts_view(text_editor_state.buffer@) =~= deactivated(s0));
}

/// The first sort of a newly placed buffer: the placeholder glyph, active.
pub open spec fn placed_sort(
    name: Seq<char>,
    codepoint: char,
    advance_width: i32,
    layout_mode: SortLayoutMode,
    position: Point,
    id: BufferId,
) -> SortView {
    SortView {
        kind: SortKindView::Glyph { codepoint: Some(codepoint), glyph_name: name, advance_width },
        is_active: true,
        layout_mode,
        root_position: position,
        buffer_cursor_position: None,
        buffer_id: Some(id),
    }
}

/// Start a new, independent text buffer at `world_position` whose first
/// sort is the placeholder glyph, and make it the active buffer with its
/// cursor after that sort.
pub fn create_independent_sort(
    text_editor_state: &mut TextEditorState,
    active_buffer: &mut ActiveTextBuffer,
    world_position: Point,
    layout_mode: SortLayoutMode,
    buffer_id: BufferId,
    placeholder_glyph: String,
    placeholder_codepoint: char,
    font: Option<&FontGlyphs>,
)
    ensures
        sorts_view(final(text_editor_state).buffer@) == sorts_view(old(text_editor_state).buffer@).insert(
            0,
            placed_sort(
                placeholder_glyph@,
                placeholder_codepoint,
                advance_width_of(font_value(font), placeholder_glyph@) as i32,
                layout_mode,
                world_position,
                buffer_id,
            ),
        ),
        final(text_editor_state).cursor_position == old(text_editor_state).cursor_position,
        final(active_buffer).buffer_entity == Some(
            BufferEntity {
                buffer: TextBuffer { id: buffer_id, layout_mode, root_position: world_position },
                cursor: BufferCursor { position: 1 },
            },
        ),
{
    let advance_width = get_glyph_advance_width(placeholder_glyph.as_str(), font);
    let initial_sort = SortData {
        kind: SortKind::Glyph {
            glyph_name: placeholder_glyph,
            codepoint: Some(placeholder_codepoint),
            advance_width,
        },
        layout_mode,
        is_active: true,
        root_position: world_position,
        buffer_cursor_position: None,
        buffer_id: Some(buffer_id),
    };
    proof {
        lemma_sorts_view_insert(text_editor_state.buffer@, 0, initial_sort);
    }
    text_editor_state.buffer.insert(0, initial_sort);
    active_buffer.buffer_entity = Some(
        BufferEntity {
            buffer: TextBuffer { id: buffer_id, layout_mode, root_position: world_position },
            cursor: BufferCursor { position: 1 },
        },
    );
}

/// The layout of the buffer a click places: only the text placement modes
/// place buffers.
pub open spec fn placement_layout(mode: TextPlacementMode) -> Option<SortLayoutMode> {
    match mode {
        TextPlacementMode::LTRText => Some(SortLayoutMode::LTRText),
        TextPlacementMode::RTLText => Some(SortLayoutMode::RTLText),
        _ => None,
    }
}

/// Whether a click places a new buffer: a left click of the text tool in a
/// text placement mode, not over the user interface, at a known position.
pub open spec fn click_places(
    left_clicked: bool,
    hovering_ui: bool,
    current_tool: Option<Seq<char>>,
    mode: TextPlacementMode,
    position: Option<Point>,
) -> bool {
    current_tool == Some("text"@) && placement_layout(mode) is Some && !hovering_ui && left_clicked
        && position is Some
}

/// Handle a click in the design area with the text tool: in a text
/// placement mode a new buffer starts at the (grid-snapped) click position,
/// every other sort is made inactive, and typing switches to insert mode.
/// Returns whether a buffer was placed.
pub fn handle_sort_placement_input(
    left_clicked: bool,
    hovering_ui: bool,
    current_tool: Option<&str>,
    current_placement_mode: &mut TextPlacementMode,
    snapped_position: Option<Point>,
    text_editor_state: &mut TextEditorState,
    active_buffer: &mut ActiveTextBuffer,
    new_buffer_id: BufferId,
    placeholder_glyph: String,
    placeholder_codepoint: char,
    font: Option<&FontGlyphs>,
) -> (r: bool)
    requires
        old(text_editor_state).buffer@.len() < usize::MAX,
    ensures
        r == click_places(
            left_clicked,
            hovering_ui,
            crate::text::input::tool_view(current_tool),
            *old(current_placement_mode),
            snapped_position,
        ),
        !r ==> *final(current_placement_mode) == *old(current_placement_mode)
            && *final(text_editor_state) == *old(text_editor_state)
            && *final(active_buffer) == *old(active_buffer),
        r ==> {
            let layout = placement_layout(*old(current_placement_mode))->0;
            let position = snapped_position->0;
            &&& *final(current_placement_mode) == TextPlacementMode::Insert
            &&& sorts_view(final(text_editor_state).buffer@) == deactivated(
                sorts_view(old(text_editor_state).buffer@),
            ).insert(
                0,
                placed_sort(
                    placeholder_glyph@,
                    placeholder_codepoint,
                    advance_width_of(font_value(font), placeholder_glyph@) as i32,
                    layout,
                    position,
                    new_buffer_id,
                ),
            )
            &&& final(text_editor_state).cursor_position == old(text_editor_state).cursor_position
            &&& final(active_buffer).buffer_entity == Some(
                BufferEntity {
                    buffer: TextBuffer { id: new_buffer_id, layout_mode: layout, root_position: position },
                    cursor: BufferCursor { position: 1 },
                },
            )
        },
{
    let is_text_tool = match current_tool {
        Some(name) => {
            proof {
                reveal_strlit("text");
            }
            str_equals(name, "text")
        },
        None => false,
    };
    if !is_text_tool {
        return false;
    }
    let layout_mode = match *current_placement_mode {
        TextPlacementMode::LTRText => SortLayoutMode::LTRText,
        TextPlacementMode::RTLText => SortLayoutMode::RTLText,
        _ => return false,
    };
    if hovering_ui {
        return false;
    }
    if !left_clicked {
        return false;
    }
    let position = match snapped_position {
        Some(p) => p,
        None => return false,
    };
    deactivate_all_sorts(text_editor_state);
    create_independent_sort(
        text_editor_state,
        active_buffer,
        position,
        layout_mode,
        new_buffer_id,
        placeholder_glyph,
        placeholder_codepoint,
        font,
    );
    *current_placement_mode = TextPlacementMode::Insert;
    true
}

/// The default sort the editor starts with: glyph `a`, active, left to
/// right, at the origin.
pub open spec fn default_sort(advance_width: i32, id: BufferId) -> SortView {
    SortView {
        kind: SortKindView::Glyph { codepoint: Some('a'), glyph_name: "a"@, advance_width },
        is_active: true,
        layout_mode: SortLayoutMode::LTRText,
        root_position: Point { x: 0, y: 0 },
        buffer_cursor_position: Some(1),
        buffer_id: Some(id),
    }
}

/// Create the startup layout: an empty editor gets one default sort unless
/// that is switched off. Returns the default sort's advance width, from
/// which the camera is centred, when the sort was created.
pub fn create_startup_layout(
    text_editor_state: &mut TextEditorState,
    no_default_buffer: bool,
    font: Option<&FontGlyphs>,
    buffer_id: BufferId,
) -> (r: Option<i32>)
    ensures
        final(text_editor_state).cursor_position == old(text_editor_state).cursor_position,
        old(text_editor_state).buffer@.len() != 0 || no_default_buffer ==> r is None
            && *final(text_editor_state) == *old(text_editor_state),
        old(text_editor_state).buffer@.len() == 0 && !no_default_buffer ==> {
            let w = advance_width_of(font_value(font), "a"@) as i32;
            &&& r == Some(w)
            &&& sorts_view(final(text_editor_state).buffer@) == seq![default_sort(w, buffer_id)]
        },
{
    if text_editor_state.buffer.len() != 0 {
        return None;
    }
    if no_default_buffer {
        return None;
    }
    let glyph_name = String::from_str("a");
    let advance_width = get_glyph_advance_width(glyph_name.as_str(), font);
    create_default_sort_at_position(
        text_editor_state,
        Point { x: 0, y: 0 },
        glyph_name,
        advance_width,
        buffer_id,
    );
    assert(sorts_view(text_editor_state.buffer@) =~= seq![default_sort(advance_width, buffer_id)]);
    Some(advance_width)
}

/// Append a default sort for `glyph_name` at `position` in its own buffer.
fn create_default_sort_at_position(
    text_editor_state: &mut TextEditorState,
    position: Point,
    glyph_name: String,
    advance_width: i32,
    buffer_id: BufferId,
)
    ensures
        sorts_view(final(text_editor_state).buffer@) == sorts_view(old(text_editor_state).buffer@).push(
            SortView {
                kind: SortKindView::Glyph {
                    codepoint: Some('a'),
                    glyph_name: glyph_name@,
                    advance_width,
                },
                is_active: true,
                layout_mode: SortLayoutMode::LTRText,
                root_position: position,
                buffer_cursor_position: Some(1),
                buffer_id: Some(buffer_id),
            },
        ),
        final(text_editor_state).cursor_position == old(text_editor_state).cursor_position,
{
    let sort = SortData {
        kind: SortKind::Glyph { codepoint: Some('a'), glyph_name, advance_width },
        is_active: true,
        layout_mode: SortLayoutMode::LTRText,
        root_position: position,
        buffer_cursor_position: Some(1),
        buffer_id: Some(buffer_id),
    };
    let ghost before = text_editor_state.buffer@;
    let insert_index = text_editor_state.buffer.len();
    text_editor_state.buffer.insert(insert_index, sort);
    assert(sorts_view(text_editor_state.buffer@) =~= sorts_view(before).push(sort@));
}

/// A sort after width migration: a glyph still at the fallback width takes
/// the font's width for its glyph when the font has one that differs.
pub open spec fn migrated(s: SortView, f: FontGlyphs) -> SortView {
    match s.kind {
        SortKindView::Glyph { codepoint, glyph_name, advance_width } => if advance_width
            == fallback_advance_width() {
            match glyph_named(f.glyphs@, glyph_name) {
                Some(i) => if f.glyphs@[i].advance_width != fallback_advance_width() {
                    SortView {
                        kind: SortKindView::Glyph {
                            codepoint,
                            glyph_name,
                            advance_width: f.glyphs@[i].advance_width,
                        },
                        ..s
                    }
                } else {
                    s
                },
                None => s,
            }
        } else {
            s
        },
        SortKindView::LineBreak => s,
    }
}

/// The number of sorts of `s` that migration changes.
pub open spec fn migration_count(s: Seq<SortView>, f: FontGlyphs) -> nat
    decreases s.len(),
{
    if s.len() == 0 {
        0
    } else {
        migration_count(s.drop_last(), f) + if migrated(s.last(), f) != s.last() {
            1nat
        } else {
            0nat
        }
    }
}

/// Give the sorts created before the font was loaded the font's advance
/// widths. Without a font nothing is done and `None` is returned (try
/// again later); otherwise the number of sorts updated.
pub fn migrate_sort_advance_widths(text_editor_state: &mut TextEditorState, font: Option<&FontGlyphs>) -> (r:
    Option<usize>)
    ensures
        final(text_editor_state).cursor_position == old(text_editor_state).cursor_position,
        match font {
            None => r is None && *final(text_editor_state) == *old(text_editor_state),
            Some(f) => r == Some(migration_count(sorts_view(old(text_editor_state).buffer@), *f) as usize)
                && sorts_view(final(text_editor_state).buffer@) == sorts_view(
                old(text_editor_state).buffer@,
            ).map_values(|s: SortView| migrated(s, *f)),
        },
{
    let f = match font {
        Some(f) => f,
        None => return None,
    };
    let ghost s0 = sorts_view(text_editor_state.buffer@);
    let n = text_editor_state.buffer.len();
    let mut updated_count: usize = 0;
    let mut i: usize = 0;
    while i < n
        invariant
            n == s0.len(),
            text_editor_state.buffer@.len() == n,
            text_editor_state.cursor_position == old(text_editor_state).cursor_position,
            i <= n,
            updated_count == migration_count(s0.take(i as int), *f),
            updated_count <= i,
            forall|k: int|
                0 <= k < i ==> (#[trigger] text_editor_state.buffer@[k])@ == migrated(s0[k], *f),
            forall|k: int| i <= k < n ==> (#[trigger] text_editor_state.buffer@[k])@ == s0[k],
        decreases n - i,
    {
        proof {
            assert(s0.take(i as int + 1).drop_last() =~= s0.take(i as int));
        }
        let sort = &text_editor_state.buffer[i];
        assert(sort@ == s0[i as int]);
        let mut replacement: Option<SortData> = None;
        if let SortKind::Glyph { codepoint, glyph_name, advance_width } = &sort.kind {
            if *advance_width == 500 {
                if let Some(j) = f.find(glyph_name.as_str()) {
                    proof {
                        crate::text::font::lemma_glyph_named_in_range(f.glyphs@, glyph_name@);
                    }
                    let correct_width = f.glyphs[j].advance_width;
                    if correct_width != 500 {
                        replacement = Some(
                            SortData {
                                kind: SortKind::Glyph {
                                    codepoint: *codepoint,
                                    glyph_name: glyph_name.clone(),
                                    advance_width: correct_width,
                                },
                                is_active: sort.is_active,
                                layout_mode: sort.layout_mode,
                                root_position: sort.root_position,
                                buffer_cursor_position: sort.buffer_cursor_position,
                                buffer_id: sort.buffer_id,
                            },
                        );
                    }
                }
            }
        }
        match replacement {
            Some(new_sort) => {
                assert(new_sort@ == migrated(s0[i as int], *f));
                assert(new_sort@ != s0[i as int]);
                text_editor_state.buffer.set(i, new_sort);
                updated_count = updated_count + 1;
            },
            None => {
                assert(migrated(s0[i as int], *f) == s0[i as int]);
            },
        }
        i = i + 1;
    }
    assert(s0.take(n as int) =~= s0);
    assert(sorts_view(text_editor_state.buffer@) =~= s0.map_values(|s: SortView| migrated(s, *f)));
    Some(updated_count)
}

} // verus!
