//! Editing at the buffer cursor: inserting glyphs and line breaks, deleting
//! to either side, and moving the cursor left and right.
//!
//! Every operation that shifts sorts queues the shifted buffer indices for
//! respawning, so that their entities are rebuilt at the new positions.

use vstd::prelude::*;
use crate::text::buffer::{
    in_buffer, lemma_member_positions, lemma_member_positions_take, lemma_sorts_view_insert,
    lemma_sorts_view_remove, member_positions, sorts_view, ActiveTextBuffer, BufferCursor,
    BufferEntity, BufferId, BufferSortRespawnQueue, Point, SortData, SortKind, SortKindView,
    SortView, TextBuffer, TextEditorState,
};

verus! {

/// The editing state as one value: the sorts, the editor's own cursor, the
/// active buffer with its cursor, and the respawn queue.
pub struct EditorModel {
    pub sorts: Seq<SortView>,
    pub cursor_position: usize,
    pub active: ActiveTextBuffer,
    pub respawn: Seq<usize>,
}

/// The editing state held by the three parts that operations change.
pub open spec fn model_of(
    state: TextEditorState,
    active: ActiveTextBuffer,
    queue: BufferSortRespawnQueue,
) -> EditorModel {
    EditorModel {
        sorts: sorts_view(state.buffer@),
        cursor_position: state.cursor_position,
        active,
        respawn: queue.indices@,
    }
}

/// The buffer indices `start`, `start + 1`, ..., `end - 1`.
pub open spec fn indices_from(start: int, end: int) -> Seq<usize> {
    Seq::new((end - start) as nat, |k: int| (start + k) as usize)
}

/// The active buffer with its cursor moved to `position`.
pub open spec fn with_cursor(active: ActiveTextBuffer, position: int) -> ActiveTextBuffer {
    match active.buffer_entity {
        Some(e) => ActiveTextBuffer {
            buffer_entity: Some(
                BufferEntity { buffer: e.buffer, cursor: BufferCursor { position: position as usize } },
            ),
        },
        None => active,
    }
}

/// Where a glyph typed at member cursor `cursor` of buffer `id` goes: at the
/// position of the cursor-th member of the buffer; after the buffer's last
/// member when the cursor is at or past the end; at the very end of the
/// editor when the buffer has no sorts yet.
pub open spec fn insert_index(s: Seq<SortView>, id: BufferId, cursor: int) -> int {
    let pos = member_positions(s, id);
    if pos.len() == 0 {
        s.len() as int
    } else if cursor >= pos.len() {
        pos.last() + 1
    } else {
        pos[cursor]
    }
}

/// The sort that typing `character` as glyph `name` creates in buffer `b`.
pub open spec fn typed_sort(character: char, name: Seq<char>, advance_width: i32, b: TextBuffer) -> SortView {
    SortView {
        kind: SortKindView::Glyph { codepoint: Some(character), glyph_name: name, advance_width },
        is_active: false,
        layout_mode: b.layout_mode,
        root_position: b.root_position,
        buffer_cursor_position: None,
        buffer_id: Some(b.id),
    }
}

/// The line break that Enter creates in buffer `b`.
pub open spec fn line_break_sort(b: TextBuffer) -> SortView {
    SortView {
        kind: SortKindView::LineBreak,
        is_active: false,
        layout_mode: b.layout_mode,
        root_position: Point { x: 0, y: 0 },
        buffer_cursor_position: None,
        buffer_id: Some(b.id),
    }
}

/// Inserting a sort at `idx` and moving the cursor one step right; every
/// index from `idx` on is queued for respawn.
pub open spec fn inserted_at(m: EditorModel, idx: int, sort: SortView, cursor: int) -> EditorModel {
    let sorts = m.sorts.insert(idx, sort);
    EditorModel {
        sorts,
        cursor_position: m.cursor_position,
        active: with_cursor(m.active, cursor + 1),
        respawn: m.respawn + indices_from(idx, sorts.len() as int),
    }
}

/// The state after typing `character` as glyph `name`: nothing changes
/// without an active buffer.
pub open spec fn after_insert_char(m: EditorModel, character: char, name: Seq<char>, advance_width: i32) -> EditorModel {
    match m.active.buffer_entity {
        None => m,
        Some(e) => inserted_at(
            m,
            insert_index(m.sorts, e.buffer.id, e.cursor.position as int),
            typed_sort(character, name, advance_width, e.buffer),
            e.cursor.position as int,
        ),
    }
}

/// The state after Enter: a line break at the cursor's index in the editor.
pub open spec fn after_insert_line_break(m: EditorModel) -> EditorModel {
    match m.active.buffer_entity {
        None => m,
        Some(e) => inserted_at(
            m,
            e.cursor.position as int,
            line_break_sort(e.buffer),
            e.cursor.position as int,
        ),
    }
}

/// The index a deletion removes: the one left of the cursor, or the one at
/// the cursor; none at the start, past the end, or without an active buffer.
pub open spec fn delete_index(m: EditorModel, delete_to_left: bool) -> Option<int> {
    match m.active.buffer_entity {
        None => None,
        Some(e) => {
            let c = e.cursor.position as int;
            if delete_to_left {
                if c == 0 || c - 1 >= m.sorts.len() {
                    None
                } else {
                    Some(c - 1)
                }
            } else {
                if c >= m.sorts.len() {
                    None
                } else {
                    Some(c)
                }
            }
        },
    }
}

/// The state after a deletion: the sort at the deleted index is gone, the
/// indices from there on are queued, and deleting to the left moves the
/// cursor one step left.
pub open spec fn after_delete(m: EditorModel, delete_to_left: bool) -> EditorModel {
    match delete_index(m, delete_to_left) {
        None => m,
        Some(idx) => {
            let sorts = m.sorts.remove(idx);
            EditorModel {
                sorts,
                cursor_position: m.cursor_position,
                active: if delete_to_left {
                    with_cursor(m.active, idx)
                } else {
                    m.active
                },
                respawn: m.respawn + indices_from(idx, sorts.len() as int),
            }
        },
    }
}

/// Queue the indices `start..end` for respawn.
fn queue_respawn(queue: &mut BufferSortRespawnQueue, start: usize, end: usize)
    requires
        start <= end,
    ensures
        final(queue).indices@ == old(queue).indices@ + indices_from(start as int, end as int),
{
    let mut i: usize = start;
    while i < end
        invariant
            start <= i <= end,
            queue.indices@ == old(queue).indices@ + indices_from(start as int, i as int),
        decreases end - i,
    {
        queue.indices.push(i);
        i = i + 1;
        assert(queue.indices@ =~= old(queue).indices@ + indices_from(start as int, i as int));
    }
}

/// Insert `character`, shown as `glyph_name`, at the cursor of the active
/// buffer; returns whether there was an active buffer to type into.
pub fn insert_character_at_buffer_cursor(
    character: char,
    glyph_name: String,
    advance_width: i32,
    text_editor_state: &mut TextEditorState,
    active_buffer: &mut ActiveTextBuffer,
    respawn_queue: &mut BufferSortRespawnQueue,
) -> (r: bool)
    requires
        old(active_buffer).buffer_entity matches Some(e) ==> e.cursor.position < usize::MAX,
        old(text_editor_state).buffer@.len() < usize::MAX,
    ensures
        r == old(active_buffer).buffer_entity is Some,
        model_of(*final(text_editor_state), *final(active_buffer), *final(respawn_queue))
            == after_insert_char(
            model_of(*old(text_editor_state), *old(active_buffer), *old(respawn_queue)),
            character,
            glyph_name@,
            advance_width,
        ),
{
    let entity = match active_buffer.buffer_entity {
        Some(e) => e,
        None => return false,
    };
    let cursor_position = entity.cursor.position;
    let buffer_id = entity.buffer.id;
    let ghost s = sorts_view(text_editor_state.buffer@);
    let ghost old_buffer = text_editor_state.buffer@;
    let ghost name = glyph_name@;
    let new_sort = SortData {
        kind: SortKind::Glyph { codepoint: Some(character), glyph_name, advance_width },
        is_active: false,
        layout_mode: entity.buffer.layout_mode,
        root_position: entity.buffer.root_position,
        buffer_cursor_position: None,
        buffer_id: Some(buffer_id),
    };
    // The positions of this buffer's sorts, in order.
    let mut buffer_sort_indices: Vec<usize> = Vec::new();
    let mut i: usize = 0;
    while i < text_editor_state.buffer.len()
        invariant
            s == sorts_view(text_editor_state.buffer@),
            i <= s.len(),
            buffer_sort_indices@.map_values(|v: usize| v as int) == member_positions(
                s.take(i as int),
                buffer_id,
            ),
        decreases s.len() - i,
    {
        proof {
            lemma_member_positions_take(s, buffer_id, i as int);
        }
        if text_editor_state.buffer[i].buffer_id == Some(buffer_id) {
            buffer_sort_indices.push(i);
        }
        i = i + 1;
        proof {
            assert(buffer_sort_indices@.map_values(|v: usize| v as int) =~= member_positions(
                s.take(i as int),
                buffer_id,
            ));
        }
    }
    proof {
        assert(s.take(s.len() as int) =~= s);
        lemma_member_positions(s, buffer_id);
    }
    let ghost pos = member_positions(s, buffer_id);
    assert(buffer_sort_indices@.len() == pos.len());
    let insert_buffer_index = if buffer_sort_indices.len() == 0 {
        text_editor_state.buffer.len()
    } else if cursor_position >= buffer_sort_indices.len() {
        let last = buffer_sort_indices[buffer_sort_indices.len() - 1];
        assert(last as int == pos.last());
        last + 1
    } else {
        let at = buffer_sort_indices[cursor_position];
        assert(at as int == pos[cursor_position as int]);
        at
    };
    assert(insert_buffer_index as int == insert_index(s, buffer_id, cursor_position as int));
    assert(new_sort@ == typed_sort(character, name, advance_width, entity.buffer));
    proof {
        lemma_sorts_view_insert(old_buffer, insert_buffer_index as int, new_sort);
    }
    text_editor_state.buffer.insert(insert_buffer_index, new_sort);
    let new_len = text_editor_state.buffer.len();
    queue_respawn(respawn_queue, insert_buffer_index, new_len);
    active_buffer.buffer_entity = Some(
        BufferEntity {
            buffer: entity.buffer,
            cursor: BufferCursor { position: cursor_position + 1 },
        },
    );
    true
}

/// Insert a line break at the cursor of the active buffer; returns whether
/// there was an active buffer.
pub fn insert_line_break_at_buffer_cursor(
    text_editor_state: &mut TextEditorState,
    active_buffer: &mut ActiveTextBuffer,
    respawn_queue: &mut BufferSortRespawnQueue,
) -> (r: bool)
    requires
        old(active_buffer).buffer_entity matches Some(e) ==> e.cursor.position
            <= old(text_editor_state).buffer@.len(),
        old(text_editor_state).buffer@.len() < usize::MAX,
    ensures
        r == old(active_buffer).buffer_entity is Some,
        model_of(*final(text_editor_state), *final(active_buffer), *final(respawn_queue))
            == after_insert_line_break(
            model_of(*old(text_editor_state), *old(active_buffer), *old(respawn_queue)),
        ),
{
    let entity = match active_buffer.buffer_entity {
        Some(e) => e,
        None => return false,
    };
    let cursor_position = entity.cursor.position;
    let new_line_break = SortData {
        kind: SortKind::LineBreak,
        is_active: false,
        layout_mode: entity.buffer.layout_mode,
        root_position: Point { x: 0, y: 0 },
        buffer_cursor_position: None,
        buffer_id: Some(entity.buffer.id),
    };
    proof {
        lemma_sorts_view_insert(text_editor_state.buffer@, cursor_position as int, new_line_break);
    }
    text_editor_state.buffer.insert(cursor_position, new_line_break);
    let new_len = text_editor_state.buffer.len();
    queue_respawn(respawn_queue, cursor_position, new_len);
    active_buffer.buffer_entity = Some(
        BufferEntity {
            buffer: entity.buffer,
            cursor: BufferCursor { position: cursor_position + 1 },
        },
    );
    true
}

/// Delete the sort left of the cursor (`delete_to_left`, backspace) or at
/// the cursor (delete key); returns whether a sort was deleted.
pub fn delete_character_at_buffer_cursor(
    text_editor_state: &mut TextEditorState,
    active_buffer: &mut ActiveTextBuffer,
    respawn_queue: &mut BufferSortRespawnQueue,
    delete_to_left: bool,
) -> (r: bool)
    ensures
        r == delete_index(
            model_of(*old(text_editor_state), *old(active_buffer), *old(respawn_queue)),
            delete_to_left,
        ) is Some,
        model_of(*final(text_editor_state), *final(active_buffer), *final(respawn_queue))
            == after_delete(
            model_of(*old(text_editor_state), *old(active_buffer), *old(respawn_queue)),
            delete_to_left,
        ),
{
    let entity = match active_buffer.buffer_entity {
        Some(e) => e,
        None => return false,
    };
    let cursor_position = entity.cursor.position;
    let delete_buffer_index = if delete_to_left {
        if cursor_position == 0 {
            return false;
        }
        cursor_position - 1
    } else {
        if cursor_position >= text_editor_state.buffer.len() {
            return false;
        }
        cursor_position
    };
    if delete_buffer_index >= text_editor_state.buffer.len() {
        return false;
    }
    proof {
        lemma_sorts_view_remove(text_editor_state.buffer@, delete_buffer_index as int);
    }
    let _deleted = text_editor_state.buffer.remove(delete_buffer_index);
    let new_len = text_editor_state.buffer.len();
    queue_respawn(respawn_queue, delete_buffer_index, new_len);
    if delete_to_left {
        active_buffer.buffer_entity = Some(
            BufferEntity {
                buffer: entity.buffer,
                cursor: BufferCursor { position: cursor_position - 1 },
            },
        );
    }
    true
}

/// When every sort belongs to one buffer, its member positions are simply
/// the positions of all sorts.
pub proof fn lemma_all_members(s: Seq<SortView>, id: BufferId)
    requires
        forall|i: int| 0 <= i < s.len() ==> in_buffer(#[trigger] s[i], id),
    ensures
        member_positions(s, id) == Seq::new(s.len(), |k: int| k),
    decreases s.len(),
{
    if s.len() > 0 {
        lemma_all_members(s.drop_last(), id);
        assert(member_positions(s, id) =~= Seq::new(s.len(), |k: int| k));
    }
}

/// Typing a glyph and then pressing backspace gives back the sorts and the
/// cursor, whenever the glyph goes in at the cursor's index among all sorts
/// (as it always does when the active buffer holds every sort; see
/// `typing_in_the_only_buffer_goes_to_the_cursor`).
pub proof fn insert_then_backspace_restores(m: EditorModel, character: char, name: Seq<char>, advance_width: i32)
    requires
        m.active.buffer_entity matches Some(e) && e.cursor.position <= m.sorts.len()
            && e.cursor.position < usize::MAX && insert_index(
            m.sorts,
            e.buffer.id,
            e.cursor.position as int,
        ) == e.cursor.position,
    ensures
        after_delete(after_insert_char(m, character, name, advance_width), true).sorts == m.sorts,
        after_delete(after_insert_char(m, character, name, advance_width), true).active == m.active,
        after_delete(after_insert_char(m, character, name, advance_width), true).cursor_position
            == m.cursor_position,
{
    let e = m.active.buffer_entity->0;
    let c = e.cursor.position as int;
    let m1 = after_insert_char(m, character, name, advance_width);
    assert(m1.sorts == m.sorts.insert(c, typed_sort(character, name, advance_width, e.buffer)));
    assert(m1.active.buffer_entity == Some(
        BufferEntity { buffer: e.buffer, cursor: BufferCursor { position: (c + 1) as usize } },
    ));
    assert(delete_index(m1, true) == Some(c));
    assert(m1.sorts.remove(c) =~= m.sorts);
    assert(after_delete(m1, true).active.buffer_entity == Some(
        BufferEntity { buffer: e.buffer, cursor: BufferCursor { position: c as usize } },
    ));
}

/// When the active buffer holds every sort, a typed glyph goes in at the
/// cursor's index.
pub proof fn typing_in_the_only_buffer_goes_to_the_cursor(s: Seq<SortView>, id: BufferId, cursor: int)
    requires
        0 <= cursor <= s.len(),
        forall|i: int| 0 <= i < s.len() ==> in_buffer(#[trigger] s[i], id),
    ensures
        insert_index(s, id, cursor) == cursor,
{
    lemma_all_members(s, id);
}

/// Pressing Enter and then backspace gives back the sorts and the cursor,
/// whenever the line break could be inserted.
pub proof fn line_break_then_backspace_restores(m: EditorModel)
    requires
        m.active.buffer_entity matches Some(e) && e.cursor.position <= m.sorts.len()
            && e.cursor.position < usize::MAX,
    ensures
        after_delete(after_insert_line_break(m), true).sorts == m.sorts,
        after_delete(after_insert_line_break(m), true).active == m.active,
{
    let e = m.active.buffer_entity->0;
    let c = e.cursor.position as int;
    let m1 = after_insert_line_break(m);
    assert(m1.sorts == m.sorts.insert(c, line_break_sort(e.buffer)));
    assert(m1.active.buffer_entity == Some(
        BufferEntity { buffer: e.buffer, cursor: BufferCursor { position: (c + 1) as usize } },
    ));
    assert(delete_index(m1, true) == Some(c));
    assert(m1.sorts.remove(c) =~= m.sorts);
    assert(after_delete(m1, true).active.buffer_entity == Some(
        BufferEntity { buffer: e.buffer, cursor: BufferCursor { position: c as usize } },
    ));
}

/// A deletion removes exactly one sort, and an insertion adds exactly one.
pub proof fn edits_change_length_by_one(m: EditorModel, delete_to_left: bool, character: char, name: Seq<char>, advance_width: i32)
    requires
        m.active.buffer_entity matches Some(e) ==> e.cursor.position <= m.sorts.len(),
    ensures
        delete_index(m, delete_to_left) is Some ==> after_delete(m, delete_to_left).sorts.len() + 1
            == m.sorts.len(),
        delete_index(m, delete_to_left) is None ==> after_delete(m, delete_to_left) == m,
        m.active.buffer_entity is Some ==> after_insert_line_break(m).sorts.len() == m.sorts.len() + 1,
        m.active.buffer_entity is Some ==> {
            let e = m.active.buffer_entity->0;
            let idx = insert_index(m.sorts, e.buffer.id, e.cursor.position as int);
            0 <= idx <= m.sorts.len() && after_insert_char(m, character, name, advance_width).sorts
                == m.sorts.insert(idx, typed_sort(character, name, advance_width, e.buffer))
        },
{
    if let Some(e) = m.active.buffer_entity {
        lemma_member_positions(m.sorts, e.buffer.id);
    }
}

} // verus!
