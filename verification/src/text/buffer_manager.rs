//! Creating text buffers and moving their cursors, and which buffer is the
//! active one.

use vstd::prelude::*;
use crate::text::buffer::{ActiveTextBuffer, BufferCursor, BufferEntity, BufferId, Point, SortLayoutMode, TextBuffer};

verus! {

/// A new text buffer with the given identity, flow and origin, its cursor
/// at `initial_cursor_position`.
pub fn create_text_buffer(
    id: BufferId,
    layout_mode: SortLayoutMode,
    root_position: Point,
    initial_cursor_position: usize,
) -> (r: BufferEntity)
    ensures
        r.buffer.id == id,
        r.buffer.layout_mode == layout_mode,
        r.buffer.root_position == root_position,
        r.cursor.position == initial_cursor_position,
{
    BufferEntity {
        buffer: TextBuffer { id, layout_mode, root_position },
        cursor: BufferCursor { position: initial_cursor_position },
    }
}

/// The cursor position of a buffer, if there is a buffer.
pub fn get_buffer_cursor_position(buffer: Option<&BufferEntity>) -> (r: Option<usize>)
    ensures
        r == match buffer {
            Some(b) => Some(b.cursor.position),
            None => None::<usize>,
        },
{
    match buffer {
        Some(b) => Some(b.cursor.position),
        None => None,
    }
}

/// Moves a buffer's cursor to `new_position`; the buffer itself stays.
pub fn set_buffer_cursor_position(buffer: &mut BufferEntity, new_position: usize)
    ensures
        final(buffer).cursor.position == new_position,
        final(buffer).buffer == old(buffer).buffer,
{
    buffer.cursor = BufferCursor { position: new_position };
}

/// Makes the buffer of the sort that just became active the active buffer.
/// With no such sort the active buffer stays as it was.
pub fn update_active_buffer(active: &mut ActiveTextBuffer, activated_member_of: Option<BufferEntity>)
    ensures
        final(active).buffer_entity == match activated_member_of {
            Some(b) => Some(b),
            None => old(active).buffer_entity,
        },
{
    if let Some(b) = activated_member_of {
        active.buffer_entity = Some(b);
    }
}

} // verus!
