//! The data of the text editor: sorts (placed glyphs and line breaks), the
//! text buffers they belong to, and each buffer's cursor.
//!
//! Positions and advance widths are in font units.

use vstd::prelude::*;

verus! {

/// Identifier of a text buffer (one independent text flow).
#[derive(Debug, Clone, Copy, PartialEq, Eq, Structural, Hash)]
pub struct BufferId(pub u64);

/// How the sorts of a buffer flow.
#[derive(Debug, Clone, Copy, PartialEq, Eq, Structural)]
pub enum SortLayoutMode {
    LTRText,
    RTLText,
    Freeform,
}

/// A point in design space, in font units.
#[derive(Debug, Clone, Copy, PartialEq, Eq, Structural)]
pub struct Point {
    pub x: i64,
    pub y: i64,
}

/// What a sort holds.
#[derive(Debug, Clone)]
pub enum SortKind {
    Glyph { codepoint: Option<char>, glyph_name: String, advance_width: i32 },
    LineBreak,
}

/// One entry of the text editor's buffer.
#[derive(Debug, Clone)]
pub struct SortData {
    pub kind: SortKind,
    pub is_active: bool,
    pub layout_mode: SortLayoutMode,
    pub root_position: Point,
    pub buffer_cursor_position: Option<usize>,
    pub buffer_id: Option<BufferId>,
}

/// A text buffer: where a text flow starts and how it flows.
#[derive(Debug, Clone, Copy)]
pub struct TextBuffer {
    pub id: BufferId,
    pub layout_mode: SortLayoutMode,
    pub root_position: Point,
}

/// The insertion point of a text buffer, counted in sorts of that buffer.
#[derive(Debug, Clone, Copy)]
pub struct BufferCursor {
    pub position: usize,
}

/// A text buffer together with its cursor.
#[derive(Debug, Clone, Copy)]
pub struct BufferEntity {
    pub buffer: TextBuffer,
    pub cursor: BufferCursor,
}

/// The buffer that typing goes to, if any.
#[derive(Debug, Clone, Copy)]
pub struct ActiveTextBuffer {
    pub buffer_entity: Option<BufferEntity>,
}

/// All sorts of the text editor, in order.
#[derive(Debug, Clone)]
pub struct TextEditorState {
    pub buffer: Vec<SortData>,
    /// Insertion point used when no buffer cursor applies.
    pub cursor_position: usize,
}

/// Buffer indices whose sort entities must be spawned again.
#[derive(Debug, Clone)]
pub struct BufferSortRespawnQueue {
    pub indices: Vec<usize>,
}

/// The text tool's placement modes.
#[derive(Debug, Clone, Copy, PartialEq, Eq, Structural)]
pub enum TextPlacementMode {
    LTRText,
    RTLText,
    Insert,
    Freeform,
}

impl SortKind {
    /// A copy of this sort kind.
    pub fn duplicate(&self) -> (r: SortKind)
        ensures
            r == *self,
            r@ == self@,
    {
        match self {
            SortKind::Glyph { codepoint, glyph_name, advance_width } => SortKind::Glyph {
                codepoint: *codepoint,
                glyph_name: glyph_name.clone(),
                advance_width: *advance_width,
            },
            SortKind::LineBreak => SortKind::LineBreak,
        }
    }
}

impl SortData {
    /// A copy of this sort.
    pub fn duplicate(&self) -> (r: SortData)
        ensures
            r == *self,
            r@ == self@,
    {
        SortData {
            kind: self.kind.duplicate(),
            is_active: self.is_active,
            layout_mode: self.layout_mode,
            root_position: self.root_position,
            buffer_cursor_position: self.buffer_cursor_position,
            buffer_id: self.buffer_id,
        }
    }
}

/// What a sort holds, with the glyph name as its characters.
pub enum SortKindView {
    Glyph { codepoint: Option<char>, glyph_name: Seq<char>, advance_width: i32 },
    LineBreak,
}

/// A sort as a plain value.
pub struct SortView {
    pub kind: SortKindView,
    pub is_active: bool,
    pub layout_mode: SortLayoutMode,
    pub root_position: Point,
    pub buffer_cursor_position: Option<usize>,
    pub buffer_id: Option<BufferId>,
}

impl View for SortKind {
    type V = SortKindView;

    open spec fn view(&self) -> SortKindView {
        match self {
            SortKind::Glyph { codepoint, glyph_name, advance_width } => SortKindView::Glyph {
                codepoint: *codepoint,
                glyph_name: glyph_name@,
                advance_width: *advance_width,
            },
            SortKind::LineBreak => SortKindView::LineBreak,
        }
    }
}

impl View for SortData {
    type V = SortView;

    open spec fn view(&self) -> SortView {
        SortView {
            kind: self.kind@,
            is_active: self.is_active,
            layout_mode: self.layout_mode,
            root_position: self.root_position,
            buffer_cursor_position: self.buffer_cursor_position,
            buffer_id: self.buffer_id,
        }
    }
}

/// The sorts of `s` as plain values.
pub open spec fn sorts_view(s: Seq<SortData>) -> Seq<SortView> {
    s.map_values(|x: SortData| x@)
}

/// The advance width of a sort: its glyph's width, zero for a line break.
pub open spec fn sort_width(s: SortView) -> int {
    match s.kind {
        SortKindView::Glyph { advance_width, .. } => advance_width as int,
        SortKindView::LineBreak => 0,
    }
}

/// Whether a sort is a line break.
pub open spec fn is_line_break(s: SortView) -> bool {
    s.kind is LineBreak
}

/// Whether a sort belongs to the buffer `id`.
pub open spec fn in_buffer(s: SortView, id: BufferId) -> bool {
    s.buffer_id == Some(id)
}

/// The positions, in order, of the sorts of buffer `id` in `s`.
pub open spec fn member_positions(s: Seq<SortView>, id: BufferId) -> Seq<int>
    decreases s.len(),
{
    if s.len() == 0 {
        Seq::empty()
    } else {
        let rest = member_positions(s.drop_last(), id);
        if in_buffer(s.last(), id) {
            rest.push(s.len() - 1)
        } else {
            rest
        }
    }
}

/// The sorts of buffer `id` in `s`, in order.
pub open spec fn members(s: Seq<SortView>, id: BufferId) -> Seq<SortView>
    decreases s.len(),
{
    if s.len() == 0 {
        Seq::empty()
    } else {
        let rest = members(s.drop_last(), id);
        if in_buffer(s.last(), id) {
            rest.push(s.last())
        } else {
            rest
        }
    }
}

/// The member positions list the members: strictly increasing, in range,
/// and each names the member of the same rank.
pub proof fn lemma_member_positions(s: Seq<SortView>, id: BufferId)
    ensures
        member_positions(s, id).len() == members(s, id).len(),
        members(s, id).len() <= s.len(),
        forall|k: int| 0 <= k < member_positions(s, id).len() ==> {
            &&& 0 <= #[trigger] member_positions(s, id)[k] < s.len()
            &&& s[member_positions(s, id)[k]] == members(s, id)[k]
            &&& in_buffer(s[member_positions(s, id)[k]], id)
        },
        forall|k: int, l: int|
            0 <= k < l < member_positions(s, id).len() ==> member_positions(s, id)[k]
                < member_positions(s, id)[l],
    decreases s.len(),
{
    if s.len() > 0 {
        lemma_member_positions(s.drop_last(), id);
    }
}

/// Taking one more element of `s` extends the member positions by that
/// element's position when it is a member.
pub proof fn lemma_member_positions_take(s: Seq<SortView>, id: BufferId, i: int)
    requires
        0 <= i < s.len(),
    ensures
        member_positions(s.take(i + 1), id) == if in_buffer(s[i], id) {
            member_positions(s.take(i), id).push(i)
        } else {
            member_positions(s.take(i), id)
        },
        members(s.take(i + 1), id) == if in_buffer(s[i], id) {
            members(s.take(i), id).push(s[i])
        } else {
            members(s.take(i), id)
        },
{
    assert(s.take(i + 1).drop_last() =~= s.take(i));
}

/// The views of a sequence with one sort inserted.
pub proof fn lemma_sorts_view_insert(s: Seq<SortData>, i: int, x: SortData)
    requires
        0 <= i <= s.len(),
    ensures
        sorts_view(s.insert(i, x)) == sorts_view(s).insert(i, x@),
{
    assert(sorts_view(s.insert(i, x)) =~= sorts_view(s).insert(i, x@));
}

/// The views of a sequence with one sort removed.
pub proof fn lemma_sorts_view_remove(s: Seq<SortData>, i: int)
    requires
        0 <= i < s.len(),
    ensures
        sorts_view(s.remove(i)) == sorts_view(s).remove(i),
{
    assert(sorts_view(s.remove(i)) =~= sorts_view(s).remove(i));
}

} // verus!
