//! Text flow positioning: where each sort of a buffer, and the cursor, sit
//! relative to the buffer's root.
//!
//! One computation serves both the sorts and the cursor, so that the cursor
//! is always drawn exactly where the next sort will go.

use vstd::prelude::*;
use crate::text::buffer::{
    is_line_break, lemma_member_positions, lemma_member_positions_take, members, sort_width,
    sorts_view, ActiveTextBuffer, BufferId, Point, SortData, SortKind, SortLayoutMode, SortView,
    TextEditorState,
};

verus! {

/// An offset or position in font units.
#[derive(Debug, Clone, Copy, PartialEq, Eq, Structural)]
pub struct Offset {
    pub x: i128,
    pub y: i128,
}

/// The horizontal pen position after the sorts of `s` in a left-to-right
/// flow: advance widths summed since the last line break.
pub open spec fn line_x(s: Seq<SortView>) -> int
    decreases s.len(),
{
    if s.len() == 0 {
        0
    } else if is_line_break(s.last()) {
        0
    } else {
        line_x(s.drop_last()) + sort_width(s.last())
    }
}

/// The number of line breaks in `s`.
pub open spec fn line_break_count(s: Seq<SortView>) -> nat
    decreases s.len(),
{
    if s.len() == 0 {
        0
    } else {
        line_break_count(s.drop_last()) + if is_line_break(s.last()) { 1nat } else { 0nat }
    }
}

/// The advance widths of all glyphs of `s`, summed.
pub open spec fn width_sum(s: Seq<SortView>) -> int
    decreases s.len(),
{
    if s.len() == 0 {
        0
    } else {
        width_sum(s.drop_last()) + sort_width(s.last())
    }
}

/// The smaller of two integers.
pub open spec fn min_int(a: int, b: int) -> int {
    if a <= b { a } else { b }
}

/// Left-to-right flow: the sorts before `target` push the pen right by
/// their advance widths; a line break returns it to the left edge one line
/// lower.
pub open spec fn ltr_offset(s: Seq<SortView>, target: int, line_height: int) -> (int, int) {
    let before = s.take(min_int(target, s.len() as int));
    (line_x(before), -(line_break_count(before) * line_height))
}

/// Right-to-left flow: the root is the right edge; the glyphs at or after
/// `target` push the pen left. A line break exactly at `target` puts the pen
/// one line lower at the right edge.
pub open spec fn rtl_offset(s: Seq<SortView>, target: int, line_height: int) -> (int, int) {
    if target < s.len() && is_line_break(s[target]) {
        (0, -line_height)
    } else if 0 <= target <= s.len() {
        (-width_sum(s.skip(target)), 0)
    } else {
        (0, 0)
    }
}

/// The offset of position `target` for the given layout mode.
pub open spec fn flow_offset(
    s: Seq<SortView>,
    target: int,
    line_height: int,
    mode: SortLayoutMode,
) -> (int, int) {
    match mode {
        SortLayoutMode::RTLText => rtl_offset(s, target, line_height),
        _ => ltr_offset(s, target, line_height),
    }
}

/// The largest magnitude of an advance width.
pub open spec fn width_bound() -> int {
    0x8000_0000
}

proof fn lemma_line_x_bound(s: Seq<SortView>)
    ensures
        -(s.len() * width_bound()) <= line_x(s) <= s.len() * width_bound(),
        -(s.len() * width_bound()) <= width_sum(s) <= s.len() * width_bound(),
        line_break_count(s) <= s.len(),
    decreases s.len(),
{
    if s.len() > 0 {
        lemma_line_x_bound(s.drop_last());
    }
}

proof fn lemma_mul_succ(c: int, h: int)
    by (nonlinear_arith)
    ensures
        (c + 1) * h == c * h + h,
        0 * h == 0,
{
}

proof fn lemma_product_bound(c: int, n: int, h: int)
    by (nonlinear_arith)
    requires
        0 <= c <= n,
        n < 0x1_0000_0000_0000_0000,
        -0x8000_0000_0000_0000 <= h < 0x8000_0000_0000_0000,
    ensures
        -0x8000_0000_0000_0000_0000_0000_0000_0000 < c * h < 0x8000_0000_0000_0000_0000_0000_0000_0000,
{
    if h >= 0 {
        assert(c * h <= n * h);
        assert(n * h < 0x1_0000_0000_0000_0000 * 0x8000_0000_0000_0000);
    } else {
        assert(c * h >= n * h);
        assert(n * h > 0x1_0000_0000_0000_0000 * (-0x8000_0000_0000_0000));
    }
}

/// Left-to-right offset of position `target` among `buffer_sorts`.
pub fn calculate_ltr_offset(buffer_sorts: &[SortData], target_index: usize, line_height: i64) -> (r:
    Offset)
    ensures
        (r.x as int, r.y as int) == ltr_offset(
            sorts_view(buffer_sorts@),
            target_index as int,
            line_height as int,
        ),
{
    let n = buffer_sorts.len();
    let end = if target_index < n { target_index } else { n };
    let mut x: i128 = 0;
    let mut y: i128 = 0;
    let mut i: usize = 0;
    let ghost s = sorts_view(buffer_sorts@);
    proof {
        lemma_mul_succ(0, line_height as int);
    }
    while i < end
        invariant
            s == sorts_view(buffer_sorts@),
            n == s.len(),
            end <= n,
            end as int == min_int(target_index as int, n as int),
            i <= end,
            x as int == line_x(s.take(i as int)),
            y as int == -(line_break_count(s.take(i as int)) * line_height),
            -(i * width_bound()) <= x <= i * width_bound(),
            line_break_count(s.take(i as int)) <= i,
        decreases end - i,
    {
        proof {
            assert(s.take(i as int + 1).drop_last() =~= s.take(i as int));
            lemma_product_bound(line_break_count(s.take(i as int)) as int + 1, i as int + 1, line_height as int);
            lemma_mul_succ(line_break_count(s.take(i as int)) as int, line_height as int);
        }
        match &buffer_sorts[i].kind {
            SortKind::Glyph { advance_width, .. } => {
                x = x + *advance_width as i128;
            },
            SortKind::LineBreak => {
                x = 0;
                y = y - line_height as i128;
            },
        }
        i = i + 1;
    }
    assert(s.take(end as int) == s.take(min_int(target_index as int, n as int)));
    Offset { x, y }
}

/// Right-to-left offset of position `target` among `buffer_sorts`.
pub fn calculate_rtl_offset(buffer_sorts: &[SortData], target_index: usize, line_height: i64) -> (r:
    Offset)
    ensures
        (r.x as int, r.y as int) == rtl_offset(
            sorts_view(buffer_sorts@),
            target_index as int,
            line_height as int,
        ),
{
    let n = buffer_sorts.len();
    let ghost s = sorts_view(buffer_sorts@);
    if target_index < n {
        if let SortKind::LineBreak = &buffer_sorts[target_index].kind {
            return Offset { x: 0, y: -(line_height as i128) };
        }
    }
    if target_index > n {
        return Offset { x: 0, y: 0 };
    }
    // Sum the glyphs from the end back to the target.
    let mut x: i128 = 0;
    let mut i: usize = n;
    while i > target_index
        invariant
            s == sorts_view(buffer_sorts@),
            n == s.len(),
            target_index <= i <= n,
            x as int == -(width_sum(s.skip(i as int))),
            -((n - i) * width_bound()) <= x <= (n - i) * width_bound(),
        decreases i,
    {
        i = i - 1;
        proof {
            let t = s.skip(i as int);
            assert(t.drop_first() =~= s.skip(i as int + 1));
            lemma_width_sum_front(t);
        }
        match &buffer_sorts[i].kind {
            SortKind::Glyph { advance_width, .. } => {
                x = x - *advance_width as i128;
            },
            SortKind::LineBreak => {},
        }
    }
    Offset { x, y: 0 }
}

/// The width sum can also be taken from the front.
pub proof fn lemma_width_sum_front(s: Seq<SortView>)
    requires
        s.len() > 0,
    ensures
        width_sum(s) == sort_width(s[0]) + width_sum(s.drop_first()),
    decreases s.len(),
{
    if s.len() > 1 {
        let t = s.drop_last();
        lemma_width_sum_front(t);
        let u = s.drop_first();
        assert(t.drop_first() =~= u.drop_last());
        assert(u.last() == s.last());
        assert(t[0] == s[0]);
        assert(width_sum(s) == width_sum(t) + sort_width(s.last()));
        assert(width_sum(u) == width_sum(u.drop_last()) + sort_width(u.last()));
    } else {
        let u = s.drop_first();
        assert(u.len() == 0);
        assert(width_sum(u) == 0);
        assert(s.drop_last().len() == 0);
        assert(width_sum(s.drop_last()) == 0);
        assert(width_sum(s) == width_sum(s.drop_last()) + sort_width(s.last()));
    }
}

/// The offset of position `target_index` in a buffer laid out in
/// `layout_mode`: the single source of truth for positioning both sorts and
/// the cursor.
pub fn calculate_text_flow_offset(
    buffer_sorts: &[SortData],
    target_index: usize,
    line_height: i64,
    layout_mode: SortLayoutMode,
) -> (r: Offset)
    ensures
        (r.x as int, r.y as int) == flow_offset(
            sorts_view(buffer_sorts@),
            target_index as int,
            line_height as int,
            layout_mode,
        ),
{
    match layout_mode {
        SortLayoutMode::RTLText => calculate_rtl_offset(buffer_sorts, target_index, line_height),
        _ => calculate_ltr_offset(buffer_sorts, target_index, line_height),
    }
}

/// The font metrics that set the line height.
#[derive(Debug, Clone, Copy)]
pub struct FontMetrics {
    pub units_per_em: u32,
    pub descender: Option<i32>,
}

/// The line height: units per em minus the descender (-256 when the font
/// has none); 1024 when no font is loaded.
pub open spec fn line_height_of(metrics: Option<FontMetrics>) -> int {
    match metrics {
        Some(m) => m.units_per_em - match m.descender {
            Some(d) => d as int,
            None => -256,
        },
        None => 1024,
    }
}

/// The distance between two lines of text.
pub fn get_line_height(metrics: Option<FontMetrics>) -> (r: i64)
    ensures
        r == line_height_of(metrics),
        -0x8000_0000 <= r < 0x2_0000_0000,
{
    match metrics {
        Some(m) => {
            let descender: i64 = match m.descender {
                Some(d) => d as i64,
                None => -256,
            };
            m.units_per_em as i64 - descender
        },
        None => 1024,
    }
}

/// The sorts that belong to buffer `buffer_id`, in order.
pub fn collect_buffer_sorts(text_editor_state: &TextEditorState, buffer_id: BufferId) -> (r: Vec<
    SortData,
>)
    ensures
        sorts_view(r@) == members(sorts_view(text_editor_state.buffer@), buffer_id),
{
    let ghost s = sorts_view(text_editor_state.buffer@);
    let mut sorts: Vec<SortData> = Vec::new();
    let mut i: usize = 0;
    while i < text_editor_state.buffer.len()
        invariant
            s == sorts_view(text_editor_state.buffer@),
            i <= s.len(),
            sorts_view(sorts@) == members(s.take(i as int), buffer_id),
        decreases s.len() - i,
    {
        proof {
            lemma_member_positions_take(s, buffer_id, i as int);
        }
        let sort = &text_editor_state.buffer[i];
        if sort.buffer_id == Some(buffer_id) {
            sorts.push(sort.duplicate());
        }
        i = i + 1;
        proof {
            assert(sorts_view(sorts@) =~= members(s.take(i as int), buffer_id));
        }
    }
    assert(s.take(s.len() as int) =~= s);
    sorts
}

/// The cursor's offset from the buffer root: the flow offset of the
/// insertion point.
pub fn calculate_cursor_offset(
    buffer_sorts: &[SortData],
    cursor_position: usize,
    layout_mode: SortLayoutMode,
    line_height: i64,
) -> (r: Offset)
    ensures
        (r.x as int, r.y as int) == flow_offset(
            sorts_view(buffer_sorts@),
            cursor_position as int,
            line_height as int,
            layout_mode,
        ),
{
    calculate_text_flow_offset(buffer_sorts, cursor_position, line_height, layout_mode)
}

/// Where the cursor of the active buffer is drawn: the buffer's root plus
/// the flow offset of the cursor among the buffer's sorts.
pub open spec fn cursor_position_of(
    sorts: Seq<SortView>,
    metrics: Option<FontMetrics>,
    active: ActiveTextBuffer,
) -> Option<(int, int)> {
    match active.buffer_entity {
        None => None,
        Some(e) => {
            let off = flow_offset(
                members(sorts, e.buffer.id),
                e.cursor.position as int,
                line_height_of(metrics),
                e.buffer.layout_mode,
            );
            Some((e.buffer.root_position.x + off.0, e.buffer.root_position.y + off.1))
        },
    }
}

/// What the cursor drawing reads of the active buffer.
#[derive(Debug, Clone, Copy)]
pub struct BufferInfo {
    pub cursor_position: usize,
    pub root_position: Point,
    pub layout_mode: SortLayoutMode,
    pub buffer_id: BufferId,
}

/// The cursor, origin, flow and identity of the active buffer, if any.
pub fn get_active_buffer_info(active_buffer: &ActiveTextBuffer) -> (r: Option<BufferInfo>)
    ensures
        match active_buffer.buffer_entity {
            None => r is None,
            Some(e) => r matches Some(info) && info.cursor_position == e.cursor.position
                && info.root_position == e.buffer.root_position && info.layout_mode
                == e.buffer.layout_mode && info.buffer_id == e.buffer.id,
        },
{
    match active_buffer.buffer_entity {
        Some(e) => Some(
            BufferInfo {
                cursor_position: e.cursor.position,
                root_position: e.buffer.root_position,
                layout_mode: e.buffer.layout_mode,
                buffer_id: e.buffer.id,
            },
        ),
        None => None,
    }
}

/// The position of the text cursor of the active buffer, if there is one.
pub fn calculate_cursor_position(
    text_editor_state: &TextEditorState,
    metrics: Option<FontMetrics>,
    active_buffer: &ActiveTextBuffer,
) -> (r: Option<Offset>)
    ensures
        match r {
            None => cursor_position_of(sorts_view(text_editor_state.buffer@), metrics, *active_buffer) is None,
            Some(p) => cursor_position_of(sorts_view(text_editor_state.buffer@), metrics, *active_buffer) == Some(
                (p.x as int, p.y as int),
            ),
        },
{
    let info = match get_active_buffer_info(active_buffer) {
        Some(i) => i,
        None => return None,
    };
    let line_height = get_line_height(metrics);
    let buffer_sorts = collect_buffer_sorts(text_editor_state, info.buffer_id);
    proof {
        lemma_member_positions(sorts_view(text_editor_state.buffer@), info.buffer_id);
        assert(sorts_view(text_editor_state.buffer@).len() == text_editor_state.buffer@.len());
        assert(sorts_view(buffer_sorts@).len() <= text_editor_state.buffer@.len());
        lemma_flow_offset_bound(sorts_view(buffer_sorts@), info.cursor_position as int, line_height as int);
        assert(buffer_sorts@.len() <= text_editor_state.buffer@.len());
    }
    let offset = calculate_cursor_offset(
        buffer_sorts.as_slice(),
        info.cursor_position,
        info.layout_mode,
        line_height,
    );
    Some(
        Offset {
            x: info.root_position.x as i128 + offset.x,
            y: info.root_position.y as i128 + offset.y,
        },
    )
}

/// Flow offsets with a line height of a real font stay far inside the
/// range of `i128`.
pub proof fn lemma_flow_offset_bound(s: Seq<SortView>, target: int, line_height: int)
    requires
        0 <= target,
        s.len() < 0x1_0000_0000_0000_0000,
        -0x4_0000_0000 <= line_height < 0x4_0000_0000,
    ensures
        -0x4000_0000_0000_0000_0000_0000_0000_0000 < flow_offset(s, target, line_height, SortLayoutMode::LTRText).0
            < 0x4000_0000_0000_0000_0000_0000_0000_0000,
        -0x4000_0000_0000_0000_0000_0000_0000_0000 < flow_offset(s, target, line_height, SortLayoutMode::LTRText).1
            < 0x4000_0000_0000_0000_0000_0000_0000_0000,
        -0x4000_0000_0000_0000_0000_0000_0000_0000 < flow_offset(s, target, line_height, SortLayoutMode::RTLText).0
            < 0x4000_0000_0000_0000_0000_0000_0000_0000,
        -0x4000_0000_0000_0000_0000_0000_0000_0000 < flow_offset(s, target, line_height, SortLayoutMode::RTLText).1
            < 0x4000_0000_0000_0000_0000_0000_0000_0000,
{
    let before = s.take(min_int(target, s.len() as int));
    lemma_line_x_bound(before);
    lemma_small_product_bound(line_break_count(before) as int, before.len() as int, line_height);
    if 0 <= target <= s.len() {
        lemma_line_x_bound(s.skip(target));
    }
}

proof fn lemma_small_product_bound(c: int, n: int, h: int)
    by (nonlinear_arith)
    requires
        0 <= c <= n,
        n < 0x1_0000_0000_0000_0000,
        -0x4_0000_0000 <= h < 0x4_0000_0000,
    ensures
        -0x4_0000_0000_0000_0000_0000_0000 <= c * h <= 0x4_0000_0000_0000_0000_0000_0000,
{
    if h >= 0 {
        assert(c * h <= n * h);
        assert(n * h < 0x1_0000_0000_0000_0000 * 0x4_0000_0000);
    } else {
        assert(c * h >= n * h);
        assert(n * h > 0x1_0000_0000_0000_0000 * (-0x4_0000_0000));
    }
}

/// Left to right, a glyph moves the pen right by its advance width and a
/// line break moves it back to the left edge, one line lower.
pub proof fn ltr_pen_advances(s: Seq<SortView>, target: int, line_height: int)
    requires
        0 <= target < s.len(),
    ensures
        !is_line_break(s[target]) ==> ltr_offset(s, target + 1, line_height) == (
            ltr_offset(s, target, line_height).0 + sort_width(s[target]),
            ltr_offset(s, target, line_height).1,
        ),
        is_line_break(s[target]) ==> ltr_offset(s, target + 1, line_height) == (
            0int,
            ltr_offset(s, target, line_height).1 - line_height,
        ),
{
    assert(s.take(target + 1).drop_last() =~= s.take(target));
    lemma_mul_succ(line_break_count(s.take(target)) as int, line_height);
}

/// Right to left, each glyph sits its advance width left of the next
/// position.
pub proof fn rtl_pen_advances(s: Seq<SortView>, target: int, line_height: int)
    requires
        0 <= target < s.len(),
        !is_line_break(s[target]),
        target + 1 < s.len() ==> !is_line_break(s[target + 1]),
    ensures
        rtl_offset(s, target, line_height).0 + sort_width(s[target]) == rtl_offset(
            s,
            target + 1,
            line_height,
        ).0,
        rtl_offset(s, target, line_height).1 == 0,
{
    let t = s.skip(target);
    assert(t.drop_first() =~= s.skip(target + 1));
    lemma_width_sum_front(t);
}

/// A glyph typed at the cursor is drawn where the cursor was: left to
/// right at the cursor itself, right to left with its right edge at the
/// cursor.
pub proof fn typed_glyph_meets_cursor(s: Seq<SortView>, cursor: int, g: SortView, line_height: int)
    requires
        0 <= cursor <= s.len(),
        !is_line_break(g),
    ensures
        ltr_offset(s.insert(cursor, g), cursor, line_height) == ltr_offset(s, cursor, line_height),
        !(cursor < s.len() && is_line_break(s[cursor])) ==> rtl_offset(s.insert(cursor, g), cursor, line_height).0
            + sort_width(g) == rtl_offset(s, cursor, line_height).0,
{
    let s2 = s.insert(cursor, g);
    assert(s2.take(cursor) =~= s.take(cursor));
    let t = s2.skip(cursor);
    assert(t.drop_first() =~= s.skip(cursor));
    lemma_width_sum_front(t);
}

/// Sorts of text buffers are drawn like every other sort, so there is
/// nothing more to draw for them here.
pub fn render_text_editor_sorts() {
}

} // verus!
