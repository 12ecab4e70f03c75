//! Cursor movement in the active buffer: left and right by one sort, up and
//! down by one line keeping the horizontal position as well as possible.

use vstd::prelude::*;
use crate::text::buffer::{
    is_line_break, lemma_member_positions, members, sorts_view, ActiveTextBuffer, BufferCursor,
    BufferEntity, BufferId, SortData, SortKind, SortKindView, SortLayoutMode, SortView,
    TextEditorState,
};
use crate::text::flow::collect_buffer_sorts;
use crate::text::font::{font_value, glyph_named, FontGlyphs};
use crate::text::editing::with_cursor;

verus! {

/// Direction of a line move.
#[derive(Debug, Clone, Copy, PartialEq, Eq, Structural)]
pub enum LineNavigation {
    Up,
    Down,
}

/// The width a sort takes on its line when navigating: the font's advance
/// width for its glyph when the font has it, else the sort's own width.
pub open spec fn nav_width(font: Option<FontGlyphs>, s: SortView) -> int {
    match s.kind {
        SortKindView::Glyph { glyph_name, advance_width, .. } => match font {
            Some(f) => match glyph_named(f.glyphs@, glyph_name) {
                Some(i) => f.glyphs@[i].advance_width as int,
                None => advance_width as int,
            },
            None => advance_width as int,
        },
        SortKindView::LineBreak => 0,
    }
}

/// The horizontal position of cursor position `k` in `m`: glyphs move it
/// right (left in right-to-left sorts), a line break resets it to zero.
pub open spec fn nav_x(m: Seq<SortView>, font: Option<FontGlyphs>, k: int) -> int
    decreases k,
{
    if k <= 0 || k > m.len() {
        0
    } else if is_line_break(m[k - 1]) {
        0
    } else {
        let w = nav_width(font, m[k - 1]);
        nav_x(m, font, k - 1) + if m[k - 1].layout_mode == SortLayoutMode::RTLText {
            -w
        } else {
            w
        }
    }
}

/// The cursor positions at which lines start: zero, and the position after
/// each line break.
pub open spec fn line_starts(m: Seq<SortView>) -> Seq<int>
    decreases m.len(),
{
    if m.len() == 0 {
        seq![0]
    } else {
        let r = line_starts(m.drop_last());
        if is_line_break(m.last()) {
            r.push(m.len() as int)
        } else {
            r
        }
    }
}

/// The last line of `ls` that starts at or before `position` (the first
/// line when none does).
pub open spec fn line_of(ls: Seq<int>, position: int) -> int
    decreases ls.len(),
{
    if ls.len() == 0 {
        0
    } else if ls.last() <= position {
        ls.len() - 1
    } else {
        line_of(ls.drop_last(), position)
    }
}

/// The horizontal distance between two positions.
pub open spec fn distance(a: int, b: int) -> int {
    if a >= b { a - b } else { b - a }
}

/// The line that a move in `direction` goes to from `position`, if any.
pub open spec fn target_line(m: Seq<SortView>, position: int, direction: LineNavigation) -> Option<int> {
    let ls = line_starts(m);
    let current = line_of(ls, position);
    match direction {
        LineNavigation::Up => if current == 0 {
            None
        } else {
            Some(current - 1)
        },
        LineNavigation::Down => if current + 1 >= ls.len() {
            None
        } else {
            Some(current + 1)
        },
    }
}

/// The first cursor position of line `line`.
pub open spec fn line_first(m: Seq<SortView>, line: int) -> int {
    line_starts(m)[line]
}

/// The last cursor position searched on line `line`: the start of the next
/// line, or the end of the buffer on the last line.
pub open spec fn line_last(m: Seq<SortView>, line: int) -> int {
    if line + 1 < line_starts(m).len() {
        line_starts(m)[line + 1]
    } else {
        m.len() as int
    }
}

/// The horizontal position the cursor keeps while moving between lines.
pub open spec fn goal_x(m: Seq<SortView>, font: Option<FontGlyphs>, position: int) -> int {
    if position <= m.len() {
        nav_x(m, font, position)
    } else {
        0
    }
}

/// `p` is the first position of `lo..=hi` whose horizontal position is
/// closest to `x`.
pub open spec fn is_first_closest(m: Seq<SortView>, font: Option<FontGlyphs>, lo: int, hi: int, x: int, p: int) -> bool {
    &&& lo <= p <= hi
    &&& forall|q: int| lo <= q <= hi ==> distance(#[trigger] nav_x(m, font, q), x) >= distance(nav_x(m, font, p), x)
    &&& forall|q: int| lo <= q < p ==> distance(#[trigger] nav_x(m, font, q), x) > distance(nav_x(m, font, p), x)
}

pub proof fn lemma_line_starts(m: Seq<SortView>)
    ensures
        line_starts(m).len() >= 1,
        line_starts(m)[0] == 0,
        forall|k: int| 0 <= k < line_starts(m).len() ==> 0 <= #[trigger] line_starts(m)[k] <= m.len(),
        forall|k: int, l: int| 0 <= k < l < line_starts(m).len() ==> line_starts(m)[k] < line_starts(m)[l],
        line_starts(m).len() <= m.len() + 1,
    decreases m.len(),
{
    if m.len() > 0 {
        lemma_line_starts(m.drop_last());
    }
}

proof fn lemma_line_starts_take(m: Seq<SortView>, i: int)
    requires
        0 <= i < m.len(),
    ensures
        line_starts(m.take(i + 1)) == if is_line_break(m[i]) {
            line_starts(m.take(i)).push(i + 1)
        } else {
            line_starts(m.take(i))
        },
{
    assert(m.take(i + 1).drop_last() =~= m.take(i));
}

proof fn lemma_line_of_take(ls: Seq<int>, position: int, j: int)
    requires
        0 <= j < ls.len(),
    ensures
        line_of(ls.take(j + 1), position) == if ls[j] <= position {
            j
        } else {
            line_of(ls.take(j), position)
        },
{
    assert(ls.take(j + 1).drop_last() =~= ls.take(j));
}

proof fn lemma_line_of_range(ls: Seq<int>, position: int)
    ensures
        ls.len() > 0 ==> 0 <= line_of(ls, position) < ls.len(),
    decreases ls.len(),
{
    if ls.len() > 0 {
        lemma_line_of_range(ls.drop_last(), position);
        if ls.last() > position && ls.len() == 1 {
            assert(ls.drop_last().len() == 0);
            assert(line_of(ls.drop_last(), position) == 0);
        }
    }
}

proof fn lemma_nav_x_bound(m: Seq<SortView>, font: Option<FontGlyphs>, k: int)
    requires
        0 <= k <= m.len(),
    ensures
        -(k * 0x8000_0000) <= nav_x(m, font, k) <= k * 0x8000_0000,
    decreases k,
{
    if k > 0 {
        lemma_nav_x_bound(m, font, k - 1);
    }
}

/// The width of a sort for navigation.
fn sort_nav_width(font: Option<&FontGlyphs>, sort: &SortData) -> (r: i32)
    ensures
        r == nav_width(font_value(font), sort@),
{
    match &sort.kind {
        SortKind::Glyph { glyph_name, advance_width, .. } => {
            if let Some(f) = font {
                if let Some(i) = f.find(glyph_name.as_str()) {
                    proof {
                        crate::text::font::lemma_glyph_named_in_range(f.glyphs@, glyph_name@);
                    }
                    return f.glyphs[i].advance_width;
                }
            }
            *advance_width
        },
        SortKind::LineBreak => 0,
    }
}

/// The line starts and the horizontal position of every cursor position of
/// `buffer_sorts`.
fn line_layout(buffer_sorts: &Vec<SortData>, font: Option<&FontGlyphs>) -> (r: (Vec<usize>, Vec<i128>))
    requires
        buffer_sorts@.len() < usize::MAX,
    ensures
        r.0@.map_values(|v: usize| v as int) == line_starts(sorts_view(buffer_sorts@)),
        r.1@.len() == buffer_sorts@.len() + 1,
        forall|k: int|
            0 <= k <= buffer_sorts@.len() ==> r.1@[k] as int == nav_x(
                sorts_view(buffer_sorts@),
                font_value(font),
                k,
            ),
{
    let ghost f = font_value(font);
    let ghost m = sorts_view(buffer_sorts@);
    let n = buffer_sorts.len();
    let mut line_starts_v: Vec<usize> = vec![0];
    let mut x_positions: Vec<i128> = vec![0];
    let mut current_x: i128 = 0;
    let mut i: usize = 0;
    assert(line_starts_v@.map_values(|v: usize| v as int) =~= line_starts(m.take(0)));
    while i < n
        invariant
            f == font_value(font),
            n == m.len(),
            m == sorts_view(buffer_sorts@),
            n < usize::MAX,
            i <= n,
            line_starts_v@.map_values(|v: usize| v as int) == line_starts(m.take(i as int)),
            x_positions@.len() == i + 1,
            forall|k: int| 0 <= k <= i ==> x_positions@[k] as int == nav_x(m, f, k),
            current_x as int == nav_x(m, f, i as int),
        decreases n - i,
    {
        proof {
            lemma_line_starts_take(m, i as int);
            lemma_nav_x_bound(m, f, i as int);
        }
        let sort = &buffer_sorts[i];
        assert(sort@ == m[i as int]);
        match &sort.kind {
            SortKind::LineBreak => {
                line_starts_v.push(i + 1);
                current_x = 0;
            },
            SortKind::Glyph { .. } => {
                let width = sort_nav_width(font, sort);
                assert(!is_line_break(m[i as int]));
                assert(width == nav_width(f, m[i as int]));
                if sort.layout_mode == SortLayoutMode::RTLText {
                    current_x = current_x - width as i128;
                } else {
                    current_x = current_x + width as i128;
                }
            },
        }
        assert(current_x as int == nav_x(m, f, i as int + 1));
        x_positions.push(current_x);
        i = i + 1;
        proof {
            assert(line_starts_v@.map_values(|v: usize| v as int) =~= line_starts(m.take(i as int)));
        }
    }
    proof {
        assert(m.take(n as int) =~= m);
    }
    (line_starts_v, x_positions)
}

/// The last line that starts at or before `position`.
fn current_line_index(line_starts_v: &Vec<usize>, position: usize) -> (r: usize)
    requires
        line_starts_v@.len() > 0,
    ensures
        r as int == line_of(line_starts_v@.map_values(|v: usize| v as int), position as int),
        r < line_starts_v@.len(),
{
    let ghost ls = line_starts_v@.map_values(|v: usize| v as int);
    let mut current_line: usize = 0;
    let mut j: usize = 0;
    while j < line_starts_v.len()
        invariant
            ls == line_starts_v@.map_values(|v: usize| v as int),
            j <= ls.len(),
            current_line as int == line_of(ls.take(j as int), position as int),
        decreases ls.len() - j,
    {
        proof {
            lemma_line_of_take(ls, position as int, j as int);
        }
        if position >= line_starts_v[j] {
            current_line = j;
        }
        j = j + 1;
    }
    proof {
        assert(ls.take(ls.len() as int) =~= ls);
        lemma_line_of_range(ls, position as int);
    }
    current_line
}

/// The first position of `start..=end` closest to `cx`.
fn closest_position(
    x_positions: &Vec<i128>,
    start: usize,
    end: usize,
    cx: i128,
    Ghost(m): Ghost<Seq<SortView>>,
    Ghost(f): Ghost<Option<FontGlyphs>>,
) -> (r: usize)
    requires
        start <= end < x_positions@.len(),
        x_positions@.len() == m.len() + 1,
        m.len() < usize::MAX,
        forall|k: int| 0 <= k <= m.len() ==> x_positions@[k] as int == nav_x(m, f, k),
        -0x1_0000_0000_0000_0000_0000_0000 <= cx <= 0x1_0000_0000_0000_0000_0000_0000,
    ensures
        is_first_closest(m, f, start as int, end as int, cx as int, r as int),
{
    proof {
        lemma_nav_x_bound(m, f, start as int);
    }
    let mut best_position: usize = start;
    let mut best_distance: i128 = if x_positions[start] >= cx {
        x_positions[start] - cx
    } else {
        cx - x_positions[start]
    };
    let mut position: usize = start + 1;
    while position <= end
        invariant
            start <= end < x_positions@.len(),
            x_positions@.len() == m.len() + 1,
            m.len() < usize::MAX,
            forall|k: int| 0 <= k <= m.len() ==> x_positions@[k] as int == nav_x(m, f, k),
            -0x1_0000_0000_0000_0000_0000_0000 <= cx <= 0x1_0000_0000_0000_0000_0000_0000,
            start + 1 <= position <= end + 1,
            start <= best_position < position,
            best_distance as int == distance(nav_x(m, f, best_position as int), cx as int),
            forall|q: int|
                start <= q < position ==> distance(#[trigger] nav_x(m, f, q), cx as int)
                    >= best_distance,
            forall|q: int|
                start <= q < best_position ==> distance(#[trigger] nav_x(m, f, q), cx as int)
                    > best_distance,
        decreases end + 1 - position,
    {
        proof {
            lemma_nav_x_bound(m, f, position as int);
        }
        let x = x_positions[position];
        let d: i128 = if x >= cx {
            x - cx
        } else {
            cx - x
        };
        if d < best_distance {
            best_distance = d;
            best_position = position;
        }
        position = position + 1;
    }
    best_position
}

/// The cursor position one line up or down from `current_position` in
/// buffer `buffer_id`, as close as possible horizontally; none on the first
/// line going up, on the last going down, or in an empty buffer.
pub fn calculate_line_navigation_position(
    text_editor_state: &TextEditorState,
    buffer_id: BufferId,
    current_position: usize,
    direction: LineNavigation,
    font: Option<&FontGlyphs>,
) -> (r: Option<usize>)
    requires
        text_editor_state.buffer@.len() < usize::MAX,
    ensures
        ({
            let m = members(sorts_view(text_editor_state.buffer@), buffer_id);
            let f = font_value(font);
            if m.len() == 0 {
                r is None
            } else {
                match target_line(m, current_position as int, direction) {
                    None => r is None,
                    Some(t) => r matches Some(p) && is_first_closest(
                        m,
                        f,
                        line_first(m, t),
                        line_last(m, t),
                        goal_x(m, f, current_position as int),
                        p as int,
                    ),
                }
            }
        }),
{
    let ghost f = font_value(font);
    let buffer_sorts = collect_buffer_sorts(text_editor_state, buffer_id);
    let ghost m = sorts_view(buffer_sorts@);
    proof {
        lemma_member_positions(sorts_view(text_editor_state.buffer@), buffer_id);
        lemma_line_starts(m);
    }
    if buffer_sorts.len() == 0 {
        return None;
    }
    let n = buffer_sorts.len();
    let (line_starts_v, x_positions) = line_layout(&buffer_sorts, font);
    let ghost ls = line_starts(m);
    let current_line = current_line_index(&line_starts_v, current_position);
    proof {
        if current_position <= n {
            lemma_nav_x_bound(m, f, current_position as int);
        }
    }
    let cx: i128 = if current_position < x_positions.len() {
        x_positions[current_position]
    } else {
        0
    };
    assert(cx as int == goal_x(m, f, current_position as int));
    let target = match direction {
        LineNavigation::Up => {
            if current_line == 0 {
                return None;
            }
            current_line - 1
        },
        LineNavigation::Down => {
            if current_line + 1 >= line_starts_v.len() {
                return None;
            }
            current_line + 1
        },
    };
    assert(line_starts_v@.map_values(|v: usize| v as int)[target as int] == ls[target as int]);
    let start = line_starts_v[target];
    let end = if target + 1 < line_starts_v.len() {
        assert(line_starts_v@.map_values(|v: usize| v as int)[target + 1] == ls[target + 1]);
        line_starts_v[target + 1]
    } else {
        n
    };
    assert(start as int == line_first(m, target as int));
    assert(end as int == line_last(m, target as int));
    assert(start <= end);
    Some(closest_position(&x_positions, start, end, cx, Ghost(m), Ghost(f)))
}

/// Whether `after` is `before` with the cursor moved one line in
/// `direction`: to the position of the target line closest to where the
/// cursor stands (the first such position), or unchanged where there is no
/// buffer, no sort in it, or no line in that direction.
pub open spec fn moved_one_line(
    before: ActiveTextBuffer,
    after: ActiveTextBuffer,
    sorts: Seq<SortView>,
    direction: LineNavigation,
    f: Option<FontGlyphs>,
) -> bool {
    match before.buffer_entity {
        None => after == before,
        Some(e) => {
            let m = members(sorts, e.buffer.id);
            if m.len() == 0 || target_line(m, e.cursor.position as int, direction) is None {
                after == before
            } else {
                let t = target_line(m, e.cursor.position as int, direction)->0;
                after.buffer_entity matches Some(e2) && e2.buffer == e.buffer && is_first_closest(
                    m,
                    f,
                    line_first(m, t),
                    line_last(m, t),
                    goal_x(m, f, e.cursor.position as int),
                    e2.cursor.position as int,
                )
            }
        },
    }
}

/// Move the active buffer's cursor one line up or down, if it can move.
pub fn move_cursor_line(
    text_editor_state: &TextEditorState,
    active_buffer: &mut ActiveTextBuffer,
    direction: LineNavigation,
    font: Option<&FontGlyphs>,
)
    requires
        text_editor_state.buffer@.len() < usize::MAX,
    ensures
        moved_one_line(
            *old(active_buffer),
            *final(active_buffer),
            sorts_view(text_editor_state.buffer@),
            direction,
            font_value(font),
        ),
{
    let entity = match active_buffer.buffer_entity {
        Some(e) => e,
        None => return,
    };
    if let Some(new_position) = calculate_line_navigation_position(
        text_editor_state,
        entity.buffer.id,
        entity.cursor.position,
        direction,
        font,
    ) {
        active_buffer.buffer_entity = Some(
            BufferEntity { buffer: entity.buffer, cursor: BufferCursor { position: new_position } },
        );
    }
}

/// Left arrow: the cursor moves one sort back, unless at the start. In
/// right-to-left buffers the same step moves it visually the other way.
pub fn handle_arrow_left(active_buffer: &mut ActiveTextBuffer)
    ensures
        *final(active_buffer) == match old(active_buffer).buffer_entity {
            Some(e) => if e.cursor.position > 0 {
                with_cursor(*old(active_buffer), e.cursor.position - 1)
            } else {
                *old(active_buffer)
            },
            None => *old(active_buffer),
        },
{
    if let Some(e) = active_buffer.buffer_entity {
        if e.cursor.position > 0 {
            active_buffer.buffer_entity = Some(
                BufferEntity {
                    buffer: e.buffer,
                    cursor: BufferCursor { position: e.cursor.position - 1 },
                },
            );
        }
    }
}

/// Right arrow: the cursor moves one sort forward, unless it is already
/// after the buffer's last sort.
pub fn handle_arrow_right(text_editor_state: &TextEditorState, active_buffer: &mut ActiveTextBuffer)
    ensures
        *final(active_buffer) == match old(active_buffer).buffer_entity {
            Some(e) => if e.cursor.position < members(sorts_view(text_editor_state.buffer@), e.buffer.id).len() {
                with_cursor(*old(active_buffer), e.cursor.position + 1)
            } else {
                *old(active_buffer)
            },
            None => *old(active_buffer),
        },
{
    if let Some(e) = active_buffer.buffer_entity {
        let count = count_buffer_sorts(text_editor_state, e.buffer.id);
        if e.cursor.position < count {
            active_buffer.buffer_entity = Some(
                BufferEntity {
                    buffer: e.buffer,
                    cursor: BufferCursor { position: e.cursor.position + 1 },
                },
            );
        }
    }
}

/// Up arrow: the cursor moves to the closest position on the previous line.
pub fn handle_arrow_up(
    text_editor_state: &TextEditorState,
    active_buffer: &mut ActiveTextBuffer,
    font: Option<&FontGlyphs>,
)
    requires
        text_editor_state.buffer@.len() < usize::MAX,
    ensures
        moved_one_line(
            *old(active_buffer),
            *final(active_buffer),
            sorts_view(text_editor_state.buffer@),
            LineNavigation::Up,
            font_value(font),
        ),
{
    move_cursor_line(text_editor_state, active_buffer, LineNavigation::Up, font);
}

/// Down arrow: the cursor moves to the closest position on the next line.
pub fn handle_arrow_down(
    text_editor_state: &TextEditorState,
    active_buffer: &mut ActiveTextBuffer,
    font: Option<&FontGlyphs>,
)
    requires
        text_editor_state.buffer@.len() < usize::MAX,
    ensures
        moved_one_line(
            *old(active_buffer),
            *final(active_buffer),
            sorts_view(text_editor_state.buffer@),
            LineNavigation::Down,
            font_value(font),
        ),
{
    move_cursor_line(text_editor_state, active_buffer, LineNavigation::Down, font);
}

/// The number of sorts in buffer `buffer_id`.
pub fn count_buffer_sorts(text_editor_state: &TextEditorState, buffer_id: BufferId) -> (r: usize)
    ensures
        r == members(sorts_view(text_editor_state.buffer@), buffer_id).len(),
{
    let ghost s = sorts_view(text_editor_state.buffer@);
    let mut count: usize = 0;
    let mut i: usize = 0;
    while i < text_editor_state.buffer.len()
        invariant
            s == sorts_view(text_editor_state.buffer@),
            i <= s.len(),
            count == members(s.take(i as int), buffer_id).len(),
            count <= i,
        decreases s.len() - i,
    {
        proof {
            crate::text::buffer::lemma_member_positions_take(s, buffer_id, i as int);
        }
        if text_editor_state.buffer[i].buffer_id == Some(buffer_id) {
            count = count + 1;
        }
        i = i + 1;
    }
    assert(s.take(s.len() as int) =~= s);
    count
}

/// The line a move goes to exists, and its searched positions lie within
/// the buffer.
pub proof fn lemma_target_line_range(m: Seq<SortView>, position: int, direction: LineNavigation)
    requires
        target_line(m, position, direction) is Some,
    ensures
        ({
            let t = target_line(m, position, direction)->0;
            &&& 0 <= t < line_starts(m).len()
            &&& 0 <= line_first(m, t) <= line_last(m, t) <= m.len()
        }),
{
    lemma_line_starts(m);
    lemma_line_of_range(line_starts(m), position);
}

} // verus!
