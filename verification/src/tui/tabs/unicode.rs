//! The Unicode tab: a scrolling list of the font's glyphs by codepoint,
//! with search.

use vstd::prelude::*;
use crate::strings::{
    has_substring, hex4, lowercase, str_contains, str_to_lowercase, string_clear, string_pop,
    string_push, with_hex4,
};
use crate::tui::communication::GlyphInfo;
use crate::tui::events::{KeyCode, KeyEvent};

verus! {

/// Selection and scrolling of the glyph list.
#[derive(Debug, Clone)]
pub struct GlyphsState {
    pub selected_index: usize,
    pub scroll_offset: usize,
    pub search_query: String,
    pub is_searching: bool,
}

/// The index after moving down one item in a list of `max_items`.
pub open spec fn next_index(selected: int, max_items: int) -> int {
    if max_items > 0 {
        if selected + 1 <= max_items - 1 { selected + 1 } else { max_items - 1 }
    } else {
        selected
    }
}

/// The index after moving up one item.
pub open spec fn previous_index(selected: int) -> int {
    if selected > 0 { selected - 1 } else { selected }
}

/// The index after moving down a page.
pub open spec fn page_down_index(selected: int, max_items: int, page_size: int) -> int {
    if max_items > 0 {
        if selected + page_size <= max_items - 1 { selected + page_size } else { max_items - 1 }
    } else {
        selected
    }
}

/// The index after moving up a page, stopping at the top.
pub open spec fn page_up_index(selected: int, page_size: int) -> int {
    if selected >= page_size { selected - page_size } else { 0 }
}

/// The scroll offset that keeps the selection in a window of
/// `visible_items` rows, moving as little as possible.
pub open spec fn scrolled(selected: int, scroll_offset: int, visible_items: int) -> int {
    if selected < scroll_offset {
        selected
    } else if selected >= scroll_offset + visible_items {
        selected - visible_items + 1
    } else {
        scroll_offset
    }
}

impl GlyphsState {
    /// The first item selected, no scrolling, not searching.
    pub fn new() -> (r: Self)
        ensures
            r.selected_index == 0,
            r.scroll_offset == 0,
            r.search_query@ == Seq::<char>::empty(),
            !r.is_searching,
    {
        GlyphsState {
            selected_index: 0,
            scroll_offset: 0,
            search_query: String::new(),
            is_searching: false,
        }
    }

    /// Move the selection down one item, staying on the last.
    pub fn select_next(&mut self, max_items: usize)
        requires
            old(self).selected_index < usize::MAX,
        ensures
            final(self).selected_index == next_index(old(self).selected_index as int, max_items as int),
            final(self).scroll_offset == old(self).scroll_offset,
            final(self).search_query == old(self).search_query,
            final(self).is_searching == old(self).is_searching,
    {
        if max_items > 0 {
            let next = self.selected_index + 1;
            self.selected_index = if next <= max_items - 1 { next } else { max_items - 1 };
        }
    }

    /// Move the selection up one item, staying on the first.
    pub fn select_previous(&mut self)
        ensures
            final(self).selected_index == previous_index(old(self).selected_index as int),
            final(self).scroll_offset == old(self).scroll_offset,
            final(self).search_query == old(self).search_query,
            final(self).is_searching == old(self).is_searching,
    {
        if self.selected_index > 0 {
            self.selected_index = self.selected_index - 1;
        }
    }

    /// Move the selection down a page, staying on the last item.
    pub fn page_down(&mut self, max_items: usize, page_size: usize)
        requires
            old(self).selected_index + page_size <= usize::MAX,
        ensures
            final(self).selected_index == page_down_index(
                old(self).selected_index as int,
                max_items as int,
                page_size as int,
            ),
            final(self).scroll_offset == old(self).scroll_offset,
            final(self).search_query == old(self).search_query,
            final(self).is_searching == old(self).is_searching,
    {
        if max_items > 0 {
            let next = self.selected_index + page_size;
            self.selected_index = if next <= max_items - 1 { next } else { max_items - 1 };
        }
    }

    /// Move the selection up a page, stopping at the first item.
    pub fn page_up(&mut self, page_size: usize)
        ensures
            final(self).selected_index == page_up_index(old(self).selected_index as int, page_size as int),
            final(self).scroll_offset == old(self).scroll_offset,
            final(self).search_query == old(self).search_query,
            final(self).is_searching == old(self).is_searching,
    {
        self.selected_index = self.selected_index.saturating_sub(page_size);
    }

    /// Scroll so that the selection is within the `visible_items` rows.
    pub fn update_scroll(&mut self, visible_items: usize)
        requires
            old(self).scroll_offset + visible_items <= usize::MAX,
            visible_items > 0 || old(self).selected_index < usize::MAX,
        ensures
            final(self).scroll_offset == scrolled(
                old(self).selected_index as int,
                old(self).scroll_offset as int,
                visible_items as int,
            ),
            final(self).selected_index == old(self).selected_index,
            final(self).search_query == old(self).search_query,
            final(self).is_searching == old(self).is_searching,
            visible_items > 0 ==> final(self).scroll_offset <= final(self).selected_index
                < final(self).scroll_offset + visible_items,
    {
        if self.selected_index < self.scroll_offset {
            self.scroll_offset = self.selected_index;
        } else if self.selected_index >= self.scroll_offset + visible_items {
            self.scroll_offset = self.selected_index - visible_items + 1;
        }
    }
}

impl Default for GlyphsState {
    fn default() -> (r: Self)
        ensures
            r.selected_index == 0,
            r.scroll_offset == 0,
            r.search_query@ == Seq::<char>::empty(),
            !r.is_searching,
    {
        GlyphsState::new()
    }
}

/// Whether a key edits the search query (in search mode).
pub open spec fn search_key_effect(query: Seq<char>, searching: bool, code: KeyCode) -> (Seq<char>, bool) {
    match code {
        KeyCode::Esc => (Seq::empty(), false),
        KeyCode::Enter => (query, false),
        KeyCode::Backspace => (if query.len() > 0 { query.drop_last() } else { query }, searching),
        KeyCode::Char(c) => (query.push(c), searching),
        _ => (query, searching),
    }
}

/// The selection after a navigation key outside search mode.
pub open spec fn navigation_effect(selected: int, code: KeyCode, glyphs_len: int) -> int {
    match code {
        KeyCode::Down | KeyCode::Char('j') => next_index(selected, glyphs_len),
        KeyCode::Up | KeyCode::Char('k') => previous_index(selected),
        KeyCode::PageDown => page_down_index(selected, glyphs_len, 10),
        KeyCode::PageUp => page_up_index(selected, 10),
        _ => selected,
    }
}

/// The codepoint that Enter selects: that of the selected glyph, when it
/// exists and has one.
pub open spec fn enter_selection(glyphs: Seq<GlyphInfo>, selected: int) -> Option<u32> {
    if 0 <= selected < glyphs.len() {
        glyphs[selected].unicode
    } else {
        None
    }
}

/// What a key does in the Unicode tab: while searching it edits the query
/// (Esc also leaves the search, Enter ends it); otherwise it moves the
/// selection, starts a search with `/`, or with Enter picks the selected
/// glyph's codepoint, which `picked` is.
pub open spec fn unicode_key_handled(
    before: GlyphsState,
    after: GlyphsState,
    key: KeyEvent,
    glyphs_len: int,
    glyphs: Seq<GlyphInfo>,
    picked: Option<u32>,
) -> bool {
    if before.is_searching {
        &&& (after.search_query@, after.is_searching) == search_key_effect(
            before.search_query@,
            before.is_searching,
            key.code,
        )
        &&& after.selected_index == before.selected_index
        &&& after.scroll_offset == before.scroll_offset
        &&& picked is None
    } else {
        &&& after.selected_index == navigation_effect(before.selected_index as int, key.code, glyphs_len)
        &&& after.scroll_offset == before.scroll_offset
        &&& after.is_searching == (key.code == KeyCode::Char('/'))
        &&& after.search_query@ == if key.code == KeyCode::Char('/') {
            Seq::<char>::empty()
        } else {
            before.search_query@
        }
        &&& picked == if key.code == KeyCode::Enter {
            enter_selection(glyphs, before.selected_index as int)
        } else {
            None
        }
    }
}

/// Handle a key in the Unicode tab for a list of `glyphs_len` glyphs.
/// Returns the codepoint to select in the editor when Enter picks a glyph.
pub fn handle_key_event_simple(
    state: &mut GlyphsState,
    key: KeyEvent,
    glyphs_len: usize,
    glyphs: &[GlyphInfo],
) -> (r: Option<u32>)
    requires
        !old(state).is_searching && (key.code == KeyCode::Down || key.code == KeyCode::Char('j'))
            ==> old(state).selected_index < usize::MAX,
        !old(state).is_searching && key.code == KeyCode::PageDown ==> old(state).selected_index + 10
            <= usize::MAX,
    ensures
        unicode_key_handled(*old(state), *final(state), key, glyphs_len as int, glyphs@, r),
{
    if state.is_searching {
        match key.code {
            KeyCode::Esc => {
                state.is_searching = false;
                string_clear(&mut state.search_query);
            },
            KeyCode::Enter => {
                state.is_searching = false;
            },
            KeyCode::Backspace => {
                string_pop(&mut state.search_query);
            },
            KeyCode::Char(c) => {
                string_push(&mut state.search_query, c);
            },
            _ => {},
        }
        None
    } else {
        match key.code {
            KeyCode::Down | KeyCode::Char('j') => {
                state.select_next(glyphs_len);
                None
            },
            KeyCode::Up | KeyCode::Char('k') => {
                state.select_previous();
                None
            },
            KeyCode::PageDown => {
                state.page_down(glyphs_len, 10);
                None
            },
            KeyCode::PageUp => {
                state.page_up(10);
                None
            },
            KeyCode::Enter => {
                if state.selected_index < glyphs.len() {
                    glyphs[state.selected_index].unicode
                } else {
                    None
                }
            },
            KeyCode::Char('/') => {
                state.is_searching = true;
                string_clear(&mut state.search_query);
                None
            },
            _ => None,
        }
    }
}

/// Handle a key in the Unicode tab for the application's glyph list.
pub fn handle_key_event(state: &mut GlyphsState, key: KeyEvent, glyphs: &[GlyphInfo]) -> (r: Option<u32>)
    requires
        !old(state).is_searching && (key.code == KeyCode::Down || key.code == KeyCode::Char('j'))
            ==> old(state).selected_index < usize::MAX,
        !old(state).is_searching && key.code == KeyCode::PageDown ==> old(state).selected_index + 10
            <= usize::MAX,
    ensures
        unicode_key_handled(*old(state), *final(state), key, glyphs@.len() as int, glyphs@, r),
{
    handle_key_event_simple(state, key, glyphs.len(), glyphs)
}

/// The name a glyph is listed under: its name, or else its key.
pub open spec fn listed_name(g: GlyphInfo) -> Seq<char> {
    match g.name {
        Some(n) => n@,
        None => g.codepoint@,
    }
}

/// The codepoint label searched for a glyph: `U+` and at least four
/// hexadecimal digits, or nothing for a glyph without a codepoint.
pub open spec fn searched_codepoint_label(u: Option<u32>) -> Seq<char> {
    match u {
        Some(c) => "U+"@ + hex4(c as nat),
        None => Seq::empty(),
    }
}

/// Whether a glyph matches a search: the query occurs, ignoring case, in
/// its listed name or in its codepoint label.
pub open spec fn matches_search(g: GlyphInfo, query: Seq<char>) -> bool {
    has_substring(lowercase(listed_name(g)), lowercase(query)) || has_substring(
        lowercase(searched_codepoint_label(g.unicode)),
        lowercase(query),
    )
}

/// The indices of the glyphs the list shows: all of them, or while a
/// nonempty search is typed, those that match it, in order.
pub open spec fn shown_indices(glyphs: Seq<GlyphInfo>, searching: bool, query: Seq<char>) -> Seq<usize>
    decreases glyphs.len(),
{
    if glyphs.len() == 0 {
        Seq::empty()
    } else {
        let rest = shown_indices(glyphs.drop_last(), searching, query);
        if !(searching && query.len() > 0) || matches_search(glyphs.last(), query) {
            rest.push((glyphs.len() - 1) as usize)
        } else {
            rest
        }
    }
}

/// Whether a glyph matches the search query.
pub fn glyph_matches_search(g: &GlyphInfo, query: &str) -> (r: bool)
    ensures
        r == matches_search(*g, query@),
{
    let q = str_to_lowercase(query);
    let name: &str = match &g.name {
        Some(n) => n.as_str(),
        None => g.codepoint.as_str(),
    };
    let lname = str_to_lowercase(name);
    if str_contains(lname.as_str(), q.as_str()) {
        return true;
    }
    let label = match g.unicode {
        Some(u) => with_hex4("U+", u),
        None => String::new(),
    };
    proof {
        reveal_strlit("U+");
    }
    let llabel = str_to_lowercase(label.as_str());
    str_contains(llabel.as_str(), q.as_str())
}

/// The indices of the glyphs the Unicode tab lists for its state.
pub fn filtered_glyph_indices(glyphs: &[GlyphInfo], state: &GlyphsState) -> (r: Vec<usize>)
    ensures
        r@ == shown_indices(glyphs@, state.is_searching, state.search_query@),
{
    let filtering = state.is_searching && state.search_query.unicode_len() > 0;
    let mut out: Vec<usize> = Vec::new();
    let mut i: usize = 0;
    while i < glyphs.len()
        invariant
            i <= glyphs@.len(),
            filtering == (state.is_searching && state.search_query@.len() > 0),
            out@ == shown_indices(glyphs@.take(i as int), state.is_searching, state.search_query@),
        decreases glyphs@.len() - i,
    {
        proof {
            assert(glyphs@.take(i + 1).drop_last() =~= glyphs@.take(i as int));
        }
        if !filtering || glyph_matches_search(&glyphs[i], state.search_query.as_str()) {
            out.push(i);
        }
        i = i + 1;
    }
    assert(glyphs@.take(glyphs@.len() as int) =~= glyphs@);
    out
}

/// Where the selection stands in the shown list: while searching, the
/// first place that shows the selected glyph (the top when none does);
/// otherwise the selected index itself.
pub fn filtered_selection(shown: &[usize], state: &GlyphsState) -> (r: usize)
    ensures
        !state.is_searching ==> r == state.selected_index,
        state.is_searching ==> if exists|k: int| 0 <= k < shown@.len() && shown@[k] == state.selected_index {
            r < shown@.len() && shown@[r as int] == state.selected_index && forall|k: int|
                0 <= k < r ==> shown@[k] != state.selected_index
        } else {
            r == 0
        },
{
    if !state.is_searching {
        return state.selected_index;
    }
    let mut k: usize = 0;
    while k < shown.len()
        invariant
            state.is_searching,
            k <= shown@.len(),
            forall|j: int| 0 <= j < k ==> shown@[j] != state.selected_index,
        decreases shown@.len() - k,
    {
        if shown[k] == state.selected_index {
            return k;
        }
        k = k + 1;
    }
    0
}

/// The line the list shows for a glyph: its codepoint label (`U+0000`
/// for a glyph without one), a space, and its listed name.
pub fn glyph_list_line(g: &GlyphInfo) -> (r: String)
    ensures
        r@ == match g.unicode {
            Some(c) => "U+"@ + hex4(c as nat),
            None => "U+0000"@,
        } + " "@ + listed_name(*g),
{
    proof {
        reveal_strlit("U+");
        reveal_strlit("U+0000");
        reveal_strlit(" ");
    }
    let mut line = match g.unicode {
        Some(u) => with_hex4("U+", u),
        None => String::from_str("U+0000"),
    };
    line.append(" ");
    match &g.name {
        Some(n) => line.append(n.as_str()),
        None => line.append(g.codepoint.as_str()),
    }
    line
}

/// Moving down and then up returns to the same item, away from the end of
/// the list.
pub proof fn next_then_previous_restores(selected: int, max_items: int)
    requires
        0 <= selected,
        selected + 1 < max_items,
    ensures
        previous_index(next_index(selected, max_items)) == selected,
{
}

/// Navigation keeps the selection inside a nonempty list it started in.
pub proof fn navigation_stays_in_list(selected: int, code: KeyCode, glyphs_len: int)
    requires
        0 <= selected < glyphs_len,
    ensures
        0 <= navigation_effect(selected, code, glyphs_len) < glyphs_len,
{
}

} // verus!
