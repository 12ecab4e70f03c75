//! The glyph browser: a scrolling list of the font's glyphs by name,
//! with search.

use vstd::prelude::*;
use crate::strings::{string_clear, string_pop, string_push};
use crate::tui::communication::GlyphInfo;
use crate::tui::events::{KeyCode, KeyEvent};
use crate::tui::tabs::unicode::{
    navigation_effect, next_index, page_down_index, page_up_index, previous_index, scrolled,
    search_key_effect,
};

verus! {

/// Selection and scrolling of the glyph browser.
#[derive(Debug, Clone)]
pub struct GlyphsState {
    pub selected_index: usize,
    pub scroll_offset: usize,
    pub search_query: String,
    pub is_searching: bool,
}

impl GlyphsState {
    /// The first item selected, no scrolling, not searching.
    pub fn new() -> (r: Self)
        ensures
            r.selected_index == 0,
            r.scroll_offset == 0,
            r.search_query@ == Seq::<char>::empty(),
            !r.is_searching,
    {
        GlyphsState {
            selected_index: 0,
            scroll_offset: 0,
            search_query: String::new(),
            is_searching: false,
        }
    }

    /// Move the selection down one item, staying on the last.
    pub fn select_next(&mut self, max_items: usize)
        requires
            old(self).selected_index < usize::MAX,
        ensures
            final(self).selected_index == next_index(old(self).selected_index as int, max_items as int),
            final(self).scroll_offset == old(self).scroll_offset,
            final(self).search_query == old(self).search_query,
            final(self).is_searching == old(self).is_searching,
    {
        if max_items > 0 {
            let next = self.selected_index + 1;
            self.selected_index = if next <= max_items - 1 { next } else { max_items - 1 };
        }
    }

    /// Move the selection up one item, staying on the first.
    pub fn select_previous(&mut self)
        ensures
            final(self).selected_index == previous_index(old(self).selected_index as int),
            final(self).scroll_offset == old(self).scroll_offset,
            final(self).search_query == old(self).search_query,
            final(self).is_searching == old(self).is_searching,
    {
        if self.selected_index > 0 {
            self.selected_index = self.selected_index - 1;
        }
    }

    /// Move the selection down a page, staying on the last item.
    pub fn page_down(&mut self, max_items: usize, page_size: usize)
        requires
            old(self).selected_index + page_size <= usize::MAX,
        ensures
            final(self).selected_index == page_down_index(
                old(self).selected_index as int,
                max_items as int,
                page_size as int,
            ),
            final(self).scroll_offset == old(self).scroll_offset,
            final(self).search_query == old(self).search_query,
            final(self).is_searching == old(self).is_searching,
    {
        if max_items > 0 {
            let next = self.selected_index + page_size;
            self.selected_index = if next <= max_items - 1 { next } else { max_items - 1 };
        }
    }

    /// Move the selection up a page, stopping at the first item.
    pub fn page_up(&mut self, page_size: usize)
        ensures
            final(self).selected_index == page_up_index(old(self).selected_index as int, page_size as int),
            final(self).scroll_offset == old(self).scroll_offset,
            final(self).search_query == old(self).search_query,
            final(self).is_searching == old(self).is_searching,
    {
        self.selected_index = self.selected_index.saturating_sub(page_size);
    }

    /// Scroll so that the selection is within the `visible_items` rows.
    pub fn update_scroll(&mut self, visible_items: usize)
        requires
            old(self).scroll_offset + visible_items <= usize::MAX,
            visible_items > 0 || old(self).selected_index < usize::MAX,
        ensures
            final(self).scroll_offset == scrolled(
                old(self).selected_index as int,
                old(self).scroll_offset as int,
                visible_items as int,
            ),
            final(self).selected_index == old(self).selected_index,
            final(self).search_query == old(self).search_query,
            final(self).is_searching == old(self).is_searching,
            visible_items > 0 ==> final(self).scroll_offset <= final(self).selected_index
                < final(self).scroll_offset + visible_items,
    {
        if self.selected_index < self.scroll_offset {
            self.scroll_offset = self.selected_index;
        } else if self.selected_index >= self.scroll_offset + visible_items {
            self.scroll_offset = self.selected_index - visible_items + 1;
        }
    }
}

/// What a key does in the glyph browser: as in the Unicode tab, except
/// that Enter picks the selected glyph's name, which `picked` is.
pub open spec fn browser_key_handled(
    before: GlyphsState,
    after: GlyphsState,
    key: KeyEvent,
    glyphs_len: int,
    glyphs: Seq<GlyphInfo>,
    picked: Option<String>,
) -> bool {
    if before.is_searching {
        &&& (after.search_query@, after.is_searching) == search_key_effect(
            before.search_query@,
            before.is_searching,
            key.code,
        )
        &&& after.selected_index == before.selected_index
        &&& after.scroll_offset == before.scroll_offset
        &&& picked is None
    } else {
        &&& after.selected_index == navigation_effect(before.selected_index as int, key.code, glyphs_len)
        &&& after.scroll_offset == before.scroll_offset
        &&& after.is_searching == (key.code == KeyCode::Char('/'))
        &&& after.search_query@ == if key.code == KeyCode::Char('/') {
            Seq::<char>::empty()
        } else {
            before.search_query@
        }
        &&& match picked {
            Some(name) => key.code == KeyCode::Enter && before.selected_index < glyphs.len()
                && name@ == glyphs[before.selected_index as int].codepoint@,
            None => !(key.code == KeyCode::Enter && before.selected_index < glyphs.len()),
        }
    }
}

/// Handle a key in the glyph browser for a list of `glyphs_len` glyphs.
/// Returns the name of the glyph to select in the editor when Enter picks
/// one.
pub fn handle_key_event_simple(
    state: &mut GlyphsState,
    key: KeyEvent,
    glyphs_len: usize,
    glyphs: &[GlyphInfo],
) -> (r: Option<String>)
    requires
        !old(state).is_searching && (key.code == KeyCode::Down || key.code == KeyCode::Char('j'))
            ==> old(state).selected_index < usize::MAX,
        !old(state).is_searching && key.code == KeyCode::PageDown ==> old(state).selected_index + 10
            <= usize::MAX,
    ensures
        browser_key_handled(*old(state), *final(state), key, glyphs_len as int, glyphs@, r),
{
    if state.is_searching {
        match key.code {
            KeyCode::Esc => {
                state.is_searching = false;
                string_clear(&mut state.search_query);
            },
            KeyCode::Enter => {
                state.is_searching = false;
            },
            KeyCode::Backspace => {
                string_pop(&mut state.search_query);
            },
            KeyCode::Char(c) => {
                string_push(&mut state.search_query, c);
            },
            _ => {},
        }
        None
    } else {
        match key.code {
            KeyCode::Down | KeyCode::Char('j') => {
                state.select_next(glyphs_len);
                None
            },
            KeyCode::Up | KeyCode::Char('k') => {
                state.select_previous();
                None
            },
            KeyCode::PageDown => {
                state.page_down(glyphs_len, 10);
                None
            },
            KeyCode::PageUp => {
                state.page_up(10);
                None
            },
            KeyCode::Enter => {
                if state.selected_index < glyphs.len() {
                    Some(glyphs[state.selected_index].codepoint.clone())
                } else {
                    None
                }
            },
            KeyCode::Char('/') => {
                state.is_searching = true;
                string_clear(&mut state.search_query);
                None
            },
            _ => None,
        }
    }
}

/// Handle a key in the glyph browser for the application's glyph list.
pub fn handle_key_event(state: &mut GlyphsState, key: KeyEvent, glyphs: &[GlyphInfo]) -> (r: Option<String>)
    requires
        !old(state).is_searching && (key.code == KeyCode::Down || key.code == KeyCode::Char('j'))
            ==> old(state).selected_index < usize::MAX,
        !old(state).is_searching && key.code == KeyCode::PageDown ==> old(state).selected_index + 10
            <= usize::MAX,
    ensures
        browser_key_handled(*old(state), *final(state), key, glyphs@.len() as int, glyphs@, r),
{
    handle_key_event_simple(state, key, glyphs.len(), glyphs)
}

} // verus!
