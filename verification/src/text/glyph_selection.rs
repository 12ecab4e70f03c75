//! Choosing a glyph by its codepoint from the terminal interface: typed at
//! the cursor in insert mode, otherwise shown by the active sort.

use vstd::prelude::*;
use crate::strings::{hex4, str_equals, with_hex4};
use crate::text::buffer::{
    sorts_view, BufferSortRespawnQueue, SortData, SortKind, SortKindView, SortLayoutMode,
    SortView, TextEditorState, TextPlacementMode,
};
use crate::text::editing::indices_from;
use crate::text::legacy::{cursor_sort, insert_sort_at_cursor_with_respawn};

verus! {

/// The glyph most recently chosen.
#[derive(Debug, Clone)]
pub struct GlyphNavigation {
    pub current_glyph: Option<String>,
}

impl GlyphNavigation {
    /// Record the chosen glyph.
    pub fn set_current_glyph(&mut self, glyph_name: String)
        ensures
            final(self).current_glyph == Some(glyph_name),
    {
        self.current_glyph = Some(glyph_name);
    }
}

/// Whether `cp` is a Unicode scalar value (a codepoint that is not a
/// surrogate).
pub open spec fn is_scalar_value(cp: u32) -> bool {
    cp < 0xD800 || (0xE000 <= cp && cp <= 0x10FFFF)
}

/// The character with codepoint `cp`, by `char::from_u32`.
#[verifier::external_body]
fn char_from_u32(cp: u32) -> (r: Option<char>)
    ensures
        r is Some <==> is_scalar_value(cp),
        r matches Some(c) ==> c == cp as char,
{
    char::from_u32(cp)
}

/// The index of the first active sort.
fn find_active_sort(text_state: &TextEditorState) -> (r: Option<usize>)
    ensures
        match r {
            Some(i) => first_active(sorts_view(text_state.buffer@)) == Some(i as int),
            None => first_active(sorts_view(text_state.buffer@)) is None,
        },
{
    let ghost s = sorts_view(text_state.buffer@);
    let mut i: usize = 0;
    while i < text_state.buffer.len()
        invariant
            s == sorts_view(text_state.buffer@),
            i <= s.len(),
            first_active(s.take(i as int)) is None,
        decreases s.len() - i,
    {
        proof {
            lemma_first_active_take(s, i as int);
        }
        if text_state.buffer[i].is_active {
            proof {
                lemma_first_active_prefix(s, i as int + 1);
            }
            return Some(i);
        }
        i = i + 1;
    }
    assert(s.take(s.len() as int) =~= s);
    None
}

/// The first active sort, if any.
pub open spec fn first_active(s: Seq<SortView>) -> Option<int>
    decreases s.len(),
{
    if s.len() == 0 {
        None
    } else {
        match first_active(s.drop_last()) {
            Some(i) => Some(i),
            None => if s.last().is_active {
                Some(s.len() - 1)
            } else {
                None
            },
        }
    }
}

proof fn lemma_first_active_take(s: Seq<SortView>, i: int)
    requires
        0 <= i < s.len(),
    ensures
        first_active(s.take(i + 1)) == match first_active(s.take(i)) {
            Some(j) => Some(j),
            None => if s[i].is_active {
                Some(i)
            } else {
                None
            },
        },
{
    assert(s.take(i + 1).drop_last() =~= s.take(i));
}

proof fn lemma_first_active_prefix(s: Seq<SortView>, k: int)
    requires
        0 <= k <= s.len(),
        first_active(s.take(k)) is Some,
    ensures
        first_active(s) == first_active(s.take(k)),
    decreases s.len(),
{
    if k == s.len() {
        assert(s.take(k) =~= s);
    } else {
        assert(s.drop_last().take(k) =~= s.take(k));
        lemma_first_active_prefix(s.drop_last(), k);
    }
}

proof fn lemma_first_active_range(s: Seq<SortView>)
    ensures
        first_active(s) matches Some(i) ==> 0 <= i < s.len() && s[i].is_active,
    decreases s.len(),
{
    if s.len() > 0 {
        lemma_first_active_range(s.drop_last());
    }
}

/// The name a chosen codepoint is shown under: `U+XXXX`.
pub open spec fn codepoint_glyph_name(cp: u32) -> Seq<char> {
    "U+"@ + hex4(cp as nat)
}

/// The active sort showing codepoint `c` under `name`, 500 units wide.
pub open spec fn displaying(s: SortView, c: char, name: Seq<char>) -> SortView {
    SortView {
        kind: SortKindView::Glyph { codepoint: Some(c), glyph_name: name, advance_width: 500 },
        ..s
    }
}

/// Make the active sort show the glyph for `unicode_codepoint`.
pub fn change_active_sort_glyph(
    unicode_codepoint: u32,
    target_char: Option<char>,
    glyph_name: &str,
    text_state: &mut TextEditorState,
    respawn_queue: &mut BufferSortRespawnQueue,
) -> (r: Result<(), String>)
    ensures
        final(text_state).cursor_position == old(text_state).cursor_position,
        match first_active(sorts_view(old(text_state).buffer@)) {
            None => r matches Err(e) && e@ == "No active sort - click on a glyph in the editor first"@
                && *final(text_state) == *old(text_state) && *final(respawn_queue) == *old(respawn_queue),
            Some(i) => match target_char {
                None => r matches Err(e) && e@ == "Invalid Unicode codepoint"@ && *final(text_state) == *old(text_state) && *final(respawn_queue) == *old(respawn_queue),
                Some(c) => r is Ok && sorts_view(final(text_state).buffer@) == sorts_view(
                    old(text_state).buffer@,
                ).update(i, displaying(sorts_view(old(text_state).buffer@)[i], c, glyph_name@))
                    && final(respawn_queue).indices@ == old(respawn_queue).indices@.push(i as usize),
            },
        },
{
    let ghost s = sorts_view(text_state.buffer@);
    let active_sort_index = find_active_sort(text_state);
    proof {
        lemma_first_active_range(s);
    }
    match active_sort_index {
        Some(index) => {
            match target_char {
                Some(c) => {
                    let old_sort = &text_state.buffer[index];
                    let new_sort = SortData {
                        kind: SortKind::Glyph {
                            codepoint: Some(c),
                            glyph_name: String::from_str(glyph_name),
                            advance_width: 500,
                        },
                        is_active: old_sort.is_active,
                        layout_mode: old_sort.layout_mode,
                        root_position: old_sort.root_position,
                        buffer_cursor_position: old_sort.buffer_cursor_position,
                        buffer_id: old_sort.buffer_id,
                    };
                    let ghost old_buffer = text_state.buffer@;
                    text_state.buffer.set(index, new_sort);
                    assert(sorts_view(text_state.buffer@) =~= s.update(
                        index as int,
                        displaying(s[index as int], c, glyph_name@),
                    ));
                    respawn_queue.indices.push(index);
                    Ok(())
                },
                None => Err(String::from_str("Invalid Unicode codepoint")),
            }
        },
        None => Err(String::from_str("No active sort - click on a glyph in the editor first")),
    }
}

/// Whether a choice is typed at the cursor: the text tool is active in
/// insert placement.
pub open spec fn types_at_cursor(current_tool: Option<Seq<char>>, mode: Option<TextPlacementMode>) -> bool {
    current_tool == Some("text"@) && mode == Some(TextPlacementMode::Insert)
}

/// Choose the glyph for `unicode_codepoint` from the terminal interface:
/// recorded as the current glyph, then typed at the editor's cursor in
/// insert mode of the text tool, or shown by the active sort otherwise.
/// Returns the glyph's `U+XXXX` name, or why nothing could be done.
pub fn handle_glyph_selection(
    unicode_codepoint: u32,
    glyph_nav: &mut GlyphNavigation,
    text_editor_state: &mut Option<TextEditorState>,
    respawn_queue: &mut BufferSortRespawnQueue,
    current_tool: Option<&str>,
    text_placement_mode: Option<TextPlacementMode>,
) -> (r: Result<String, String>)
    requires
        is_scalar_value(unicode_codepoint) && types_at_cursor(
            crate::text::input::tool_view(current_tool),
            text_placement_mode,
        ) ==> match *old(text_editor_state) {
            Some(ts) => ts.cursor_position <= ts.buffer@.len() && ts.buffer@.len() < usize::MAX,
            None => true,
        },
    ensures
        !is_scalar_value(unicode_codepoint) ==> (r matches Err(e) && e@
            == "Invalid Unicode codepoint"@ && *final(glyph_nav) == *old(glyph_nav)
            && *final(text_editor_state) == *old(text_editor_state)
            && *final(respawn_queue) == *old(respawn_queue)),
        is_scalar_value(unicode_codepoint) ==> {
            let name = codepoint_glyph_name(unicode_codepoint);
            &&& final(glyph_nav).current_glyph matches Some(g) && g@ == name
            &&& match *old(text_editor_state) {
                None => r matches Err(e) && e@ == "No TextEditorState available for glyph change"@
                    && *final(text_editor_state) == *old(text_editor_state) && *final(respawn_queue) == *old(respawn_queue),
                Some(ts) => (*final(text_editor_state)) is Some && if types_at_cursor(
                    crate::text::input::tool_view(current_tool),
                    text_placement_mode,
                ) {
                    let ts2 = (*final(text_editor_state))->0;
                    &&& r matches Ok(n) && n@ == name
                    &&& sorts_view(ts2.buffer@) == sorts_view(ts.buffer@).insert(
                        ts.cursor_position as int,
                        cursor_sort(
                            Some(unicode_codepoint as char),
                            name,
                            500,
                            SortLayoutMode::LTRText,
                            ts.cursor_position,
                        ),
                    )
                    &&& ts2.cursor_position == ts.cursor_position + 1
                    &&& final(respawn_queue).indices@ == old(respawn_queue).indices@ + indices_from(
                        ts.cursor_position as int,
                        ts.buffer@.len() as int + 1,
                    )
                } else {
                    let ts2 = (*final(text_editor_state))->0;
                    &&& ts2.cursor_position == ts.cursor_position
                    &&& match first_active(sorts_view(ts.buffer@)) {
                        None => r matches Err(e) && e@
                            == "No active sort - click on a glyph in the editor first"@ && ts2 == ts
                            && *final(respawn_queue) == *old(respawn_queue),
                        Some(i) => r matches Ok(n) && n@ == name && sorts_view(ts2.buffer@)
                            == sorts_view(ts.buffer@).update(
                            i,
                            displaying(
                                sorts_view(ts.buffer@)[i],
                                unicode_codepoint as char,
                                name,
                            ),
                        ) && final(respawn_queue).indices@ == old(respawn_queue).indices@.push(
                            i as usize,
                        ),
                    }
                }
            }
        },
{
    let target_char = char_from_u32(unicode_codepoint);
    if target_char.is_none() {
        return Err(String::from_str("Invalid Unicode codepoint"));
    }
    let glyph_name = with_hex4("U+", unicode_codepoint);
    glyph_nav.set_current_glyph(glyph_name.clone());
    let is_text_tool = match current_tool {
        Some(name) => {
            proof {
                reveal_strlit("text");
            }
            str_equals(name, "text")
        },
        None => false,
    };
    let is_insert_mode = match text_placement_mode {
        Some(TextPlacementMode::Insert) => true,
        _ => false,
    };
    match text_editor_state {
        Some(text_state) => {
            if is_text_tool && is_insert_mode {
                let c = target_char.unwrap();
                insert_sort_at_cursor_with_respawn(
                    text_state,
                    glyph_name.clone(),
                    500,
                    Some(c),
                    respawn_queue,
                );
                Ok(glyph_name)
            } else {
                match change_active_sort_glyph(
                    unicode_codepoint,
                    target_char,
                    glyph_name.as_str(),
                    text_state,
                    respawn_queue,
                ) {
                    Ok(_) => Ok(glyph_name),
                    Err(msg) => Err(msg),
                }
            }
        },
        None => Err(String::from_str("No TextEditorState available for glyph change")),
    }
}

} // verus!
