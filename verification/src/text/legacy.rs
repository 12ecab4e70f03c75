//! Insertion at the editor's own cursor, used where no buffer cursor
//! applies: Arabic keyboard input and glyphs chosen from the terminal
//! interface.

use vstd::prelude::*;
use crate::strings::{str_starts_with, with_hex4};
use crate::text::buffer::{
    lemma_sorts_view_insert, sorts_view, BufferSortRespawnQueue, Point, SortData, SortKind,
    SortKindView, SortLayoutMode, SortView, TextEditorState,
};
use crate::text::editing::indices_from;
use crate::text::font::{advance_width_of, font_value, get_glyph_advance_width, FontGlyphs};

verus! {

/// The sort that an insertion at the editor's cursor creates.
pub open spec fn cursor_sort(
    codepoint: Option<char>,
    name: Seq<char>,
    advance_width: i32,
    layout_mode: SortLayoutMode,
    cursor: usize,
) -> SortView {
    SortView {
        kind: SortKindView::Glyph { codepoint, glyph_name: name, advance_width },
        is_active: false,
        layout_mode,
        root_position: Point { x: 0, y: 0 },
        buffer_cursor_position: Some(cursor),
        buffer_id: None,
    }
}

/// Insert a glyph sort at the editor's cursor and move the cursor past it.
fn insert_at_editor_cursor(
    text_editor_state: &mut TextEditorState,
    codepoint: Option<char>,
    glyph_name: String,
    advance_width: i32,
    layout_mode: SortLayoutMode,
)
    requires
        old(text_editor_state).cursor_position <= old(text_editor_state).buffer@.len(),
        old(text_editor_state).buffer@.len() < usize::MAX,
    ensures
        sorts_view(final(text_editor_state).buffer@) == sorts_view(old(text_editor_state).buffer@).insert(
            old(text_editor_state).cursor_position as int,
            cursor_sort(
                codepoint,
                glyph_name@,
                advance_width,
                layout_mode,
                old(text_editor_state).cursor_position,
            ),
        ),
        final(text_editor_state).cursor_position == old(text_editor_state).cursor_position + 1,
{
    let cursor = text_editor_state.cursor_position;
    let sort = SortData {
        kind: SortKind::Glyph { codepoint, glyph_name, advance_width },
        is_active: false,
        layout_mode,
        root_position: Point { x: 0, y: 0 },
        buffer_cursor_position: Some(cursor),
        buffer_id: None,
    };
    proof {
        lemma_sorts_view_insert(text_editor_state.buffer@, cursor as int, sort);
    }
    text_editor_state.buffer.insert(cursor, sort);
    text_editor_state.cursor_position = cursor + 1;
}

/// Insert an Arabic glyph at the editor's cursor, right to left, with the
/// font's advance width for it.
pub fn insert_arabic_glyph(text_editor_state: &mut TextEditorState, glyph_name: &str, font: Option<&FontGlyphs>)
    requires
        old(text_editor_state).cursor_position <= old(text_editor_state).buffer@.len(),
        old(text_editor_state).buffer@.len() < usize::MAX,
    ensures
        sorts_view(final(text_editor_state).buffer@) == sorts_view(old(text_editor_state).buffer@).insert(
            old(text_editor_state).cursor_position as int,
            cursor_sort(
                None,
                glyph_name@,
                advance_width_of(font_value(font), glyph_name@) as i32,
                SortLayoutMode::RTLText,
                old(text_editor_state).cursor_position,
            ),
        ),
        final(text_editor_state).cursor_position == old(text_editor_state).cursor_position + 1,
{
    let advance_width = get_glyph_advance_width(glyph_name, font);
    insert_at_editor_cursor(
        text_editor_state,
        None,
        String::from_str(glyph_name),
        advance_width,
        SortLayoutMode::RTLText,
    );
}

/// The keys of the simplified Arabic keyboard.
#[derive(Debug, Clone, Copy, PartialEq, Eq, Structural)]
pub enum KeyCode {
    KeyA,
    KeyB,
    KeyH,
    KeyJ,
    KeyK,
    KeyL,
    KeyM,
    KeyN,
    KeyR,
    KeyS,
    KeyT,
    KeyW,
    KeyY,
    Other,
}

/// The Arabic letter a key types.
pub open spec fn arabic_char_for_key(key: KeyCode) -> Option<char> {
    match key {
        KeyCode::KeyA => Some('\u{0627}'),
        KeyCode::KeyB => Some('\u{0628}'),
        KeyCode::KeyT => Some('\u{062A}'),
        KeyCode::KeyJ => Some('\u{062C}'),
        KeyCode::KeyH => Some('\u{062D}'),
        KeyCode::KeyK => Some('\u{0643}'),
        KeyCode::KeyL => Some('\u{0644}'),
        KeyCode::KeyM => Some('\u{0645}'),
        KeyCode::KeyN => Some('\u{0646}'),
        KeyCode::KeyR => Some('\u{0631}'),
        KeyCode::KeyS => Some('\u{0633}'),
        KeyCode::KeyW => Some('\u{0648}'),
        KeyCode::KeyY => Some('\u{064A}'),
        KeyCode::Other => None,
    }
}

/// The Arabic letter the key `key` types, if any.
pub fn arabic_key_char(key: KeyCode) -> (r: Option<char>)
    ensures
        r == arabic_char_for_key(key),
{
    match key {
        KeyCode::KeyA => Some('\u{0627}'),
        KeyCode::KeyB => Some('\u{0628}'),
        KeyCode::KeyT => Some('\u{062A}'),
        KeyCode::KeyJ => Some('\u{062C}'),
        KeyCode::KeyH => Some('\u{062D}'),
        KeyCode::KeyK => Some('\u{0643}'),
        KeyCode::KeyL => Some('\u{0644}'),
        KeyCode::KeyM => Some('\u{0645}'),
        KeyCode::KeyN => Some('\u{0646}'),
        KeyCode::KeyR => Some('\u{0631}'),
        KeyCode::KeyS => Some('\u{0633}'),
        KeyCode::KeyW => Some('\u{0648}'),
        KeyCode::KeyY => Some('\u{064A}'),
        KeyCode::Other => None,
    }
}

/// The plain glyph name of an Arabic letter typed on the simplified
/// keyboard; `uniXXXX` for any other character.
pub open spec fn simple_arabic_name(ch: char) -> Seq<char> {
    match ch {
        '\u{0627}' => "alef-ar"@,
        '\u{0628}' => "beh-ar"@,
        '\u{062A}' => "teh-ar"@,
        '\u{062C}' => "jeem-ar"@,
        '\u{062D}' => "hah-ar"@,
        '\u{0643}' => "kaf-ar"@,
        '\u{0644}' => "lam-ar"@,
        '\u{0645}' => "meem-ar"@,
        '\u{0646}' => "noon-ar"@,
        '\u{0631}' => "reh-ar"@,
        '\u{0633}' => "seen-ar"@,
        '\u{0648}' => "waw-ar"@,
        '\u{064A}' => "yeh-ar"@,
        _ => crate::shaping::arabic::uni_name(ch as u32),
    }
}

/// The glyph name of an Arabic letter without contextual forms.
pub fn get_simple_arabic_glyph_name(ch: char) -> (r: String)
    ensures
        r@ == simple_arabic_name(ch),
{
    match ch {
        '\u{0627}' => String::from_str("alef-ar"),
        '\u{0628}' => String::from_str("beh-ar"),
        '\u{062A}' => String::from_str("teh-ar"),
        '\u{062C}' => String::from_str("jeem-ar"),
        '\u{062D}' => String::from_str("hah-ar"),
        '\u{0643}' => String::from_str("kaf-ar"),
        '\u{0644}' => String::from_str("lam-ar"),
        '\u{0645}' => String::from_str("meem-ar"),
        '\u{0646}' => String::from_str("noon-ar"),
        '\u{0631}' => String::from_str("reh-ar"),
        '\u{0633}' => String::from_str("seen-ar"),
        '\u{0648}' => String::from_str("waw-ar"),
        '\u{064A}' => String::from_str("yeh-ar"),
        _ => with_hex4("uni", ch as u32),
    }
}

/// Whether `s` starts with `p`.
pub open spec fn starts_with(s: Seq<char>, p: Seq<char>) -> bool {
    p.len() <= s.len() && s.take(p.len() as int) == p
}

/// The letter a glyph name stands for: the first stem it starts with, in
/// the keyboard's order, or the space.
pub open spec fn char_for_glyph_name(name: Seq<char>) -> Option<char> {
    if starts_with(name, "alef-ar"@) {
        Some('\u{0627}')
    } else if starts_with(name, "beh-ar"@) {
        Some('\u{0628}')
    } else if starts_with(name, "teh-ar"@) {
        Some('\u{062A}')
    } else if starts_with(name, "jeem-ar"@) {
        Some('\u{062C}')
    } else if starts_with(name, "hah-ar"@) {
        Some('\u{062D}')
    } else if starts_with(name, "kaf-ar"@) {
        Some('\u{0643}')
    } else if starts_with(name, "lam-ar"@) {
        Some('\u{0644}')
    } else if starts_with(name, "meem-ar"@) {
        Some('\u{0645}')
    } else if starts_with(name, "noon-ar"@) {
        Some('\u{0646}')
    } else if starts_with(name, "reh-ar"@) {
        Some('\u{0631}')
    } else if starts_with(name, "seen-ar"@) {
        Some('\u{0633}')
    } else if starts_with(name, "waw-ar"@) {
        Some('\u{0648}')
    } else if starts_with(name, "yeh-ar"@) {
        Some('\u{064A}')
    } else if name == "space"@ {
        Some(' ')
    } else {
        None
    }
}

/// The letter a glyph name stands for, for building shaping context.
pub fn glyph_name_to_char(glyph_name: &str) -> (r: Option<char>)
    ensures
        r == char_for_glyph_name(glyph_name@),
{
    if str_starts_with(glyph_name, "alef-ar") {
        Some('\u{0627}')
    } else if str_starts_with(glyph_name, "beh-ar") {
        Some('\u{0628}')
    } else if str_starts_with(glyph_name, "teh-ar") {
        Some('\u{062A}')
    } else if str_starts_with(glyph_name, "jeem-ar") {
        Some('\u{062C}')
    } else if str_starts_with(glyph_name, "hah-ar") {
        Some('\u{062D}')
    } else if str_starts_with(glyph_name, "kaf-ar") {
        Some('\u{0643}')
    } else if str_starts_with(glyph_name, "lam-ar") {
        Some('\u{0644}')
    } else if str_starts_with(glyph_name, "meem-ar") {
        Some('\u{0645}')
    } else if str_starts_with(glyph_name, "noon-ar") {
        Some('\u{0646}')
    } else if str_starts_with(glyph_name, "reh-ar") {
        Some('\u{0631}')
    } else if str_starts_with(glyph_name, "seen-ar") {
        Some('\u{0633}')
    } else if str_starts_with(glyph_name, "waw-ar") {
        Some('\u{0648}')
    } else if str_starts_with(glyph_name, "yeh-ar") {
        Some('\u{064A}')
    } else if crate::strings::str_equals(glyph_name, "space") {
        Some(' ')
    } else {
        None
    }
}

/// A key event of the simplified Arabic keyboard.
#[derive(Debug, Clone, Copy)]
pub struct ArabicKeyEvent {
    pub key_code: KeyCode,
    pub pressed: bool,
}

/// The sorts after one Arabic key event at the editor's cursor.
pub open spec fn after_arabic_key(
    sorts: Seq<SortView>,
    cursor: usize,
    ev: ArabicKeyEvent,
    font: Option<FontGlyphs>,
) -> (Seq<SortView>, usize) {
    if !ev.pressed {
        (sorts, cursor)
    } else {
        match arabic_char_for_key(ev.key_code) {
            None => (sorts, cursor),
            Some(ch) => {
                let name = simple_arabic_name(ch);
                (
                    sorts.insert(
                        cursor as int,
                        cursor_sort(
                            None,
                            name,
                            advance_width_of(font, name) as i32,
                            SortLayoutMode::RTLText,
                            cursor,
                        ),
                    ),
                    (cursor + 1) as usize,
                )
            },
        }
    }
}

/// The sorts after a run of Arabic key events.
pub open spec fn after_arabic_keys(
    sorts: Seq<SortView>,
    cursor: usize,
    evs: Seq<ArabicKeyEvent>,
    font: Option<FontGlyphs>,
) -> (Seq<SortView>, usize)
    decreases evs.len(),
{
    if evs.len() == 0 {
        (sorts, cursor)
    } else {
        let next = after_arabic_key(sorts, cursor, evs[0], font);
        after_arabic_keys(next.0, next.1, evs.drop_first(), font)
    }
}

/// Type Arabic letters from the simplified keyboard at the editor's cursor,
/// in right-to-left text placement only.
pub fn handle_arabic_text_input(
    key_evr: &Vec<ArabicKeyEvent>,
    current_placement_mode: crate::text::buffer::TextPlacementMode,
    text_editor_state: &mut TextEditorState,
    font: Option<&FontGlyphs>,
)
    requires
        old(text_editor_state).cursor_position <= old(text_editor_state).buffer@.len(),
        old(text_editor_state).buffer@.len() + key_evr@.len() < usize::MAX,
    ensures
        (sorts_view(final(text_editor_state).buffer@), final(text_editor_state).cursor_position)
            == if current_placement_mode == crate::text::buffer::TextPlacementMode::RTLText {
            after_arabic_keys(
                sorts_view(old(text_editor_state).buffer@),
                old(text_editor_state).cursor_position,
                key_evr@,
                font_value(font),
            )
        } else {
            (sorts_view(old(text_editor_state).buffer@), old(text_editor_state).cursor_position)
        },
{
    if current_placement_mode != crate::text::buffer::TextPlacementMode::RTLText {
        return;
    }
    let ghost f = font_value(font);
    let ghost goal = after_arabic_keys(
        sorts_view(text_editor_state.buffer@),
        text_editor_state.cursor_position,
        key_evr@,
        f,
    );
    let n = key_evr.len();
    let mut i: usize = 0;
    assert(key_evr@.skip(0) =~= key_evr@);
    while i < n
        invariant
            f == font_value(font),
            n == key_evr@.len(),
            i <= n,
            text_editor_state.cursor_position <= text_editor_state.buffer@.len(),
            text_editor_state.buffer@.len() + (n - i) < usize::MAX,
            after_arabic_keys(
                sorts_view(text_editor_state.buffer@),
                text_editor_state.cursor_position,
                key_evr@.skip(i as int),
                f,
            ) == goal,
        decreases n - i,
    {
        let ev = key_evr[i];
        assert(key_evr@.skip(i as int)[0] == ev);
        assert(key_evr@.skip(i as int).drop_first() =~= key_evr@.skip(i as int + 1));
        let ghost before = text_editor_state.buffer@;
        assert(sorts_view(before).len() == before.len());
        if ev.pressed {
            if let Some(ch) = arabic_key_char(ev.key_code) {
                let glyph_name = get_simple_arabic_glyph_name(ch);
                insert_arabic_glyph(text_editor_state, glyph_name.as_str(), font);
                assert(sorts_view(text_editor_state.buffer@).len() == text_editor_state.buffer@.len());
            }
        }
        i = i + 1;
    }
    assert(key_evr@.skip(n as int).len() == 0);
}

/// Insert a sort for a glyph chosen elsewhere at the editor's cursor, left
/// to right, and queue the shifted indices for respawn.
pub fn insert_sort_at_cursor_with_respawn(
    text_editor_state: &mut TextEditorState,
    glyph_name: String,
    advance_width: i32,
    codepoint: Option<char>,
    respawn_queue: &mut BufferSortRespawnQueue,
)
    requires
        old(text_editor_state).cursor_position <= old(text_editor_state).buffer@.len(),
        old(text_editor_state).buffer@.len() < usize::MAX,
    ensures
        sorts_view(final(text_editor_state).buffer@) == sorts_view(old(text_editor_state).buffer@).insert(
            old(text_editor_state).cursor_position as int,
            cursor_sort(
                codepoint,
                glyph_name@,
                advance_width,
                SortLayoutMode::LTRText,
                old(text_editor_state).cursor_position,
            ),
        ),
        final(text_editor_state).cursor_position == old(text_editor_state).cursor_position + 1,
        final(respawn_queue).indices@ == old(respawn_queue).indices@ + indices_from(
            old(text_editor_state).cursor_position as int,
            old(text_editor_state).buffer@.len() as int + 1,
        ),
{
    let start = text_editor_state.cursor_position;
    let ghost before = text_editor_state.buffer@;
    assert(sorts_view(before).len() == before.len());
    insert_at_editor_cursor(
        text_editor_state,
        codepoint,
        glyph_name,
        advance_width,
        SortLayoutMode::LTRText,
    );
    let end = text_editor_state.buffer.len();
    assert(sorts_view(text_editor_state.buffer@).len() == end);
    let mut i: usize = start;
    while i < end
        invariant
            start <= i <= end,
            respawn_queue.indices@ == old(respawn_queue).indices@ + indices_from(start as int, i as int),
        decreases end - i,
    {
        respawn_queue.indices.push(i);
        i = i + 1;
        assert(respawn_queue.indices@ =~= old(respawn_queue).indices@ + indices_from(
            start as int,
            i as int,
        ));
    }
}

/// The text editor's keyboard input is handled by
/// `handle_unicode_text_input`; this entry point does nothing of its own.
pub fn handle_text_editor_keyboard_input() {
}

/// The simplified Arabic keyboard: A alef, B beh, T teh, J jeem, H hah,
/// K kaf, L lam, M meem, N noon, R reh, S seen, W waw, Y yeh; no other
/// key types a letter.
pub proof fn keys_type_their_letters()
    ensures
        arabic_char_for_key(KeyCode::KeyA) == Some('\u{0627}'),
        arabic_char_for_key(KeyCode::KeyB) == Some('\u{0628}'),
        arabic_char_for_key(KeyCode::KeyT) == Some('\u{062A}'),
        arabic_char_for_key(KeyCode::KeyJ) == Some('\u{062C}'),
        arabic_char_for_key(KeyCode::KeyH) == Some('\u{062D}'),
        arabic_char_for_key(KeyCode::KeyK) == Some('\u{0643}'),
        arabic_char_for_key(KeyCode::KeyL) == Some('\u{0644}'),
        arabic_char_for_key(KeyCode::KeyM) == Some('\u{0645}'),
        arabic_char_for_key(KeyCode::KeyN) == Some('\u{0646}'),
        arabic_char_for_key(KeyCode::KeyR) == Some('\u{0631}'),
        arabic_char_for_key(KeyCode::KeyS) == Some('\u{0633}'),
        arabic_char_for_key(KeyCode::KeyW) == Some('\u{0648}'),
        arabic_char_for_key(KeyCode::KeyY) == Some('\u{064A}'),
        arabic_char_for_key(KeyCode::Other) is None,
{
}

/// Different keys type different letters, and every letter typed is a
/// basic Arabic letter.
pub proof fn keys_type_distinct_letters(a: KeyCode, b: KeyCode)
    ensures
        a != b && arabic_char_for_key(a) is Some ==> arabic_char_for_key(a) != arabic_char_for_key(b),
        arabic_char_for_key(a) matches Some(c) ==> 0x0621 <= (c as int) <= 0x064A,
{
}

} // verus!
