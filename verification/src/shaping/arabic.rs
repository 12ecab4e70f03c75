//! Arabic contextual shaping: which letters join, the position of a letter
//! in its word, and the glyphs shaping yields for a text.

use vstd::prelude::*;
use crate::strings::{decimal_digits, hex4, with_decimal, with_hex4};
use crate::text::buffer::SortLayoutMode;

verus! {

/// The direction text is shaped in.
#[derive(Debug, Clone, Copy, PartialEq, Eq, Structural)]
pub enum TextDirection {
    LeftToRight,
    RightToLeft,
    TopToBottom,
    BottomToTop,
}

/// The position of an Arabic letter in its word.
#[derive(Debug, Clone, Copy, PartialEq, Eq, Structural)]
pub enum ArabicPosition {
    Isolated,
    Initial,
    Medial,
    Final,
}

/// The script shaping is asked to use.
#[derive(Debug, Clone, Copy, PartialEq, Eq, Structural)]
pub enum ShapingScript {
    Arabic,
    Latin,
}

impl TextDirection {
    /// The shaping direction of a buffer's layout mode: right to left for
    /// right-to-left text, left to right otherwise.
    pub fn from_layout_mode(mode: SortLayoutMode) -> (r: TextDirection)
        ensures
            r == (if mode == SortLayoutMode::RTLText {
                TextDirection::RightToLeft
            } else {
                TextDirection::LeftToRight
            }),
    {
        match mode {
            SortLayoutMode::LTRText => TextDirection::LeftToRight,
            SortLayoutMode::RTLText => TextDirection::RightToLeft,
            SortLayoutMode::Freeform => TextDirection::LeftToRight,
        }
    }
}

/// Whether `code` lies in one of the Arabic blocks: Arabic, Arabic
/// Supplement, Arabic Extended-A and the two Presentation Forms blocks.
pub open spec fn in_arabic_blocks(code: int) -> bool {
    (0x0600 <= code <= 0x06FF) || (0x0750 <= code <= 0x077F) || (0x08A0 <= code <= 0x08FF) || (
    0xFB50 <= code <= 0xFDFF) || (0xFE70 <= code <= 0xFEFF)
}

/// Whether the text holds a character that needs complex shaping.
pub fn needs_complex_shaping(text: &str) -> (r: bool)
    ensures
        r == exists|i: int| 0 <= i < text@.len() && in_arabic_blocks(#[trigger] text@[i] as int),
{
    let n = text.unicode_len();
    let mut i: usize = 0;
    while i < n
        invariant
            n == text@.len(),
            i <= n,
            forall|k: int| 0 <= k < i ==> !in_arabic_blocks(#[trigger] text@[k] as int),
        decreases n - i,
    {
        let code = text.get_char(i) as u32;
        if (0x0600 <= code && code <= 0x06FF) || (0x0750 <= code && code <= 0x077F) || (0x08A0
            <= code && code <= 0x08FF) || (0xFB50 <= code && code <= 0xFDFF) || (0xFE70 <= code
            && code <= 0xFEFF) {
            assert(in_arabic_blocks(text@[i as int] as int));
            return true;
        }
        i = i + 1;
    }
    false
}

/// The basic Arabic letters, hamza to yeh.
pub open spec fn spec_is_arabic_letter(c: char) -> bool {
    0x0621 <= (c as int) <= 0x064A
}

/// The Arabic letters that never join to the letter after them: hamza,
/// the alef forms, teh marbuta, dal, thal, reh, zain, waw and alef
/// maksura.
pub open spec fn non_joining_after(c: char) -> bool {
    let n = c as int;
    n == 0x0621 || n == 0x0622 || n == 0x0623 || n == 0x0624 || n == 0x0625 || n == 0x0627 || n
        == 0x0629 || n == 0x062F || n == 0x0630 || n == 0x0631 || n == 0x0632 || n == 0x0648 || n
        == 0x0649
}

/// Whether `ch` is a basic Arabic letter.
pub fn is_arabic_letter(ch: char) -> (r: bool)
    ensures
        r == spec_is_arabic_letter(ch),
{
    let code = ch as u32;
    0x0621 <= code && code <= 0x064A
}

/// Whether `ch` joins to the letter after it.
pub fn can_connect_to_next(ch: char) -> (r: bool)
    ensures
        r == (spec_is_arabic_letter(ch) && !non_joining_after(ch)),
{
    let n = ch as u32;
    if n == 0x0621 || n == 0x0622 || n == 0x0623 || n == 0x0624 || n == 0x0625 || n == 0x0627
        || n == 0x0629 || n == 0x062F || n == 0x0630 || n == 0x0631 || n == 0x0632 || n == 0x0648
        || n == 0x0649 {
        false
    } else {
        is_arabic_letter(ch)
    }
}

/// Whether `ch` joins to the letter before it: every Arabic letter does.
pub fn can_connect_to_prev(ch: char) -> (r: bool)
    ensures
        r == spec_is_arabic_letter(ch),
{
    is_arabic_letter(ch)
}

/// The position of the letter at `index`: it joins the letter before when
/// that one joins forward, and the letter after when both allow it.
pub open spec fn arabic_position(text: Seq<char>, index: int) -> ArabicPosition {
    let ch = text[index];
    let has_prev = index > 0 && spec_is_arabic_letter(text[index - 1]) && !non_joining_after(
        text[index - 1],
    );
    let has_next = index + 1 < text.len() && spec_is_arabic_letter(text[index + 1]);
    let joins_next = spec_is_arabic_letter(ch) && !non_joining_after(ch) && has_next;
    if !has_prev && !joins_next {
        ArabicPosition::Isolated
    } else if !has_prev && joins_next {
        ArabicPosition::Initial
    } else if has_prev && joins_next {
        ArabicPosition::Medial
    } else {
        ArabicPosition::Final
    }
}

/// The position of the letter at `index` of `text` in its word.
pub fn get_arabic_position(text: &[char], index: usize) -> (r: ArabicPosition)
    requires
        index < text@.len(),
    ensures
        r == arabic_position(text@, index as int),
{
    let ch = text[index];
    let has_prev = index > 0 && {
        let prev = text[index - 1];
        is_arabic_letter(prev) && can_connect_to_next(prev)
    };
    let has_next = index + 1 < text.len() && {
        let next = text[index + 1];
        is_arabic_letter(next) && can_connect_to_prev(next)
    };
    let joins_next = can_connect_to_next(ch) && has_next;
    if !has_prev && !joins_next {
        ArabicPosition::Isolated
    } else if !has_prev && joins_next {
        ArabicPosition::Initial
    } else if has_prev && joins_next {
        ArabicPosition::Medial
    } else {
        ArabicPosition::Final
    }
}

/// The glyph name stem of an Arabic letter in the editor's fonts.
pub open spec fn arabic_base_name(code: u32) -> Option<Seq<char>> {
    match code {
        0x0621 => Some("hamza-ar"@),
        0x0622 => Some("alefMadda-ar"@),
        0x0623 => Some("alefHamzaabove-ar"@),
        0x0624 => Some("wawHamza-ar"@),
        0x0625 => Some("alefHamzabelow-ar"@),
        0x0626 => Some("yehHamza-ar"@),
        0x0627 => Some("alef-ar"@),
        0x0628 => Some("beh-ar"@),
        0x0629 => Some("tehMarbuta-ar"@),
        0x062A => Some("teh-ar"@),
        0x062B => Some("theh-ar"@),
        0x062C => Some("jeem-ar"@),
        0x062D => Some("hah-ar"@),
        0x062E => Some("khah-ar"@),
        0x062F => Some("dal-ar"@),
        0x0630 => Some("thal-ar"@),
        0x0631 => Some("reh-ar"@),
        0x0632 => Some("zain-ar"@),
        0x0633 => Some("seen-ar"@),
        0x0634 => Some("sheen-ar"@),
        0x0635 => Some("sad-ar"@),
        0x0636 => Some("dad-ar"@),
        0x0637 => Some("tah-ar"@),
        0x0638 => Some("zah-ar"@),
        0x0639 => Some("ain-ar"@),
        0x063A => Some("ghain-ar"@),
        0x0641 => Some("feh-ar"@),
        0x0642 => Some("qaf-ar"@),
        0x0643 => Some("kaf-ar"@),
        0x0644 => Some("lam-ar"@),
        0x0645 => Some("meem-ar"@),
        0x0646 => Some("noon-ar"@),
        0x0647 => Some("heh-ar"@),
        0x0648 => Some("waw-ar"@),
        0x0649 => Some("alefMaksura-ar"@),
        0x064A => Some("yeh-ar"@),
        _ => None,
    }
}

/// The name `uniXXXX` of a codepoint.
pub open spec fn uni_name(code: u32) -> Seq<char> {
    "uni"@ + hex4(code as nat)
}

/// The base glyph name of an Arabic character: its stem, or `uniXXXX`.
pub fn get_arabic_base_name(ch: char) -> (r: String)
    ensures
        r@ == match arabic_base_name(ch as u32) {
            Some(b) => b,
            None => uni_name(ch as u32),
        },
{
    let code = ch as u32;
    let base: Option<&'static str> = match code {
        0x0621 => Some("hamza-ar"),
        0x0622 => Some("alefMadda-ar"),
        0x0623 => Some("alefHamzaabove-ar"),
        0x0624 => Some("wawHamza-ar"),
        0x0625 => Some("alefHamzabelow-ar"),
        0x0626 => Some("yehHamza-ar"),
        0x0627 => Some("alef-ar"),
        0x0628 => Some("beh-ar"),
        0x0629 => Some("tehMarbuta-ar"),
        0x062A => Some("teh-ar"),
        0x062B => Some("theh-ar"),
        0x062C => Some("jeem-ar"),
        0x062D => Some("hah-ar"),
        0x062E => Some("khah-ar"),
        0x062F => Some("dal-ar"),
        0x0630 => Some("thal-ar"),
        0x0631 => Some("reh-ar"),
        0x0632 => Some("zain-ar"),
        0x0633 => Some("seen-ar"),
        0x0634 => Some("sheen-ar"),
        0x0635 => Some("sad-ar"),
        0x0636 => Some("dad-ar"),
        0x0637 => Some("tah-ar"),
        0x0638 => Some("zah-ar"),
        0x0639 => Some("ain-ar"),
        0x063A => Some("ghain-ar"),
        0x0641 => Some("feh-ar"),
        0x0642 => Some("qaf-ar"),
        0x0643 => Some("kaf-ar"),
        0x0644 => Some("lam-ar"),
        0x0645 => Some("meem-ar"),
        0x0646 => Some("noon-ar"),
        0x0647 => Some("heh-ar"),
        0x0648 => Some("waw-ar"),
        0x0649 => Some("alefMaksura-ar"),
        0x064A => Some("yeh-ar"),
        _ => None,
    };
    match base {
        Some(b) => String::from_str(b),
        None => with_hex4("uni", code),
    }
}

/// The contextual glyph name of an Arabic letter: the `uniXXXX` name,
/// whatever its position, as font-specific forms are not looked up.
pub fn get_contextual_glyph_name(ch: char, position: ArabicPosition) -> (r: Result<String, String>)
    ensures
        r matches Ok(s) && s@ == uni_name(ch as u32),
{
    let _ = position;
    Ok(with_hex4("uni", ch as u32))
}

/// A glyph yielded by shaping, with its advance and offsets in font units.
#[derive(Debug, Clone)]
pub struct ShapedGlyph {
    pub glyph_id: u32,
    pub codepoint: char,
    pub glyph_name: String,
    pub advance_width: i32,
    pub x_offset: i32,
    pub y_offset: i32,
    pub cluster: u32,
}

/// The result of shaping a text.
#[derive(Debug, Clone)]
pub struct ShapedText {
    pub input_codepoints: Vec<char>,
    pub shaped_glyphs: Vec<ShapedGlyph>,
    pub direction: TextDirection,
    pub is_complex_shaped: bool,
}

/// The character-by-character shaping of `text`: one `uniXXXX` glyph per
/// character, 500 units wide, its cluster being its index.
pub open spec fn is_simple_shaping(r: ShapedText, text: Seq<char>, direction: TextDirection) -> bool {
    &&& r.input_codepoints@ == text
    &&& r.direction == direction
    &&& !r.is_complex_shaped
    &&& r.shaped_glyphs@.len() == text.len()
    &&& forall|i: int|
        0 <= i < text.len() ==> {
            let g = #[trigger] r.shaped_glyphs@[i];
            &&& g.glyph_id == 0
            &&& g.codepoint == text[i]
            &&& g.glyph_name@ == uni_name(text[i] as u32)
            &&& g.advance_width == 500
            &&& g.x_offset == 0
            &&& g.y_offset == 0
            &&& g.cluster == i as u32
        }
}

/// Shape by simple character mapping.
fn shape_by_character(text: &str, direction: TextDirection) -> (r: ShapedText)
    ensures
        is_simple_shaping(r, text@, direction),
{
    let n = text.unicode_len();
    let mut input_codepoints: Vec<char> = Vec::new();
    let mut shaped_glyphs: Vec<ShapedGlyph> = Vec::new();
    let mut i: usize = 0;
    while i < n
        invariant
            n == text@.len(),
            i <= n,
            input_codepoints@ == text@.take(i as int),
            shaped_glyphs@.len() == i,
            forall|k: int|
                0 <= k < i ==> {
                    let g = #[trigger] shaped_glyphs@[k];
                    &&& g.glyph_id == 0
                    &&& g.codepoint == text@[k]
                    &&& g.glyph_name@ == uni_name(text@[k] as u32)
                    &&& g.advance_width == 500
                    &&& g.x_offset == 0
                    &&& g.y_offset == 0
                    &&& g.cluster == k as u32
                },
        decreases n - i,
    {
        let ch = text.get_char(i);
        input_codepoints.push(ch);
        shaped_glyphs.push(
            ShapedGlyph {
                glyph_id: 0,
                codepoint: ch,
                glyph_name: with_hex4("uni", ch as u32),
                advance_width: 500,
                x_offset: 0,
                y_offset: 0,
                cluster: #[verifier::truncate] (i as u32),
            },
        );
        i = i + 1;
        assert(input_codepoints@ =~= text@.take(i as int));
    }
    assert(text@.take(n as int) =~= text@);
    ShapedText { input_codepoints, shaped_glyphs, direction, is_complex_shaped: false }
}

/// Shape Arabic text by simple character mapping.
pub fn shape_arabic_text(text: &str, direction: TextDirection) -> (r: Result<ShapedText, String>)
    ensures
        r matches Ok(s) && is_simple_shaping(s, text@, direction),
{
    Ok(shape_by_character(text, direction))
}

/// Shape text with the shaping engine's fallback: simple character
/// mapping.
pub fn shape_text_with_harfbuzz(text: &str, direction: TextDirection) -> (r: Result<ShapedText, String>)
    ensures
        r matches Ok(s) && is_simple_shaping(s, text@, direction),
{
    Ok(shape_by_character(text, direction))
}

/// The glyph names known for glyph ids of the editor's bundled font.
pub open spec fn known_glyph_name(glyph_id: u32) -> Seq<char> {
    match glyph_id {
        54 => "alef-ar"@,
        93 => "dal-ar.fina"@,
        107 => "sheen-ar.init"@,
        170 => "heh-ar.medi"@,
        _ => "gid"@ + decimal_digits(glyph_id as nat),
    }
}

/// The glyph name for a glyph id of the bundled font, `gidN` when unknown.
pub fn get_glyph_name_from_id(glyph_id: u32) -> (r: String)
    ensures
        r@ == known_glyph_name(glyph_id),
{
    match glyph_id {
        54 => String::from_str("alef-ar"),
        93 => String::from_str("dal-ar.fina"),
        107 => String::from_str("sheen-ar.init"),
        170 => String::from_str("heh-ar.medi"),
        _ => with_decimal("gid", glyph_id),
    }
}

/// The script to shape `text` in: Arabic when it holds a character of the
/// Arabic block, Latin otherwise.
pub fn get_script_for_text(text: &str) -> (r: ShapingScript)
    ensures
        r == (if exists|i: int| 0 <= i < text@.len() && 0x0600 <= #[trigger] (text@[i] as int) <= 0x06FF {
            ShapingScript::Arabic
        } else {
            ShapingScript::Latin
        }),
{
    let n = text.unicode_len();
    let mut i: usize = 0;
    while i < n
        invariant
            n == text@.len(),
            i <= n,
            forall|k: int| 0 <= k < i ==> !(0x0600 <= #[trigger] (text@[k] as int) <= 0x06FF),
        decreases n - i,
    {
        let code = text.get_char(i) as u32;
        if 0x0600 <= code && code <= 0x06FF {
            return ShapingScript::Arabic;
        }
        i = i + 1;
    }
    ShapingScript::Latin
}

/// Every character of the Arabic block U+0600 to U+06FF, and of the
/// Arabic Supplement U+0750 to U+077F, makes a text need complex shaping;
/// a text with none of the Arabic blocks' characters needs none.
pub proof fn arabic_block_needs_complex_shaping(text: Seq<char>, i: int)
    requires
        0 <= i < text.len(),
    ensures
        (0x0600 <= (text[i] as int) <= 0x06FF || 0x0750 <= (text[i] as int) <= 0x077F) ==> exists|k: int|
            0 <= k < text.len() && in_arabic_blocks(#[trigger] text[k] as int),
        (forall|k: int| 0 <= k < text.len() ==> (text[k] as int) < 0x0600) ==> !exists|k: int|
            0 <= k < text.len() && in_arabic_blocks(#[trigger] text[k] as int),
{
    if 0x0600 <= (text[i] as int) <= 0x06FF || 0x0750 <= (text[i] as int) <= 0x077F {
        assert(in_arabic_blocks(text[i] as int));
    }
}

/// A letter joins only Arabic letters (U+0621 to U+064A): without one
/// after it, it is isolated or final, never initial or medial; without
/// one before it, it is isolated or initial, never medial or final.
pub proof fn joining_needs_arabic_neighbours(text: Seq<char>, index: int)
    requires
        0 <= index < text.len(),
    ensures
        !(index + 1 < text.len() && 0x0621 <= (text[index + 1] as int) <= 0x064A) ==> (arabic_position(
            text,
            index,
        ) == ArabicPosition::Isolated || arabic_position(text, index) == ArabicPosition::Final),
        !(index > 0 && 0x0621 <= (text[index - 1] as int) <= 0x064A) ==> (arabic_position(text, index)
            == ArabicPosition::Isolated || arabic_position(text, index) == ArabicPosition::Initial),
        !(0x0621 <= (text[index] as int) <= 0x064A) ==> (arabic_position(text, index)
            == ArabicPosition::Isolated || arabic_position(text, index) == ArabicPosition::Final),
{
}

/// Beh (U+0628), a letter that joins on both sides, is initial between
/// the start of a word and another beh, medial between two behs and final
/// after a beh at the end.
pub proof fn beh_takes_every_position(text: Seq<char>, index: int)
    requires
        0 <= index < text.len(),
        forall|k: int| 0 <= k < text.len() ==> text[k] == '\u{0628}',
    ensures
        text.len() == 1 ==> arabic_position(text, index) == ArabicPosition::Isolated,
        text.len() > 1 && index == 0 ==> arabic_position(text, index) == ArabicPosition::Initial,
        0 < index < text.len() - 1 ==> arabic_position(text, index) == ArabicPosition::Medial,
        text.len() > 1 && index == text.len() - 1 ==> arabic_position(text, index) == ArabicPosition::Final,
{
}

} // verus!
