//! Right-to-left text shaping by contextual forms: each Arabic letter is
//! shown in its isolated, initial, medial or final form, chosen from its
//! place between whitespace.

use vstd::prelude::*;
use crate::strings::{hex4, str_equals, with_hex4};

verus! {

/// Whether `c` has the Unicode White_Space property.
pub open spec fn is_white_space(c: char) -> bool {
    let n = c as int;
    (0x9 <= n && n <= 0xD) || n == 0x20 || n == 0x85 || n == 0xA0 || n == 0x1680 || (0x2000 <= n
        && n <= 0x200A) || n == 0x2028 || n == 0x2029 || n == 0x202F || n == 0x205F || n == 0x3000
}

/// Whether `c` is whitespace, as `char::is_whitespace` decides.
pub(crate) fn char_is_whitespace(c: char) -> (r: bool)
    ensures
        r == is_white_space(c),
{
    let n = c as u32;
    (0x9 <= n && n <= 0xD) || n == 0x20 || n == 0x85 || n == 0xA0 || n == 0x1680 || (0x2000 <= n
        && n <= 0x200A) || n == 0x2028 || n == 0x2029 || n == 0x202F || n == 0x205F || n == 0x3000
}

/// The glyph name stem of the Arabic letters the font draws.
pub open spec fn rtl_base_name(codepoint: u32) -> Option<Seq<char>> {
    match codepoint {
        0x0627 => Some("alef-ar"@),
        0x0628 => Some("beh-ar"@),
        0x062A => Some("teh-ar"@),
        0x062B => Some("theh-ar"@),
        0x062C => Some("jeem-ar"@),
        0x062D => Some("hah-ar"@),
        0x062E => Some("khah-ar"@),
        0x062F => Some("dal-ar"@),
        0x0630 => Some("thal-ar"@),
        0x0631 => Some("reh-ar"@),
        0x0632 => Some("zain-ar"@),
        0x0633 => Some("seen-ar"@),
        0x0634 => Some("sheen-ar"@),
        0x0635 => Some("sad-ar"@),
        0x0636 => Some("dad-ar"@),
        0x0637 => Some("tah-ar"@),
        0x0638 => Some("zah-ar"@),
        0x0639 => Some("ain-ar"@),
        0x063A => Some("ghain-ar"@),
        0x0641 => Some("feh-ar"@),
        0x0642 => Some("qaf-ar"@),
        0x0643 => Some("kaf-ar"@),
        0x0644 => Some("lam-ar"@),
        0x0645 => Some("meem-ar"@),
        0x0646 => Some("noon-ar"@),
        0x0647 => Some("heh-ar"@),
        0x0648 => Some("waw-ar"@),
        0x064A => Some("yeh-ar"@),
        _ => None,
    }
}

/// The letters that join only to the letter before them: alef, dal, thal,
/// reh, zain and waw have a final form but no initial or medial one.
pub open spec fn joins_right_only(codepoint: u32) -> bool {
    codepoint == 0x0627 || codepoint == 0x062F || codepoint == 0x0630 || codepoint == 0x0631
        || codepoint == 0x0632 || codepoint == 0x0648
}

/// The glyph name of `codepoint` in contextual form `form` ("isol",
/// "init", "medi" or "fina"): the letter's stem with the form as suffix
/// where the font has that form, `space` for the space, and `uniXXXX` for
/// anything else.
pub open spec fn contextual_glyph_name(codepoint: u32, form: Seq<char>) -> Seq<char> {
    if codepoint == 0x20 {
        "space"@
    } else {
        match rtl_base_name(codepoint) {
            Some(base) => if joins_right_only(codepoint) {
                if form == "fina"@ {
                    base + ".fina"@
                } else {
                    base
                }
            } else if form == "init"@ || form == "medi"@ || form == "fina"@ {
                base + "."@ + form
            } else {
                base
            },
            None => "uni"@ + hex4(codepoint as nat),
        }
    }
}

/// The stem for `codepoint`, if the font draws that letter.
fn base_name(codepoint: u32) -> (r: Option<&'static str>)
    ensures
        match r {
            Some(s) => rtl_base_name(codepoint) == Some(s@),
            None => rtl_base_name(codepoint) is None,
        },
{
    match codepoint {
        0x0627 => Some("alef-ar"),
        0x0628 => Some("beh-ar"),
        0x062A => Some("teh-ar"),
        0x062B => Some("theh-ar"),
        0x062C => Some("jeem-ar"),
        0x062D => Some("hah-ar"),
        0x062E => Some("khah-ar"),
        0x062F => Some("dal-ar"),
        0x0630 => Some("thal-ar"),
        0x0631 => Some("reh-ar"),
        0x0632 => Some("zain-ar"),
        0x0633 => Some("seen-ar"),
        0x0634 => Some("sheen-ar"),
        0x0635 => Some("sad-ar"),
        0x0636 => Some("dad-ar"),
        0x0637 => Some("tah-ar"),
        0x0638 => Some("zah-ar"),
        0x0639 => Some("ain-ar"),
        0x063A => Some("ghain-ar"),
        0x0641 => Some("feh-ar"),
        0x0642 => Some("qaf-ar"),
        0x0643 => Some("kaf-ar"),
        0x0644 => Some("lam-ar"),
        0x0645 => Some("meem-ar"),
        0x0646 => Some("noon-ar"),
        0x0647 => Some("heh-ar"),
        0x0648 => Some("waw-ar"),
        0x064A => Some("yeh-ar"),
        _ => None,
    }
}

/// Map a Unicode codepoint in a contextual form to the font's glyph name.
pub fn map_codepoint_to_glyph_name(codepoint: u32, contextual_form: &str) -> (r: String)
    ensures
        r@ == contextual_glyph_name(codepoint, contextual_form@),
{
    if codepoint == 0x20 {
        return String::from_str("space");
    }
    match base_name(codepoint) {
        Some(base) => {
            let mut name = String::from_str(base);
            let right_only = codepoint == 0x0627 || codepoint == 0x062F || codepoint == 0x0630
                || codepoint == 0x0631 || codepoint == 0x0632 || codepoint == 0x0648;
            if right_only {
                if str_equals(contextual_form, "fina") {
                    name.append(".fina");
                }
            } else if str_equals(contextual_form, "init") || str_equals(contextual_form, "medi")
                || str_equals(contextual_form, "fina") {
                name.append(".");
                name.append(contextual_form);
            }
            name
        },
        None => with_hex4("uni", codepoint),
    }
}

/// A glyph placed by shaping, with its advance and offsets in font units.
#[derive(Debug, Clone)]
pub struct ShapedGlyph {
    pub glyph_name: String,
    pub glyph_id: u32,
    pub x_advance: i32,
    pub y_advance: i32,
    pub x_offset: i32,
    pub y_offset: i32,
}

/// The contextual form of the letter at `i` of `chars`: initial after
/// whitespace or at the start, final before whitespace or at the end,
/// isolated when both, medial otherwise.
pub open spec fn form_at(chars: Seq<char>, i: int) -> Seq<char> {
    let is_first = i == 0 || is_white_space(chars[i - 1]);
    let is_last = i == chars.len() - 1 || (i < chars.len() - 1 && is_white_space(chars[i + 1]));
    if !is_first && !is_last {
        "medi"@
    } else if !is_first && is_last {
        "fina"@
    } else if is_first && !is_last {
        "init"@
    } else {
        "isol"@
    }
}

/// What shaping places for the character at `i` of `chars`.
pub open spec fn shaped_glyph_at(chars: Seq<char>, i: int) -> (Seq<char>, u32, int, int, int, int) {
    (contextual_glyph_name(chars[i] as u32, form_at(chars, i)), chars[i] as u32, 600, 0, 0, 0)
}

/// A shaped glyph as plain values: name, glyph id, x and y advance, x and
/// y offset.
pub open spec fn shaped_glyph_view(g: ShapedGlyph) -> (Seq<char>, u32, int, int, int, int) {
    (g.glyph_name@, g.glyph_id, g.x_advance as int, g.y_advance as int, g.x_offset as int, g.y_offset as int)
}

/// The codepoint of a character.
fn char_code(c: char) -> (r: u32)
    ensures
        r == c as u32,
{
    c as u32
}

/// Shape Arabic text letter by letter: one glyph per character, in its
/// contextual form, with the default advance of 600 units.
pub fn shape_arabic_text(text: &str) -> (r: Result<Vec<ShapedGlyph>, String>)
    ensures
        r matches Ok(gs) && gs@.len() == text@.len() && forall|i: int|
            0 <= i < gs@.len() ==> shaped_glyph_view(#[trigger] gs@[i]) == shaped_glyph_at(text@, i),
{
    let n = text.unicode_len();
    let mut shaped_glyphs: Vec<ShapedGlyph> = Vec::new();
    let mut i: usize = 0;
    proof {
        reveal_strlit("medi");
        reveal_strlit("fina");
        reveal_strlit("init");
        reveal_strlit("isol");
    }
    while i < n
        invariant
            n == text@.len(),
            i <= n,
            shaped_glyphs@.len() == i,
            forall|k: int|
                0 <= k < i ==> shaped_glyph_view(#[trigger] shaped_glyphs@[k]) == shaped_glyph_at(text@, k),
        decreases n - i,
    {
        let ch = text.get_char(i);
        let codepoint = char_code(ch);
        let is_first = i == 0 || char_is_whitespace(text.get_char(i - 1));
        let is_last = i == n - 1 || (i < n - 1 && char_is_whitespace(text.get_char(i + 1)));
        let form = if !is_first && !is_last {
            "medi"
        } else if !is_first && is_last {
            "fina"
        } else if is_first && !is_last {
            "init"
        } else {
            "isol"
        };
        let glyph_name = map_codepoint_to_glyph_name(codepoint, form);
        shaped_glyphs.push(
            ShapedGlyph {
                glyph_name,
                glyph_id: codepoint,
                x_advance: 600,
                y_advance: 0,
                x_offset: 0,
                y_offset: 0,
            },
        );
        i = i + 1;
    }
    Ok(shaped_glyphs)
}

/// Space, tab, newline and carriage return separate words; no basic
/// Arabic letter does.
pub proof fn word_separators(c: char)
    ensures
        c == ' ' || c == '\t' || c == '\n' || c == '\r' ==> is_white_space(c),
        0x0621 <= (c as int) <= 0x064A ==> !is_white_space(c),
{
}

/// A letter's form depends on its neighbours alone: a letter that starts
/// a word (at the start of the text or after whitespace) and is followed
/// by more of the word is initial; one inside a word is medial; one that
/// ends a word (at the end or before whitespace) after a letter of the
/// word is final; a letter that is a word on its own is isolated.
pub proof fn contextual_form_from_neighbours(chars: Seq<char>, i: int)
    requires
        0 <= i < chars.len(),
    ensures
        (i == 0 || is_white_space(chars[i - 1])) && i + 1 < chars.len() && !is_white_space(chars[i + 1])
            ==> form_at(chars, i) == "init"@,
        i > 0 && !is_white_space(chars[i - 1]) && i + 1 < chars.len() && !is_white_space(chars[i + 1])
            ==> form_at(chars, i) == "medi"@,
        i > 0 && !is_white_space(chars[i - 1]) && (i + 1 == chars.len() || is_white_space(chars[i + 1]))
            ==> form_at(chars, i) == "fina"@,
        (i == 0 || is_white_space(chars[i - 1])) && (i + 1 == chars.len() || is_white_space(chars[i + 1]))
            ==> form_at(chars, i) == "isol"@,
{
}

} // verus!
