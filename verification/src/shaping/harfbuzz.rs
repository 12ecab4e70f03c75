//! Complex shaping with the HarfRust shaping engine: the glyphs the font's
//! own shaping rules choose for a text, named by the editor's glyph ids.

use vstd::prelude::*;
use harfrust::script::{ARABIC, LATIN};
use harfrust::{Direction, FontRef, GlyphBuffer, Language, ShaperData, ShaperInstance, UnicodeBuffer, Variation};
use std::str::FromStr;
use crate::shaping::arabic::ShapingScript::{Arabic, Latin};
use crate::shaping::arabic::TextDirection::{BottomToTop, LeftToRight, RightToLeft, TopToBottom};
use crate::shaping::arabic::{
    get_glyph_name_from_id, get_script_for_text, known_glyph_name, ShapedGlyph, ShapedText,
    ShapingScript, TextDirection,
};


verus! {

/// One glyph as the shaping engine returns it: its id and cluster, its
/// horizontal advance and its offsets, in font units.
#[derive(Debug, Clone, Copy, PartialEq, Eq, Structural)]
pub struct EngineGlyph {
    pub glyph_id: u32,
    pub cluster: u32,
    pub x_advance: i32,
    pub x_offset: i32,
    pub y_offset: i32,
}

/// The glyph buffer that shaping returns.
#[verifier::external_type_specification]
#[verifier::external_body]
pub struct ExGlyphBuffer(GlyphBuffer);

/// The glyphs a glyph buffer holds, in order: id and cluster of each glyph
/// info with the advance and offsets of its position.
pub uninterp spec fn glyph_buffer_glyphs(buffer: GlyphBuffer) -> Seq<EngineGlyph>;

/// What the shaping engine yields for `text` in a font given by its bytes,
/// shaped in `direction` and `script` with the language set to Arabic;
/// `None` when the bytes are not a font the engine can read.
pub uninterp spec fn harfrust_shaping(
    font_bytes: Seq<u8>,
    text: Seq<char>,
    direction: TextDirection,
    script: ShapingScript,
) -> Option<Seq<EngineGlyph>>;

/// Shape `text` with HarfRust: `FontRef::from_index`, a shaper built from
/// `ShaperData` with the default `ShaperInstance`, and `Shaper::shape` on a
/// `UnicodeBuffer` with the given direction and script, language "ar", and
/// the remaining properties guessed. The contract names the engine's
/// result; the text of the error when the font cannot be read is not
/// stated.
#[verifier::external_body]
fn harfrust_shape(font_bytes: &[u8], text: &str, direction: TextDirection, script: ShapingScript) -> (r: Result<GlyphBuffer, String>)
    ensures
        match r {
            Ok(b) => harfrust_shaping(font_bytes@, text@, direction, script) == Some(glyph_buffer_glyphs(b)),
            Err(_) => harfrust_shaping(font_bytes@, text@, direction, script) is None,
        },
{
    let font = FontRef::from_index(font_bytes, 0).map_err(|e| format!("Failed to create harfrust FontRef: {e:?}"))?;
    let data = ShaperData::new(&font);
    let instance = ShaperInstance::from_variations(&font, &[] as &[Variation]);
    let shaper = data.shaper(&font).instance(Some(&instance)).build();
    let mut buffer = UnicodeBuffer::new();
    buffer.push_str(text);
    buffer.set_direction(match direction { LeftToRight => Direction::LeftToRight, RightToLeft => Direction::RightToLeft, TopToBottom => Direction::TopToBottom, BottomToTop => Direction::BottomToTop });
    buffer.set_script(match script { Arabic => ARABIC, Latin => LATIN });
    buffer.set_language(Language::from_str("ar").unwrap_or(Language::from_str("en").unwrap()));
    buffer.guess_segment_properties();
    Ok(shaper.shape(buffer, &[]))
}

/// The glyphs of a shaped glyph buffer, by `GlyphBuffer::glyph_infos` and
/// `GlyphBuffer::glyph_positions` (a missing position reads as zero).
#[verifier::external_body]
fn glyph_records(buffer: &GlyphBuffer) -> (r: Vec<EngineGlyph>)
    ensures
        r@ == glyph_buffer_glyphs(*buffer),
{
    let positions = buffer.glyph_positions();
    buffer.glyph_infos().iter().enumerate().map(|(k, i)| { let p = positions.get(k).cloned().unwrap_or_default(); EngineGlyph { glyph_id: i.glyph_id, cluster: i.cluster, x_advance: p.x_advance, x_offset: p.x_offset, y_offset: p.y_offset } }).collect()
}

/// The editor's glyph for an engine glyph of `text`: named by its id, its
/// codepoint that of its cluster (U+FFFD past the end of the text).
pub open spec fn shaped_from_engine(text: Seq<char>, g: EngineGlyph) -> (u32, char, Seq<char>, i32, i32, i32, u32) {
    (
        g.glyph_id,
        if (g.cluster as int) < text.len() {
            text[g.cluster as int]
        } else {
            '\u{FFFD}'
        },
        known_glyph_name(g.glyph_id),
        g.x_advance,
        g.x_offset,
        g.y_offset,
        g.cluster,
    )
}

/// A shaped glyph as plain values.
pub open spec fn shaped_glyph_tuple(g: ShapedGlyph) -> (u32, char, Seq<char>, i32, i32, i32, u32) {
    (g.glyph_id, g.codepoint, g.glyph_name@, g.advance_width, g.x_offset, g.y_offset, g.cluster)
}

/// Build the shaped text of `text` from the engine's glyphs.
pub fn shaped_text_from_engine(text: &str, direction: TextDirection, glyphs: &Vec<EngineGlyph>) -> (r: ShapedText)
    ensures
        r.input_codepoints@ == text@,
        r.direction == direction,
        r.is_complex_shaped,
        r.shaped_glyphs@.len() == glyphs@.len(),
        forall|i: int|
            0 <= i < glyphs@.len() ==> shaped_glyph_tuple(#[trigger] r.shaped_glyphs@[i])
                == shaped_from_engine(text@, glyphs@[i]),
{
    let input_codepoints = text_chars(text);
    shaped_from_chars(input_codepoints, text, direction, glyphs)
}

/// The characters of `text`.
fn text_chars(text: &str) -> (r: Vec<char>)
    ensures
        r@ == text@,
{
    let n = text.unicode_len();
    let mut input_codepoints: Vec<char> = Vec::new();
    let mut k: usize = 0;
    while k < n
        invariant
            n == text@.len(),
            k <= n,
            input_codepoints@ == text@.take(k as int),
        decreases n - k,
    {
        input_codepoints.push(text.get_char(k));
        k = k + 1;
        assert(input_codepoints@ =~= text@.take(k as int));
    }
    assert(text@.take(n as int) =~= text@);
    input_codepoints
}

/// The shaped text from the engine's glyphs and the text's characters.
fn shaped_from_chars(input_codepoints: Vec<char>, text: &str, direction: TextDirection, glyphs: &Vec<EngineGlyph>) -> (r: ShapedText)
    requires
        input_codepoints@ == text@,
    ensures
        r.input_codepoints@ == text@,
        r.direction == direction,
        r.is_complex_shaped,
        r.shaped_glyphs@.len() == glyphs@.len(),
        forall|i: int|
            0 <= i < glyphs@.len() ==> shaped_glyph_tuple(#[trigger] r.shaped_glyphs@[i])
                == shaped_from_engine(text@, glyphs@[i]),
{
    let mut shaped_glyphs: Vec<ShapedGlyph> = Vec::new();
    let mut i: usize = 0;
    while i < glyphs.len()
        invariant
            input_codepoints@ == text@,
            i <= glyphs@.len(),
            shaped_glyphs@.len() == i,
            forall|j: int|
                0 <= j < i ==> shaped_glyph_tuple(#[trigger] shaped_glyphs@[j])
                    == shaped_from_engine(text@, glyphs@[j]),
        decreases glyphs@.len() - i,
    {
        let g = glyphs[i];
        let cluster = g.cluster as usize;
        let codepoint = if cluster < text.unicode_len() {
            text.get_char(cluster)
        } else {
            '\u{FFFD}'
        };
        let glyph_name = get_glyph_name_from_id(g.glyph_id);
        let sg = ShapedGlyph {
            glyph_id: g.glyph_id,
            codepoint,
            glyph_name,
            advance_width: g.x_advance,
            x_offset: g.x_offset,
            y_offset: g.y_offset,
            cluster: g.cluster,
        };
        assert(shaped_glyph_tuple(sg) == shaped_from_engine(text@, glyphs@[i as int]));
        shaped_glyphs.push(sg);
        i = i + 1;
    }
    ShapedText { input_codepoints, shaped_glyphs, direction, is_complex_shaped: true }
}

/// The script a text is shaped in: Arabic when it holds a character of the
/// Arabic block.
pub open spec fn script_of(text: Seq<char>) -> ShapingScript {
    if exists|i: int| 0 <= i < text.len() && 0x0600 <= #[trigger] (text[i] as int) <= 0x06FF {
        ShapingScript::Arabic
    } else {
        ShapingScript::Latin
    }
}

/// Shape `text` with the font `font_bytes` using the shaping engine; an
/// error when the engine cannot read the font.
pub fn perform_harfbuzz_shaping(text: &str, direction: TextDirection, font_bytes: &[u8]) -> (r: Result<ShapedText, String>)
    ensures
        match harfrust_shaping(font_bytes@, text@, direction, script_of(text@)) {
            None => r is Err,
            Some(glyphs) => r matches Ok(s) && s.input_codepoints@ == text@ && s.direction == direction
                && s.is_complex_shaped && s.shaped_glyphs@.len() == glyphs.len() && forall|i: int|
                0 <= i < glyphs.len() ==> shaped_glyph_tuple(#[trigger] s.shaped_glyphs@[i])
                    == shaped_from_engine(text@, glyphs[i]),
        },
{
    let script = get_script_for_text(text);
    match harfrust_shape(font_bytes, text, direction, script) {
        Ok(buffer) => {
            let glyphs = glyph_records(&buffer);
            Ok(shaped_text_from_engine(text, direction, &glyphs))
        },
        Err(e) => Err(e),
    }
}

} // verus!
