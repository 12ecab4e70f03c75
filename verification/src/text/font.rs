//! The glyph table of the open font, as the text editor reads it: each
//! glyph's name, advance width and Unicode codepoints.

use vstd::prelude::*;
use crate::strings::str_equals;

verus! {

/// One glyph of the font.
#[derive(Debug, Clone)]
pub struct GlyphRecord {
    pub name: String,
    pub advance_width: i32,
    pub codepoints: Vec<char>,
}

/// The glyphs of the open font.
#[derive(Debug, Clone)]
pub struct FontGlyphs {
    pub glyphs: Vec<GlyphRecord>,
}

/// The font behind an optional reference.
pub open spec fn font_value(font: Option<&FontGlyphs>) -> Option<FontGlyphs> {
    match font {
        Some(f) => Some(*f),
        None => None,
    }
}

/// The width used for a glyph the font does not have.
pub open spec fn fallback_advance_width() -> int {
    500
}

/// The first glyph of `g` named `name`, if any.
pub open spec fn glyph_named(g: Seq<GlyphRecord>, name: Seq<char>) -> Option<int>
    decreases g.len(),
{
    if g.len() == 0 {
        None
    } else {
        match glyph_named(g.drop_last(), name) {
            Some(i) => Some(i),
            None => if g.last().name@ == name {
                Some(g.len() - 1)
            } else {
                None
            },
        }
    }
}

/// The first glyph of `g` mapped to codepoint `c`, if any.
pub open spec fn glyph_for_char(g: Seq<GlyphRecord>, c: char) -> Option<int>
    decreases g.len(),
{
    if g.len() == 0 {
        None
    } else {
        match glyph_for_char(g.drop_last(), c) {
            Some(i) => Some(i),
            None => if g.last().codepoints@.contains(c) {
                Some(g.len() - 1)
            } else {
                None
            },
        }
    }
}

/// The advance width of glyph `name`: the font's value, or the fallback
/// when there is no font or no such glyph.
pub open spec fn advance_width_of(font: Option<FontGlyphs>, name: Seq<char>) -> int {
    match font {
        Some(f) => match glyph_named(f.glyphs@, name) {
            Some(i) => f.glyphs@[i].advance_width as int,
            None => fallback_advance_width(),
        },
        None => fallback_advance_width(),
    }
}

proof fn lemma_glyph_named_take(g: Seq<GlyphRecord>, name: Seq<char>, i: int)
    requires
        0 <= i < g.len(),
    ensures
        glyph_named(g.take(i + 1), name) == match glyph_named(g.take(i), name) {
            Some(j) => Some(j),
            None => if g[i].name@ == name {
                Some(i)
            } else {
                None
            },
        },
{
    assert(g.take(i + 1).drop_last() =~= g.take(i));
}

proof fn lemma_glyph_for_char_take(g: Seq<GlyphRecord>, c: char, i: int)
    requires
        0 <= i < g.len(),
    ensures
        glyph_for_char(g.take(i + 1), c) == match glyph_for_char(g.take(i), c) {
            Some(j) => Some(j),
            None => if g[i].codepoints@.contains(c) {
                Some(i)
            } else {
                None
            },
        },
{
    assert(g.take(i + 1).drop_last() =~= g.take(i));
}

proof fn lemma_glyph_named_prefix(g: Seq<GlyphRecord>, name: Seq<char>, k: int)
    requires
        0 <= k <= g.len(),
        glyph_named(g.take(k), name) is Some,
    ensures
        glyph_named(g, name) == glyph_named(g.take(k), name),
    decreases g.len(),
{
    if k == g.len() {
        assert(g.take(k) =~= g);
    } else {
        assert(g.drop_last().take(k) =~= g.take(k));
        lemma_glyph_named_prefix(g.drop_last(), name, k);
    }
}

proof fn lemma_glyph_for_char_prefix(g: Seq<GlyphRecord>, c: char, k: int)
    requires
        0 <= k <= g.len(),
        glyph_for_char(g.take(k), c) is Some,
    ensures
        glyph_for_char(g, c) == glyph_for_char(g.take(k), c),
    decreases g.len(),
{
    if k == g.len() {
        assert(g.take(k) =~= g);
    } else {
        assert(g.drop_last().take(k) =~= g.take(k));
        lemma_glyph_for_char_prefix(g.drop_last(), c, k);
    }
}

pub proof fn lemma_glyph_named_in_range(g: Seq<GlyphRecord>, name: Seq<char>)
    ensures
        glyph_named(g, name) matches Some(i) ==> 0 <= i < g.len() && g[i].name@ == name,
    decreases g.len(),
{
    if g.len() > 0 {
        lemma_glyph_named_in_range(g.drop_last(), name);
    }
}

proof fn lemma_found_in_range_char(g: Seq<GlyphRecord>, c: char)
    ensures
        glyph_for_char(g, c) matches Some(i) ==> 0 <= i < g.len() && g[i].codepoints@.contains(c),
    decreases g.len(),
{
    if g.len() > 0 {
        lemma_found_in_range_char(g.drop_last(), c);
    }
}

impl FontGlyphs {
    /// The index of the first glyph named `name`.
    pub fn find(&self, name: &str) -> (r: Option<usize>)
        ensures
            match r {
                Some(i) => glyph_named(self.glyphs@, name@) == Some(i as int),
                None => glyph_named(self.glyphs@, name@) is None,
            },
    {
        let ghost g = self.glyphs@;
        let mut i: usize = 0;
        while i < self.glyphs.len()
            invariant
                g == self.glyphs@,
                i <= g.len(),
                glyph_named(g.take(i as int), name@) is None,
            decreases g.len() - i,
        {
            proof {
                lemma_glyph_named_take(g, name@, i as int);
            }
            if str_equals(self.glyphs[i].name.as_str(), name) {
                proof {
                    lemma_glyph_named_prefix(g, name@, i as int + 1);
                }
                return Some(i);
            }
            i = i + 1;
        }
        assert(g.take(g.len() as int) =~= g);
        None
    }

    /// Whether the font has a glyph named `name`.
    pub fn contains(&self, name: &str) -> (r: bool)
        ensures
            r == glyph_named(self.glyphs@, name@) is Some,
    {
        self.find(name).is_some()
    }

    /// The index of the first glyph mapped to `c`.
    pub fn find_char(&self, c: char) -> (r: Option<usize>)
        ensures
            match r {
                Some(i) => glyph_for_char(self.glyphs@, c) == Some(i as int),
                None => glyph_for_char(self.glyphs@, c) is None,
            },
    {
        let ghost g = self.glyphs@;
        let mut i: usize = 0;
        while i < self.glyphs.len()
            invariant
                g == self.glyphs@,
                i <= g.len(),
                glyph_for_char(g.take(i as int), c) is None,
            decreases g.len() - i,
        {
            proof {
                lemma_glyph_for_char_take(g, c, i as int);
            }
            let cps = &self.glyphs[i].codepoints;
            let mut j: usize = 0;
            let mut found = false;
            while j < cps.len()
                invariant
                    j <= cps@.len(),
                    found == (exists|k: int| 0 <= k < j && cps@[k] == c),
                decreases cps@.len() - j,
            {
                if cps[j] == c {
                    found = true;
                }
                j = j + 1;
            }
            proof {
                if found {
                    let k = choose|k: int| 0 <= k < j && cps@[k] == c;
                    assert(cps@.contains(c));
                } else {
                    assert(!cps@.contains(c));
                }
            }
            if found {
                proof {
                    lemma_glyph_for_char_prefix(g, c, i as int + 1);
                }
                return Some(i);
            }
            i = i + 1;
        }
        assert(g.take(g.len() as int) =~= g);
        None
    }
}

/// The advance width of glyph `glyph_name`, from the font when it has the
/// glyph, else the fallback width.
pub fn get_glyph_advance_width(glyph_name: &str, font: Option<&FontGlyphs>) -> (r: i32)
    ensures
        r == advance_width_of(
            font_value(font),
            glyph_name@,
        ),
{
    if let Some(f) = font {
        if let Some(i) = f.find(glyph_name) {
            proof {
                lemma_glyph_named_in_range(f.glyphs@, glyph_name@);
            }
            return f.glyphs[i].advance_width;
        }
    }
    500
}

/// The name of the first glyph mapped to `character`, when a font is open.
pub open spec fn glyph_name_for_char(font: Option<FontGlyphs>, character: char) -> Option<String> {
    match font {
        Some(f) => match glyph_for_char(f.glyphs@, character) {
            Some(i) => Some(f.glyphs@[i].name),
            None => None,
        },
        None => None,
    }
}

/// The glyph that typing `character` inserts: the font's first glyph mapped
/// to that codepoint.
pub fn unicode_to_glyph_name(character: char, font: Option<&FontGlyphs>) -> (r: Option<String>)
    ensures
        r == glyph_name_for_char(
            font_value(font),
            character,
        ),
{
    if let Some(f) = font {
        if let Some(i) = f.find_char(character) {
            proof {
                lemma_found_in_range_char(f.glyphs@, character);
            }
            return Some(f.glyphs[i].name.clone());
        }
    }
    None
}

} // verus!
