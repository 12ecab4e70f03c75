//! Data the terminal interface receives from the editor.

use vstd::prelude::*;
use crate::strings::{lemma_str_le_total, lemma_str_le_transitive, str_le, str_less_or_equal};
use crate::text::font::{font_value, FontGlyphs, GlyphRecord};

verus! {

/// A glyph of the font as the glyph lists show it.
#[derive(Debug, Clone)]
pub struct GlyphInfo {
    pub codepoint: String,
    pub name: Option<String>,
    pub unicode: Option<u32>,
    pub width: Option<i32>,
}

/// The font's naming and metrics, in font units.
#[derive(Debug, Clone)]
pub struct FontInfo {
    pub family_name: Option<String>,
    pub style_name: Option<String>,
    pub version: Option<String>,
    pub ascender: Option<i32>,
    pub descender: Option<i32>,
    pub cap_height: Option<i32>,
    pub x_height: Option<i32>,
    pub units_per_em: Option<i32>,
}

/// A file operation shown in the File tab.
#[derive(Debug, Clone)]
pub struct FileAction {
    pub action: String,
    pub timestamp: String,
    pub path: Option<String>,
}

/// What a glyph list entry holds, with its strings as sequences of chars.
pub struct GlyphInfoView {
    pub codepoint: Seq<char>,
    pub name: Option<Seq<char>>,
    pub unicode: Option<u32>,
    pub width: Option<i32>,
}

impl View for GlyphInfo {
    type V = GlyphInfoView;

    open spec fn view(&self) -> GlyphInfoView {
        GlyphInfoView {
            codepoint: self.codepoint@,
            name: match self.name {
                Some(n) => Some(n@),
                None => None,
            },
            unicode: self.unicode,
            width: self.width,
        }
    }
}

/// The views of a list of glyph entries.
pub open spec fn infos_view(s: Seq<GlyphInfo>) -> Seq<GlyphInfoView> {
    s.map_values(|g: GlyphInfo| g@)
}

/// The entry listed for a glyph of the font: keyed by its name, with its
/// first codepoint and its advance width.
pub open spec fn glyph_info_of(g: GlyphRecord) -> GlyphInfoView {
    GlyphInfoView {
        codepoint: g.name@,
        name: Some(g.name@),
        unicode: if g.codepoints@.len() > 0 {
            Some(g.codepoints@[0] as u32)
        } else {
            None
        },
        width: Some(g.advance_width),
    }
}

/// The entries of all glyphs of the font, in the font's order.
pub open spec fn font_glyph_infos(font: Option<FontGlyphs>) -> Seq<GlyphInfoView> {
    match font {
        Some(f) => f.glyphs@.map_values(|g: GlyphRecord| glyph_info_of(g)),
        None => Seq::empty(),
    }
}

/// Whether entry `a` may be listed before entry `b`: glyphs with a
/// codepoint come first, by codepoint; the others follow, by name.
pub open spec fn listed_before(a: GlyphInfoView, b: GlyphInfoView) -> bool {
    match (a.unicode, b.unicode) {
        (Some(x), Some(y)) => x <= y,
        (Some(_), None) => true,
        (None, Some(_)) => false,
        (None, None) => str_le(a.codepoint, b.codepoint),
    }
}

/// Whether every entry of `s` may be listed before every later one.
pub open spec fn glyph_list_in_order(s: Seq<GlyphInfoView>) -> bool {
    forall|i: int, j: int| 0 <= i < j < s.len() ==> listed_before(#[trigger] s[i], #[trigger] s[j])
}

proof fn lemma_listed_before_total(a: GlyphInfoView, b: GlyphInfoView)
    ensures
        listed_before(a, b) || listed_before(b, a),
{
    lemma_str_le_total(a.codepoint, b.codepoint);
}

proof fn lemma_listed_before_transitive(a: GlyphInfoView, b: GlyphInfoView, c: GlyphInfoView)
    requires
        listed_before(a, b),
        listed_before(b, c),
    ensures
        listed_before(a, c),
{
    if a.unicode is None && b.unicode is None && c.unicode is None {
        lemma_str_le_transitive(a.codepoint, b.codepoint, c.codepoint);
    }
}

fn listed_before_exec(a: &GlyphInfo, b: &GlyphInfo) -> (r: bool)
    ensures
        r == listed_before(a@, b@),
{
    match (a.unicode, b.unicode) {
        (Some(x), Some(y)) => x <= y,
        (Some(_), None) => true,
        (None, Some(_)) => false,
        (None, None) => str_less_or_equal(a.codepoint.as_str(), b.codepoint.as_str()),
    }
}

fn glyph_info_of_record(g: &GlyphRecord) -> (r: GlyphInfo)
    ensures
        r@ == glyph_info_of(*g),
{
    let unicode = if g.codepoints.len() > 0 {
        Some(g.codepoints[0] as u32)
    } else {
        None
    };
    GlyphInfo {
        codepoint: g.name.clone(),
        name: Some(g.name.clone()),
        unicode,
        width: Some(g.advance_width),
    }
}

/// Inserts `x` into the ordered list `v`, after every entry that may be
/// listed before it.
fn insert_in_order(v: &mut Vec<GlyphInfo>, x: GlyphInfo)
    requires
        glyph_list_in_order(infos_view(old(v)@)),
        old(v)@.len() < usize::MAX,
    ensures
        final(v)@.len() == old(v)@.len() + 1,
        glyph_list_in_order(infos_view(final(v)@)),
        infos_view(final(v)@).to_multiset() == infos_view(old(v)@).to_multiset().insert(x@),
{
    let ghost s = infos_view(v@);
    let n = v.len();
    let mut p: usize = 0;
    loop
        invariant
            n == v@.len(),
            s == infos_view(v@),
            glyph_list_in_order(s),
            p <= n,
            forall|k: int| 0 <= k < p ==> listed_before(#[trigger] s[k], x@),
        ensures
            p <= n,
            forall|k: int| 0 <= k < p ==> listed_before(#[trigger] s[k], x@),
            p < n ==> !listed_before(s[p as int], x@),
        decreases n - p,
    {
        if p == n {
            break;
        }
        if !listed_before_exec(&v[p], &x) {
            break;
        }
        p = p + 1;
    }
    proof {
        if p < n {
            lemma_listed_before_total(s[p as int], x@);
            assert forall|k: int| p <= k < n implies listed_before(x@, #[trigger] s[k]) by {
                if k > p {
                    lemma_listed_before_transitive(x@, s[p as int], s[k]);
                }
            }
        }
    }
    let ghost xv = x@;
    v.insert(p, x);
    proof {
        let t = infos_view(v@);
        assert(t =~= s.insert(p as int, xv));
        assert forall|i: int, j: int| 0 <= i < j < t.len() implies listed_before(
            #[trigger] t[i],
            #[trigger] t[j],
        ) by {
            if j < p {
                assert(t[i] == s[i] && t[j] == s[j]);
            } else if j == p {
                assert(t[i] == s[i]);
            } else if i == p {
                assert(t[j] == s[j - 1]);
            } else if i < p {
                assert(t[i] == s[i] && t[j] == s[j - 1]);
                lemma_listed_before_transitive(s[i], xv, s[j - 1]);
            } else {
                assert(t[i] == s[i - 1] && t[j] == s[j - 1]);
            }
        }
        broadcast use vstd::seq_lib::group_to_multiset_ensures;
        assert(t.remove(p as int) =~= s);
        assert(t.to_multiset().remove(xv) == s.to_multiset());
        assert(t.contains(xv)) by {
            assert(t[p as int] == xv);
        }
        assert(t.to_multiset() =~= s.to_multiset().insert(xv));
    }
}

/// The glyphs of the font as the glyph lists show them: one entry per
/// glyph, glyphs with a codepoint first by codepoint, then the others by
/// name. Without a font the list is empty.
pub fn generate_glyph_list(font: Option<&FontGlyphs>) -> (r: Vec<GlyphInfo>)
    ensures
        infos_view(r@).to_multiset() == font_glyph_infos(font_value(font)).to_multiset(),
        glyph_list_in_order(infos_view(r@)),
{
    let mut out: Vec<GlyphInfo> = Vec::new();
    match font {
        None => {
            assert(infos_view(out@) =~= Seq::<GlyphInfoView>::empty());
        },
        Some(f) => {
            let n = f.glyphs.len();
            let ghost g = f.glyphs@;
            let mut i: usize = 0;
            proof {
                assert(infos_view(out@) =~= Seq::<GlyphInfoView>::empty());
                assert(g.take(0).map_values(|r: GlyphRecord| glyph_info_of(r)) =~= Seq::<
                    GlyphInfoView,
                >::empty());
            }
            while i < n
                invariant
                    n == g.len(),
                    g == f.glyphs@,
                    i <= n,
                    out@.len() == i,
                    glyph_list_in_order(infos_view(out@)),
                    infos_view(out@).to_multiset() == g.take(i as int).map_values(
                        |r: GlyphRecord| glyph_info_of(r),
                    ).to_multiset(),
                decreases n - i,
            {
                let info = glyph_info_of_record(&f.glyphs[i]);
                insert_in_order(&mut out, info);
                proof {
                    broadcast use vstd::seq_lib::group_to_multiset_ensures;
                    assert(g.take(i + 1).map_values(|r: GlyphRecord| glyph_info_of(r)) =~= g.take(
                        i as int,
                    ).map_values(|r: GlyphRecord| glyph_info_of(r)).push(glyph_info_of(g[i as int])));
                }
                i = i + 1;
            }
            proof {
                assert(g.take(n as int) =~= g);
            }
        },
    }
    out
}

} // verus!
