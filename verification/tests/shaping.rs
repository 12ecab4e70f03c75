use bezy::shaping::arabic::{
    can_connect_to_next, can_connect_to_prev, get_arabic_base_name, get_arabic_position,
    get_contextual_glyph_name, get_glyph_name_from_id, get_script_for_text, is_arabic_letter,
    needs_complex_shaping, shape_arabic_text as shape_by_mapping, shape_text_with_harfbuzz,
    ArabicPosition, ShapingScript, TextDirection,
};
use bezy::shaping::harfbuzz::{perform_harfbuzz_shaping, shaped_text_from_engine, EngineGlyph};
use bezy::shaping::rtl::{map_codepoint_to_glyph_name, shape_arabic_text};
use bezy::strings::{str_contains, str_equals, str_less_or_equal, str_starts_with, with_decimal, with_hex4};
use bezy::text::buffer::SortLayoutMode;

#[test]
fn contextual_glyph_names() {
    assert_eq!(map_codepoint_to_glyph_name(0x0628, "init"), "beh-ar.init");
    assert_eq!(map_codepoint_to_glyph_name(0x0628, "medi"), "beh-ar.medi");
    assert_eq!(map_codepoint_to_glyph_name(0x0628, "fina"), "beh-ar.fina");
    assert_eq!(map_codepoint_to_glyph_name(0x0628, "isol"), "beh-ar");
    // Right-joining letters have only a final form.
    assert_eq!(map_codepoint_to_glyph_name(0x0627, "fina"), "alef-ar.fina");
    assert_eq!(map_codepoint_to_glyph_name(0x0627, "init"), "alef-ar");
    assert_eq!(map_codepoint_to_glyph_name(0x0648, "medi"), "waw-ar");
    assert_eq!(map_codepoint_to_glyph_name(0x0020, "fina"), "space");
    assert_eq!(map_codepoint_to_glyph_name(0x0041, "init"), "uni0041");
    assert_eq!(map_codepoint_to_glyph_name(0x1F600, "isol"), "uni1F600");
    assert_eq!(map_codepoint_to_glyph_name(0x064A, "bogus"), "yeh-ar");
}

#[test]
fn shaping_by_position_between_spaces() {
    // beh teh space seen: beh is initial, teh final, space isolated, seen isolated.
    let glyphs = shape_arabic_text("\u{0628}\u{062A} \u{0633}").unwrap();
    let names: Vec<&str> = glyphs.iter().map(|g| g.glyph_name.as_str()).collect();
    assert_eq!(names, vec!["beh-ar.init", "teh-ar.fina", "space", "seen-ar"]);
    assert_eq!(glyphs[0].glyph_id, 0x0628);
    assert!(glyphs.iter().all(|g| g.x_advance == 600 && g.y_advance == 0 && g.x_offset == 0 && g.y_offset == 0));
    // Three letters: initial, medial, final.
    let glyphs = shape_arabic_text("\u{0644}\u{0645}\u{0646}").unwrap();
    let names: Vec<&str> = glyphs.iter().map(|g| g.glyph_name.as_str()).collect();
    assert_eq!(names, vec!["lam-ar.init", "meem-ar.medi", "noon-ar.fina"]);
    assert!(shape_arabic_text("").unwrap().is_empty());
}

#[test]
fn joining_and_positions() {
    assert!(is_arabic_letter('\u{0628}'));
    assert!(!is_arabic_letter('\u{0660}'));
    assert!(!can_connect_to_next('\u{0627}'));
    assert!(can_connect_to_next('\u{0644}'));
    assert!(!can_connect_to_next('a'));
    assert!(can_connect_to_prev('\u{0627}'));
    // lam alef: lam initial, alef final; alef does not join forward.
    let text = ['\u{0644}', '\u{0627}', '\u{0628}'];
    assert_eq!(get_arabic_position(&text, 0), ArabicPosition::Initial);
    assert_eq!(get_arabic_position(&text, 1), ArabicPosition::Final);
    assert_eq!(get_arabic_position(&text, 2), ArabicPosition::Isolated);
    let text = ['\u{0628}', '\u{0644}', '\u{0645}'];
    assert_eq!(get_arabic_position(&text, 1), ArabicPosition::Medial);
    assert_eq!(get_arabic_position(&['x'], 0), ArabicPosition::Isolated);
}

#[test]
fn base_names_and_simple_shaping() {
    assert_eq!(get_arabic_base_name('\u{0621}'), "hamza-ar");
    assert_eq!(get_arabic_base_name('\u{0649}'), "alefMaksura-ar");
    assert_eq!(get_arabic_base_name('\u{0660}'), "uni0660");
    assert_eq!(get_contextual_glyph_name('\u{0628}', ArabicPosition::Initial), Ok("uni0628".to_string()));
    let shaped = shape_by_mapping("a\u{0628}", TextDirection::RightToLeft).unwrap();
    assert_eq!(shaped.input_codepoints, vec!['a', '\u{0628}']);
    assert_eq!(shaped.direction, TextDirection::RightToLeft);
    assert!(!shaped.is_complex_shaped);
    assert_eq!(shaped.shaped_glyphs[1].glyph_name, "uni0628");
    assert_eq!(shaped.shaped_glyphs[1].cluster, 1);
    assert_eq!(shaped.shaped_glyphs[1].advance_width, 500);
    let same = shape_text_with_harfbuzz("a\u{0628}", TextDirection::LeftToRight).unwrap();
    assert_eq!(same.shaped_glyphs.len(), 2);
    assert_eq!(same.direction, TextDirection::LeftToRight);
    assert_eq!(TextDirection::from_layout_mode(SortLayoutMode::RTLText), TextDirection::RightToLeft);
    assert_eq!(TextDirection::from_layout_mode(SortLayoutMode::Freeform), TextDirection::LeftToRight);
}

#[test]
fn complex_scripts_and_glyph_ids() {
    assert!(needs_complex_shaping("abc \u{FEFF}"));
    assert!(needs_complex_shaping("\u{0750}"));
    assert!(!needs_complex_shaping("abc"));
    assert!(!needs_complex_shaping(""));
    assert_eq!(get_script_for_text("x\u{0627}"), ShapingScript::Arabic);
    assert_eq!(get_script_for_text("x\u{0750}"), ShapingScript::Latin);
    assert_eq!(get_glyph_name_from_id(54), "alef-ar");
    assert_eq!(get_glyph_name_from_id(170), "heh-ar.medi");
    assert_eq!(get_glyph_name_from_id(0), "gid0");
    assert_eq!(get_glyph_name_from_id(4294967295), "gid4294967295");
}

#[test]
fn string_helpers() {
    assert_eq!(with_hex4("U+", 0), "U+0000");
    assert_eq!(with_hex4("U+", 0xABC), "U+0ABC");
    assert_eq!(with_hex4("uni", 0x10FFFF), "uni10FFFF");
    assert_eq!(with_decimal("gid", 1000), "gid1000");
    assert!(str_equals("abc", "abc"));
    assert!(!str_equals("abc", "abd"));
    assert!(str_starts_with("beh-ar.init", "beh-ar"));
    assert!(!str_starts_with("beh", "beh-ar"));
    assert!(str_less_or_equal("abc", "abd"));
    assert!(!str_less_or_equal("abd", "abc"));
    assert!(str_less_or_equal("ab", "abc"));
    assert!(!str_less_or_equal("abc", "ab"));
    assert!(str_less_or_equal("", ""));
    assert!(str_less_or_equal("Z", "a"));
    assert!(str_less_or_equal("z", "\u{0628}"));
    assert!(str_contains("beh-ar.init", "ar.in"));
    assert!(str_contains("beh", ""));
    assert!(str_contains("", ""));
    assert!(!str_contains("", "a"));
    assert!(!str_contains("beh", "beh-ar"));
    assert!(!str_contains("abcabd", "abe"));
    assert!(str_contains("abcabd", "abd"));
}

#[test]
fn engine_shaping_results() {
    // Bytes that are no font are refused.
    assert!(perform_harfbuzz_shaping("\u{0627}", TextDirection::RightToLeft, b"not a font").is_err());
    assert!(perform_harfbuzz_shaping("a", TextDirection::LeftToRight, &[]).is_err());
    // The engine's glyphs become the editor's glyphs.
    let glyphs = vec![
        EngineGlyph { glyph_id: 93, cluster: 3, x_advance: 410, x_offset: 0, y_offset: 0 },
        EngineGlyph { glyph_id: 54, cluster: 0, x_advance: 250, x_offset: -5, y_offset: 7 },
        EngineGlyph { glyph_id: 12, cluster: 9, x_advance: 100, x_offset: 0, y_offset: 0 },
    ];
    let text = "\u{0627}\u{0634}\u{0647}\u{062F}";
    let shaped = shaped_text_from_engine(text, TextDirection::RightToLeft, &glyphs);
    assert!(shaped.is_complex_shaped);
    assert_eq!(shaped.input_codepoints.len(), 4);
    assert_eq!(shaped.shaped_glyphs[0].glyph_name, "dal-ar.fina");
    assert_eq!(shaped.shaped_glyphs[0].codepoint, '\u{062F}');
    assert_eq!(shaped.shaped_glyphs[0].advance_width, 410);
    assert_eq!(shaped.shaped_glyphs[1].glyph_name, "alef-ar");
    assert_eq!(shaped.shaped_glyphs[1].x_offset, -5);
    assert_eq!(shaped.shaped_glyphs[1].y_offset, 7);
    assert_eq!(shaped.shaped_glyphs[2].glyph_name, "gid12");
    assert_eq!(shaped.shaped_glyphs[2].codepoint, '\u{FFFD}');
    assert_eq!(shaped.shaped_glyphs[2].cluster, 9);
}

#[test]
fn whitespace_and_control_characters() {
    // Tabs and no-break spaces separate words too.
    let glyphs = shape_arabic_text("\u{0628}\t\u{0628}\u{00A0}\u{0628}").unwrap();
    let names: Vec<&str> = glyphs.iter().map(|g| g.glyph_name.as_str()).collect();
    assert_eq!(names, vec!["beh-ar", "uni0009", "beh-ar", "uni00A0", "beh-ar"]);
}
