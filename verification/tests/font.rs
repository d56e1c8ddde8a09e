use core_text::font::{
    debug_font_names, debug_font_traits, get_string_by_name_key, CTFont, CTFontNameKey,
};
use core_text::font_descriptor::{
    CTFontDescriptor, CTFontOrientation, CTFontSymbolicTraits, CTFontTraits, BOLD_TRAIT,
    ITALIC_TRAIT, MONOSPACE_TRAIT,
};
use core_text::system::{FontData, FontMetrics, FontSystem, FontTable, GlyphAdvance, Rect};
use core_text::{FontError, DEFAULT_FONT_SIZE, FIXED_ONE};

fn plain_metrics() -> FontMetrics {
    FontMetrics {
        ascent: 15 * FIXED_ONE,
        descent: 4 * FIXED_ONE,
        leading: 2 * FIXED_ONE,
        underline_position: -2 * FIXED_ONE,
        underline_thickness: FIXED_ONE / 2,
        x_height: 9 * FIXED_ONE,
        bounding_box: Rect {
            origin_x: -FIXED_ONE,
            origin_y: -4 * FIXED_ONE,
            width: 20 * FIXED_ONE,
            height: 24 * FIXED_ONE,
        },
    }
}

fn helvetica_regular() -> FontData {
    FontData {
        family_name: "Helvetica".to_string(),
        face_name: "Regular".to_string(),
        style_name: Some("Regular".to_string()),
        unique_name: "Helvetica; 1.0".to_string(),
        full_name: Some("Helvetica".to_string()),
        postscript_name: "Helvetica".to_string(),
        traits: CTFontTraits {
            symbolic: CTFontSymbolicTraits(0),
            weight: 0,
            width: 0,
            slant: 0,
        },
        metrics: plain_metrics(),
        cmap: vec![(0x0041, 36), (0x0042, 37), (0x0043, 38)],
        advances: vec![
            GlyphAdvance {
                glyph: 36,
                horizontal: 10 * FIXED_ONE,
                vertical: 18 * FIXED_ONE,
            },
            GlyphAdvance {
                glyph: 37,
                horizontal: 11 * FIXED_ONE,
                vertical: 18 * FIXED_ONE,
            },
        ],
        tables: vec![
            FontTable {
                tag: 0x636d6170,
                synthetic: false,
                bytes: vec![0, 1, 2, 3],
            },
            FontTable {
                tag: 0x676c7966,
                synthetic: true,
                bytes: vec![9, 9],
            },
        ],
    }
}

fn helvetica_bold() -> FontData {
    let mut d = helvetica_regular();
    d.face_name = "Bold".to_string();
    d.style_name = Some("Bold".to_string());
    d.unique_name = "Helvetica Bold; 1.0".to_string();
    d.full_name = Some("Helvetica Bold".to_string());
    d.postscript_name = "Helvetica-Bold".to_string();
    d.traits = CTFontTraits {
        symbolic: CTFontSymbolicTraits(BOLD_TRAIT),
        weight: 400,
        width: 0,
        slant: 0,
    };
    d
}

fn courier() -> FontData {
    let mut d = helvetica_regular();
    d.family_name = "Courier".to_string();
    d.unique_name = "Courier; 1.0".to_string();
    d.full_name = Some("Courier".to_string());
    d.postscript_name = "Courier".to_string();
    d.traits = CTFontTraits {
        symbolic: CTFontSymbolicTraits(MONOSPACE_TRAIT | ITALIC_TRAIT),
        weight: -200,
        width: 0,
        slant: 0,
    };
    d.metrics.ascent = 14 * FIXED_ONE;
    d
}

fn sample_system() -> FontSystem {
    FontSystem::new(vec![helvetica_regular(), helvetica_bold(), courier()])
}

#[test]
fn new_from_name_finds_postscript_name() {
    let mut sys = sample_system();
    let f = CTFont::new_from_name(&mut sys, "Helvetica-Bold", 12 * FIXED_ONE).unwrap();
    assert_eq!(f.family_name(&sys), "Helvetica");
    assert_eq!(f.face_name(&sys), "Bold");
    assert_eq!(f.postscript_name(&sys), "Helvetica-Bold");
    assert_eq!(f.pt_size(&sys), 12 * FIXED_ONE);
    f.release(&mut sys);
}

#[test]
fn new_from_name_finds_family_name() {
    let mut sys = sample_system();
    let f = CTFont::new_from_name(&mut sys, "Courier", 0).unwrap();
    assert_eq!(f.family_name(&sys), "Courier");
    assert_eq!(f.pt_size(&sys), DEFAULT_FONT_SIZE);
    f.release(&mut sys);
}

#[test]
fn new_from_name_unknown_is_not_found() {
    let mut sys = sample_system();
    let r = CTFont::new_from_name(&mut sys, "NonexistentFont-9999", 12 * FIXED_ONE);
    assert_eq!(r.err(), Some(FontError::NotFound));
}

#[test]
fn clone_with_font_size_changes_only_the_size() {
    let mut sys = sample_system();
    let f = CTFont::new_from_name(&mut sys, "Helvetica", 12 * FIXED_ONE).unwrap();
    let size = 9 * FIXED_ONE + FIXED_ONE / 2;
    let g = f.clone_with_font_size(&mut sys, size);
    assert_eq!(g.pt_size(&sys), size);
    assert_eq!(f.pt_size(&sys), 12 * FIXED_ONE);
    assert_eq!(g.family_name(&sys), "Helvetica");
    assert_eq!(g.face_name(&sys), f.face_name(&sys));
    g.release(&mut sys);
    f.release(&mut sys);
}

#[test]
fn required_names_are_never_empty() {
    let mut sys = sample_system();
    let f = CTFont::new_from_name(&mut sys, "Helvetica", 12 * FIXED_ONE).unwrap();
    assert!(!f.family_name(&sys).is_empty());
    assert!(!f.face_name(&sys).is_empty());
    assert!(!f.unique_name(&sys).is_empty());
    assert!(!f.postscript_name(&sys).is_empty());
    f.release(&mut sys);
}

#[test]
fn metrics_report_the_face_values() {
    let mut sys = sample_system();
    let f = CTFont::new_from_name(&mut sys, "Helvetica", 12 * FIXED_ONE).unwrap();
    assert_eq!(f.ascent(&sys), 15 * FIXED_ONE);
    assert_eq!(f.descent(&sys), 4 * FIXED_ONE);
    assert_eq!(f.leading(&sys), 2 * FIXED_ONE);
    assert_eq!(f.underline_position(&sys), -2 * FIXED_ONE);
    assert_eq!(f.underline_thickness(&sys), FIXED_ONE / 2);
    assert_eq!(f.x_height(&sys), 9 * FIXED_ONE);
    assert_eq!(f.bounding_box(&sys), plain_metrics().bounding_box);
    f.release(&mut sys);
}

#[test]
fn glyph_mapping_success_means_no_zero_glyph() {
    let mut sys = sample_system();
    let f = CTFont::new_from_name(&mut sys, "Helvetica", 12 * FIXED_ONE).unwrap();
    let chars: Vec<u16> = vec![0x0041, 0x0042, 0x0043];
    let mut glyphs: Vec<u16> = Vec::new();
    let all = f.get_glyphs_for_characters(&sys, &chars, &mut glyphs, 3);
    assert!(all);
    assert_eq!(glyphs, vec![36, 37, 38]);
    f.release(&mut sys);
}

#[test]
fn unmapped_character_yields_zero_sentinel_and_false() {
    let mut sys = sample_system();
    let f = CTFont::new_from_name(&mut sys, "Helvetica", 12 * FIXED_ONE).unwrap();
    let chars: Vec<u16> = vec![0x0041, 0x005A];
    let mut glyphs: Vec<u16> = Vec::new();
    let all = f.get_glyphs_for_characters(&sys, &chars, &mut glyphs, 2);
    assert!(!all);
    assert_eq!(glyphs, vec![36, 0]);
    assert!(glyphs.contains(&0));
    f.release(&mut sys);
}

#[test]
fn glyph_mapping_respects_count_prefix() {
    let mut sys = sample_system();
    let f = CTFont::new_from_name(&mut sys, "Helvetica", 12 * FIXED_ONE).unwrap();
    let chars: Vec<u16> = vec![0x0041, 0x005A, 0x0042];
    let mut glyphs: Vec<u16> = Vec::new();
    let all = f.get_glyphs_for_characters(&sys, &chars, &mut glyphs, 1);
    assert!(all);
    assert_eq!(glyphs, vec![36]);
    f.release(&mut sys);
}

#[test]
fn horizontal_advances_sum_per_glyph() {
    let mut sys = sample_system();
    let f = CTFont::new_from_name(&mut sys, "Helvetica", 12 * FIXED_ONE).unwrap();
    let glyphs: Vec<u16> = vec![36, 37, 99];
    let mut advances: Vec<i64> = Vec::new();
    let total =
        f.get_advances_for_glyphs(&sys, CTFontOrientation::Horizontal, &glyphs, &mut advances, 3);
    assert_eq!(advances, vec![10 * FIXED_ONE, 11 * FIXED_ONE, 0]);
    assert_eq!(total, 21 * FIXED_ONE);
    f.release(&mut sys);
}

#[test]
fn vertical_advances_use_the_vertical_axis() {
    let mut sys = sample_system();
    let f = CTFont::new_from_name(&mut sys, "Helvetica", 12 * FIXED_ONE).unwrap();
    let glyphs: Vec<u16> = vec![36, 37];
    let mut advances: Vec<i64> = Vec::new();
    let total =
        f.get_advances_for_glyphs(&sys, CTFontOrientation::Vertical, &glyphs, &mut advances, 2);
    assert_eq!(advances, vec![18 * FIXED_ONE, 18 * FIXED_ONE]);
    assert_eq!(total, 36 * FIXED_ONE);
    f.release(&mut sys);
}

#[test]
fn font_table_lookup_excludes_synthetic_tables() {
    let mut sys = sample_system();
    let f = CTFont::new_from_name(&mut sys, "Helvetica", 12 * FIXED_ONE).unwrap();
    assert_eq!(f.get_font_table(&sys, 0x636d6170), Some(vec![0, 1, 2, 3]));
    assert_eq!(f.get_font_table(&sys, 0x676c7966), None);
    assert_eq!(f.get_font_table(&sys, 0x68656164), None);
    f.release(&mut sys);
}

#[test]
fn name_key_lookup_reports_absent_optional_names() {
    let mut sys = sample_system();
    let f = CTFont::new_from_name(&mut sys, "Helvetica", 12 * FIXED_ONE).unwrap();
    assert_eq!(
        get_string_by_name_key(&sys, &f, CTFontNameKey::Style),
        Some("Regular".to_string())
    );
    assert_eq!(
        get_string_by_name_key(&sys, &f, CTFontNameKey::SubFamily),
        Some("Regular".to_string())
    );
    assert_eq!(
        get_string_by_name_key(&sys, &f, CTFontNameKey::Unique),
        Some("Helvetica; 1.0".to_string())
    );
    assert_eq!(
        get_string_by_name_key(&sys, &f, CTFontNameKey::Full),
        Some("Helvetica".to_string())
    );
    assert_eq!(
        get_string_by_name_key(&sys, &f, CTFontNameKey::PostScript),
        Some("Helvetica".to_string())
    );
    f.release(&mut sys);

    let mut bare = helvetica_regular();
    bare.style_name = None;
    bare.full_name = None;
    let mut sys2 = FontSystem::new(vec![bare]);
    let f2 = CTFont::new_from_name(&mut sys2, "Helvetica", 12 * FIXED_ONE).unwrap();
    assert_eq!(get_string_by_name_key(&sys2, &f2, CTFontNameKey::Style), None);
    assert_eq!(get_string_by_name_key(&sys2, &f2, CTFontNameKey::Full), None);
    assert_eq!(
        get_string_by_name_key(&sys2, &f2, CTFontNameKey::Family),
        Some("Helvetica".to_string())
    );
    f2.release(&mut sys2);
}

#[test]
fn name_report_lists_every_key() {
    let mut sys = sample_system();
    let f = CTFont::new_from_name(&mut sys, "Helvetica-Bold", 12 * FIXED_ONE).unwrap();
    let lines = debug_font_names(&sys, &f);
    assert_eq!(
        lines,
        vec![
            "kCTFontFamilyNameKey: Helvetica".to_string(),
            "kCTFontSubFamilyNameKey: Bold".to_string(),
            "kCTFontStyleNameKey: Bold".to_string(),
            "kCTFontUniqueNameKey: Helvetica Bold; 1.0".to_string(),
            "kCTFontFullNameKey: Helvetica Bold".to_string(),
            "kCTFontPostScriptNameKey: Helvetica-Bold".to_string(),
        ]
    );
    f.release(&mut sys);
}

#[test]
fn trait_report_lists_every_flag_and_the_weight() {
    let mut sys = sample_system();
    let f = CTFont::new_from_name(&mut sys, "Courier", 12 * FIXED_ONE).unwrap();
    let (lines, weight) = debug_font_traits(&sys, &f);
    assert_eq!(
        lines,
        vec![
            "kCTFontItalicTrait: true".to_string(),
            "kCTFontBoldTrait: false".to_string(),
            "kCTFontExpandedTrait: false".to_string(),
            "kCTFontCondensedTrait: false".to_string(),
            "kCTFontMonoSpaceTrait: true".to_string(),
        ]
    );
    assert_eq!(weight, -200);
    f.release(&mut sys);
}

#[test]
fn symbolic_trait_flags_follow_the_bit_mask() {
    let t = CTFontSymbolicTraits(BOLD_TRAIT | MONOSPACE_TRAIT);
    assert!(t.is_bold());
    assert!(t.is_monospace());
    assert!(!t.is_italic());
    assert!(!t.is_expanded());
    assert!(!t.is_condensed());
}

#[test]
fn descriptor_construction_matches_family_and_style() {
    let mut sys = sample_system();
    let desc = CTFontDescriptor {
        family: Some("Helvetica".to_string()),
        style: Some("Bold".to_string()),
        size: None,
    };
    let f = CTFont::new_from_descriptor(&mut sys, &desc, 0);
    assert_eq!(f.face_name(&sys), "Bold");
    assert_eq!(f.pt_size(&sys), DEFAULT_FONT_SIZE);
    f.release(&mut sys);
}

#[test]
fn descriptor_size_attribute_supplies_the_size() {
    let mut sys = sample_system();
    let desc = CTFontDescriptor {
        family: Some("Courier".to_string()),
        style: None,
        size: Some(10 * FIXED_ONE),
    };
    let f = CTFont::new_from_descriptor(&mut sys, &desc, 0);
    assert_eq!(f.family_name(&sys), "Courier");
    assert_eq!(f.pt_size(&sys), 10 * FIXED_ONE);
    let g = CTFont::new_from_descriptor(&mut sys, &desc, 14 * FIXED_ONE);
    assert_eq!(g.pt_size(&sys), 14 * FIXED_ONE);
    g.release(&mut sys);
    f.release(&mut sys);
}

#[test]
fn descriptor_without_match_falls_back_to_the_first_face() {
    let mut sys = sample_system();
    let desc = CTFontDescriptor {
        family: Some("NoSuchFamily".to_string()),
        style: None,
        size: None,
    };
    let f = CTFont::new_from_descriptor(&mut sys, &desc, 12 * FIXED_ONE);
    assert_eq!(f.family_name(&sys), "Helvetica");
    assert_eq!(f.face_name(&sys), "Regular");
    f.release(&mut sys);
}

#[test]
fn graphics_font_round_trip_is_metric_equivalent() {
    let mut sys = sample_system();
    let g = sys.register_graphics_font(courier());
    let f = CTFont::new_from_graphics_font(&mut sys, g, 12 * FIXED_ONE);
    let g2 = f.copy_to_graphics_font(&mut sys);
    assert_ne!(g, g2);
    let f2 = CTFont::new_from_graphics_font(&mut sys, g2, 12 * FIXED_ONE);
    assert_eq!(f2.family_name(&sys), f.family_name(&sys));
    assert_eq!(f2.unique_name(&sys), f.unique_name(&sys));
    assert_eq!(f2.ascent(&sys), f.ascent(&sys));
    assert_eq!(f2.bounding_box(&sys), f.bounding_box(&sys));
    assert_eq!(f2.pt_size(&sys), 12 * FIXED_ONE);
    f2.release(&mut sys);
    f.release(&mut sys);
    sys.release_graphics_font(g2);
    sys.release_graphics_font(g);
}
