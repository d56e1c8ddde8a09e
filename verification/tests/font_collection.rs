use core_text::font_collection::{CTFontCollection, CTFontCollectionMethods};
use core_text::font_descriptor::{CTFontDescriptor, CTFontSymbolicTraits, CTFontTraits};
use core_text::system::{FontData, FontMetrics, FontSystem, GlyphAdvance, Rect};
use core_text::FIXED_ONE;

fn face(family: &str, style: &str, postscript: &str) -> FontData {
    FontData {
        family_name: family.to_string(),
        face_name: style.to_string(),
        style_name: Some(style.to_string()),
        unique_name: format!("{}; 1.0", postscript),
        full_name: Some(format!("{} {}", family, style)),
        postscript_name: postscript.to_string(),
        traits: CTFontTraits {
            symbolic: CTFontSymbolicTraits(0),
            weight: 0,
            width: 0,
            slant: 0,
        },
        metrics: FontMetrics {
            ascent: 15 * FIXED_ONE,
            descent: 4 * FIXED_ONE,
            leading: 2 * FIXED_ONE,
            underline_position: -2 * FIXED_ONE,
            underline_thickness: FIXED_ONE / 2,
            x_height: 9 * FIXED_ONE,
            bounding_box: Rect {
                origin_x: 0,
                origin_y: 0,
                width: 20 * FIXED_ONE,
                height: 24 * FIXED_ONE,
            },
        },
        cmap: vec![(0x0041, 36)],
        advances: vec![GlyphAdvance {
            glyph: 36,
            horizontal: 10 * FIXED_ONE,
            vertical: 18 * FIXED_ONE,
        }],
        tables: Vec::new(),
    }
}

fn collection_system() -> FontSystem {
    FontSystem::new(vec![
        face("Helvetica", "Regular", "Helvetica"),
        face("Helvetica", "Bold", "Helvetica-Bold"),
        face("Courier", "Regular", "Courier"),
    ])
}

fn named_descriptor(family: &str) -> CTFontDescriptor {
    CTFontDescriptor {
        family: Some(family.to_string()),
        style: None,
        size: None,
    }
}

#[test]
fn duplicate_descriptors_are_removed() {
    let mut sys = collection_system();
    let descs = vec![
        named_descriptor("Helvetica"),
        named_descriptor("Courier"),
        named_descriptor("Helvetica"),
        named_descriptor("Helvetica"),
    ];
    let coll = CTFontCollection::new_from_descriptors(&mut sys, &descs);
    let arr = coll.get_descriptors(&mut sys);
    let n = arr.len(&sys);
    assert!(n <= descs.len());
    assert_eq!(n, 2);
    assert_eq!(arr.get(&sys, 0).family, Some("Helvetica".to_string()));
    assert_eq!(arr.get(&sys, 1).family, Some("Courier".to_string()));
    arr.release(&mut sys);
    coll.release(&mut sys);
}

#[test]
fn empty_descriptor_input_yields_an_empty_collection() {
    let mut sys = collection_system();
    let coll = CTFontCollection::new_from_descriptors(&mut sys, &Vec::new());
    let arr = coll.get_descriptors(&mut sys);
    assert_eq!(arr.len(&sys), 0);
    arr.release(&mut sys);
    coll.release(&mut sys);
}

#[test]
fn all_families_snapshot_covers_every_face() {
    let mut sys = collection_system();
    let coll = CTFontCollection::create_for_all_families(&mut sys);
    let arr = coll.get_descriptors(&mut sys);
    assert_eq!(arr.len(&sys), 3);
    let d0 = arr.get(&sys, 0);
    assert_eq!(d0.family, Some("Helvetica".to_string()));
    assert_eq!(d0.style, Some("Regular".to_string()));
    let d2 = arr.get(&sys, 2);
    assert_eq!(d2.family, Some("Courier".to_string()));
    arr.release(&mut sys);
    coll.release(&mut sys);
}

#[test]
fn family_collection_matches_every_style_of_the_family() {
    let mut sys = collection_system();
    let coll = CTFontCollection::create_for_family(&mut sys, "Helvetica");
    let arr = coll.get_descriptors(&mut sys);
    assert_eq!(arr.len(&sys), 2);
    assert_eq!(arr.get(&sys, 0).style, Some("Regular".to_string()));
    assert_eq!(arr.get(&sys, 1).style, Some("Bold".to_string()));
    arr.release(&mut sys);
    coll.release(&mut sys);
}

#[test]
fn family_collection_of_an_unknown_family_is_empty() {
    let mut sys = collection_system();
    let coll = CTFontCollection::create_for_family(&mut sys, "NoSuchFamily");
    let arr = coll.get_descriptors(&mut sys);
    assert_eq!(arr.len(&sys), 0);
    arr.release(&mut sys);
    coll.release(&mut sys);
}

#[test]
fn family_names_are_listed_once_in_order() {
    let sys = collection_system();
    let names = CTFontCollection::get_family_names(&sys);
    assert_eq!(names, vec!["Helvetica".to_string(), "Courier".to_string()]);
}

#[test]
fn matched_descriptors_survive_collection_release_order() {
    let mut sys = collection_system();
    let coll = CTFontCollection::create_for_family(&mut sys, "Courier");
    let arr1 = coll.get_descriptors(&mut sys);
    let arr2 = coll.get_descriptors(&mut sys);
    assert_eq!(arr1.len(&sys), 1);
    arr1.release(&mut sys);
    assert_eq!(arr2.len(&sys), 1);
    assert_eq!(arr2.get(&sys, 0).family, Some("Courier".to_string()));
    coll.release(&mut sys);
    assert_eq!(arr2.len(&sys), 1);
    arr2.release(&mut sys);
}

#[test]
fn duplicate_faces_collapse_in_the_all_families_snapshot() {
    let mut sys = FontSystem::new(vec![
        face("Helvetica", "Regular", "Helvetica"),
        face("Helvetica", "Regular", "Helvetica"),
    ]);
    let coll = CTFontCollection::create_for_all_families(&mut sys);
    let arr = coll.get_descriptors(&mut sys);
    assert_eq!(arr.len(&sys), 1);
    arr.release(&mut sys);
    coll.release(&mut sys);
}
