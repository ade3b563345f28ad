use donut_tell_me::assets::{
    fill_textures, parse_i32, starts_with, FacesMetadata, SubTexture, SubTextureRaw,
    TextureAtlasData, TextureAtlasObject, TextureRect,
};

fn raw(name: &str, x: &str, y: &str, width: &str, height: &str) -> SubTextureRaw {
    SubTextureRaw {
        name: name.to_string(),
        x: x.to_string(),
        y: y.to_string(),
        width: width.to_string(),
        height: height.to_string(),
    }
}

fn sprite(name: &str, x: i32, y: i32, width: i32, height: i32) -> SubTexture {
    SubTexture { name: name.to_string(), x, y, width, height }
}

fn sheet(sub_textures: Vec<SubTexture>) -> TextureAtlasData {
    TextureAtlasData { texture_atlas: TextureAtlasObject { sub_textures } }
}

#[test]
fn numbers_are_read_in_base_ten() {
    assert_eq!(parse_i32("0"), Some(0));
    assert_eq!(parse_i32("7"), Some(7));
    assert_eq!(parse_i32("12"), Some(12));
    assert_eq!(parse_i32("1024"), Some(1024));
    assert_eq!(parse_i32("007"), Some(7));
    assert_eq!(parse_i32("+15"), Some(15));
    assert_eq!(parse_i32("-15"), Some(-15));
    assert_eq!(parse_i32("-0"), Some(0));
}

#[test]
fn numbers_reach_both_ends_of_the_range() {
    assert_eq!(parse_i32("2147483647"), Some(i32::MAX));
    assert_eq!(parse_i32("-2147483648"), Some(i32::MIN));
    assert_eq!(parse_i32("2147483648"), None);
    assert_eq!(parse_i32("-2147483649"), None);
    assert_eq!(parse_i32("+2147483648"), None);
    assert_eq!(parse_i32("99999999999999999999999999999999"), None);
    assert_eq!(parse_i32("-99999999999999999999999999999999"), None);
    assert_eq!(parse_i32("00000000000000000000000000000042"), Some(42));
}

#[test]
fn what_is_no_number_is_refused() {
    assert_eq!(parse_i32(""), None);
    assert_eq!(parse_i32("+"), None);
    assert_eq!(parse_i32("-"), None);
    assert_eq!(parse_i32(" 5"), None);
    assert_eq!(parse_i32("5 "), None);
    assert_eq!(parse_i32("1_000"), None);
    assert_eq!(parse_i32("12a"), None);
    assert_eq!(parse_i32("a12"), None);
    assert_eq!(parse_i32("1.5"), None);
    assert_eq!(parse_i32("--5"), None);
    assert_eq!(parse_i32("+-5"), None);
    assert_eq!(parse_i32("5-"), None);
    assert_eq!(parse_i32("٣"), None);
    assert_eq!(parse_i32("0x10"), None);
}

#[test]
fn numbers_are_read_as_the_standard_library_reads_them() {
    let texts = [
        "", "0", "-0", "+0", "1", "-1", "+1", "42", "0042", "2147483647", "2147483648",
        "-2147483648", "-2147483649", "+", "-", "++1", "1+", " 1", "1 ", "1e3", "12345678901",
        "-12345678901", "9", "99", "999", "٣", "١٢", "1\n", "\t1", "٠",
    ];
    for text in texts {
        assert_eq!(parse_i32(text), text.parse::<i32>().ok());
    }
}

#[test]
fn a_text_begins_with_its_prefixes() {
    assert!(starts_with("face1.png", "face"));
    assert!(starts_with("face", "face"));
    assert!(starts_with("face", ""));
    assert!(starts_with("", ""));
    assert!(!starts_with("fac", "face"));
    assert!(!starts_with("", "face"));
    assert!(!starts_with("Face1.png", "face"));
    assert!(!starts_with("surface", "face"));
    assert!(!starts_with("facade", "face"));
    assert!(starts_with("żółw", "żó"));
    assert!(!starts_with("żółw", "zó"));
}

#[test]
fn a_sprite_is_read_from_its_description() {
    let read = SubTexture::parse(raw("face1.png", "10", "20", "30", "40")).unwrap();
    assert_eq!(read, sprite("face1.png", 10, 20, 30, 40));
    let read = SubTexture::from_raw(raw("hair.png", "-1", "+2", "003", "0"));
    assert_eq!(read, sprite("hair.png", -1, 2, 3, 0));
}

#[test]
fn a_sprite_with_a_measure_that_is_no_number_is_not_read() {
    assert!(SubTexture::parse(raw("a", "x", "20", "30", "40")).is_none());
    assert!(SubTexture::parse(raw("a", "10", "", "30", "40")).is_none());
    assert!(SubTexture::parse(raw("a", "10", "20", "3 0", "40")).is_none());
    assert!(SubTexture::parse(raw("a", "10", "20", "30", "2147483648")).is_none());
    assert!(SubTexture::parse(raw("a", "10", "20", "30", "40")).is_some());
}

#[test]
fn a_sprite_spans_from_its_corner_by_its_size() {
    let rect = sprite("a", 10, 20, 30, 40).rect();
    assert_eq!(rect, TextureRect { min_x: 10, min_y: 20, max_x: 40, max_y: 60 });
    let rect = sprite("b", 0, 0, 0, 0).rect();
    assert_eq!(rect, TextureRect { min_x: 0, min_y: 0, max_x: 0, max_y: 0 });
    let rect = sprite("c", -5, 7, 5, -7).rect();
    assert_eq!(rect, TextureRect { min_x: -5, min_y: 7, max_x: 0, max_y: 0 });
}

#[test]
fn a_sprite_at_the_edge_of_the_range_keeps_its_far_corner() {
    let rect = sprite("a", i32::MAX, i32::MAX, i32::MAX, 1).rect();
    assert_eq!(
        rect,
        TextureRect {
            min_x: 2147483647,
            min_y: 2147483647,
            max_x: 4294967294,
            max_y: 2147483648,
        }
    );
    let rect = sprite("b", i32::MIN, 0, i32::MIN, 0).rect();
    assert_eq!(rect.max_x, -4294967296);
}

#[test]
fn a_sheet_gets_a_rectangle_for_every_sprite_in_order() {
    let data = sheet(vec![
        sprite("donut1", 0, 0, 100, 100),
        sprite("donut2", 100, 0, 50, 60),
        sprite("donut3", 0, 100, 7, 9),
    ]);
    assert_eq!(
        fill_textures(Some(&data)),
        vec![
            TextureRect { min_x: 0, min_y: 0, max_x: 100, max_y: 100 },
            TextureRect { min_x: 100, min_y: 0, max_x: 150, max_y: 60 },
            TextureRect { min_x: 0, min_y: 100, max_x: 7, max_y: 109 },
        ]
    );
}

#[test]
fn a_sheet_without_a_description_gets_no_rectangle() {
    assert!(fill_textures(None).is_empty());
    assert!(fill_textures(Some(&sheet(Vec::new()))).is_empty());
}

#[test]
fn faces_are_found_by_their_names() {
    let data = sheet(vec![
        sprite("brow1.png", 0, 0, 1, 1),
        sprite("face1.png", 0, 0, 1, 1),
        sprite("face2.png", 0, 0, 1, 1),
        sprite("mouth.png", 0, 0, 1, 1),
        sprite("surface.png", 0, 0, 1, 1),
        sprite("face", 0, 0, 1, 1),
        sprite("fac", 0, 0, 1, 1),
    ]);
    assert_eq!(FacesMetadata::new(Some(&data)).face_indexes, vec![1, 2, 5]);
}

#[test]
fn a_sheet_without_faces_has_none() {
    assert!(FacesMetadata::new(None).face_indexes.is_empty());
    assert!(FacesMetadata::new(Some(&sheet(Vec::new()))).face_indexes.is_empty());
    let data = sheet(vec![sprite("nose", 0, 0, 1, 1), sprite("Face", 0, 0, 1, 1)]);
    assert!(FacesMetadata::new(Some(&data)).face_indexes.is_empty());
}
