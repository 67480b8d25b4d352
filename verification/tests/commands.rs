use wiegart::color::{parse_hex_color, Rgb};
use wiegart::raster::{color_mask, Raster, TraceError};
use wiegart::save::{plan_save, resolve_save, SaveAction, SaveOutcome};
use wiegart::svg::join_fragments;

#[test]
fn parse_color_with_hash() {
    assert_eq!(parse_hex_color("#ff00aa"), Some(Rgb { r: 255, g: 0, b: 170 }));
}

#[test]
fn parse_color_without_hash() {
    assert_eq!(parse_hex_color("ff00aa"), Some(Rgb { r: 255, g: 0, b: 170 }));
}

#[test]
fn parse_color_uppercase() {
    assert_eq!(parse_hex_color("FF00AA"), Some(Rgb { r: 255, g: 0, b: 170 }));
}

#[test]
fn parse_color_invalid_digits() {
    assert_eq!(parse_hex_color("zzzzzz"), None);
}

#[test]
fn parse_color_too_short() {
    assert_eq!(parse_hex_color("#fff"), None);
}

#[test]
fn parse_color_too_long() {
    assert_eq!(parse_hex_color("#ff00aa00"), None);
}

#[test]
fn parse_color_empty() {
    assert_eq!(parse_hex_color(""), None);
}

#[test]
fn parse_color_matches_hex_crate() {
    for s in ["ff00aa", "0a1b2c", "ABCDEF", "000000", "ffffff"] {
        let c = parse_hex_color(s).unwrap();
        assert_eq!(hex::decode(s).unwrap(), vec![c.r, c.g, c.b]);
    }
}

#[test]
fn raster_new_checks_buffer_size() {
    assert!(Raster::new(2, 2, vec![0u8; 15]).is_none());
    assert!(Raster::new(2, 2, vec![0u8; 16]).is_some());
    assert!(Raster::new(0, 0, Vec::new()).is_some());
}

#[test]
fn mask_marks_exactly_the_matching_pixels() {
    // A 2x2 image: red, blue, red, white (fully opaque).
    let rgba = vec![
        255u8, 0, 0, 255, // red
        0, 0, 255, 255, // blue
        255, 0, 0, 255, // red
        255, 255, 255, 255, // white
    ];
    let img = Raster::new(2, 2, rgba).unwrap();
    let mask = img.build_mask(Rgb { r: 255, g: 0, b: 0 });
    assert_eq!(mask, vec![1, 0, 1, 0]);
}

#[test]
fn mask_ignores_alpha() {
    // Same colour, different alpha: both pixels must match.
    let rgba = vec![10u8, 20, 30, 0, 10, 20, 30, 255];
    let img = Raster::new(2, 1, rgba).unwrap();
    let mask = img.build_mask(Rgb { r: 10, g: 20, b: 30 });
    assert_eq!(mask, vec![1, 1]);
}

#[test]
fn color_mask_on_two_color_image() {
    let rgba = vec![
        0u8, 0, 0, 255, // black
        255, 255, 255, 255, // white
        255, 255, 255, 255, // white
        0, 0, 0, 255, // black
    ];
    let img = Raster::new(2, 2, rgba).unwrap();
    assert_eq!(color_mask(&img, "#000000"), Ok(vec![1, 0, 0, 1]));
    assert_eq!(color_mask(&img, "ffffff"), Ok(vec![0, 1, 1, 0]));
}

#[test]
fn color_mask_rejects_invalid_color_before_tracing() {
    let img = Raster::new(1, 1, vec![0u8, 0, 0, 255]).unwrap();
    assert_eq!(color_mask(&img, "not-a-color"), Err(TraceError::InvalidColor));
    assert_eq!(color_mask(&img, "#12345"), Err(TraceError::InvalidColor));
}

#[test]
fn join_no_fragments() {
    let frags: Vec<String> = Vec::new();
    assert_eq!(join_fragments(&frags), "");
}

#[test]
fn join_single_fragment() {
    assert_eq!(join_fragments(&vec!["M0 0 L1 1 Z".to_string()]), "M0 0 L1 1 Z");
}

#[test]
fn join_many_fragments() {
    let frags = vec!["M0 0".to_string(), "L1 1".to_string(), "Z".to_string()];
    assert_eq!(join_fragments(&frags), "M0 0 L1 1 Z");
}

#[test]
fn cancelled_dialog_plans_no_write() {
    assert!(matches!(plan_save(None), SaveAction::DoNothing));
}

#[test]
fn chosen_path_is_kept() {
    match plan_save(Some("out.svg".to_string())) {
        SaveAction::WriteTo(p) => assert_eq!(p, "out.svg"),
        SaveAction::DoNothing => panic!("a chosen path must be written to"),
    }
}

#[test]
fn cancellation_is_not_an_error() {
    assert_eq!(resolve_save(SaveOutcome::Cancelled), Ok(()));
}

#[test]
fn successful_write_is_ok() {
    assert_eq!(resolve_save(SaveOutcome::Written), Ok(()));
}

#[test]
fn failed_write_surfaces_its_message() {
    let r = resolve_save(SaveOutcome::WriteFailed("disk full".to_string()));
    assert_eq!(r, Err("disk full".to_string()));
}
