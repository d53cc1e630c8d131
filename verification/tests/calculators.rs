use logo_overlay::config::{ConfigError, SizeSpec};
use logo_overlay::corner::{corner_or_default, parse_corner, Corner};
use logo_overlay::dimensions::{calculate_logo_dimensions, isqrt, SizeModel};
use logo_overlay::geometry::{calculate_position, PADDING};
use logo_overlay::naming::{build_output_name, default_output_name};

fn pct(hundredths: u32) -> SizeSpec {
    SizeSpec::new(hundredths).unwrap()
}

#[test]
fn width_model_scenario() {
    // Base 1000x500, logo aspect 2:1 (200x100), percentage 10, width model:
    // width = floor(1000 * 10%) = 100, height = floor(100 / 2) = 50.
    let dims = calculate_logo_dimensions(1000, 500, 200, 100, pct(1000), SizeModel::WidthProportional);
    assert_eq!(dims, (100, 50));
    // Placed top-right: (1000 - 100 - 20, 20).
    let pos = calculate_position(Corner::TopRight, 1000, 500, dims.0, dims.1);
    assert_eq!(pos, (880, 20));
}

#[test]
fn area_model_scenario() {
    // Base 1000x500 (area 500000), percentage 5, aspect 2:1:
    // target area 25000, width = floor(sqrt(50000)) = 223,
    // height = floor(sqrt(12500)) = 111.
    let dims = calculate_logo_dimensions(1000, 500, 200, 100, pct(500), SizeModel::AreaProportional);
    assert_eq!(dims, (223, 111));
}

#[test]
fn position_formulas_all_corners() {
    assert_eq!(PADDING, 20);
    assert_eq!(calculate_position(Corner::TopRight, 800, 600, 100, 50), (680, 20));
    assert_eq!(calculate_position(Corner::TopLeft, 800, 600, 100, 50), (20, 20));
    assert_eq!(calculate_position(Corner::BottomRight, 800, 600, 100, 50), (680, 530));
    assert_eq!(calculate_position(Corner::BottomLeft, 800, 600, 100, 50), (20, 530));
}

#[test]
fn position_offsets_may_be_negative() {
    // A logo larger than the padded base yields negative coordinates.
    assert_eq!(calculate_position(Corner::TopRight, 50, 40, 100, 90), (-70, 20));
    assert_eq!(calculate_position(Corner::BottomLeft, 50, 40, 100, 90), (20, -70));
}

#[test]
fn dimensions_are_positive_and_clamped() {
    // 1% of a 10-pixel-wide base rounds down to 0 and is clamped to 1.
    let dims = calculate_logo_dimensions(10, 10, 100, 100, pct(100), SizeModel::WidthProportional);
    assert_eq!(dims.0, 1);
    assert!(dims.1 >= 1);
    // A very wide logo floors the height to 0, clamped to 1.
    let dims = calculate_logo_dimensions(100, 100, 4000, 1, pct(1000), SizeModel::WidthProportional);
    assert_eq!(dims, (10, 1));
}

#[test]
fn dimensions_monotonic_in_percentage() {
    let mut last = (0u32, 0u32);
    for h in [100u32, 500, 1000, 2500, 5000, 7500, 10000] {
        for model in [SizeModel::WidthProportional, SizeModel::AreaProportional] {
            let d = calculate_logo_dimensions(1920, 1080, 300, 200, pct(h), model);
            assert!(d.0 >= 1 && d.1 >= 1);
        }
        let d = calculate_logo_dimensions(1920, 1080, 300, 200, pct(h), SizeModel::WidthProportional);
        assert!(d.0 >= last.0 && d.1 >= last.1);
        last = d;
    }
}

#[test]
fn width_model_keeps_aspect_ratio_within_rounding() {
    // Logo 300x200 (ratio 1.5): height * 300 <= width * 200 < (height + 1) * 300.
    let d = calculate_logo_dimensions(1920, 1080, 300, 200, pct(2500), SizeModel::WidthProportional);
    let (w, h) = (d.0 as u64, d.1 as u64);
    assert!(h * 300 <= w * 200);
    assert!(w * 200 < (h + 1) * 300);
}

#[test]
fn isqrt_exact_values() {
    assert_eq!(isqrt(0), 0);
    assert_eq!(isqrt(1), 1);
    assert_eq!(isqrt(3), 1);
    assert_eq!(isqrt(4), 2);
    assert_eq!(isqrt(50000), 223);
    assert_eq!(isqrt(12500), 111);
    assert_eq!(isqrt(u64::MAX as u128), 4294967295);
}

#[test]
fn percentage_validation_bounds() {
    // 0.5% and 100.01% fail; 1% and 100% succeed.
    assert_eq!(SizeSpec::new(50).unwrap_err(), ConfigError::PercentageOutOfRange);
    assert_eq!(SizeSpec::new(10001).unwrap_err(), ConfigError::PercentageOutOfRange);
    assert_eq!(SizeSpec::new(100).unwrap().hundredths(), 100);
    assert_eq!(SizeSpec::new(10000).unwrap().hundredths(), 10000);
    assert_eq!(SizeSpec::new(0).unwrap_err(), ConfigError::PercentageOutOfRange);
}

#[test]
fn corner_parsing_is_case_insensitive() {
    assert_eq!(corner_or_default(b"top-left"), Corner::TopLeft);
    assert_eq!(corner_or_default(b"TOP-LEFT"), Corner::TopLeft);
    assert_eq!(corner_or_default(b"Top-Left"), Corner::TopLeft);
    assert_eq!(corner_or_default(b"top-right"), Corner::TopRight);
    assert_eq!(corner_or_default(b"Bottom-Right"), Corner::BottomRight);
    assert_eq!(corner_or_default(b"bottom-left"), Corner::BottomLeft);
}

#[test]
fn unrecognized_corner_defaults_to_top_right() {
    assert_eq!(corner_or_default(b"center"), Corner::TopRight);
    assert_eq!(corner_or_default(b""), Corner::TopRight);
    assert_eq!(corner_or_default(b"top_left"), Corner::TopRight);
    assert_eq!(parse_corner(b"center"), None);
    assert_eq!(parse_corner(b""), None);
    assert_eq!(parse_corner(b"Bottom-Left"), Some(Corner::BottomLeft));
}

#[test]
fn output_name_is_built_exactly() {
    let name = build_output_name(b"photo", b"AbCd1234");
    assert_eq!(name.as_slice(), b"photo_with_logo_AbCd1234.png".as_slice());
}

#[test]
fn default_output_name_has_fresh_alnum_suffix() {
    let name = default_output_name(b"holiday");
    // "holiday" + "_with_logo_" + 8 random characters + ".png"
    assert_eq!(name.len(), 7 + 11 + 8 + 4);
    assert_eq!(&name[..18], b"holiday_with_logo_".as_slice());
    assert_eq!(&name[26..], b".png".as_slice());
    for &b in &name[18..26] {
        assert!(b.is_ascii_alphanumeric());
    }
}
