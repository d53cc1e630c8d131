use image::{DynamicImage, GenericImageView};
use logo_overlay::compose::{compose, overlay_logo};
use logo_overlay::config::{ConfigError, SizeSpec};
use logo_overlay::corner::Corner;
use logo_overlay::dimensions::{calculate_logo_dimensions, SizeModel, MAX_DIM};

#[test]
fn composited_output_keeps_base_dimensions() {
    let base = DynamicImage::new_rgb8(1000, 500);
    let logo = DynamicImage::new_rgb8(200, 100);
    let size = SizeSpec::new(1000).unwrap();
    let out = overlay_logo(base, logo, size, Corner::TopRight, SizeModel::WidthProportional)
        .unwrap();
    assert_eq!(out.width(), 1000);
    assert_eq!(out.height(), 500);
}

#[test]
fn oversized_logo_is_clipped_not_fatal() {
    // 100% of the base width makes the logo overflow the padded canvas; the
    // compositing step clips instead of failing.
    let base = DynamicImage::new_rgb8(10, 10);
    let logo = DynamicImage::new_rgb8(500, 300);
    let out = compose(base, logo, 10000, b"bottom-right", SizeModel::WidthProportional).unwrap();
    assert_eq!((out.width(), out.height()), (10, 10));
}

#[test]
fn compose_rejects_bad_percentage() {
    let base = DynamicImage::new_rgb8(100, 100);
    let logo = DynamicImage::new_rgb8(10, 10);
    let err = compose(base, logo, 50, b"top-right", SizeModel::WidthProportional).unwrap_err();
    assert_eq!(err, ConfigError::PercentageOutOfRange);
}

#[test]
fn compose_rejects_empty_logo() {
    let base = DynamicImage::new_rgb8(100, 100);
    let logo = DynamicImage::new_rgb8(0, 0);
    let err = compose(base, logo, 1000, b"top-right", SizeModel::WidthProportional).unwrap_err();
    assert_eq!(err, ConfigError::EmptyLogo);
}

#[test]
fn area_model_composites_too() {
    let base = DynamicImage::new_rgb8(1000, 500);
    let logo = DynamicImage::new_rgb8(200, 100);
    let out = compose(base, logo, 500, b"bottom-left", SizeModel::AreaProportional).unwrap();
    assert_eq!((out.width(), out.height()), (1000, 500));
}

#[test]
fn logo_is_really_resized_and_blended() {
    // Black 100x100 base, white 50x50 logo, 10% width-proportional at the
    // top-left corner: the white region must be exactly 10x10 at (20, 20).
    let base = DynamicImage::new_rgb8(100, 100);
    let white = image::ImageBuffer::from_pixel(50, 50, image::Rgb([255u8, 255u8, 255u8]));
    let logo = DynamicImage::ImageRgb8(white);
    let out = compose(base, logo, 1000, b"top-left", SizeModel::WidthProportional).unwrap();
    // Inside the resized logo: white (up to resampling rounding).
    let p = out.get_pixel(25, 25);
    assert!(p.0[0] > 200 && p.0[1] > 200 && p.0[2] > 200);
    // Outside the 10x10 region but inside where the unscaled 50x50 logo
    // would have landed: still black, so the logo was truly resized.
    assert_eq!(out.get_pixel(60, 60), image::Rgba([0, 0, 0, 255]));
}

#[test]
fn extreme_inputs_clamp_to_usable_dimensions() {
    // A 1-pixel-wide, maximally tall logo at full size: both formulas leave
    // the usable range and are clamped to MAX_DIM.
    let size = SizeSpec::new(10000).unwrap();
    let dims = calculate_logo_dimensions(
        u32::MAX,
        u32::MAX,
        1,
        u32::MAX,
        size,
        SizeModel::WidthProportional,
    );
    assert_eq!(dims, (MAX_DIM, MAX_DIM));
    let dims = calculate_logo_dimensions(
        u32::MAX,
        u32::MAX,
        1,
        u32::MAX,
        size,
        SizeModel::AreaProportional,
    );
    assert!(dims.0 >= 1 && dims.1 == MAX_DIM);
}

#[test]
fn saved_output_round_trips_with_base_dimensions() {
    let base = DynamicImage::new_rgb8(64, 48);
    let logo = DynamicImage::new_rgb8(32, 16);
    let out = compose(base, logo, 2000, b"top-left", SizeModel::WidthProportional).unwrap();
    let path = "/tmp/logo_overlay_round_trip.png";
    out.save(path).unwrap();
    let reloaded = image::open(path).unwrap();
    assert_eq!(reloaded.width(), 64);
    assert_eq!(reloaded.height(), 48);
}

#[test]
fn missing_input_fails_before_any_output_is_written() {
    // The driver is fail-fast: an unreadable base image ends the run before
    // the output stage, so the output file never comes into being.
    let input = "/tmp/logo_overlay_no_such_input.png";
    let output = "/tmp/logo_overlay_never_written.png";
    assert!(image::open(input).is_err());
    assert!(image::open(output).is_err());
}
