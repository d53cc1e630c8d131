//! The compositing pipeline around the external image library: read both
//! images' geometry, derive the logo's target dimensions and placement,
//! resize the logo, and blend it onto the base image in place.
//!
//! The image values themselves are opaque to the verifier; their pixel
//! dimensions and the results of the two image operations are named, and
//! everything computed from the dimensions is verified. Decoding,
//! resampling and blending are the image library's.

use vstd::prelude::*;
use crate::config::{percentage_in_range, ConfigError, SizeSpec};
use crate::corner::{corner_or_default, spec_corner_or_default, Corner};
use crate::dimensions::{calculate_logo_dimensions, spec_logo_dimensions, SizeModel, MAX_DIM};
use crate::geometry::{calculate_position, spec_position};
use image::DynamicImage;

verus! {

/// The external image type: an owned, decoded raster image.
#[verifier::external_type_specification]
#[verifier::external_body]
pub struct ExDynamicImage(DynamicImage);

/// The pixel width of an external image value.
pub uninterp spec fn width_of(img: DynamicImage) -> u32;

/// The pixel height of an external image value.
pub uninterp spec fn height_of(img: DynamicImage) -> u32;

/// What `DynamicImage::resize` returns for a given source image and bounds:
/// a pure function of its arguments alone.
pub uninterp spec fn resized_of(img: DynamicImage, width: u32, height: u32) -> DynamicImage;

/// What `image::imageops::overlay` leaves in its bottom image for a given
/// bottom, top and offset: a pure function of its arguments alone.
pub uninterp spec fn overlaid_of(base: DynamicImage, top: DynamicImage, x: i64, y: i64) -> DynamicImage;

/// Relies on `DynamicImage::width`: the image's pixel width.
#[verifier::external_body]
fn image_width(img: &DynamicImage) -> (w: u32)
    ensures
        w == width_of(*img),
{
    img.width()
}

/// Relies on `DynamicImage::height`: the image's pixel height.
#[verifier::external_body]
fn image_height(img: &DynamicImage) -> (h: u32)
    ensures
        h == height_of(*img),
{
    img.height()
}

/// Relies on `DynamicImage::resize` (Lanczos3, a 3-lobe windowed sinc): the
/// result is scaled to the largest size that fits within the requested
/// bounds while keeping the source's aspect ratio, and neither dimension
/// rounds below 1. Bounds of at most `MAX_DIM` keep the target buffer's
/// length within a vector's limits, where `ImageBuffer::new` would panic.
#[verifier::external_body]
fn resize_image(img: &DynamicImage, width: u32, height: u32) -> (r: DynamicImage)
    requires
        1 <= width <= MAX_DIM,
        1 <= height <= MAX_DIM,
        1 <= width_of(*img),
        1 <= height_of(*img),
    ensures
        r == resized_of(*img, width, height),
        1 <= width_of(r) <= width,
        1 <= height_of(r) <= height,
{
    img.resize(width, height, image::imageops::FilterType::Lanczos3)
}

/// Relies on `image::imageops::overlay`: blends the top image onto the
/// bottom one in place at the given signed offset, clipping whatever falls
/// outside the bottom's canvas; the bottom image keeps its dimensions.
#[verifier::external_body]
fn overlay_image(base: &mut DynamicImage, top: &DynamicImage, x: i64, y: i64)
    ensures
        *final(base) == overlaid_of(*old(base), *top, x, y),
        width_of(*final(base)) == width_of(*old(base)),
        height_of(*final(base)) == height_of(*old(base)),
{
    image::imageops::overlay(base, top, x, y);
}

/// The composited image, named from the pipeline's verified geometry: the
/// base with the logo — resized to its target dimensions for the chosen
/// model — blended in at the offset computed for the chosen corner.
pub open spec fn spec_composed(
    base: DynamicImage,
    logo: DynamicImage,
    hundredths: u32,
    position: Corner,
    model: SizeModel,
) -> DynamicImage {
    let dims = spec_logo_dimensions(
        model,
        width_of(base) as int,
        height_of(base) as int,
        width_of(logo) as int,
        height_of(logo) as int,
        hundredths as int,
    );
    let pos = spec_position(
        position,
        width_of(base) as int,
        height_of(base) as int,
        dims.0,
        dims.1,
    );
    overlaid_of(
        base,
        resized_of(logo, dims.0 as u32, dims.1 as u32),
        pos.0 as i64,
        pos.1 as i64,
    )
}

/// Resize the logo to its target dimensions for the chosen model and blend
/// it onto the base image at the chosen corner. The result is the base
/// image with the logo composited in place — exactly `spec_composed` — so
/// it keeps the base's pixel dimensions. A logo with a zero dimension has
/// no aspect ratio to preserve and is rejected.
pub fn overlay_logo(
    base: DynamicImage,
    logo: DynamicImage,
    size: SizeSpec,
    position: Corner,
    model: SizeModel,
) -> (r: Result<DynamicImage, ConfigError>)
    ensures
        (width_of(logo) >= 1 && height_of(logo) >= 1) <==> (r matches Ok(out) && out
            == spec_composed(base, logo, size.spec_hundredths(), position, model)),
        (width_of(logo) >= 1 && height_of(logo) >= 1) <==> (r matches Ok(out) && width_of(out)
            == width_of(base) && height_of(out) == height_of(base)),
        (width_of(logo) < 1 || height_of(logo) < 1) <==> r == Err::<DynamicImage, ConfigError>(
            ConfigError::EmptyLogo,
        ),
{
    let base_width = image_width(&base);
    let base_height = image_height(&base);
    let logo_width = image_width(&logo);
    let logo_height = image_height(&logo);
    if logo_width < 1 || logo_height < 1 {
        return Err(ConfigError::EmptyLogo);
    }
    let dims = calculate_logo_dimensions(
        base_width,
        base_height,
        logo_width,
        logo_height,
        size,
        model,
    );
    let resized = resize_image(&logo, dims.0, dims.1);
    let pos = calculate_position(position, base_width, base_height, dims.0, dims.1);
    let mut out = base;
    overlay_image(&mut out, &resized, pos.0, pos.1);
    Ok(out)
}

/// One run of the pipeline once both images are loaded: validate the
/// percentage (given in hundredths of a percent), parse the corner name
/// (silently defaulting to top-right), compute the geometry, resize and
/// composite. Fail-fast: the first error ends the run.
pub fn compose(
    base: DynamicImage,
    logo: DynamicImage,
    percent_hundredths: u32,
    position: &[u8],
    model: SizeModel,
) -> (r: Result<DynamicImage, ConfigError>)
    ensures
        !percentage_in_range(percent_hundredths) <==> r == Err::<DynamicImage, ConfigError>(
            ConfigError::PercentageOutOfRange,
        ),
        percentage_in_range(percent_hundredths) && (width_of(logo) < 1 || height_of(logo) < 1)
            <==> r == Err::<DynamicImage, ConfigError>(ConfigError::EmptyLogo),
        percentage_in_range(percent_hundredths) && width_of(logo) >= 1 && height_of(logo) >= 1
            <==> (r matches Ok(out) && out == spec_composed(
            base,
            logo,
            percent_hundredths,
            spec_corner_or_default(position@),
            model,
        )),
        percentage_in_range(percent_hundredths) && width_of(logo) >= 1 && height_of(logo) >= 1
            <==> (r matches Ok(out) && width_of(out) == width_of(base) && height_of(out)
            == height_of(base)),
{
    let size = match SizeSpec::new(percent_hundredths) {
        Ok(s) => s,
        Err(e) => {
            return Err(e);
        },
    };
    let corner = corner_or_default(position);
    overlay_logo(base, logo, size, corner, model)
}

} // verus!
