//! Placement geometry: the offset of the logo's top-left pixel on the base
//! canvas, for a chosen corner and a fixed padding from the edges.

use vstd::prelude::*;
use crate::corner::Corner;

verus! {

/// Fixed pixel margin kept between the logo and the base image's edges.
pub const PADDING: u32 = 20;

/// The documented offset formulas, one per corner. Offsets are signed: a
/// logo larger than the padded base yields a negative coordinate, which the
/// compositing step tolerates by clipping.
pub open spec fn spec_position(
    corner: Corner,
    base_width: int,
    base_height: int,
    logo_width: int,
    logo_height: int,
) -> (int, int) {
    match corner {
        Corner::TopRight => (base_width - logo_width - PADDING, PADDING as int),
        Corner::TopLeft => (PADDING as int, PADDING as int),
        Corner::BottomRight => (
            base_width - logo_width - PADDING,
            base_height - logo_height - PADDING,
        ),
        Corner::BottomLeft => (PADDING as int, base_height - logo_height - PADDING),
    }
}

/// Top-left pixel offset for the resized logo: `PADDING` from each relevant
/// edge of the base canvas.
pub fn calculate_position(
    position: Corner,
    base_width: u32,
    base_height: u32,
    logo_width: u32,
    logo_height: u32,
) -> (pos: (i64, i64))
    ensures
        pos.0 == spec_position(
            position,
            base_width as int,
            base_height as int,
            logo_width as int,
            logo_height as int,
        ).0,
        pos.1 == spec_position(
            position,
            base_width as int,
            base_height as int,
            logo_width as int,
            logo_height as int,
        ).1,
{
    let padding: i64 = PADDING as i64;
    match position {
        Corner::TopRight => (base_width as i64 - logo_width as i64 - padding, padding),
        Corner::TopLeft => (padding, padding),
        Corner::BottomRight => (
            base_width as i64 - logo_width as i64 - padding,
            base_height as i64 - logo_height as i64 - padding,
        ),
        Corner::BottomLeft => (padding, base_height as i64 - logo_height as i64 - padding),
    }
}

} // verus!
