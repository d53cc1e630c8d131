//! Target logo dimensions, derived from the base image's geometry, the
//! logo's aspect ratio, and the size percentage.
//!
//! Two models are offered, as a configurable strategy:
//! - width-proportional: the target width is the given percentage of the
//!   base width, and the height follows from the logo's aspect ratio;
//! - area-proportional: the target area is the given percentage of the base
//!   area, split between width and height so that the aspect ratio is kept.
//!
//! All arithmetic is exact integer arithmetic; the aspect ratio is carried
//! as the logo's width/height pair, and quotients and square roots round
//! down. A dimension that would round down to 0 is clamped to 1 pixel, and
//! one that would exceed `MAX_DIM` is clamped to `MAX_DIM`, so the result
//! is always a positive pair that the resampler can take: even at the clamp
//! bound the target buffer length stays well within a vector's limits.

use vstd::arithmetic::div_mod::{
    lemma_div_is_ordered, lemma_div_pos_is_pos, lemma_fundamental_div_mod, lemma_mod_bound,
    lemma_multiply_divide_le,
};
use vstd::arithmetic::mul::{lemma_mul_nonnegative, lemma_mul_upper_bound};
use vstd::prelude::*;
use crate::config::SizeSpec;

verus! {

/// Which dimension-calculation policy to apply.
#[derive(Clone, Copy, Debug, PartialEq, Eq, Structural)]
pub enum SizeModel {
    /// Target width is `percentage` of the base width.
    WidthProportional,
    /// Target area is `percentage` of the base area.
    AreaProportional,
}

/// The largest natural number whose square does not exceed `n`.
pub open spec fn spec_sqrt_floor(n: nat) -> nat
    decreases n,
{
    if n == 0 {
        0
    } else {
        let r = spec_sqrt_floor((n - 1) as nat);
        if (r + 1) * (r + 1) <= n {
            (r + 1) as nat
        } else {
            r
        }
    }
}

/// `spec_sqrt_floor` is sound: its square is at most `n`, and the next
/// square is beyond `n`.
pub proof fn lemma_sqrt_floor_bounds(n: nat)
    ensures
        spec_sqrt_floor(n) * spec_sqrt_floor(n) <= n,
        n < (spec_sqrt_floor(n) + 1) * (spec_sqrt_floor(n) + 1),
    decreases n,
{
    reveal_with_fuel(spec_sqrt_floor, 2);
    if n == 0 {
        assert(spec_sqrt_floor(0) == 0);
        assert(n < (spec_sqrt_floor(n) + 1) * (spec_sqrt_floor(n) + 1)) by (nonlinear_arith)
            requires
                n == 0,
                spec_sqrt_floor(n) == 0,
        ;
    } else {
        lemma_sqrt_floor_bounds((n - 1) as nat);
        let r = spec_sqrt_floor((n - 1) as nat);
        if (r + 1) * (r + 1) <= n {
            assert(spec_sqrt_floor(n) == r + 1);
            assert(n - 1 < (r + 1) * (r + 1));
            assert(n == (r + 1) * (r + 1));
            assert(n < (spec_sqrt_floor(n) + 1) * (spec_sqrt_floor(n) + 1)) by (nonlinear_arith)
                requires
                    n == (r + 1) * (r + 1),
                    spec_sqrt_floor(n) == r + 1,
            ;
        } else {
            assert(spec_sqrt_floor(n) == r);
            assert(r * r <= n - 1);
            assert(n < (r + 1) * (r + 1));
            assert(n < (spec_sqrt_floor(n) + 1) * (spec_sqrt_floor(n) + 1)) by (nonlinear_arith)
                requires
                    n < (r + 1) * (r + 1),
                    spec_sqrt_floor(n) == r,
            ;
        }
    }
}

/// The bounds of `lemma_sqrt_floor_bounds` pin the root down uniquely.
pub proof fn lemma_sqrt_floor_unique(n: nat, r: nat)
    requires
        r * r <= n,
        n < (r + 1) * (r + 1),
    ensures
        spec_sqrt_floor(n) == r,
{
    let s = spec_sqrt_floor(n);
    lemma_sqrt_floor_bounds(n);
    if s < r {
        assert((s + 1) * (s + 1) <= r * r) by (nonlinear_arith)
            requires
                s + 1 <= r,
        ;
        assert(false);
    }
    if r < s {
        assert((r + 1) * (r + 1) <= s * s) by (nonlinear_arith)
            requires
                r + 1 <= s,
        ;
        assert(false);
    }
}

/// The floor square root never decreases as its argument grows.
pub proof fn lemma_sqrt_floor_monotonic(a: nat, b: nat)
    requires
        a <= b,
    ensures
        spec_sqrt_floor(a) <= spec_sqrt_floor(b),
{
    let ra = spec_sqrt_floor(a);
    let rb = spec_sqrt_floor(b);
    lemma_sqrt_floor_bounds(a);
    lemma_sqrt_floor_bounds(b);
    if rb < ra {
        assert((rb + 1) * (rb + 1) <= ra * ra) by (nonlinear_arith)
            requires
                rb + 1 <= ra,
        ;
        assert(false);
    }
}

/// Floor square root by binary search over the 64-bit candidate range.
pub fn isqrt(n: u128) -> (r: u128)
    ensures
        r == spec_sqrt_floor(n as nat),
{
    let mut lo: u128 = 0;
    let mut hi: u128 = 0x1_0000_0000_0000_0000;
    assert((0x1_0000_0000_0000_0000int) * 0x1_0000_0000_0000_0000int
        == 0x1_0000_0000_0000_0000_0000_0000_0000_0000int);
    while lo + 1 < hi
        invariant
            lo < hi <= 0x1_0000_0000_0000_0000u128,
            (lo as int) * (lo as int) <= n as int,
            (n as int) < (hi as int) * (hi as int),
        decreases hi - lo,
    {
        let mid: u128 = lo + (hi - lo) / 2;
        assert((mid as int) * (mid as int) <= 0xffff_ffff_ffff_ffffint * 0xffff_ffff_ffff_ffffint)
            by (nonlinear_arith)
            requires
                0 <= mid <= 0xffff_ffff_ffff_ffffu128,
        ;
        let sq: u128 = mid * mid;
        if sq <= n {
            lo = mid;
        } else {
            hi = mid;
        }
    }
    proof {
        lemma_sqrt_floor_unique(n as nat, lo as nat);
    }
    lo
}

/// The largest target dimension handed to the resampler. At 2^29 pixels a
/// side, even a square target's pixel buffer stays far below a vector's
/// maximum length.
pub const MAX_DIM: u32 = 0x2000_0000;

/// A raw quotient or root, clamped into the usable dimension range
/// [1, `MAX_DIM`].
pub open spec fn clamp_dim(v: int) -> int {
    if v < 1 {
        1
    } else if v > MAX_DIM {
        MAX_DIM as int
    } else {
        v
    }
}

/// Width-proportional target width: `hundredths` hundredths of a percent of
/// the base width, rounded down, clamped.
pub open spec fn spec_width_target(base_width: int, hundredths: int) -> int {
    clamp_dim(base_width * hundredths / 10000)
}

/// The height that keeps the logo's aspect ratio for a given width,
/// rounded down, clamped.
pub open spec fn spec_height_for_width(width: int, logo_width: int, logo_height: int) -> int {
    clamp_dim(width * logo_height / logo_width)
}

/// Width-proportional model: both target dimensions.
pub open spec fn spec_width_model_dims(
    base_width: int,
    logo_width: int,
    logo_height: int,
    hundredths: int,
) -> (int, int) {
    let w = spec_width_target(base_width, hundredths);
    (w, spec_height_for_width(w, logo_width, logo_height))
}

/// Area-proportional target area: `hundredths` hundredths of a percent of
/// the base area, rounded down.
pub open spec fn spec_area_target(base_width: int, base_height: int, hundredths: int) -> int {
    (base_width * base_height) * hundredths / 10000
}

/// Area-proportional model: the target area is split as
/// width = floor(sqrt(area · ratio)) and height = floor(sqrt(area / ratio)),
/// with the logo's ratio carried as the exact fraction width/height.
pub open spec fn spec_area_model_dims(
    base_width: int,
    base_height: int,
    logo_width: int,
    logo_height: int,
    hundredths: int,
) -> (int, int) {
    let t = spec_area_target(base_width, base_height, hundredths);
    let w = clamp_dim(spec_sqrt_floor((t * logo_width / logo_height) as nat) as int);
    let h = clamp_dim(spec_sqrt_floor((t * logo_height / logo_width) as nat) as int);
    (w, h)
}

/// The target dimensions under either model.
pub open spec fn spec_logo_dimensions(
    model: SizeModel,
    base_width: int,
    base_height: int,
    logo_width: int,
    logo_height: int,
    hundredths: int,
) -> (int, int) {
    match model {
        SizeModel::WidthProportional => spec_width_model_dims(
            base_width,
            logo_width,
            logo_height,
            hundredths,
        ),
        SizeModel::AreaProportional => spec_area_model_dims(
            base_width,
            base_height,
            logo_width,
            logo_height,
            hundredths,
        ),
    }
}

/// Clamping keeps order.
proof fn lemma_clamp_dim_monotonic(a: int, b: int)
    requires
        a <= b,
    ensures
        clamp_dim(a) <= clamp_dim(b),
{
}

/// Under either model, both target dimensions grow monotonically (weakly)
/// with the size percentage: a larger percentage never yields a smaller
/// logo.
pub proof fn lemma_dimensions_monotonic(
    model: SizeModel,
    base_width: u32,
    base_height: u32,
    logo_width: u32,
    logo_height: u32,
    p1: u32,
    p2: u32,
)
    requires
        logo_width >= 1,
        logo_height >= 1,
        p1 <= p2,
    ensures
        spec_logo_dimensions(
            model,
            base_width as int,
            base_height as int,
            logo_width as int,
            logo_height as int,
            p1 as int,
        ).0 <= spec_logo_dimensions(
            model,
            base_width as int,
            base_height as int,
            logo_width as int,
            logo_height as int,
            p2 as int,
        ).0,
        spec_logo_dimensions(
            model,
            base_width as int,
            base_height as int,
            logo_width as int,
            logo_height as int,
            p1 as int,
        ).1 <= spec_logo_dimensions(
            model,
            base_width as int,
            base_height as int,
            logo_width as int,
            logo_height as int,
            p2 as int,
        ).1,
{
    let bw = base_width as int;
    let bh = base_height as int;
    let lw = logo_width as int;
    let lh = logo_height as int;
    match model {
        SizeModel::WidthProportional => {
            assert(bw * p1 <= bw * p2) by (nonlinear_arith)
                requires
                    0 <= bw,
                    p1 <= p2,
            ;
            lemma_div_is_ordered(bw * p1, bw * p2, 10000);
            lemma_clamp_dim_monotonic(bw * p1 / 10000, bw * p2 / 10000);
            let w1 = spec_width_target(bw, p1 as int);
            let w2 = spec_width_target(bw, p2 as int);
            assert(w1 * lh <= w2 * lh) by (nonlinear_arith)
                requires
                    w1 <= w2,
                    0 <= lh,
            ;
            lemma_div_is_ordered(w1 * lh, w2 * lh, lw);
            lemma_clamp_dim_monotonic(w1 * lh / lw, w2 * lh / lw);
        },
        SizeModel::AreaProportional => {
            let a = bw * bh;
            lemma_mul_nonnegative(bw, bh);
            assert(a * p1 <= a * p2) by (nonlinear_arith)
                requires
                    0 <= a,
                    p1 <= p2,
            ;
            lemma_mul_nonnegative(a, p1 as int);
            lemma_div_is_ordered(a * p1, a * p2, 10000);
            lemma_div_pos_is_pos(a * p1, 10000);
            let t1 = spec_area_target(bw, bh, p1 as int);
            let t2 = spec_area_target(bw, bh, p2 as int);
            assert(t1 * lw <= t2 * lw && t1 * lh <= t2 * lh) by (nonlinear_arith)
                requires
                    0 <= t1 <= t2,
                    0 <= lw,
                    0 <= lh,
            ;
            lemma_mul_nonnegative(t1, lw);
            lemma_mul_nonnegative(t1, lh);
            lemma_div_is_ordered(t1 * lw, t2 * lw, lh);
            lemma_div_is_ordered(t1 * lh, t2 * lh, lw);
            lemma_div_pos_is_pos(t1 * lw, lh);
            lemma_div_pos_is_pos(t1 * lh, lw);
            lemma_sqrt_floor_monotonic((t1 * lw / lh) as nat, (t2 * lw / lh) as nat);
            lemma_sqrt_floor_monotonic((t1 * lh / lw) as nat, (t2 * lh / lw) as nat);
            lemma_clamp_dim_monotonic(
                spec_sqrt_floor((t1 * lw / lh) as nat) as int,
                spec_sqrt_floor((t2 * lw / lh) as nat) as int,
            );
            lemma_clamp_dim_monotonic(
                spec_sqrt_floor((t1 * lh / lw) as nat) as int,
                spec_sqrt_floor((t2 * lh / lw) as nat) as int,
            );
        },
    }
}

/// Width-proportional model: whenever the raw width and height formulas lie
/// in the unclamped range [1, `MAX_DIM`] (the hypotheses), the height is
/// exactly the floor of width · logo_height / logo_width, so the result's
/// aspect ratio matches the logo's to within one rounding unit:
/// height · logo_width <= width · logo_height < (height + 1) · logo_width.
/// On clamped inputs the exact floor equality cannot hold — a 10-pixel base
/// at 1 percent floors to width 0 and is clamped to 1 — so those inputs are
/// excluded.
pub proof fn lemma_width_model_aspect_ratio(
    base_width: u32,
    logo_width: u32,
    logo_height: u32,
    hundredths: u32,
)
    requires
        logo_width >= 1,
        logo_height >= 1,
        1 <= base_width as int * hundredths as int / 10000 <= MAX_DIM,
        1 <= spec_width_target(base_width as int, hundredths as int) * logo_height
            / logo_width as int <= MAX_DIM,
    ensures
        ({
            let w = spec_width_model_dims(
                base_width as int,
                logo_width as int,
                logo_height as int,
                hundredths as int,
            ).0;
            let h = spec_width_model_dims(
                base_width as int,
                logo_width as int,
                logo_height as int,
                hundredths as int,
            ).1;
            h * logo_width <= w * logo_height < (h + 1) * logo_width
        }),
{
    let bw = base_width as int;
    let lw = logo_width as int;
    let lh = logo_height as int;
    let p = hundredths as int;
    let w = spec_width_target(bw, p);
    assert(w == bw * p / 10000);
    let q = w * lh / lw;
    let h = spec_width_model_dims(bw, lw, lh, p).1;
    assert(h == q);
    lemma_fundamental_div_mod(w * lh, lw);
    lemma_mod_bound(w * lh, lw);
    assert(w * lh == lw * q + (w * lh) % lw);
    assert(h * lw <= w * lh < (h + 1) * lw) by (nonlinear_arith)
        requires
            w * lh == lw * q + (w * lh) % lw,
            0 <= (w * lh) % lw < lw,
            h == q,
    ;
}

/// Area-proportional model: when neither dimension is clamped, each
/// returned dimension is exactly the floor square root of its share of the
/// target area — the largest integer whose square fits.
pub proof fn lemma_area_model_sqrt_bounds(
    base_width: u32,
    base_height: u32,
    logo_width: u32,
    logo_height: u32,
    hundredths: u32,
)
    requires
        logo_width >= 1,
        logo_height >= 1,
        ({
            let t = spec_area_target(base_width as int, base_height as int, hundredths as int);
            &&& 1 <= spec_sqrt_floor((t * logo_width / logo_height as int) as nat) <= MAX_DIM
            &&& 1 <= spec_sqrt_floor((t * logo_height / logo_width as int) as nat) <= MAX_DIM
        }),
    ensures
        ({
            let t = spec_area_target(base_width as int, base_height as int, hundredths as int);
            let w = spec_area_model_dims(
                base_width as int,
                base_height as int,
                logo_width as int,
                logo_height as int,
                hundredths as int,
            ).0;
            let h = spec_area_model_dims(
                base_width as int,
                base_height as int,
                logo_width as int,
                logo_height as int,
                hundredths as int,
            ).1;
            let qw = (t * logo_width / logo_height as int) as nat;
            let qh = (t * logo_height / logo_width as int) as nat;
            &&& w * w <= qw
            &&& qw < (w + 1) * (w + 1)
            &&& h * h <= qh
            &&& qh < (h + 1) * (h + 1)
        }),
{
    let t = spec_area_target(base_width as int, base_height as int, hundredths as int);
    lemma_sqrt_floor_bounds((t * logo_width / logo_height as int) as nat);
    lemma_sqrt_floor_bounds((t * logo_height / logo_width as int) as nat);
}

/// Target logo dimensions for the chosen model: positive, aspect-preserving
/// up to rounding, and exactly the documented integer formulas.
pub fn calculate_logo_dimensions(
    base_width: u32,
    base_height: u32,
    logo_width: u32,
    logo_height: u32,
    size: SizeSpec,
    model: SizeModel,
) -> (dims: (u32, u32))
    requires
        logo_width >= 1,
        logo_height >= 1,
    ensures
        dims.0 == spec_logo_dimensions(
            model,
            base_width as int,
            base_height as int,
            logo_width as int,
            logo_height as int,
            size.spec_hundredths() as int,
        ).0,
        dims.1 == spec_logo_dimensions(
            model,
            base_width as int,
            base_height as int,
            logo_width as int,
            logo_height as int,
            size.spec_hundredths() as int,
        ).1,
        1 <= dims.0 <= MAX_DIM,
        1 <= dims.1 <= MAX_DIM,
{
    let p = size.hundredths();
    match model {
        SizeModel::WidthProportional => {
            proof {
                lemma_mul_upper_bound(base_width as int, u32::MAX as int, p as int, 10000int);
            }
            let wq: u64 = base_width as u64 * p as u64 / 10000;
            let w: u32 = if wq < 1 {
                1
            } else if wq > MAX_DIM as u64 {
                MAX_DIM
            } else {
                wq as u32
            };
            proof {
                lemma_mul_upper_bound(w as int, u32::MAX as int, logo_height as int, u32::MAX as int);
            }
            let hq: u64 = w as u64 * logo_height as u64 / logo_width as u64;
            let h: u32 = if hq < 1 {
                1
            } else if hq > MAX_DIM as u64 {
                MAX_DIM
            } else {
                hq as u32
            };
            (w, h)
        },
        SizeModel::AreaProportional => {
            proof {
                lemma_mul_upper_bound(
                    base_width as int,
                    u32::MAX as int,
                    base_height as int,
                    u32::MAX as int,
                );
            }
            let area: u128 = base_width as u128 * base_height as u128;
            proof {
                lemma_mul_upper_bound(
                    area as int,
                    u32::MAX as int * u32::MAX as int,
                    p as int,
                    10000int,
                );
                assert(area as int * p as int <= 10000int * (area as int)) by (nonlinear_arith)
                    requires
                        0 <= area as int,
                        p as int <= 10000,
                ;
                lemma_multiply_divide_le(area as int * p as int, 10000int, area as int);
            }
            let t: u128 = area * p as u128 / 10000;
            proof {
                lemma_mul_upper_bound(
                    t as int,
                    u32::MAX as int * u32::MAX as int,
                    logo_width as int,
                    u32::MAX as int,
                );
                lemma_mul_upper_bound(
                    t as int,
                    u32::MAX as int * u32::MAX as int,
                    logo_height as int,
                    u32::MAX as int,
                );
            }
            let wsq: u128 = t * logo_width as u128 / logo_height as u128;
            let hsq: u128 = t * logo_height as u128 / logo_width as u128;
            let wroot: u128 = isqrt(wsq);
            let hroot: u128 = isqrt(hsq);
            let w: u32 = if wroot < 1 {
                1
            } else if wroot > MAX_DIM as u128 {
                MAX_DIM
            } else {
                wroot as u32
            };
            let h: u32 = if hroot < 1 {
                1
            } else if hroot > MAX_DIM as u128 {
                MAX_DIM
            } else {
                hroot as u32
            };
            (w, h)
        },
    }
}

} // verus!
