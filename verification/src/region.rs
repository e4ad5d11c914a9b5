//! The hit-region classifier: whether a point falls inside a stylized
//! logo-shaped region, drawn in a square centered in a bounding box.
//!
//! The region lives in the centered square whose side is the smaller of the
//! two bounding-box dimensions. Inside it, a point hits either a triangular
//! wedge around the vertical center line or one of the two side bars; the
//! wedge bounds come from the f32 ratio tests of the original artwork,
//! rewritten as sign-safe comparisons.
//!
//! Coordinates are fixed-point: an `i64` counts thousandths of a unit.

use vstd::prelude::*;

use crate::num::div_t;
use crate::num::div_trunc;
use crate::num::mag;

verus! {

/// Largest coordinate magnitude the classifier accepts, in ticks.
pub const REGION_LIMIT: i64 = 100_000_000;

/// The smaller of the two bounding-box dimensions.
pub open spec fn side_of(height: int, width: int) -> int {
    if height < width {
        height
    } else {
        width
    }
}

/// The region membership predicate. With `s` the centered square's side,
/// `xc, yc` the box center, `dx` the horizontal distance from the center
/// line, `apex = yc / 1.5` and `base = yc + yc / 4`:
/// - outside the centered square: no hit;
/// - wedge: below the apex line, or nearer the center line than the apex
///   gap, and above the base line by more than `dx`: hit;
/// - bars: at least `30` hundredths of the square's side away from the
///   center line: hit;
/// - otherwise: no hit.
pub open spec fn contains_spec(x: int, y: int, height: int, width: int) -> bool {
    let s: int = side_of(height, width);
    let xo: int = div_t(width - s, 2);
    let yo: int = div_t(height - s, 2);
    let xc: int = div_t(width, 2);
    let yc: int = div_t(height, 2);
    let unit: int = div_t(s, 100);
    let dx: int = mag(x - xc);
    let apex: int = div_t(2 * yc, 3);
    let base: int = yc + div_t(yc, 4);
    if x < xo || x > width - xo || y < yo || y > height - yo {
        false
    } else if (y > apex || (y < apex && dx > apex - y)) && (y < base && dx < base - y) {
        true
    } else if dx >= 30 * unit {
        true
    } else {
        false
    }
}

/// Whether the point `(x, y)` falls inside the hit region of a bounding box
/// of the given dimensions. Pure and total over its domain; the result is
/// exactly `contains_spec`.
pub fn check_on_image_map(x: i64, y: i64, height: i64, width: i64) -> (r: bool)
    requires
        -REGION_LIMIT <= x <= REGION_LIMIT,
        -REGION_LIMIT <= y <= REGION_LIMIT,
        -REGION_LIMIT <= height <= REGION_LIMIT,
        -REGION_LIMIT <= width <= REGION_LIMIT,
    ensures
        r == contains_spec(x as int, y as int, height as int, width as int),
{
    let s: i64 = if height < width {
        height
    } else {
        width
    };
    let xo: i64 = div_trunc(width - s, 2);
    let yo: i64 = div_trunc(height - s, 2);
    let xc: i64 = div_trunc(width, 2);
    let yc: i64 = div_trunc(height, 2);
    let unit: i64 = div_trunc(s, 100);
    proof {
        crate::num::lemma_div_t_mag((width - s) as int, 2);
        crate::num::lemma_div_t_mag((height - s) as int, 2);
        crate::num::lemma_div_t_mag(width as int, 2);
        crate::num::lemma_div_t_mag(height as int, 2);
        crate::num::lemma_div_t_mag(s as int, 100);
    }
    let dx: i64 = crate::physics::mag64(x - xc);
    let apex: i64 = div_trunc(2 * yc, 3);
    let base: i64 = yc + div_trunc(yc, 4);
    proof {
        crate::num::lemma_div_t_mag(2 * yc as int, 3);
        crate::num::lemma_div_t_mag(yc as int, 4);
    }
    if x < xo || x > width - xo || y < yo || y > height - yo {
        false
    } else if (y > apex || (y < apex && dx > apex - y)) && (y < base && dx < base - y) {
        true
    } else if dx >= 30 * unit {
        true
    } else {
        false
    }
}

/// Left/right symmetry of the hit map: mirroring a point across the vertical
/// center line does not change the verdict. Stated, as the bar region asks,
/// for points at least `30` hundredths of the square's side from the center
/// line; an even width (in ticks) keeps the mirrored distance exact. (With an
/// odd width the integer center falls half a tick left of the true center and
/// the mirrored distance shifts by one.)
pub proof fn lemma_bars_symmetric(x: int, y: int, height: int, width: int)
    requires
        width % 2 == 0,
        mag(x - div_t(width, 2)) >= 30 * div_t(side_of(height, width), 100),
    ensures
        contains_spec(x, y, height, width) == contains_spec(width - x, y, height, width),
{
    let xc: int = div_t(width, 2);
    assert(2 * xc == width) by {
        if width >= 0 {
            vstd::arithmetic::div_mod::lemma_fundamental_div_mod(width, 2);
        } else {
            vstd::arithmetic::div_mod::lemma_fundamental_div_mod(-width, 2);
            assert((-width) % 2 == 0) by {
                vstd::arithmetic::div_mod::lemma_mod_neg_neg(width, 2);
            }
        }
    }
    assert(mag((width - x) - xc) == mag(x - xc));
}

} // verus!
