// Tests for the hit-region classifier. Coordinates are fixed-point ticks:
// a 100-unit bounding box is 100_000 by 100_000. In that box the centered
// square fills it whole, its side's hundredth ("unit") is 1000 ticks, the
// wedge apex line sits at 33_333 and its base line at 62_500.

use square_physics::check_on_image_map;

// The box center lies inside the triangular wedge.
#[test]
fn center_is_inside_wedge() {
    assert!(check_on_image_map(50_000, 50_000, 100_000, 100_000));
}

// Below the wedge's base line, on the center column, is a miss.
#[test]
fn below_wedge_is_outside() {
    assert!(!check_on_image_map(50_000, 90_000, 100_000, 100_000));
}

// Far to the side, the same height hits a side bar.
#[test]
fn side_bar_is_inside() {
    assert!(check_on_image_map(5_000, 90_000, 100_000, 100_000));
}

// The bar begins exactly 30 units from the center line: at that distance the
// point hits, one tick nearer it misses.
#[test]
fn bar_threshold_is_exact() {
    assert!(check_on_image_map(20_000, 90_000, 100_000, 100_000));
    assert!(!check_on_image_map(20_001, 90_000, 100_000, 100_000));
}

// In a wide box the region is confined to the centered square: a point in
// the left margin misses even though it is far from the center line.
#[test]
fn outside_centered_square_is_outside() {
    assert!(!check_on_image_map(10_000, 50_000, 100_000, 200_000));
}

// Near the top, the wedge narrows: a point needs to be farther from the
// center line than the apex gap to hit.
#[test]
fn wedge_narrows_toward_apex() {
    assert!(check_on_image_map(80_000, 10_000, 100_000, 100_000));
    assert!(!check_on_image_map(60_000, 10_000, 100_000, 100_000));
}

// Left/right symmetry: mirroring a bar point across the vertical center
// line keeps the verdict.
#[test]
fn bars_are_symmetric() {
    let w: i64 = 100_000;
    for &(x, y) in &[(5_000_i64, 90_000_i64), (20_000, 90_000), (15_000, 20_000), (0, 50_000)] {
        assert_eq!(
            check_on_image_map(x, y, 100_000, w),
            check_on_image_map(w - x, y, 100_000, w),
        );
    }
}

// A tiny box: its unit rounds down to zero, so the bars cover the whole
// band below the wedge.
#[test]
fn tiny_box_bars_cover_everything() {
    assert!(check_on_image_map(20, 39, 40, 40));
}
