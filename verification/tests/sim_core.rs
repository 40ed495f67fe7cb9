//! Scalar, angle and context-level behavior.

use asteroids_core::GameData;
use asteroids_core::angle::{cos_milli, facing, sin_milli};
use asteroids_core::units::{Vec2, clamp_i64, wrap_axis};

#[test]
fn half_extents_are_half_the_window() {
    let data = GameData::new(800_000, 600_000);
    assert_eq!(data.window.width_boundary, 400_000);
    assert_eq!(data.window.height_boundary, 300_000);
    assert_eq!(data.score, 0);
}

#[test]
fn wrap_is_exact_past_the_boundary() {
    // One milli-unit past the half-extent snaps exactly to the
    // opposite edge, not to the opposite edge plus the overshoot.
    assert_eq!(wrap_axis(400_001, 400_000), -400_000);
    assert_eq!(wrap_axis(437_500, 400_000), -400_000);
    assert_eq!(wrap_axis(-400_001, 400_000), 400_000);
}

#[test]
fn wrap_leaves_the_field_untouched() {
    assert_eq!(wrap_axis(400_000, 400_000), 400_000);
    assert_eq!(wrap_axis(-400_000, 400_000), -400_000);
    assert_eq!(wrap_axis(123, 400_000), 123);
    assert_eq!(wrap_axis(0, 0), 0);
}

#[test]
fn clamp_bounds_and_is_idempotent() {
    assert_eq!(clamp_i64(70_000, -50_000, 50_000), 50_000);
    assert_eq!(clamp_i64(-70_000, -50_000, 50_000), -50_000);
    assert_eq!(clamp_i64(12_345, -50_000, 50_000), 12_345);
    let once = clamp_i64(70_000, -50_000, 50_000);
    assert_eq!(clamp_i64(once, -50_000, 50_000), once);
}

#[test]
fn sine_is_exact_on_the_cardinal_and_thirty_degree_angles() {
    assert_eq!(sin_milli(0), 0);
    assert_eq!(sin_milli(30_000), 500);
    assert_eq!(sin_milli(90_000), 1000);
    assert_eq!(sin_milli(150_000), 500);
    assert_eq!(sin_milli(180_000), 0);
    assert_eq!(sin_milli(210_000), -500);
    assert_eq!(sin_milli(270_000), -1000);
    assert_eq!(cos_milli(0), 1000);
    assert_eq!(cos_milli(90_000), 0);
    assert_eq!(cos_milli(180_000), -1000);
}

#[test]
fn sine_stays_in_the_milli_unit_range() {
    let mut d: i64 = 0;
    while d < 360_000 {
        let s = sin_milli(d);
        assert!(-1000 <= s && s <= 1000);
        d += 7_321;
    }
    // The forty-five degree diagonal is close to the true value.
    assert_eq!(sin_milli(45_000), 705);
}

#[test]
fn facing_rotates_the_up_axis_counterclockwise() {
    assert_eq!(facing(0), Vec2 { x: 0, y: 1000 });
    assert_eq!(facing(90_000), Vec2 { x: -1000, y: 0 });
    assert_eq!(facing(180_000), Vec2 { x: 0, y: -1000 });
    assert_eq!(facing(270_000), Vec2 { x: 1000, y: 0 });
}
