//! Orientation angles and the unit direction they face.
//!
//! Angles are milli-degrees in `[0, 360_000)`. The facing vector uses a
//! rational approximation of the sine, exact on the cardinal directions
//! and at thirty-degree multiples, and always within the unit box.

use crate::units::Vec2;
use crate::units::unit_box;
use vstd::arithmetic::div_mod::{
    lemma_div_is_ordered, lemma_div_multiples_vanish, lemma_div_pos_is_pos,
    lemma_fundamental_div_mod, lemma_fundamental_div_mod_converse, lemma_mod_pos_bound,
};
use vstd::prelude::*;

verus! {

/// Milli-degrees in a full turn.
pub const TURN_MD: i64 = 360_000;

/// Milli-degrees in a half turn.
pub const HALF_TURN_MD: i64 = 180_000;

/// Milli-degrees in a quarter turn.
pub const QUARTER_TURN_MD: i64 = 90_000;

/// The quadratic kernel of the sine approximation.
pub open spec fn sin_kernel(d: int) -> int {
    d * (180_000 - d)
}

/// Sine on a half turn, in milli-units, for `d` in `[0, 180_000]`:
/// a rational function of the angle, exact at 0, 30, 90, 150 and 180
/// degrees and within `[0, 1000]` throughout.
pub open spec fn sin_half_md(d: int) -> int {
    4000 * sin_kernel(d) / (40_500_000_000 - sin_kernel(d))
}

/// Sine over a full turn, in milli-units, for `d` in `[0, 360_000)`.
pub open spec fn sin_md(d: int) -> int {
    if d <= 180_000 {
        sin_half_md(d)
    } else {
        -sin_half_md(d - 180_000)
    }
}

/// The angle a quarter turn ahead of `d`, kept inside `[0, 360_000)`.
pub open spec fn shift_quarter(d: int) -> int {
    if d < 270_000 {
        d + 90_000
    } else {
        d - 270_000
    }
}

/// Cosine over a full turn, in milli-units.
pub open spec fn cos_md(d: int) -> int {
    sin_md(shift_quarter(d))
}

/// The unit vector an entity facing `d` points along: the world up axis
/// rotated counterclockwise by `d`.
pub open spec fn facing_of(d: int) -> Vec2 {
    Vec2 { x: (-sin_md(d)) as i64, y: cos_md(d) as i64 }
}

/// `raw` brought back into `[0, 360_000)` by whole turns.
pub open spec fn norm_md(raw: int) -> int {
    raw % 360_000
}

/// The sine kernel stays within `[0, 8_100_000_000]` on a half turn.
proof fn lemma_kernel_bound(d: int)
    requires
        0 <= d <= 180_000,
    ensures
        0 <= sin_kernel(d) <= 8_100_000_000,
{
    assert(0 <= d * (180_000 - d) <= 8_100_000_000) by (nonlinear_arith)
        requires
            0 <= d <= 180_000,
    ;
}

/// The half-turn sine stays within `[0, 1000]`.
pub proof fn lemma_sin_half_range(d: int)
    requires
        0 <= d <= 180_000,
    ensures
        0 <= sin_half_md(d) <= 1000,
{
    lemma_kernel_bound(d);
    let num = 4000 * sin_kernel(d);
    let den = 40_500_000_000 - sin_kernel(d);
    lemma_div_pos_is_pos(num, den);
    lemma_div_is_ordered(num, den * 1000, den);
    lemma_div_multiples_vanish(1000, den);
}

/// The sine stays within the milli unit range over the whole turn.
pub proof fn lemma_sin_range(d: int)
    requires
        0 <= d < 360_000,
    ensures
        -1000 <= sin_md(d) <= 1000,
{
    if d <= 180_000 {
        lemma_sin_half_range(d);
    } else {
        lemma_sin_half_range(d - 180_000);
    }
}

/// The facing vector lies in the unit box, whatever the angle.
pub proof fn lemma_facing_unit(d: int)
    requires
        0 <= d < 360_000,
    ensures
        unit_box(facing_of(d)),
        facing_of(d).x == -sin_md(d),
        facing_of(d).y == cos_md(d),
{
    lemma_sin_range(d);
    lemma_sin_range(shift_quarter(d));
}

/// The four cardinal facings are exact: up, left, down, right.
pub proof fn lemma_cardinal_facings()
    ensures
        facing_of(0) == (Vec2 { x: 0, y: 1000 }),
        facing_of(90_000) == (Vec2 { x: -1000i64, y: 0 }),
        facing_of(180_000) == (Vec2 { x: 0, y: -1000i64 }),
        facing_of(270_000) == (Vec2 { x: 1000, y: 0 }),
{
    assert(sin_kernel(0) == 0);
    assert(sin_kernel(90_000) == 8_100_000_000);
    assert(sin_kernel(180_000) == 0);
    assert(sin_half_md(0) == 0) by {
        lemma_div_pos_is_pos(0, 40_500_000_000);
        assert(0int / 40_500_000_000int == 0);
    }
    assert(sin_half_md(90_000) == 1000) by {
        lemma_div_multiples_vanish(1000, 32_400_000_000);
        assert(32_400_000_000int * 1000 == 32_400_000_000_000);
    }
    assert(sin_half_md(180_000) == 0);
}

/// Half-turn sine of an angle, in milli-units.
fn sin_half(d: i64) -> (r: i64)
    requires
        0 <= d <= 180_000,
    ensures
        r == sin_half_md(d as int),
        0 <= r <= 1000,
{
    proof {
        lemma_kernel_bound(d as int);
        lemma_sin_half_range(d as int);
    }
    let p: i64 = d * (180_000 - d);
    let num: i64 = 4000 * p;
    let den: i64 = 40_500_000_000 - p;
    let q: u64 = (num as u64) / (den as u64);
    q as i64
}

/// Sine of an angle, in milli-units.
pub fn sin_milli(d: i64) -> (r: i64)
    requires
        0 <= d < 360_000,
    ensures
        r == sin_md(d as int),
        -1000 <= r <= 1000,
{
    if d <= 180_000 {
        sin_half(d)
    } else {
        -sin_half(d - 180_000)
    }
}

/// Cosine of an angle, in milli-units.
pub fn cos_milli(d: i64) -> (r: i64)
    requires
        0 <= d < 360_000,
    ensures
        r == cos_md(d as int),
        -1000 <= r <= 1000,
{
    let shifted: i64 = if d < 270_000 {
        d + 90_000
    } else {
        d - 270_000
    };
    sin_milli(shifted)
}

/// The unit vector an entity with orientation `d` points along.
pub fn facing(d: i64) -> (r: Vec2)
    requires
        0 <= d < 360_000,
    ensures
        r == facing_of(d as int),
        unit_box(r),
{
    proof {
        lemma_facing_unit(d as int);
    }
    let sx: i64 = sin_milli(d);
    let cy: i64 = cos_milli(d);
    Vec2 { x: -sx, y: cy }
}

/// Bring a raw angle back into `[0, 360_000)` by whole turns.
pub fn norm_angle(raw: i64) -> (r: i64)
    requires
        -4_000_000_000_000 <= raw <= 4_000_000_000_000,
    ensures
        r == norm_md(raw as int),
        0 <= r < 360_000,
{
    if raw >= 0 {
        proof {
            lemma_mod_pos_bound(raw as int, 360_000);
        }
        let q: u64 = (raw as u64) % 360_000;
        q as i64
    } else {
        proof {
            lemma_mod_pos_bound(-raw as int, 360_000);
        }
        let m: u64 = ((-raw) as u64) % 360_000;
        if m == 0 {
            proof {
                lemma_fundamental_div_mod(-raw as int, 360_000);
                let q = (-raw as int) / 360_000;
                lemma_fundamental_div_mod_converse(raw as int, 360_000, -q, 0);
            }
            0
        } else {
            proof {
                lemma_fundamental_div_mod(-raw as int, 360_000);
                let q = (-raw as int) / 360_000;
                lemma_fundamental_div_mod_converse(
                    raw as int,
                    360_000,
                    -q - 1,
                    360_000 - (m as int),
                );
            }
            360_000 - (m as i64)
        }
    }
}

} // verus!
