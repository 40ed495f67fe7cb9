//! Fixed-point scalars and the motion arithmetic shared by every system.
//!
//! Lengths are milli-units, speeds milli-units per second, time
//! milliseconds. All operations are exact integer arithmetic; division
//! truncates toward zero as Rust's `/` does on machine integers.

use vstd::arithmetic::div_mod::{
    lemma_div_is_ordered, lemma_div_multiples_vanish, lemma_div_nonincreasing,
    lemma_div_pos_is_pos,
};
use vstd::prelude::*;

verus! {

/// Largest magnitude a coordinate or half-extent may take, in milli-units.
pub const COORD_LIMIT: i64 = 1_000_000_000;

/// Largest magnitude a configured speed or acceleration may take,
/// in milli-units per second.
pub const SPEED_LIMIT: i64 = 1_000_000_000;

/// Largest rotation speed, in milli-degrees per second.
pub const ROT_LIMIT: i64 = 1_000_000_000;

/// Largest per-tick elapsed time, in milliseconds.
pub const DT_LIMIT: i64 = 1_000_000;

/// Largest timer period or lifetime, in milliseconds.
pub const TIME_LIMIT: i64 = 1_000_000_000_000;

/// A planar point or direction in milli-units.
#[derive(Clone, Copy, Debug, PartialEq, Eq, Structural)]
pub struct Vec2 {
    pub x: i64,
    pub y: i64,
}

/// World placement of an entity; the simulation only moves points,
/// so a transform is its translation.
#[derive(Clone, Copy, Debug, PartialEq, Eq, Structural)]
pub struct Transform {
    pub translation: Vec2,
}

/// Both components lie within one unit of the origin; holds for every
/// direction vector the simulation stores.
pub open spec fn unit_box(v: Vec2) -> bool {
    &&& -1000 <= v.x <= 1000
    &&& -1000 <= v.y <= 1000
}

/// Division truncating toward zero for a positive divisor: the value
/// Rust's `/` computes on machine integers.
pub open spec fn div_trunc(a: int, b: int) -> int {
    if a >= 0 {
        a / b
    } else {
        -((-a) / b)
    }
}

/// The magnitude of `v`.
pub open spec fn abs_spec(v: int) -> int {
    if v >= 0 {
        v
    } else {
        -v
    }
}

/// `v` clamped into `[lo, hi]`.
pub open spec fn clamp_spec(v: int, lo: int, hi: int) -> int {
    if v < lo {
        lo
    } else if v > hi {
        hi
    } else {
        v
    }
}

/// One axis of the boundary teleport: a coordinate beyond a half-extent
/// snaps to the opposite edge, anything inside is untouched.
pub open spec fn wrap_spec(x: int, bound: int) -> int {
    if x > bound {
        -bound
    } else if x < -bound {
        bound
    } else {
        x
    }
}

/// Distance covered on one axis during one tick: direction component
/// (milli) times speed (milli-units per second) times elapsed time
/// (milliseconds), brought back to milli-units.
pub open spec fn axis_delta(dir: int, speed: int, dt_ms: int) -> int {
    div_trunc(dir * speed * dt_ms, 1_000_000)
}

/// Clamp an `i64` into `[lo, hi]`.
pub fn clamp_i64(v: i64, lo: i64, hi: i64) -> (r: i64)
    requires
        lo <= hi,
    ensures
        r == clamp_spec(v as int, lo as int, hi as int),
        lo <= r <= hi,
{
    if v < lo {
        lo
    } else if v > hi {
        hi
    } else {
        v
    }
}

/// Law: the clamp is idempotent; clamping an already clamped value
/// changes nothing.
pub proof fn lemma_clamp_idempotent(v: int, lo: int, hi: int)
    requires
        lo <= hi,
    ensures
        clamp_spec(clamp_spec(v, lo, hi), lo, hi) == clamp_spec(v, lo, hi),
{
}

/// Divide by a positive divisor, truncating toward zero.
pub fn div_trunc_i64(a: i64, b: i64) -> (r: i64)
    requires
        b > 0,
        a > i64::MIN,
    ensures
        r == div_trunc(a as int, b as int),
        a >= 0 ==> 0 <= r <= a,
        a < 0 ==> a <= r <= 0,
{
    if a >= 0 {
        let q: u64 = (a as u64) / (b as u64);
        proof {
            lemma_div_pos_is_pos(a as int, b as int);
            lemma_div_nonincreasing(a as int, b as int);
        }
        q as i64
    } else {
        let m: i64 = -a;
        let q: u64 = (m as u64) / (b as u64);
        proof {
            lemma_div_pos_is_pos(m as int, b as int);
            lemma_div_nonincreasing(m as int, b as int);
        }
        -(q as i64)
    }
}

/// One axis of the per-tick translation.
pub fn motion_delta(dir: i64, speed: i64, dt_ms: i64) -> (r: i64)
    requires
        -1000 <= dir <= 1000,
        -4 * SPEED_LIMIT <= speed <= 4 * SPEED_LIMIT,
        0 <= dt_ms <= DT_LIMIT,
    ensures
        r == axis_delta(dir as int, speed as int, dt_ms as int),
        -4_000_000_000_000 <= r <= 4_000_000_000_000,
{
    proof {
        lemma_delta_bound(dir as int, speed as int, dt_ms as int);
    }
    let prod: i64 = dir * speed * dt_ms;
    div_trunc_i64(prod, 1_000_000)
}

/// The per-axis delta of one tick never exceeds four million units in
/// magnitude under the global machine limits.
pub proof fn lemma_delta_bound(dir: int, speed: int, dt_ms: int)
    requires
        -1000 <= dir <= 1000,
        -4 * SPEED_LIMIT <= speed <= 4 * SPEED_LIMIT,
        0 <= dt_ms <= DT_LIMIT,
    ensures
        -4_000_000_000_000 <= dir * speed <= 4_000_000_000_000,
        -4_000_000_000_000_000_000 <= dir * speed * dt_ms <= 4_000_000_000_000_000_000,
        -4_000_000_000_000 <= axis_delta(dir, speed, dt_ms) <= 4_000_000_000_000,
{
    assert(-4_000_000_000_000 <= dir * speed <= 4_000_000_000_000
        && -4_000_000_000_000_000_000 <= dir * speed * dt_ms <= 4_000_000_000_000_000_000)
        by (nonlinear_arith)
        requires
            -1000 <= dir <= 1000,
            -4_000_000_000 <= speed <= 4_000_000_000,
            0 <= dt_ms <= 1_000_000,
    ;
    let p = dir * speed * dt_ms;
    if p >= 0 {
        lemma_div_is_ordered(p, 4_000_000_000_000_000_000, 1_000_000);
        lemma_div_multiples_vanish(4_000_000_000_000, 1_000_000);
        lemma_div_pos_is_pos(p, 1_000_000);
    } else {
        lemma_div_is_ordered(-p, 4_000_000_000_000_000_000, 1_000_000);
        lemma_div_multiples_vanish(4_000_000_000_000, 1_000_000);
        lemma_div_pos_is_pos(-p, 1_000_000);
    }
}

/// Wrap one coordinate at a half-extent.
pub fn wrap_axis(x: i64, bound: i64) -> (r: i64)
    requires
        0 <= bound,
        -i64::MAX <= x <= i64::MAX,
    ensures
        r == wrap_spec(x as int, bound as int),
        -bound <= r <= bound,
{
    if x > bound {
        -bound
    } else if x < -bound {
        bound
    } else {
        x
    }
}

/// Boundary wrap is exact: a coordinate past a half-extent, by however
/// small a margin, lands exactly on the opposite edge, and a coordinate
/// inside the field is left untouched.
pub proof fn lemma_wrap_exact(x: int, bound: int)
    requires
        0 <= bound,
    ensures
        x > bound ==> wrap_spec(x, bound) == -bound,
        x < -bound ==> wrap_spec(x, bound) == bound,
        -bound <= x <= bound ==> wrap_spec(x, bound) == x,
        -bound <= wrap_spec(x, bound) <= bound,
{
}

} // verus!
