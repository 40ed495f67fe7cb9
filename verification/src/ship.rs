//! The ship controller: per-tick kinematics of the single player ship.
//!
//! Each tick applies, in order: rotation, thrust, the speed clamp, the
//! periodic passive decay, position integration and the boundary wrap.

pub mod projectile;

use crate::InputSnapshot;
use crate::WindowData;
use crate::angle::{facing, facing_of, norm_angle, norm_md};
use crate::units::{
    DT_LIMIT, ROT_LIMIT, SPEED_LIMIT, TIME_LIMIT, Transform, Vec2, abs_spec, axis_delta,
    clamp_i64, clamp_spec, div_trunc, div_trunc_i64, motion_delta, unit_box, wrap_axis, wrap_spec,
};
use crate::wf_window;
use vstd::arithmetic::div_mod::{
    lemma_div_is_ordered, lemma_div_multiples_vanish, lemma_mod_bound, lemma_mod_pos_bound,
};
use vstd::prelude::*;

verus! {

/// Period of the passive speed decay timer, in milliseconds.
pub const DECAY_PERIOD_MS: i64 = 300;

/// Rotation speed of the ship: one full turn per second, in
/// milli-degrees per second.
pub const SHIP_ROTATION_SPEED: i64 = 360_000;

/// Ship tuning parameters, loaded once at startup.
#[derive(Clone, Copy, Debug, PartialEq, Eq, Structural)]
pub struct ShipInformation {
    pub max_speed: i64,
    pub acceleration: i64,
}

/// The kinematic state of the player ship.
///
/// `heading_direction` is the committed forward axis used for position
/// integration; it is re-derived from the orientation only while thrust
/// is held. `rotation_direction` always faces the current orientation.
#[derive(Clone, Copy, Debug, PartialEq, Eq, Structural)]
pub struct Ship {
    pub max_speed: i64,
    pub acceleration: i64,
    pub heading_direction: Vec2,
    pub current_speed: i64,
    pub rotation_speed: i64,
    pub rotation_direction: Vec2,
    pub orientation: i64,
}

/// The repeating timer that paces the passive speed decay.
#[derive(Clone, Copy, Debug, PartialEq, Eq, Structural)]
pub struct VelocityTimer {
    pub elapsed_ms: i64,
    pub period_ms: i64,
}

/// The ship with its placement and decay timer: the one entity the
/// ship controller owns.
#[derive(Clone, Copy, Debug, PartialEq, Eq, Structural)]
pub struct ShipEntity {
    pub ship: Ship,
    pub transform: Transform,
    pub velocity_timer: VelocityTimer,
}

/// Tuning parameters are non-negative and within the machine limits.
pub open spec fn wf_ship_information(info: ShipInformation) -> bool {
    &&& 0 <= info.max_speed <= SPEED_LIMIT
    &&& 0 <= info.acceleration <= SPEED_LIMIT
}

/// Well-formed ship state: parameters in range, both direction vectors
/// in the unit box, the orientation normalized, and the speed within
/// one decay overshoot of the configured top speed.
pub open spec fn wf_ship(s: Ship) -> bool {
    &&& 0 <= s.max_speed <= SPEED_LIMIT
    &&& 0 <= s.acceleration <= SPEED_LIMIT
    &&& 0 <= s.rotation_speed <= ROT_LIMIT
    &&& -(s.max_speed + s.acceleration) <= s.current_speed <= s.max_speed + s.acceleration
    &&& unit_box(s.heading_direction)
    &&& unit_box(s.rotation_direction)
    &&& 0 <= s.orientation < 360_000
}

/// The decay timer has a positive period and an elapsed time inside it.
pub open spec fn wf_timer(t: VelocityTimer) -> bool {
    &&& 0 < t.period_ms <= TIME_LIMIT
    &&& 0 <= t.elapsed_ms < t.period_ms
}

/// The placement lies inside the boundary box.
pub open spec fn in_field(t: Transform, w: WindowData) -> bool {
    &&& -w.width_boundary <= t.translation.x <= w.width_boundary
    &&& -w.height_boundary <= t.translation.y <= w.height_boundary
}

/// A well-formed ship entity for a given boundary box.
pub open spec fn wf_ship_entity(e: ShipEntity, w: WindowData) -> bool {
    &&& wf_ship(e.ship)
    &&& wf_timer(e.velocity_timer)
    &&& in_field(e.transform, w)
}

/// The ship a fresh session starts with: at rest, facing the world up
/// axis, with the configured tuning parameters.
pub open spec fn ship_initial(info: ShipInformation) -> Ship {
    Ship {
        max_speed: info.max_speed,
        acceleration: info.acceleration,
        heading_direction: Vec2 { x: 0, y: 1000 },
        current_speed: 0,
        rotation_speed: SHIP_ROTATION_SPEED,
        rotation_direction: Vec2 { x: 0, y: 1000 },
        orientation: 0,
    }
}

/// The initial ship entity: centered, with a fresh decay timer.
pub open spec fn ship_entity_initial(info: ShipInformation) -> ShipEntity {
    ShipEntity {
        ship: ship_initial(info),
        transform: Transform { translation: Vec2 { x: 0, y: 0 } },
        velocity_timer: VelocityTimer { elapsed_ms: 0, period_ms: DECAY_PERIOD_MS },
    }
}

impl Ship {
    /// The ship a configuration describes, before any tick has run.
    pub fn from(info: ShipInformation) -> (s: Ship)
        requires
            wf_ship_information(info),
        ensures
            s == ship_initial(info),
            wf_ship(s),
    {
        Ship {
            max_speed: info.max_speed,
            acceleration: info.acceleration,
            heading_direction: Vec2 { x: 0, y: 1000 },
            current_speed: 0,
            rotation_speed: SHIP_ROTATION_SPEED,
            rotation_direction: Vec2 { x: 0, y: 1000 },
            orientation: 0,
        }
    }
}

/// Spawn the singleton ship at the center of the field, at rest, with
/// a fresh decay timer.
pub fn setup(game: &mut crate::game::Game, info: ShipInformation)
    requires
        wf_ship_information(info),
    ensures
        final(game).ship == Some(ship_entity_initial(info)),
        final(game).data == old(game).data,
        final(game).projectiles@ == old(game).projectiles@,
        final(game).asteroids@ == old(game).asteroids@,
        final(game).projectile_load == old(game).projectile_load,
        final(game).next_id == old(game).next_id,
        final(game).fire_was_pressed == old(game).fire_was_pressed,
        wf_window(old(game).data.window) ==> wf_ship_entity(
            ship_entity_initial(info),
            final(game).data.window,
        ),
{
    let ship = Ship::from(info);
    game.ship = Some(
        ShipEntity {
            ship,
            transform: Transform { translation: Vec2 { x: 0, y: 0 } },
            velocity_timer: VelocityTimer { elapsed_ms: 0, period_ms: DECAY_PERIOD_MS },
        },
    );
}

/// The ship subsystem: its build step installs the projectile
/// subsystem and spawns the ship; kinematics run from the game's tick.
pub struct ShipPlugin;

impl ShipPlugin {
    /// Install the ship subsystem, and with it the projectile
    /// subsystem, into a game.
    pub fn build(
        &self,
        game: &mut crate::game::Game,
        ship_info: ShipInformation,
        projectile_info: &crate::ship::projectile::ProjectileInfo,
    )
        requires
            wf_ship_information(ship_info),
        ensures
            final(game).ship == Some(ship_entity_initial(ship_info)),
            final(game).projectile_load == Some(
                crate::ship::projectile::load_of(*projectile_info),
            ),
            final(game).data == old(game).data,
            final(game).projectiles@ == old(game).projectiles@,
            final(game).asteroids@ == old(game).asteroids@,
            final(game).next_id == old(game).next_id,
            final(game).fire_was_pressed == old(game).fire_was_pressed,
            wf_window(old(game).data.window) ==> wf_ship_entity(
                ship_entity_initial(ship_info),
                final(game).data.window,
            ),
    {
        let projectile_plugin = crate::ship::projectile::ProjectilePlugin;
        projectile_plugin.build(game, projectile_info);
        setup(game, ship_info);
    }
}

/// Net rotation input: +1 for left, -1 for right, 0 when both or
/// neither are held.
pub open spec fn rotation_factor(inp: InputSnapshot) -> int {
    (if inp.rotate_left {
        1int
    } else {
        0int
    }) - (if inp.rotate_right {
        1int
    } else {
        0int
    })
}

/// Orientation after one tick of rotation input, normalized.
pub open spec fn orientation_after(s: Ship, inp: InputSnapshot, dt: int) -> int {
    norm_md(s.orientation + rotation_factor(inp) * div_trunc(s.rotation_speed * dt, 1000))
}

/// The facing vector of the post-rotation orientation.
pub open spec fn rotation_direction_after(s: Ship, inp: InputSnapshot, dt: int) -> Vec2 {
    facing_of(orientation_after(s, inp, dt))
}

/// Speed after the thrust step: forward zeroes a negative speed and
/// adds the full acceleration; backward mirrors it; otherwise the speed
/// is untouched. The increment is per tick, not scaled by elapsed time.
pub open spec fn thrust_speed(speed: int, accel: int, inp: InputSnapshot) -> int {
    if inp.forward {
        (if speed < 0 {
            0int
        } else {
            speed
        }) + accel
    } else if inp.backward {
        (if speed > 0 {
            0int
        } else {
            speed
        }) - accel
    } else {
        speed
    }
}

/// The committed forward axis after the thrust step: re-derived from
/// the new orientation while thrust is held, otherwise frozen.
pub open spec fn heading_after(s: Ship, inp: InputSnapshot, dt: int) -> Vec2 {
    if inp.forward || inp.backward {
        rotation_direction_after(s, inp, dt)
    } else {
        s.heading_direction
    }
}

/// Speed after thrust and the clamp into `[-max_speed, max_speed]`.
pub open spec fn clamped_speed(s: Ship, inp: InputSnapshot) -> int {
    clamp_spec(
        thrust_speed(s.current_speed as int, s.acceleration as int, inp),
        -s.max_speed as int,
        s.max_speed as int,
    )
}

/// Whether the decay timer fires during this tick.
pub open spec fn timer_fires(t: VelocityTimer, dt: int) -> bool {
    t.elapsed_ms + dt >= t.period_ms
}

/// The decay timer after one tick: it accumulates elapsed time and
/// wraps by whole periods when it fires.
pub open spec fn timer_after(t: VelocityTimer, dt: int) -> VelocityTimer {
    VelocityTimer {
        elapsed_ms: (if timer_fires(t, dt) {
            (t.elapsed_ms + dt) % (t.period_ms as int)
        } else {
            t.elapsed_ms + dt
        }) as i64,
        period_ms: t.period_ms,
    }
}

/// One step of passive decay: the speed moves toward zero by the full
/// acceleration; a speed smaller than the acceleration overshoots zero.
pub open spec fn decay_spec(v: int, a: int) -> int {
    if v > 0 {
        v - a
    } else if v < 0 {
        v + a
    } else {
        v
    }
}

/// Speed at the end of the tick: thrust, clamp, then one decay step if
/// the timer fired and no thrust was held.
pub open spec fn speed_after(s: Ship, t: VelocityTimer, inp: InputSnapshot, dt: int) -> int {
    let c = clamped_speed(s, inp);
    if timer_fires(t, dt) && !inp.forward && !inp.backward {
        decay_spec(c, s.acceleration as int)
    } else {
        c
    }
}

/// The full ship state at the end of one tick.
pub open spec fn ship_after(s: Ship, t: VelocityTimer, inp: InputSnapshot, dt: int) -> Ship {
    Ship {
        max_speed: s.max_speed,
        acceleration: s.acceleration,
        heading_direction: heading_after(s, inp, dt),
        current_speed: speed_after(s, t, inp, dt) as i64,
        rotation_speed: s.rotation_speed,
        rotation_direction: rotation_direction_after(s, inp, dt),
        orientation: orientation_after(s, inp, dt) as i64,
    }
}

/// The ship's position at the end of one tick: the committed heading
/// scaled by the final speed and the elapsed time, wrapped per axis.
pub open spec fn ship_position_after(
    s: Ship,
    t: VelocityTimer,
    tr: Transform,
    inp: InputSnapshot,
    dt: int,
    w: WindowData,
) -> Vec2 {
    let h = heading_after(s, inp, dt);
    let sp = speed_after(s, t, inp, dt);
    Vec2 {
        x: wrap_spec(tr.translation.x + axis_delta(h.x as int, sp, dt), w.width_boundary as int) as i64,
        y: wrap_spec(tr.translation.y + axis_delta(h.y as int, sp, dt), w.height_boundary as int) as i64,
    }
}

/// Integrate the ship's kinematics for one tick from the input and the
/// elapsed time, enforce the speed bounds and wrap at the boundary.
pub fn move_ship(
    ship: &mut Ship,
    transform: &mut Transform,
    timer: &mut VelocityTimer,
    input: &InputSnapshot,
    dt_ms: i64,
    window: &WindowData,
)
    requires
        wf_ship(*old(ship)),
        wf_timer(*old(timer)),
        wf_window(*window),
        in_field(*old(transform), *window),
        0 <= dt_ms <= DT_LIMIT,
    ensures
        *final(ship) == ship_after(*old(ship), *old(timer), *input, dt_ms as int),
        *final(timer) == timer_after(*old(timer), dt_ms as int),
        final(transform).translation == ship_position_after(
            *old(ship),
            *old(timer),
            *old(transform),
            *input,
            dt_ms as int,
            *window,
        ),
        wf_ship(*final(ship)),
        wf_timer(*final(timer)),
        in_field(*final(transform), *window),
{
    let s: Ship = *ship;
    // Rotation: apply the net rotation input to the orientation.
    proof {
        assert(0 <= s.rotation_speed * dt_ms <= 1_000_000_000_000_000) by (nonlinear_arith)
            requires
                0 <= s.rotation_speed <= 1_000_000_000,
                0 <= dt_ms <= 1_000_000,
        ;
        lemma_div_is_ordered(s.rotation_speed * dt_ms, 1_000_000_000_000_000, 1000);
        lemma_div_multiples_vanish(1_000_000_000_000, 1000);
    }
    let rot_mag: i64 = div_trunc_i64(s.rotation_speed * dt_ms, 1000);
    let signed_rot: i64 = if input.rotate_left == input.rotate_right {
        0
    } else if input.rotate_left {
        rot_mag
    } else {
        -rot_mag
    };
    proof {
        let d = div_trunc(s.rotation_speed * dt_ms, 1000);
        let f = rotation_factor(*input);
        if input.rotate_left == input.rotate_right {
            assert(f == 0);
            assert(f * d == 0) by (nonlinear_arith)
                requires
                    f == 0,
            ;
        } else if input.rotate_left {
            assert(f == 1);
            assert(f * d == d) by (nonlinear_arith)
                requires
                    f == 1,
            ;
        } else {
            assert(f == -1);
            assert(f * d == -d) by (nonlinear_arith)
                requires
                    f == -1,
            ;
        }
        assert(signed_rot == f * d);
    }
    let raw: i64 = s.orientation + signed_rot;
    let orient: i64 = norm_angle(raw);
    let dir: Vec2 = facing(orient);
    // Thrust: step the speed and commit the heading while thrust is held.
    let mut speed: i64 = s.current_speed;
    let mut heading: Vec2 = s.heading_direction;
    if input.forward {
        if speed < 0 {
            speed = 0;
        }
        speed = speed + s.acceleration;
        heading = dir;
    } else if input.backward {
        if speed > 0 {
            speed = 0;
        }
        speed = speed - s.acceleration;
        heading = dir;
    }
    // Clamp into the configured speed range.
    speed = clamp_i64(speed, -s.max_speed, s.max_speed);
    // Decay timer: accumulate; on firing, decay an uncommanded speed.
    let total: i64 = timer.elapsed_ms + dt_ms;
    let fires: bool = total >= timer.period_ms;
    if fires {
        proof {
            lemma_mod_pos_bound(total as int, timer.period_ms as int);
        }
        let rem: u64 = (total as u64) % (timer.period_ms as u64);
        timer.elapsed_ms = rem as i64;
        if !input.forward && !input.backward {
            if speed > 0 {
                speed = speed - s.acceleration;
            } else if speed < 0 {
                speed = speed + s.acceleration;
            }
        }
    } else {
        timer.elapsed_ms = total;
    }
    // Integrate the position along the committed heading and wrap.
    let dx: i64 = motion_delta(heading.x, speed, dt_ms);
    let dy: i64 = motion_delta(heading.y, speed, dt_ms);
    let nx: i64 = wrap_axis(transform.translation.x + dx, window.width_boundary);
    let ny: i64 = wrap_axis(transform.translation.y + dy, window.height_boundary);
    ship.orientation = orient;
    ship.rotation_direction = dir;
    ship.heading_direction = heading;
    ship.current_speed = speed;
    transform.translation = Vec2 { x: nx, y: ny };
}

/// One ship tick preserves well-formedness: the new orientation is
/// normalized, the new directions lie in the unit box, the speed stays
/// within one decay overshoot of the top speed, the timer stays inside
/// its period and the position stays inside the boundary box.
pub proof fn lemma_ship_step_wf(
    s: Ship,
    t: VelocityTimer,
    tr: Transform,
    inp: InputSnapshot,
    dt: int,
    w: WindowData,
)
    requires
        wf_ship(s),
        wf_timer(t),
        in_field(tr, w),
        wf_window(w),
        0 <= dt <= DT_LIMIT,
    ensures
        wf_ship(ship_after(s, t, inp, dt)),
        wf_timer(timer_after(t, dt)),
        in_field(Transform { translation: ship_position_after(s, t, tr, inp, dt, w) }, w),
{
    lemma_mod_bound(
        s.orientation + rotation_factor(inp) * div_trunc(s.rotation_speed * dt, 1000),
        360_000,
    );
    crate::angle::lemma_facing_unit(orientation_after(s, inp, dt));
    if timer_fires(t, dt) {
        lemma_mod_bound(t.elapsed_ms + dt, t.period_ms as int);
    }
}

/// Law: on a tick where the decay timer fires and no thrust is held,
/// the speed's magnitude drops by exactly the acceleration and the sign
/// never flips, provided the magnitude was at least the acceleration.
/// (A smaller magnitude overshoots zero: the as-built decay is not
/// floored.)
pub proof fn lemma_decay_strictly_toward_zero(
    s: Ship,
    t: VelocityTimer,
    inp: InputSnapshot,
    dt: int,
)
    requires
        wf_ship(s),
        !inp.forward,
        !inp.backward,
        timer_fires(t, dt),
        -s.max_speed <= s.current_speed <= s.max_speed,
        s.acceleration <= abs_spec(s.current_speed as int),
    ensures
        abs_spec(speed_after(s, t, inp, dt)) == abs_spec(s.current_speed as int) - s.acceleration,
        s.current_speed >= 0 ==> speed_after(s, t, inp, dt) >= 0,
        s.current_speed <= 0 ==> speed_after(s, t, inp, dt) <= 0,
{
}

/// Law: the clamp runs after every commanded increment, so the speed at
/// the end of any tick lies within `[-max_speed, max_speed]` whenever
/// the acceleration does not exceed the top speed (a larger
/// acceleration can overshoot the range through the unfloored decay).
pub proof fn lemma_speed_within_limits(s: Ship, t: VelocityTimer, inp: InputSnapshot, dt: int)
    requires
        wf_ship(s),
        s.acceleration <= s.max_speed,
    ensures
        -s.max_speed <= speed_after(s, t, inp, dt) <= s.max_speed,
        ship_after(s, t, inp, dt).current_speed == speed_after(s, t, inp, dt),
{
}

} // verus!
