//! Drifting asteroid obstacles: constant-velocity movers with no
//! rotation, no expiry and no boundary handling.

use crate::game::Game;
use crate::units::{DT_LIMIT, SPEED_LIMIT, Transform, Vec2, axis_delta, motion_delta, unit_box};
use vstd::prelude::*;

verus! {

/// How many asteroids a session spawns at startup.
pub const MAX_ASTEROIDS: i8 = 2;

/// Magnitude bound on asteroid coordinates, in milli-units: asteroids
/// never wrap, so their drift is capped only by the machine word.
pub const DRIFT_LIMIT: i64 = 9_000_000_000_000_000_000;

/// Largest distance an asteroid covers in one tick, in milli-units.
pub const DRIFT_STEP: i64 = 4_000_000_000_000;

/// The constant motion of one asteroid.
#[derive(Clone, Copy, Debug, PartialEq, Eq, Structural)]
pub struct Asteroid {
    pub velocity: i64,
    pub direction: Vec2,
}

/// One asteroid with its placement.
#[derive(Clone, Copy, Debug, PartialEq, Eq, Structural)]
pub struct AsteroidEntity {
    pub asteroid: Asteroid,
    pub transform: Transform,
}

/// An asteroid's motion parameters are in range.
pub open spec fn wf_asteroid(a: Asteroid) -> bool {
    &&& 0 <= a.velocity <= SPEED_LIMIT
    &&& unit_box(a.direction)
}

/// Every asteroid of the registry has well-formed motion parameters.
pub open spec fn all_wf_asteroids(entities: Seq<AsteroidEntity>) -> bool {
    forall|k: int| 0 <= k < entities.len() ==> wf_asteroid(#[trigger] entities[k].asteroid)
}

/// Every asteroid coordinate lies within `m` in magnitude.
pub open spec fn asteroids_within(entities: Seq<AsteroidEntity>, m: int) -> bool {
    forall|k: int|
        0 <= k < entities.len() ==> {
            &&& -m <= (#[trigger] entities[k]).transform.translation.x <= m
            &&& -m <= entities[k].transform.translation.y <= m
        }
}

/// One asteroid after one tick: pure linear translation along its
/// fixed direction; nothing else changes and nothing wraps.
pub open spec fn asteroid_advanced(e: AsteroidEntity, dt: int) -> AsteroidEntity {
    AsteroidEntity {
        asteroid: e.asteroid,
        transform: Transform {
            translation: Vec2 {
                x: (e.transform.translation.x + axis_delta(
                    e.asteroid.direction.x as int,
                    e.asteroid.velocity as int,
                    dt,
                )) as i64,
                y: (e.transform.translation.y + axis_delta(
                    e.asteroid.direction.y as int,
                    e.asteroid.velocity as int,
                    dt,
                )) as i64,
            },
        },
    }
}

/// Every asteroid advanced by one tick.
pub open spec fn all_drifted(entities: Seq<AsteroidEntity>, dt: int) -> Seq<AsteroidEntity> {
    entities.map_values(|e: AsteroidEntity| asteroid_advanced(e, dt))
}

/// The asteroid spawned at slot `k`: offset from the center by the
/// configured spacing, drifting leftward.
pub open spec fn asteroid_at(k: int) -> AsteroidEntity {
    AsteroidEntity {
        asteroid: Asteroid { velocity: 45_000, direction: Vec2 { x: -1000i64, y: 0 } },
        transform: Transform {
            translation: Vec2 { x: (100_000 * k) as i64, y: 200_000 },
        },
    }
}

/// The asteroids of a fresh session, at slots `1..=n`.
pub open spec fn initial_asteroids(n: int) -> Seq<AsteroidEntity>
    decreases n,
{
    if n <= 0 {
        Seq::<AsteroidEntity>::empty()
    } else {
        initial_asteroids(n - 1).push(asteroid_at(n))
    }
}

/// Spawn the session's asteroids into the registry at their fixed
/// offsets from the center.
pub fn setup(game: &mut Game)
    ensures
        final(game).asteroids@ == old(game).asteroids@ + initial_asteroids(MAX_ASTEROIDS as int),
        final(game).data == old(game).data,
        final(game).ship == old(game).ship,
        final(game).projectiles@ == old(game).projectiles@,
        final(game).projectile_load == old(game).projectile_load,
        final(game).next_id == old(game).next_id,
        final(game).fire_was_pressed == old(game).fire_was_pressed,
        all_wf_asteroids(initial_asteroids(MAX_ASTEROIDS as int)),
{
    let ghost orig = game.asteroids@;
    proof {
        assert(initial_asteroids(0) =~= Seq::<AsteroidEntity>::empty());
        assert(orig + initial_asteroids(0) =~= orig);
    }
    let mut count: i8 = 1;
    while count <= MAX_ASTEROIDS
        invariant
            1 <= count <= MAX_ASTEROIDS + 1,
            game.asteroids@ == orig + initial_asteroids(count - 1),
            game.data == old(game).data,
            game.ship == old(game).ship,
            game.projectiles@ == old(game).projectiles@,
            game.projectile_load == old(game).projectile_load,
            game.next_id == old(game).next_id,
            game.fire_was_pressed == old(game).fire_was_pressed,
        decreases MAX_ASTEROIDS + 1 - count,
    {
        let x: i64 = 100_000 * (count as i64);
        let entity = AsteroidEntity {
            asteroid: Asteroid { velocity: 45_000, direction: Vec2 { x: -1000, y: 0 } },
            transform: Transform { translation: Vec2 { x, y: 200_000 } },
        };
        proof {
            assert(entity == asteroid_at(count as int));
            assert(initial_asteroids(count as int) == initial_asteroids(count - 1).push(
                asteroid_at(count as int),
            ));
            assert((orig + initial_asteroids(count - 1)).push(asteroid_at(count as int)) =~= orig
                + initial_asteroids(count as int));
        }
        game.asteroids.push(entity);
        count = count + 1;
    }
    proof {
        lemma_initial_asteroids_wf(MAX_ASTEROIDS as int);
    }
}

/// The initial asteroids are well formed.
pub proof fn lemma_initial_asteroids_wf(n: int)
    requires
        0 <= n <= 100,
    ensures
        all_wf_asteroids(initial_asteroids(n)),
        asteroids_within(initial_asteroids(n), 1_000_000_000),
        initial_asteroids(n).len() == n,
    decreases n,
{
    if n > 0 {
        lemma_initial_asteroids_wf(n - 1);
        let prev = initial_asteroids(n - 1);
        let cur = initial_asteroids(n);
        assert(cur == prev.push(asteroid_at(n)));
        assert(forall|k: int| 0 <= k < prev.len() ==> #[trigger] cur[k] == prev[k]);
        assert(cur[n - 1] == asteroid_at(n));
        assert(wf_asteroid(asteroid_at(n).asteroid));
    }
}

/// Advance every asteroid by one tick of pure linear translation.
pub fn move_asteroid(asteroids: &mut Vec<AsteroidEntity>, dt_ms: i64)
    requires
        all_wf_asteroids(old(asteroids)@),
        asteroids_within(old(asteroids)@, DRIFT_LIMIT as int),
        0 <= dt_ms <= DT_LIMIT,
    ensures
        final(asteroids)@ == all_drifted(old(asteroids)@, dt_ms as int),
        all_wf_asteroids(final(asteroids)@),
        asteroids_within(final(asteroids)@, DRIFT_LIMIT as int + DRIFT_STEP as int),
{
    let ghost orig = asteroids@;
    let mut out: Vec<AsteroidEntity> = Vec::new();
    let mut i: usize = 0;
    while i < asteroids.len()
        invariant
            all_wf_asteroids(orig),
            asteroids_within(orig, DRIFT_LIMIT as int),
            0 <= dt_ms <= DT_LIMIT,
            asteroids@ == orig,
            i <= orig.len(),
            out@.len() == i,
            forall|k: int|
                0 <= k < i ==> #[trigger] out@[k] == asteroid_advanced(orig[k], dt_ms as int),
            asteroids_within(out@, DRIFT_LIMIT as int + DRIFT_STEP as int),
        decreases orig.len() - i,
    {
        let e: AsteroidEntity = asteroids[i];
        let dx: i64 = motion_delta(e.asteroid.direction.x, e.asteroid.velocity, dt_ms);
        let dy: i64 = motion_delta(e.asteroid.direction.y, e.asteroid.velocity, dt_ms);
        let moved = AsteroidEntity {
            asteroid: e.asteroid,
            transform: Transform {
                translation: Vec2 {
                    x: e.transform.translation.x + dx,
                    y: e.transform.translation.y + dy,
                },
            },
        };
        out.push(moved);
        i = i + 1;
    }
    proof {
        assert(out@ =~= all_drifted(orig, dt_ms as int));
    }
    *asteroids = out;
}

/// The asteroid subsystem: its build step spawns the session's
/// obstacles.
pub struct AsteroidPlugin;

impl AsteroidPlugin {
    /// Install the asteroid subsystem into a game.
    pub fn build(&self, game: &mut Game)
        ensures
            final(game).asteroids@ == old(game).asteroids@ + initial_asteroids(
                MAX_ASTEROIDS as int,
            ),
            final(game).data == old(game).data,
            final(game).ship == old(game).ship,
            final(game).projectiles@ == old(game).projectiles@,
            final(game).projectile_load == old(game).projectile_load,
            final(game).next_id == old(game).next_id,
            final(game).fire_was_pressed == old(game).fire_was_pressed,
    {
        setup(game);
    }
}

} // verus!
