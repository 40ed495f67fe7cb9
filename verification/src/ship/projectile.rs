//! The projectile system: spawn on a fire edge, advance every tick,
//! expire by lifetime.
//!
//! A projectile freezes the firing ship's facing at spawn, inherits a
//! positive forward speed, advances along that frozen direction every
//! tick, wraps at the boundary like the ship, and is removed on the
//! first tick that pushes its accumulated age to its lifetime.

use crate::WindowData;
use crate::ship::Ship;
use crate::ship::wf_ship;
use crate::units::{
    COORD_LIMIT, DT_LIMIT, SPEED_LIMIT, TIME_LIMIT, Transform, Vec2, axis_delta, motion_delta,
    unit_box, wrap_axis, wrap_spec,
};
use crate::wf_window;
use vstd::prelude::*;

verus! {

/// Distance from the ship's center to a projectile's spawn point,
/// in whole units, applied along both axes of the facing vector.
pub const MUZZLE_DISTANCE: i64 = 15;

/// How far beyond the coordinate limit a freshly spawned projectile
/// may sit, in milli-units.
pub const MUZZLE_MARGIN: i64 = 15_000;

/// Projectile tuning parameters, loaded once at startup.
#[derive(Clone, Copy, Debug, PartialEq, Eq, Structural)]
pub struct ProjectileInfo {
    pub velocity: i64,
    pub duration_ms: i64,
}

/// The installed projectile configuration resource.
#[derive(Clone, Copy, Debug, PartialEq, Eq, Structural)]
pub struct ProjectileLoad {
    pub velocity: i64,
    pub duration_ms: i64,
}

/// The motion state of one projectile: a scalar speed along a
/// direction frozen at spawn.
#[derive(Clone, Copy, Debug, PartialEq, Eq, Structural)]
pub struct Projectile {
    pub velocity: i64,
    pub direction: Vec2,
}

/// The non-repeating lifetime countdown of one projectile.
#[derive(Clone, Copy, Debug, PartialEq, Eq, Structural)]
pub struct ProjectileTime {
    pub elapsed_ms: i64,
    pub duration_ms: i64,
}

/// One projectile in the registry, under a stable identifier.
#[derive(Clone, Copy, Debug, PartialEq, Eq, Structural)]
pub struct ProjectileEntity {
    pub id: u64,
    pub projectile: Projectile,
    pub transform: Transform,
    pub time: ProjectileTime,
}

/// Configured projectile parameters are in range.
pub open spec fn wf_projectile_info(i: ProjectileInfo) -> bool {
    &&& 0 <= i.velocity <= SPEED_LIMIT
    &&& 0 <= i.duration_ms <= TIME_LIMIT
}

/// The installed configuration is in range.
pub open spec fn wf_load(l: ProjectileLoad) -> bool {
    &&& 0 <= l.velocity <= SPEED_LIMIT
    &&& 0 <= l.duration_ms <= TIME_LIMIT
}

/// A projectile's speed is non-negative and bounded by the configured
/// base speed plus the largest possible ship boost.
pub open spec fn wf_projectile(p: Projectile) -> bool {
    &&& 0 <= p.velocity <= 3 * SPEED_LIMIT
    &&& unit_box(p.direction)
}

/// A lifetime countdown whose accumulated age never passed its total.
pub open spec fn wf_time(t: ProjectileTime) -> bool {
    &&& 0 <= t.duration_ms <= TIME_LIMIT
    &&& 0 <= t.elapsed_ms <= t.duration_ms
}

/// A projectile entity is well formed: fields in range, position at
/// most a muzzle offset beyond the coordinate limit.
pub open spec fn wf_projectile_entity(e: ProjectileEntity) -> bool {
    &&& wf_projectile(e.projectile)
    &&& wf_time(e.time)
    &&& -(COORD_LIMIT + MUZZLE_MARGIN) <= e.transform.translation.x <= COORD_LIMIT + MUZZLE_MARGIN
    &&& -(COORD_LIMIT + MUZZLE_MARGIN) <= e.transform.translation.y <= COORD_LIMIT + MUZZLE_MARGIN
}

impl Projectile {
    /// The projectile a ship fires: it freezes the ship's current
    /// facing and carries the given scalar speed.
    pub fn from(ship: &Ship, velocity: i64) -> (p: Projectile)
        ensures
            p.velocity == velocity,
            p.direction == ship.rotation_direction,
    {
        Projectile { velocity, direction: ship.rotation_direction }
    }
}

/// The configuration resource a [`ProjectileInfo`] installs.
pub open spec fn load_of(info: ProjectileInfo) -> ProjectileLoad {
    ProjectileLoad { velocity: info.velocity, duration_ms: info.duration_ms }
}

/// Install the projectile configuration resource into the game.
pub fn setup(game: &mut crate::game::Game, info: &ProjectileInfo)
    ensures
        final(game).projectile_load == Some(load_of(*info)),
        final(game).data == old(game).data,
        final(game).ship == old(game).ship,
        final(game).projectiles@ == old(game).projectiles@,
        final(game).asteroids@ == old(game).asteroids@,
        final(game).next_id == old(game).next_id,
        final(game).fire_was_pressed == old(game).fire_was_pressed,
        wf_projectile_info(*info) ==> wf_load(load_of(*info)),
{
    game.projectile_load = Some(
        ProjectileLoad { velocity: info.velocity, duration_ms: info.duration_ms },
    );
}

/// The projectile subsystem: its build step installs the configuration;
/// spawn, motion and expiry run from the game's tick.
pub struct ProjectilePlugin;

impl ProjectilePlugin {
    /// Install the projectile subsystem into a game.
    pub fn build(&self, game: &mut crate::game::Game, info: &ProjectileInfo)
        ensures
            final(game).projectile_load == Some(load_of(*info)),
            final(game).data == old(game).data,
            final(game).ship == old(game).ship,
            final(game).projectiles@ == old(game).projectiles@,
            final(game).asteroids@ == old(game).asteroids@,
            final(game).next_id == old(game).next_id,
            final(game).fire_was_pressed == old(game).fire_was_pressed,
            wf_projectile_info(*info) ==> wf_load(load_of(*info)),
    {
        setup(game, info);
    }
}

/// One projectile after one tick of motion: the position advances along
/// the frozen direction and wraps at the boundary; identity, direction,
/// speed and age are untouched.
pub open spec fn projectile_advanced(e: ProjectileEntity, dt: int, w: WindowData) -> ProjectileEntity {
    ProjectileEntity {
        id: e.id,
        projectile: e.projectile,
        transform: Transform {
            translation: Vec2 {
                x: wrap_spec(
                    e.transform.translation.x + axis_delta(
                        e.projectile.direction.x as int,
                        e.projectile.velocity as int,
                        dt,
                    ),
                    w.width_boundary as int,
                ) as i64,
                y: wrap_spec(
                    e.transform.translation.y + axis_delta(
                        e.projectile.direction.y as int,
                        e.projectile.velocity as int,
                        dt,
                    ),
                    w.height_boundary as int,
                ) as i64,
            },
        },
        time: e.time,
    }
}

/// Every projectile advanced by one tick of motion.
pub open spec fn all_advanced(ps: Seq<ProjectileEntity>, dt: int, w: WindowData) -> Seq<
    ProjectileEntity,
> {
    ps.map_values(|e: ProjectileEntity| projectile_advanced(e, dt, w))
}

/// One projectile with one tick added to its accumulated age.
pub open spec fn time_ticked(e: ProjectileEntity, dt: int) -> ProjectileEntity {
    ProjectileEntity {
        id: e.id,
        projectile: e.projectile,
        transform: e.transform,
        time: ProjectileTime {
            elapsed_ms: (e.time.elapsed_ms + dt) as i64,
            duration_ms: e.time.duration_ms,
        },
    }
}

/// A projectile whose accumulated age is still short of its lifetime.
pub open spec fn projectile_live(e: ProjectileEntity) -> bool {
    e.time.elapsed_ms < e.time.duration_ms
}

/// Every projectile aged by one tick, keeping exactly those still short
/// of their lifetime, in order.
pub open spec fn all_expired(ps: Seq<ProjectileEntity>, dt: int) -> Seq<ProjectileEntity>
    decreases ps.len(),
{
    if ps.len() == 0 {
        Seq::<ProjectileEntity>::empty()
    } else {
        let hd = time_ticked(ps.first(), dt);
        let tl = all_expired(ps.drop_first(), dt);
        if projectile_live(hd) {
            seq![hd] + tl
        } else {
            tl
        }
    }
}

/// The projectile spawned from a ship: muzzle offset along the facing,
/// frozen direction, base speed plus any positive ship speed, a fresh
/// lifetime countdown, and the given registry identifier.
pub open spec fn spawned_projectile(
    ship: Ship,
    tr: Transform,
    load: ProjectileLoad,
    id: u64,
) -> ProjectileEntity {
    ProjectileEntity {
        id,
        projectile: Projectile {
            velocity: (load.velocity + (if ship.current_speed > 0 {
                ship.current_speed as int
            } else {
                0int
            })) as i64,
            direction: ship.rotation_direction,
        },
        transform: Transform {
            translation: Vec2 {
                x: (tr.translation.x + ship.rotation_direction.x * MUZZLE_DISTANCE) as i64,
                y: (tr.translation.y + ship.rotation_direction.y * MUZZLE_DISTANCE) as i64,
            },
        },
        time: ProjectileTime { elapsed_ms: 0, duration_ms: load.duration_ms },
    }
}

/// The first projectile carrying `id`, if any.
pub open spec fn find_id(ps: Seq<ProjectileEntity>, id: u64) -> Option<ProjectileEntity>
    decreases ps.len(),
{
    if ps.len() == 0 {
        None
    } else if ps.first().id == id {
        Some(ps.first())
    } else {
        find_id(ps.drop_first(), id)
    }
}

/// Identifiers strictly increase along the registry; in particular they
/// are pairwise distinct.
pub open spec fn ids_increasing(ps: Seq<ProjectileEntity>) -> bool {
    forall|i: int, j: int| 0 <= i < j < ps.len() ==> ps[i].id < ps[j].id
}

/// Every identifier lies strictly below `b`.
pub open spec fn ids_below(ps: Seq<ProjectileEntity>, b: int) -> bool {
    forall|k: int| 0 <= k < ps.len() ==> (#[trigger] ps[k].id) < b
}

/// Every identifier lies strictly above `a`.
pub open spec fn ids_above(ps: Seq<ProjectileEntity>, a: int) -> bool {
    forall|k: int| 0 <= k < ps.len() ==> (#[trigger] ps[k].id) > a
}

/// Every entity of the registry is well formed.
pub open spec fn all_wf(ps: Seq<ProjectileEntity>) -> bool {
    forall|k: int| 0 <= k < ps.len() ==> wf_projectile_entity(#[trigger] ps[k])
}

/// A successful lookup returns an entry of the registry itself.
pub proof fn lemma_find_id_found(ps: Seq<ProjectileEntity>, id: u64)
    ensures
        find_id(ps, id) matches Some(p) ==> exists|k: int|
            0 <= k < ps.len() && #[trigger] ps[k] == p && p.id == id,
    decreases ps.len(),
{
    if ps.len() > 0 {
        let rest = ps.drop_first();
        lemma_find_id_found(rest, id);
        if ps.first().id == id {
            assert(ps[0] == ps.first());
        } else if find_id(ps, id) is Some {
            let p = find_id(ps, id)->Some_0;
            let k0 = choose|k: int| 0 <= k < rest.len() && #[trigger] rest[k] == p && p.id == id;
            assert(ps[k0 + 1] == rest[k0]);
        }
    }
}

/// `find_id` misses exactly when no entry carries the identifier.
pub proof fn lemma_find_id_none(ps: Seq<ProjectileEntity>, id: u64)
    ensures
        find_id(ps, id) is None <==> (forall|k: int| 0 <= k < ps.len() ==> (#[trigger] ps[k].id)
            != id),
    decreases ps.len(),
{
    if ps.len() > 0 {
        let rest = ps.drop_first();
        lemma_find_id_none(rest, id);
        assert(forall|k: int| 0 <= k < rest.len() ==> #[trigger] rest[k] == ps[k + 1]);
        if ps.first().id == id {
            assert(ps[0].id == id);
        } else if find_id(ps, id) is None {
            assert forall|k: int| 0 <= k < ps.len() implies (#[trigger] ps[k].id) != id by {
                if k > 0 {
                    assert(rest[k - 1] == ps[k]);
                    assert(rest[k - 1].id != id);
                }
            }
        } else {
            let k0 = choose|k: int| 0 <= k < rest.len() && (#[trigger] rest[k].id) == id;
            assert(rest[k0].id == id);
            assert(ps[k0 + 1].id == id);
        }
    }
}

/// Advancing the registry moves each entry in place: a lookup finds the
/// advanced version of what it found before, or still nothing.
pub proof fn lemma_find_advanced(ps: Seq<ProjectileEntity>, dt: int, w: WindowData, id: u64)
    ensures
        find_id(all_advanced(ps, dt, w), id) == match find_id(ps, id) {
            Some(p) => Some(projectile_advanced(p, dt, w)),
            None => None::<ProjectileEntity>,
        },
    decreases ps.len(),
{
    let mapped = all_advanced(ps, dt, w);
    if ps.len() == 0 {
        assert(mapped.len() == 0);
    } else {
        assert(mapped.first() == projectile_advanced(ps.first(), dt, w));
        assert(mapped.drop_first() =~= all_advanced(ps.drop_first(), dt, w));
        lemma_find_advanced(ps.drop_first(), dt, w, id);
    }
}

/// Aging and expiry move a lookup in lockstep: the entry found before
/// is found aged by one tick if that leaves it short of its lifetime,
/// and is gone otherwise. Needs strictly increasing identifiers.
pub proof fn lemma_find_expired(ps: Seq<ProjectileEntity>, dt: int, id: u64)
    requires
        ids_increasing(ps),
    ensures
        find_id(all_expired(ps, dt), id) == match find_id(ps, id) {
            Some(p) => if projectile_live(time_ticked(p, dt)) {
                Some(time_ticked(p, dt))
            } else {
                None::<ProjectileEntity>
            },
            None => None::<ProjectileEntity>,
        },
    decreases ps.len(),
{
    if ps.len() > 0 {
        let hd = time_ticked(ps.first(), dt);
        let rest = ps.drop_first();
        let tl = all_expired(rest, dt);
        assert(forall|k: int| 0 <= k < rest.len() ==> #[trigger] rest[k] == ps[k + 1]);
        assert(ids_increasing(rest));
        lemma_find_expired(rest, dt, id);
        if ps.first().id == id {
            assert(ids_above(rest, id as int));
            lemma_find_id_none(rest, id);
            assert(find_id(rest, id) is None);
            if projectile_live(hd) {
                let joined = seq![hd] + tl;
                assert(joined.first() == hd);
            }
        } else {
            if projectile_live(hd) {
                let joined = seq![hd] + tl;
                assert(joined.first() == hd);
                assert(joined.drop_first() =~= tl);
            }
        }
    }
}

/// Expiry keeps the registry's structure: identifiers stay increasing
/// and within the bounds they respected, and every surviving entry is
/// well formed when the originals were.
pub proof fn lemma_expired_structure(ps: Seq<ProjectileEntity>, dt: int, lo: int, hi: int)
    requires
        ids_increasing(ps),
        all_wf(ps),
        0 <= dt <= DT_LIMIT,
        ids_above(ps, lo),
        ids_below(ps, hi),
    ensures
        ids_increasing(all_expired(ps, dt)),
        all_wf(all_expired(ps, dt)),
        ids_above(all_expired(ps, dt), lo),
        ids_below(all_expired(ps, dt), hi),
    decreases ps.len(),
{
    if ps.len() > 0 {
        let hd = time_ticked(ps.first(), dt);
        let rest = ps.drop_first();
        assert(forall|k: int| 0 <= k < rest.len() ==> #[trigger] rest[k] == ps[k + 1]);
        assert(ids_increasing(rest));
        assert(all_wf(rest));
        assert(ids_above(rest, ps.first().id as int));
        lemma_expired_structure(rest, dt, ps.first().id as int, hi);
        let tl = all_expired(rest, dt);
        if projectile_live(hd) {
            let joined = seq![hd] + tl;
            assert(all_expired(ps, dt) == joined);
            assert(joined.first() == hd);
            assert(wf_projectile_entity(hd));
            assert forall|i: int, j: int| 0 <= i < j < joined.len() implies joined[i].id
                < joined[j].id by {
                if i == 0 {
                    assert(joined[j] == tl[j - 1]);
                    assert(tl[j - 1].id > ps.first().id as int);
                } else {
                    assert(joined[i] == tl[i - 1]);
                    assert(joined[j] == tl[j - 1]);
                }
            }
            assert forall|k: int| 0 <= k < joined.len() implies wf_projectile_entity(
                #[trigger] joined[k],
            ) by {
                if k > 0 {
                    assert(joined[k] == tl[k - 1]);
                }
            }
            assert forall|k: int| 0 <= k < joined.len() implies lo < (#[trigger] joined[k].id)
                < hi by {
                if k > 0 {
                    assert(joined[k] == tl[k - 1]);
                }
            }
        } else {
            assert(all_expired(ps, dt) == tl);
        }
    } else {
        assert(all_expired(ps, dt) =~= Seq::<ProjectileEntity>::empty());
    }
}

/// A lookup for any other identifier ignores a pushed entry.
pub proof fn lemma_find_push_other(ps: Seq<ProjectileEntity>, x: ProjectileEntity, id: u64)
    requires
        x.id != id,
    ensures
        find_id(ps.push(x), id) == find_id(ps, id),
    decreases ps.len(),
{
    if ps.len() == 0 {
        assert(ps.push(x).first() == x);
        assert(ps.push(x).drop_first() =~= Seq::<ProjectileEntity>::empty());
        assert(find_id(Seq::<ProjectileEntity>::empty(), id) is None);
    } else {
        assert(ps.push(x).first() == ps.first());
        assert(ps.push(x).drop_first() =~= ps.drop_first().push(x));
        lemma_find_push_other(ps.drop_first(), x, id);
    }
}

/// A lookup for a pushed entry's own fresh identifier finds it.
pub proof fn lemma_find_push_new(ps: Seq<ProjectileEntity>, x: ProjectileEntity)
    requires
        ids_below(ps, x.id as int),
    ensures
        find_id(ps.push(x), x.id) == Some(x),
    decreases ps.len(),
{
    if ps.len() == 0 {
        assert(ps.push(x).first() == x);
    } else {
        assert(ps.push(x).first() == ps.first());
        assert(ps.push(x).drop_first() =~= ps.drop_first().push(x));
        assert(forall|k: int|
            0 <= k < ps.drop_first().len() ==> #[trigger] ps.drop_first()[k] == ps[k + 1]);
        lemma_find_push_new(ps.drop_first(), x);
    }
}

/// Advance every live projectile by one tick of motion, wrapping at the
/// boundary; nothing else about any entry changes.
pub fn move_projectile(
    projectiles: &mut Vec<ProjectileEntity>,
    dt_ms: i64,
    window: &WindowData,
)
    requires
        all_wf(old(projectiles)@),
        wf_window(*window),
        0 <= dt_ms <= DT_LIMIT,
    ensures
        final(projectiles)@ == all_advanced(old(projectiles)@, dt_ms as int, *window),
        all_wf(final(projectiles)@),
{
    let ghost orig = projectiles@;
    let mut out: Vec<ProjectileEntity> = Vec::new();
    let mut i: usize = 0;
    while i < projectiles.len()
        invariant
            all_wf(orig),
            wf_window(*window),
            0 <= dt_ms <= DT_LIMIT,
            projectiles@ == orig,
            i <= orig.len(),
            out@.len() == i,
            forall|k: int|
                0 <= k < i ==> #[trigger] out@[k] == projectile_advanced(
                    orig[k],
                    dt_ms as int,
                    *window,
                ),
            all_wf(out@),
        decreases orig.len() - i,
    {
        let e: ProjectileEntity = projectiles[i];
        let dx: i64 = motion_delta(e.projectile.direction.x, e.projectile.velocity, dt_ms);
        let dy: i64 = motion_delta(e.projectile.direction.y, e.projectile.velocity, dt_ms);
        let nx: i64 = wrap_axis(e.transform.translation.x + dx, window.width_boundary);
        let ny: i64 = wrap_axis(e.transform.translation.y + dy, window.height_boundary);
        let moved = ProjectileEntity {
            id: e.id,
            projectile: e.projectile,
            transform: Transform { translation: Vec2 { x: nx, y: ny } },
            time: e.time,
        };
        out.push(moved);
        i = i + 1;
    }
    proof {
        assert(out@ =~= all_advanced(orig, dt_ms as int, *window));
    }
    *projectiles = out;
}

/// Age every projectile by the elapsed time and remove, this same tick,
/// every projectile whose accumulated age reached its lifetime.
pub fn destroy_projectile(projectiles: &mut Vec<ProjectileEntity>, dt_ms: i64)
    requires
        all_wf(old(projectiles)@),
        0 <= dt_ms <= DT_LIMIT,
    ensures
        final(projectiles)@ == all_expired(old(projectiles)@, dt_ms as int),
{
    let ghost orig = projectiles@;
    let mut out: Vec<ProjectileEntity> = Vec::new();
    let mut i: usize = 0;
    proof {
        assert(orig.skip(0) =~= orig);
        assert(out@ + all_expired(orig.skip(0), dt_ms as int) =~= all_expired(
            orig,
            dt_ms as int,
        ));
    }
    while i < projectiles.len()
        invariant
            all_wf(orig),
            0 <= dt_ms <= DT_LIMIT,
            projectiles@ == orig,
            i <= orig.len(),
            all_expired(orig, dt_ms as int) == out@ + all_expired(
                orig.skip(i as int),
                dt_ms as int,
            ),
        decreases orig.len() - i,
    {
        let ghost j = i as int;
        let ghost out_before = out@;
        let ghost tail = orig.skip(j);
        let e: ProjectileEntity = projectiles[i];
        let aged = ProjectileEntity {
            id: e.id,
            projectile: e.projectile,
            transform: e.transform,
            time: ProjectileTime {
                elapsed_ms: e.time.elapsed_ms + dt_ms,
                duration_ms: e.time.duration_ms,
            },
        };
        proof {
            assert(tail.first() == orig[j]);
            assert(tail.drop_first() =~= orig.skip(j + 1));
            assert(aged == time_ticked(orig[j], dt_ms as int));
        }
        if aged.time.elapsed_ms < aged.time.duration_ms {
            out.push(aged);
        }
        i = i + 1;
        proof {
            let rest = all_expired(orig.skip(j + 1), dt_ms as int);
            if projectile_live(aged) {
                assert(all_expired(tail, dt_ms as int) == seq![aged] + rest);
                assert(out@ =~= out_before + seq![aged]);
                assert((out_before + seq![aged]) + rest =~= out_before + (seq![aged] + rest));
                assert(all_expired(orig, dt_ms as int) == out@ + rest);
            } else {
                assert(all_expired(tail, dt_ms as int) == rest);
            }
        }
    }
    proof {
        assert(orig.skip(orig.len() as int) =~= Seq::<ProjectileEntity>::empty());
        assert(out@ + Seq::<ProjectileEntity>::empty() =~= out@);
    }
    *projectiles = out;
}

/// Spawn a projectile on the rising edge of the fire control: one per
/// discrete press, none while the key merely stays held. The projectile
/// reads the ship's already-updated facing and position of this tick.
pub fn create_projectile(
    projectiles: &mut Vec<ProjectileEntity>,
    next_id: &mut u64,
    fire_was_pressed: &mut bool,
    fire_pressed: bool,
    ship: &Ship,
    ship_transform: &Transform,
    load: &ProjectileLoad,
)
    requires
        wf_ship(*ship),
        wf_load(*load),
        -COORD_LIMIT <= ship_transform.translation.x <= COORD_LIMIT,
        -COORD_LIMIT <= ship_transform.translation.y <= COORD_LIMIT,
        *old(next_id) < u64::MAX,
    ensures
        *final(fire_was_pressed) == fire_pressed,
        fire_pressed && !*old(fire_was_pressed) ==> {
            &&& final(projectiles)@ == old(projectiles)@.push(
                spawned_projectile(*ship, *ship_transform, *load, *old(next_id)),
            )
            &&& *final(next_id) == *old(next_id) + 1
        },
        !(fire_pressed && !*old(fire_was_pressed)) ==> {
            &&& final(projectiles)@ == old(projectiles)@
            &&& *final(next_id) == *old(next_id)
        },
        wf_projectile_entity(spawned_projectile(*ship, *ship_transform, *load, *old(next_id))),
{
    if fire_pressed && !*fire_was_pressed {
        let velocity: i64 = if ship.current_speed > 0 {
            load.velocity + ship.current_speed
        } else {
            load.velocity
        };
        let projectile = Projectile::from(ship, velocity);
        let sx: i64 = ship_transform.translation.x + projectile.direction.x * MUZZLE_DISTANCE;
        let sy: i64 = ship_transform.translation.y + projectile.direction.y * MUZZLE_DISTANCE;
        let id: u64 = *next_id;
        projectiles.push(
            ProjectileEntity {
                id,
                projectile,
                transform: Transform { translation: Vec2 { x: sx, y: sy } },
                time: ProjectileTime { elapsed_ms: 0, duration_ms: load.duration_ms },
            },
        );
        *next_id = id + 1;
    }
    *fire_was_pressed = fire_pressed;
}

} // verus!
