//! The explicit entity registry and the per-tick schedule.
//!
//! A [`Game`] owns the singleton ship, the projectile and asteroid
//! registries and the shared session context. One [`Game::tick`] runs
//! the systems in a fixed order: ship kinematics first, then projectile
//! motion and expiry, then the fire-edge spawn (which reads the
//! already-updated ship), then asteroid drift. Entities spawned during
//! a tick are not moved or aged until the next tick.

use crate::GameData;
use crate::InputSnapshot;
use crate::SimError;
use crate::asteroid::{
    AsteroidEntity, DRIFT_LIMIT, DRIFT_STEP, all_drifted, all_wf_asteroids, asteroid_advanced,
    asteroids_within, move_asteroid, wf_asteroid,
};
use crate::ship::projectile::{
    ProjectileEntity, ProjectileLoad, all_advanced, all_expired, all_wf, create_projectile,
    destroy_projectile, find_id, ids_below, ids_increasing, lemma_expired_structure,
    lemma_find_advanced, lemma_find_expired, lemma_find_id_found, lemma_find_push_new,
    lemma_find_push_other, move_projectile, projectile_advanced, projectile_live,
    spawned_projectile, time_ticked, wf_load, wf_projectile_entity,
};
use crate::ship::{
    Ship, ShipEntity, VelocityTimer, lemma_ship_step_wf, lemma_speed_within_limits, move_ship,
    ship_after, ship_position_after, timer_after, wf_ship_entity,
};
use crate::units::{DT_LIMIT, Transform};
use crate::wf_window;
use vstd::prelude::*;

verus! {

/// The whole simulation state: the shared context, the singleton ship,
/// the dynamic registries and the fire-edge memory.
pub struct Game {
    pub data: GameData,
    pub ship: Option<ShipEntity>,
    pub projectiles: Vec<ProjectileEntity>,
    pub asteroids: Vec<AsteroidEntity>,
    pub projectile_load: Option<ProjectileLoad>,
    pub next_id: u64,
    pub fire_was_pressed: bool,
}

/// The mathematical state of a game: registries as sequences, the
/// identifier counter as an integer.
pub struct GameView {
    pub data: GameData,
    pub ship: Option<ShipEntity>,
    pub projectiles: Seq<ProjectileEntity>,
    pub asteroids: Seq<AsteroidEntity>,
    pub load: Option<ProjectileLoad>,
    pub next_id: int,
    pub fire_was_pressed: bool,
}

impl View for Game {
    type V = GameView;

    open spec fn view(&self) -> GameView {
        GameView {
            data: self.data,
            ship: self.ship,
            projectiles: self.projectiles@,
            asteroids: self.asteroids@,
            load: self.projectile_load,
            next_id: self.next_id as int,
            fire_was_pressed: self.fire_was_pressed,
        }
    }
}

/// Well-formed game state: the context is in range, the ship (when
/// present) is well formed for the boundary box, projectile entries are
/// well formed under strictly increasing identifiers below the counter,
/// and asteroid motion parameters are in range.
pub open spec fn wf_view(v: GameView) -> bool {
    &&& wf_window(v.data.window)
    &&& (v.ship matches Some(e) ==> wf_ship_entity(e, v.data.window))
    &&& (v.load matches Some(l) ==> wf_load(l))
    &&& all_wf(v.projectiles)
    &&& ids_increasing(v.projectiles)
    &&& ids_below(v.projectiles, v.next_id)
    &&& 0 <= v.next_id <= u64::MAX
    &&& all_wf_asteroids(v.asteroids)
}

/// A game on which a tick can do its work: the singleton ship exists
/// and the projectile configuration is installed.
pub open spec fn game_ok(v: GameView) -> bool {
    &&& v.ship is Some
    &&& v.load is Some
}

/// The fire control's rising edge: pressed now, not pressed last tick.
pub open spec fn fire_edge(v: GameView, inp: InputSnapshot) -> bool {
    inp.fire && !v.fire_was_pressed
}

/// The projectile registry after the motion and expiry systems of one
/// tick, before any spawn.
pub open spec fn projectiles_stepped(v: GameView, dt: int) -> Seq<ProjectileEntity> {
    all_expired(all_advanced(v.projectiles, dt, v.data.window), dt)
}

/// The whole game after one tick, assuming the ship and the projectile
/// configuration are present.
pub open spec fn step_view(v: GameView, inp: InputSnapshot, dt: int) -> GameView {
    let se = v.ship->Some_0;
    let load = v.load->Some_0;
    let ship1 = ship_after(se.ship, se.velocity_timer, inp, dt);
    let tr1 = Transform {
        translation: ship_position_after(
            se.ship,
            se.velocity_timer,
            se.transform,
            inp,
            dt,
            v.data.window,
        ),
    };
    let stepped = projectiles_stepped(v, dt);
    GameView {
        data: v.data,
        ship: Some(
            ShipEntity {
                ship: ship1,
                transform: tr1,
                velocity_timer: timer_after(se.velocity_timer, dt),
            },
        ),
        projectiles: if fire_edge(v, inp) {
            stepped.push(spawned_projectile(ship1, tr1, load, v.next_id as u64))
        } else {
            stepped
        },
        asteroids: all_drifted(v.asteroids, dt),
        load: v.load,
        next_id: if fire_edge(v, inp) {
            v.next_id + 1
        } else {
            v.next_id
        },
        fire_was_pressed: inp.fire,
    }
}

/// One tick's worth of input and elapsed time.
pub struct TickInput {
    pub input: InputSnapshot,
    pub dt: int,
}

/// A tick's elapsed time is admissible.
pub open spec fn wf_tick_input(t: TickInput) -> bool {
    0 <= t.dt <= DT_LIMIT
}

/// The game after a whole sequence of ticks.
pub open spec fn run_view(v: GameView, ticks: Seq<TickInput>) -> GameView
    decreases ticks.len(),
{
    if ticks.len() == 0 {
        v
    } else {
        run_view(step_view(v, ticks.first().input, ticks.first().dt), ticks.drop_first())
    }
}

/// Total elapsed time of a sequence of ticks.
pub open spec fn sum_dt(ticks: Seq<TickInput>) -> int
    decreases ticks.len(),
{
    if ticks.len() == 0 {
        0
    } else {
        ticks.first().dt + sum_dt(ticks.drop_first())
    }
}

/// The total elapsed time of admissible ticks is non-negative.
proof fn lemma_sum_dt_nonneg(ticks: Seq<TickInput>)
    requires
        forall|j: int| 0 <= j < ticks.len() ==> wf_tick_input(#[trigger] ticks[j]),
    ensures
        sum_dt(ticks) >= 0,
    decreases ticks.len(),
{
    if ticks.len() > 0 {
        let rest = ticks.drop_first();
        assert(forall|k: int| 0 <= k < rest.len() ==> #[trigger] rest[k] == ticks[k + 1]);
        lemma_sum_dt_nonneg(rest);
    }
}

/// One tick preserves well-formedness and the presence of the ship and
/// the configuration; the identifier counter grows exactly on a fire
/// edge, and the fire-edge memory records this tick's fire level.
pub proof fn lemma_step_view_wf(v: GameView, inp: InputSnapshot, dt: int)
    requires
        wf_view(v),
        game_ok(v),
        0 <= dt <= DT_LIMIT,
        v.next_id < u64::MAX,
    ensures
        wf_view(step_view(v, inp, dt)),
        game_ok(step_view(v, inp, dt)),
        step_view(v, inp, dt).data == v.data,
        step_view(v, inp, dt).load == v.load,
        step_view(v, inp, dt).next_id == if fire_edge(v, inp) {
            v.next_id + 1
        } else {
            v.next_id
        },
        step_view(v, inp, dt).fire_was_pressed == inp.fire,
{
    let w = v.data.window;
    let se = v.ship->Some_0;
    lemma_ship_step_wf(se.ship, se.velocity_timer, se.transform, inp, dt, w);
    let adv = all_advanced(v.projectiles, dt, w);
    assert forall|k: int| 0 <= k < adv.len() implies wf_projectile_entity(#[trigger] adv[k]) by {
        assert(adv[k] == projectile_advanced(v.projectiles[k], dt, w));
        assert(wf_projectile_entity(v.projectiles[k]));
    }
    assert forall|i: int, j: int| 0 <= i < j < adv.len() implies adv[i].id < adv[j].id by {
        assert(adv[i] == projectile_advanced(v.projectiles[i], dt, w));
        assert(adv[j] == projectile_advanced(v.projectiles[j], dt, w));
    }
    assert forall|k: int| 0 <= k < adv.len() implies (#[trigger] adv[k].id) < v.next_id by {
        assert(adv[k] == projectile_advanced(v.projectiles[k], dt, w));
    }
    lemma_expired_structure(adv, dt, -1, v.next_id);
    let stepped = projectiles_stepped(v, dt);
    let ship1 = ship_after(se.ship, se.velocity_timer, inp, dt);
    let tr1 = Transform {
        translation: ship_position_after(se.ship, se.velocity_timer, se.transform, inp, dt, w),
    };
    if fire_edge(v, inp) {
        let newp = spawned_projectile(ship1, tr1, v.load->Some_0, v.next_id as u64);
        assert(newp.id == v.next_id);
        assert(wf_projectile_entity(newp));
        let ps2 = stepped.push(newp);
        assert forall|k: int| 0 <= k < ps2.len() implies wf_projectile_entity(
            #[trigger] ps2[k],
        ) by {
            if k < stepped.len() {
                assert(ps2[k] == stepped[k]);
            } else {
                assert(ps2[k] == newp);
            }
        }
        assert forall|i: int, j: int| 0 <= i < j < ps2.len() implies ps2[i].id < ps2[j].id by {
            assert(ps2[i] == stepped[i]);
            if j < stepped.len() {
                assert(ps2[j] == stepped[j]);
            } else {
                assert(ps2[j] == newp);
            }
        }
        assert forall|k: int| 0 <= k < ps2.len() implies (#[trigger] ps2[k].id) < v.next_id
            + 1 by {
            if k < stepped.len() {
                assert(ps2[k] == stepped[k]);
            } else {
                assert(ps2[k] == newp);
            }
        }
    }
    let drift = all_drifted(v.asteroids, dt);
    assert forall|k: int| 0 <= k < drift.len() implies wf_asteroid(
        (#[trigger] drift[k]).asteroid,
    ) by {
        assert(drift[k] == asteroid_advanced(v.asteroids[k], dt));
        assert(wf_asteroid(v.asteroids[k].asteroid));
    }
}

/// How one tick treats the projectile registered under a given
/// identifier: it is advanced and aged in place while its accumulated
/// age stays short of its lifetime, and removed on the tick that
/// reaches it; a missing identifier stays missing.
pub proof fn lemma_step_view_projectile(v: GameView, inp: InputSnapshot, dt: int, id: u64)
    requires
        wf_view(v),
        game_ok(v),
        0 <= dt <= DT_LIMIT,
        (id as int) < v.next_id,
    ensures
        ({
            let sp = step_view(v, inp, dt).projectiles;
            match find_id(v.projectiles, id) {
                Some(p) => if p.time.elapsed_ms + dt < p.time.duration_ms {
                    find_id(sp, id) == Some(
                        time_ticked(projectile_advanced(p, dt, v.data.window), dt),
                    )
                } else {
                    find_id(sp, id) is None
                },
                None => find_id(sp, id) is None,
            }
        }),
{
    let w = v.data.window;
    let adv = all_advanced(v.projectiles, dt, w);
    lemma_find_advanced(v.projectiles, dt, w, id);
    lemma_find_id_found(v.projectiles, id);
    assert forall|i: int, j: int| 0 <= i < j < adv.len() implies adv[i].id < adv[j].id by {
        assert(adv[i] == projectile_advanced(v.projectiles[i], dt, w));
        assert(adv[j] == projectile_advanced(v.projectiles[j], dt, w));
    }
    lemma_find_expired(adv, dt, id);
    let stepped = projectiles_stepped(v, dt);
    if fire_edge(v, inp) {
        let ship1 = ship_after(
            v.ship->Some_0.ship,
            v.ship->Some_0.velocity_timer,
            inp,
            dt,
        );
        let tr1 = Transform {
            translation: ship_position_after(
                v.ship->Some_0.ship,
                v.ship->Some_0.velocity_timer,
                v.ship->Some_0.transform,
                inp,
                dt,
                w,
            ),
        };
        let newp = spawned_projectile(ship1, tr1, v.load->Some_0, v.next_id as u64);
        assert(newp.id != id);
        lemma_find_push_other(stepped, newp, id);
    }
}

/// A fire-edge tick registers the new projectile under the identifier
/// the counter held, with a fresh lifetime countdown.
pub proof fn lemma_spawn_registered(v: GameView, inp: InputSnapshot, dt: int)
    requires
        wf_view(v),
        game_ok(v),
        0 <= dt <= DT_LIMIT,
        fire_edge(v, inp),
    ensures
        ({
            let stepped = step_view(v, inp, dt);
            let se1 = stepped.ship->Some_0;
            find_id(stepped.projectiles, v.next_id as u64) == Some(
                spawned_projectile(se1.ship, se1.transform, v.load->Some_0, v.next_id as u64),
            )
        }),
{
    let w = v.data.window;
    let adv = all_advanced(v.projectiles, dt, w);
    assert forall|i: int, j: int| 0 <= i < j < adv.len() implies adv[i].id < adv[j].id by {
        assert(adv[i] == projectile_advanced(v.projectiles[i], dt, w));
        assert(adv[j] == projectile_advanced(v.projectiles[j], dt, w));
    }
    assert forall|k: int| 0 <= k < adv.len() implies (#[trigger] adv[k].id) < v.next_id by {
        assert(adv[k] == projectile_advanced(v.projectiles[k], dt, w));
    }
    assert forall|k: int| 0 <= k < adv.len() implies wf_projectile_entity(#[trigger] adv[k]) by {
        assert(adv[k] == projectile_advanced(v.projectiles[k], dt, w));
        assert(wf_projectile_entity(v.projectiles[k]));
    }
    lemma_expired_structure(adv, dt, -1, v.next_id);
    let stepped = projectiles_stepped(v, dt);
    let se1 = step_view(v, inp, dt).ship->Some_0;
    let newp = spawned_projectile(se1.ship, se1.transform, v.load->Some_0, v.next_id as u64);
    assert(ids_below(stepped, newp.id as int));
    lemma_find_push_new(stepped, newp);
}

/// Law: a projectile lives exactly until its accumulated age reaches
/// its lifetime. Over any run of ticks, the projectile registered under
/// an identifier is present at the end, with its direction, speed and
/// lifetime untouched and its age grown by the total elapsed time, if
/// that total keeps its age short of its lifetime; it is absent from
/// the registry at the end of any non-empty run whose total reaches its
/// lifetime. An identifier that is absent never reappears.
pub proof fn lemma_projectile_lifecycle(v: GameView, ticks: Seq<TickInput>, id: u64)
    requires
        wf_view(v),
        game_ok(v),
        forall|j: int| 0 <= j < ticks.len() ==> wf_tick_input(#[trigger] ticks[j]),
        (id as int) < v.next_id,
        v.next_id + ticks.len() <= u64::MAX,
    ensures
        wf_view(run_view(v, ticks)),
        game_ok(run_view(v, ticks)),
        run_view(v, ticks).next_id >= v.next_id,
        run_view(v, ticks).next_id <= v.next_id + ticks.len(),
        find_id(v.projectiles, id) is None ==> find_id(run_view(v, ticks).projectiles, id)
            is None,
        find_id(v.projectiles, id) is Some ==> ({
            let p = find_id(v.projectiles, id)->Some_0;
            let q = find_id(run_view(v, ticks).projectiles, id);
            if p.time.elapsed_ms + sum_dt(ticks) < p.time.duration_ms {
                &&& q is Some
                &&& q->Some_0.id == id
                &&& q->Some_0.projectile == p.projectile
                &&& q->Some_0.time.duration_ms == p.time.duration_ms
                &&& q->Some_0.time.elapsed_ms == p.time.elapsed_ms + sum_dt(ticks)
            } else {
                ticks.len() > 0 ==> q is None
            }
        }),
    decreases ticks.len(),
{
    lemma_find_id_found(v.projectiles, id);
    if ticks.len() > 0 {
        let t0 = ticks.first();
        let rest = ticks.drop_first();
        assert(forall|k: int| 0 <= k < rest.len() ==> #[trigger] rest[k] == ticks[k + 1]);
        lemma_sum_dt_nonneg(rest);
        let v1 = step_view(v, t0.input, t0.dt);
        lemma_step_view_wf(v, t0.input, t0.dt);
        lemma_step_view_projectile(v, t0.input, t0.dt, id);
        lemma_projectile_lifecycle(v1, rest, id);
        assert(run_view(v, ticks) == run_view(v1, rest));
        assert(sum_dt(ticks) == t0.dt + sum_dt(rest));
        if find_id(v.projectiles, id) is Some {
            let p = find_id(v.projectiles, id)->Some_0;
            let kw = choose|k: int|
                0 <= k < v.projectiles.len() && #[trigger] v.projectiles[k] == p && p.id == id;
            assert(wf_projectile_entity(v.projectiles[kw]));
            let p1 = time_ticked(projectile_advanced(p, t0.dt, v.data.window), t0.dt);
            let q = find_id(run_view(v, ticks).projectiles, id);
            if p.time.elapsed_ms + t0.dt < p.time.duration_ms {
                assert(find_id(v1.projectiles, id) == Some(p1));
                assert(p1.time.elapsed_ms == p.time.elapsed_ms + t0.dt);
                assert(p1.time.duration_ms == p.time.duration_ms);
                if p1.time.elapsed_ms + sum_dt(rest) < p1.time.duration_ms {
                    assert(p.time.elapsed_ms + sum_dt(ticks) < p.time.duration_ms);
                } else {
                    if rest.len() == 0 {
                        assert(sum_dt(rest) == 0);
                    }
                    assert(p.time.elapsed_ms + sum_dt(ticks) >= p.time.duration_ms);
                    assert(rest.len() > 0);
                    assert(q is None);
                }
            } else {
                assert(find_id(v1.projectiles, id) is None);
                assert(p.time.elapsed_ms + sum_dt(ticks) >= p.time.duration_ms);
                assert(q is None);
            }
        } else {
            assert(find_id(run_view(v, ticks).projectiles, id) is None);
        }
    } else {
        assert(run_view(v, ticks) == v);
        assert(sum_dt(ticks) == 0);
        if find_id(v.projectiles, id) is Some {
            let p = find_id(v.projectiles, id)->Some_0;
            assert(find_id(run_view(v, ticks).projectiles, id) == Some(p));
        }
    }
}

/// Law: a projectile's direction is frozen at spawn. Whatever the
/// inputs of a run — rotating the ship included — a projectile present
/// before and after the run keeps the very direction it was spawned
/// with, and its scalar speed too.
pub proof fn lemma_projectile_direction_frozen(v: GameView, ticks: Seq<TickInput>, id: u64)
    requires
        wf_view(v),
        game_ok(v),
        forall|j: int| 0 <= j < ticks.len() ==> wf_tick_input(#[trigger] ticks[j]),
        (id as int) < v.next_id,
        v.next_id + ticks.len() <= u64::MAX,
    ensures
        find_id(v.projectiles, id) matches Some(p) ==> (find_id(
            run_view(v, ticks).projectiles,
            id,
        ) matches Some(e) ==> e.projectile == p.projectile),
{
    lemma_projectile_lifecycle(v, ticks, id);
    if find_id(v.projectiles, id) is Some {
        let p = find_id(v.projectiles, id)->Some_0;
        if ticks.len() == 0 {
            assert(run_view(v, ticks) == v);
        }
    }
}

/// Law: the speed bound is a run invariant. With an acceleration no
/// larger than the top speed, the ship's speed lies within
/// `[-max_speed, max_speed]` at the end of every tick of every run,
/// whatever the inputs: the clamp runs after every commanded
/// increment, and the decay cannot overshoot the range.
pub proof fn lemma_speed_bounded_over_run(v: GameView, ticks: Seq<TickInput>)
    requires
        wf_view(v),
        game_ok(v),
        forall|j: int| 0 <= j < ticks.len() ==> wf_tick_input(#[trigger] ticks[j]),
        v.next_id + ticks.len() <= u64::MAX,
        v.ship->Some_0.ship.acceleration <= v.ship->Some_0.ship.max_speed,
        ticks.len() >= 1,
    ensures
        ({
            let s = run_view(v, ticks).ship->Some_0.ship;
            -s.max_speed <= s.current_speed <= s.max_speed
        }),
    decreases ticks.len(),
{
    let t0 = ticks.first();
    let rest = ticks.drop_first();
    assert(forall|k: int| 0 <= k < rest.len() ==> #[trigger] rest[k] == ticks[k + 1]);
    let se = v.ship->Some_0;
    let v1 = step_view(v, t0.input, t0.dt);
    lemma_step_view_wf(v, t0.input, t0.dt);
    lemma_speed_within_limits(se.ship, se.velocity_timer, t0.input, t0.dt);
    if rest.len() == 0 {
        assert(run_view(v1, rest) == v1);
    } else {
        lemma_speed_bounded_over_run(v1, rest);
    }
}

/// Holding the fire control after a fire edge spawns nothing more: the
/// identifier counter, which grows exactly once per spawn, stays put.
proof fn lemma_fire_held_after(v: GameView, ticks: Seq<TickInput>)
    requires
        v.fire_was_pressed,
        forall|j: int| 0 <= j < ticks.len() ==> (#[trigger] ticks[j]).input.fire,
    ensures
        run_view(v, ticks).next_id == v.next_id,
        run_view(v, ticks).fire_was_pressed,
    decreases ticks.len(),
{
    if ticks.len() > 0 {
        let t0 = ticks.first();
        let rest = ticks.drop_first();
        assert(forall|k: int| 0 <= k < rest.len() ==> #[trigger] rest[k] == ticks[k + 1]);
        let v1 = step_view(v, t0.input, t0.dt);
        assert(!fire_edge(v, t0.input));
        lemma_fire_held_after(v1, rest);
    }
}

/// Law: fire input is edge-triggered. Holding the fire control across
/// any number of consecutive ticks spawns exactly one projectile: the
/// identifier counter, which grows exactly once per spawn, ends one
/// above where it started.
pub proof fn lemma_fire_held_spawns_once(v: GameView, ticks: Seq<TickInput>)
    requires
        !v.fire_was_pressed,
        ticks.len() >= 1,
        forall|j: int| 0 <= j < ticks.len() ==> (#[trigger] ticks[j]).input.fire,
    ensures
        run_view(v, ticks).next_id == v.next_id + 1,
{
    let t0 = ticks.first();
    let rest = ticks.drop_first();
    assert(forall|k: int| 0 <= k < rest.len() ==> #[trigger] rest[k] == ticks[k + 1]);
    let v1 = step_view(v, t0.input, t0.dt);
    assert(fire_edge(v, t0.input));
    lemma_fire_held_after(v1, rest);
}

impl Game {
    /// A fresh game: the shared context installed, no entities yet.
    pub fn new(data: GameData) -> (g: Game)
        ensures
            g.data == data,
            g.ship is None,
            g.projectiles@ == Seq::<ProjectileEntity>::empty(),
            g.asteroids@ == Seq::<AsteroidEntity>::empty(),
            g.projectile_load is None,
            g.next_id == 0,
            g.fire_was_pressed == false,
    {
        let g = Game {
            data,
            ship: None,
            projectiles: Vec::new(),
            asteroids: Vec::new(),
            projectile_load: None,
            next_id: 0,
            fire_was_pressed: false,
        };
        proof {
            assert(g.projectiles@ =~= Seq::<ProjectileEntity>::empty());
            assert(g.asteroids@ =~= Seq::<AsteroidEntity>::empty());
        }
        g
    }

    /// Run one simulation tick: ship kinematics, projectile motion and
    /// expiry, the fire-edge spawn, asteroid drift — in that order.
    /// Fails, leaving the game untouched, when the singleton ship or
    /// the projectile configuration is absent.
    pub fn tick(&mut self, input: &InputSnapshot, dt_ms: i64) -> (r: Result<(), SimError>)
        requires
            wf_view(old(self)@),
            0 <= dt_ms <= DT_LIMIT,
            old(self).next_id < u64::MAX,
            asteroids_within(old(self).asteroids@, DRIFT_LIMIT as int),
        ensures
            r is Ok <==> game_ok(old(self)@),
            old(self)@.ship is None ==> r == Err::<(), SimError>(SimError::MissingShip)
                && *final(self) == *old(self),
            old(self)@.ship is Some && old(self)@.load is None ==> r == Err::<(), SimError>(
                SimError::MissingProjectileConfig,
            ) && *final(self) == *old(self),
            game_ok(old(self)@) ==> final(self)@ == step_view(old(self)@, *input, dt_ms as int),
            game_ok(old(self)@) ==> wf_view(final(self)@),
            asteroids_within(final(self).asteroids@, DRIFT_LIMIT as int + DRIFT_STEP as int),
    {
        if self.ship.is_none() {
            return Err(SimError::MissingShip);
        }
        let load: ProjectileLoad = match &self.projectile_load {
            Some(l) => *l,
            None => {
                return Err(SimError::MissingProjectileConfig);
            },
        };
        let window = self.data.window;
        let (ship_now, tr_now): (Ship, Transform) = match &mut self.ship {
            Some(entity) => {
                move_ship(
                    &mut entity.ship,
                    &mut entity.transform,
                    &mut entity.velocity_timer,
                    input,
                    dt_ms,
                    &window,
                );
                (entity.ship, entity.transform)
            },
            None => {
                return Err(SimError::MissingShip);
            },
        };
        move_projectile(&mut self.projectiles, dt_ms, &window);
        proof {
            let adv = all_advanced(old(self)@.projectiles, dt_ms as int, window);
            assert forall|i: int, j: int| 0 <= i < j < adv.len() implies adv[i].id < adv[j].id by {
                assert(adv[i] == projectile_advanced(old(self)@.projectiles[i], dt_ms as int, window));
                assert(adv[j] == projectile_advanced(old(self)@.projectiles[j], dt_ms as int, window));
            }
            assert forall|k: int| 0 <= k < adv.len() implies (#[trigger] adv[k].id)
                < old(self)@.next_id by {
                assert(adv[k] == projectile_advanced(old(self)@.projectiles[k], dt_ms as int, window));
            }
            lemma_expired_structure(adv, dt_ms as int, -1, old(self)@.next_id);
        }
        destroy_projectile(&mut self.projectiles, dt_ms);
        create_projectile(
            &mut self.projectiles,
            &mut self.next_id,
            &mut self.fire_was_pressed,
            input.fire,
            &ship_now,
            &tr_now,
            &load,
        );
        move_asteroid(&mut self.asteroids, dt_ms);
        proof {
            lemma_ship_step_wf(
                old(self)@.ship->Some_0.ship,
                old(self)@.ship->Some_0.velocity_timer,
                old(self)@.ship->Some_0.transform,
                *input,
                dt_ms as int,
                window,
            );
        }
        Ok(())
    }
}

} // verus!
