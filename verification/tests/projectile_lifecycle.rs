//! Projectile spawn, motion, expiry and the fire edge.

use asteroids_core::game::Game;
use asteroids_core::ship::projectile::ProjectileInfo;
use asteroids_core::ship::{ShipInformation, ShipPlugin};
use asteroids_core::units::Vec2;
use asteroids_core::{GameData, InputSnapshot};

fn new_game() -> Game {
    let mut game = Game::new(GameData::new(800_000, 600_000));
    let plugin = ShipPlugin;
    plugin.build(
        &mut game,
        ShipInformation { max_speed: 50_000, acceleration: 5_000 },
        &ProjectileInfo { velocity: 100_000, duration_ms: 2_000 },
    );
    game
}

fn idle() -> InputSnapshot {
    InputSnapshot::released()
}

fn fire() -> InputSnapshot {
    let mut i = idle();
    i.fire = true;
    i
}

#[test]
fn spawn_offsets_the_muzzle_along_the_facing() {
    let mut game = new_game();
    game.tick(&fire(), 100).unwrap();
    assert_eq!(game.projectiles.len(), 1);
    let p = &game.projectiles[0];
    assert_eq!(p.id, 0);
    assert_eq!(p.transform.translation, Vec2 { x: 0, y: 15_000 });
    assert_eq!(p.projectile.direction, Vec2 { x: 0, y: 1000 });
    assert_eq!(p.projectile.velocity, 100_000);
    assert_eq!(p.time.elapsed_ms, 0);
    assert_eq!(p.time.duration_ms, 2_000);
}

#[test]
fn spawn_inherits_only_a_positive_ship_speed() {
    let mut game = new_game();
    game.ship.as_mut().unwrap().ship.current_speed = 10_000;
    game.tick(&fire(), 100).unwrap();
    // The spawn reads the already-updated ship of this tick: the ship
    // covered one unit upward before firing.
    let p = &game.projectiles[0];
    assert_eq!(p.projectile.velocity, 110_000);
    assert_eq!(p.transform.translation, Vec2 { x: 0, y: 16_000 });

    let mut game2 = new_game();
    game2.ship.as_mut().unwrap().ship.current_speed = -10_000;
    game2.tick(&fire(), 100).unwrap();
    assert_eq!(game2.projectiles[0].projectile.velocity, 100_000);
}

#[test]
fn holding_fire_spawns_exactly_once() {
    let mut game = new_game();
    for _ in 0..5 {
        game.tick(&fire(), 100).unwrap();
    }
    assert_eq!(game.projectiles.len(), 1);
    assert_eq!(game.next_id, 1);
    // Release, then press again: one more.
    game.tick(&idle(), 100).unwrap();
    game.tick(&fire(), 100).unwrap();
    assert_eq!(game.projectiles.len(), 2);
    assert_eq!(game.next_id, 2);
}

#[test]
fn direction_is_frozen_at_spawn() {
    let mut game = new_game();
    game.tick(&fire(), 100).unwrap();
    assert_eq!(game.projectiles[0].projectile.direction, Vec2 { x: 0, y: 1000 });
    // Rotate the ship a quarter turn after firing: the projectile's
    // direction must not move with it.
    let mut left = idle();
    left.rotate_left = true;
    game.tick(&left, 250).unwrap();
    assert_eq!(
        game.ship.as_ref().unwrap().ship.rotation_direction,
        Vec2 { x: -1000, y: 0 }
    );
    assert_eq!(game.projectiles[0].projectile.direction, Vec2 { x: 0, y: 1000 });
}

#[test]
fn projectiles_advance_along_their_own_direction() {
    let mut game = new_game();
    game.tick(&fire(), 100).unwrap();
    game.tick(&idle(), 100).unwrap();
    // 100 units per second for a tenth of a second: ten units upward
    // from the muzzle.
    assert_eq!(
        game.projectiles[0].transform.translation,
        Vec2 { x: 0, y: 25_000 }
    );
}

#[test]
fn projectiles_wrap_at_the_boundary_like_the_ship() {
    let mut game = new_game();
    game.tick(&fire(), 100).unwrap();
    game.projectiles[0].transform.translation = Vec2 { x: 0, y: 299_000 };
    game.tick(&idle(), 100).unwrap();
    // 299 + 10 units crosses the 300-unit half-extent: snap to -300.
    assert_eq!(
        game.projectiles[0].transform.translation,
        Vec2 { x: 0, y: -300_000 }
    );
}

#[test]
fn lifetime_expires_on_the_tick_that_reaches_it() {
    // Lifetime two seconds. Nineteen aging ticks of 100 ms leave the
    // projectile at 1.9 s, still present; the tick that pushes the
    // accumulated time to 2.0 s removes it.
    let mut game = new_game();
    game.tick(&fire(), 100).unwrap();
    for _ in 0..19 {
        game.tick(&idle(), 100).unwrap();
    }
    assert_eq!(game.projectiles.len(), 1);
    assert_eq!(game.projectiles[0].time.elapsed_ms, 1_900);
    game.tick(&idle(), 100).unwrap();
    assert_eq!(game.projectiles.len(), 0);
}

#[test]
fn a_spawn_tick_does_not_age_the_newcomer() {
    let mut game = new_game();
    game.tick(&fire(), 500).unwrap();
    // The spawn happens after this tick's aging pass: the newcomer's
    // clock starts at zero.
    assert_eq!(game.projectiles[0].time.elapsed_ms, 0);
}

#[test]
fn spawn_offset_is_applied_per_axis() {
    // The muzzle offset is the facing vector scaled by fifteen units
    // on each axis, so a diagonal facing spawns at a diagonal offset
    // of larger magnitude.
    let mut game = new_game();
    game.ship.as_mut().unwrap().ship.orientation = 45_000;
    game.tick(&fire(), 0).unwrap();
    let p = &game.projectiles[0];
    assert_eq!(p.projectile.direction, Vec2 { x: -705, y: 705 });
    assert_eq!(p.transform.translation, Vec2 { x: -10_575, y: 10_575 });
}

#[test]
fn expiry_removes_only_the_spent_projectile() {
    let mut game = new_game();
    game.tick(&fire(), 100).unwrap();
    // Age the first projectile close to its lifetime, then fire again.
    for _ in 0..18 {
        game.tick(&idle(), 100).unwrap();
    }
    game.tick(&fire(), 100).unwrap();
    assert_eq!(game.projectiles.len(), 2);
    // Two more ticks spend the first projectile only.
    game.tick(&idle(), 100).unwrap();
    assert_eq!(game.projectiles.len(), 1);
    assert_eq!(game.projectiles[0].id, 1);
}
