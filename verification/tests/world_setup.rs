//! Session setup, the asteroid field and the fatal error paths.

use asteroids_core::asteroid::AsteroidPlugin;
use asteroids_core::game::Game;
use asteroids_core::ship::projectile::{ProjectileInfo, ProjectilePlugin};
use asteroids_core::ship::{Ship, ShipInformation, ShipPlugin, setup};
use asteroids_core::units::Vec2;
use asteroids_core::{GameData, GameState, InputSnapshot, SimError};

fn idle() -> InputSnapshot {
    InputSnapshot::released()
}

#[test]
fn a_fresh_ship_is_at_rest_facing_up() {
    let ship = Ship::from(ShipInformation { max_speed: 50_000, acceleration: 5_000 });
    assert_eq!(ship.max_speed, 50_000);
    assert_eq!(ship.acceleration, 5_000);
    assert_eq!(ship.current_speed, 0);
    assert_eq!(ship.orientation, 0);
    assert_eq!(ship.heading_direction, Vec2 { x: 0, y: 1000 });
    assert_eq!(ship.rotation_direction, Vec2 { x: 0, y: 1000 });
    // One full turn per second, in milli-degrees per second.
    assert_eq!(ship.rotation_speed, 360_000);
}

#[test]
fn ship_setup_centers_the_ship_with_a_fresh_timer() {
    let mut game = Game::new(GameData::new(800_000, 600_000));
    setup(&mut game, ShipInformation { max_speed: 50_000, acceleration: 5_000 });
    let entity = game.ship.as_ref().unwrap();
    assert_eq!(entity.transform.translation, Vec2 { x: 0, y: 0 });
    assert_eq!(entity.velocity_timer.elapsed_ms, 0);
    assert_eq!(entity.velocity_timer.period_ms, 300);
}

#[test]
fn tick_without_a_ship_is_fatal() {
    let mut game = Game::new(GameData::new(800_000, 600_000));
    assert_eq!(game.tick(&idle(), 100), Err(SimError::MissingShip));
    // The failed tick leaves the game untouched.
    assert!(game.ship.is_none());
    assert_eq!(game.next_id, 0);
}

#[test]
fn tick_without_the_projectile_configuration_is_fatal() {
    let mut game = Game::new(GameData::new(800_000, 600_000));
    setup(&mut game, ShipInformation { max_speed: 50_000, acceleration: 5_000 });
    assert_eq!(game.tick(&idle(), 100), Err(SimError::MissingProjectileConfig));
}

#[test]
fn projectile_plugin_installs_the_configuration() {
    let mut game = Game::new(GameData::new(800_000, 600_000));
    let plugin = ProjectilePlugin;
    plugin.build(&mut game, &ProjectileInfo { velocity: 100_000, duration_ms: 2_000 });
    let load = game.projectile_load.as_ref().unwrap();
    assert_eq!(load.velocity, 100_000);
    assert_eq!(load.duration_ms, 2_000);
}

#[test]
fn asteroid_setup_spawns_two_drifters() {
    let mut game = Game::new(GameData::new(800_000, 600_000));
    let plugin = AsteroidPlugin;
    plugin.build(&mut game);
    assert_eq!(game.asteroids.len(), 2);
    assert_eq!(
        game.asteroids[0].transform.translation,
        Vec2 { x: 100_000, y: 200_000 }
    );
    assert_eq!(
        game.asteroids[1].transform.translation,
        Vec2 { x: 200_000, y: 200_000 }
    );
    for entity in &game.asteroids {
        assert_eq!(entity.asteroid.velocity, 45_000);
        assert_eq!(entity.asteroid.direction, Vec2 { x: -1000, y: 0 });
    }
}

#[test]
fn asteroids_drift_leftward_without_wrapping() {
    let mut game = Game::new(GameData::new(800_000, 600_000));
    let ship_plugin = ShipPlugin;
    ship_plugin.build(
        &mut game,
        ShipInformation { max_speed: 50_000, acceleration: 5_000 },
        &ProjectileInfo { velocity: 100_000, duration_ms: 2_000 },
    );
    let asteroid_plugin = AsteroidPlugin;
    asteroid_plugin.build(&mut game);
    game.tick(&idle(), 1_000).unwrap();
    // 45 units per second for one second, straight left; no boundary
    // handling for asteroids.
    assert_eq!(
        game.asteroids[0].transform.translation,
        Vec2 { x: 55_000, y: 200_000 }
    );
    assert_eq!(
        game.asteroids[1].transform.translation,
        Vec2 { x: 155_000, y: 200_000 }
    );
}

#[test]
fn session_states_are_distinct() {
    let state = GameState::InGame;
    assert!(matches!(state, GameState::InGame));
    assert_ne!(GameState::MainMenu, GameState::GameOver);
    assert_eq!(GameState::Paused, GameState::Paused);
}
