//! Ship kinematics through whole game ticks.

use asteroids_core::game::Game;
use asteroids_core::ship::projectile::ProjectileInfo;
use asteroids_core::ship::{ShipInformation, ShipPlugin};
use asteroids_core::units::Vec2;
use asteroids_core::{GameData, InputSnapshot};

fn new_game() -> Game {
    let mut game = Game::new(GameData::new(800_000, 600_000));
    let plugin = ShipPlugin;
    plugin.build(
        &mut game,
        ShipInformation { max_speed: 50_000, acceleration: 5_000 },
        &ProjectileInfo { velocity: 100_000, duration_ms: 2_000 },
    );
    game
}

fn idle() -> InputSnapshot {
    InputSnapshot::released()
}

fn forward() -> InputSnapshot {
    let mut i = idle();
    i.forward = true;
    i
}

#[test]
fn forward_three_ticks_accumulates_each_contribution() {
    // Flat per-tick acceleration of five units, three ticks of a tenth
    // of a second: speeds 5, 10, 15 units per second, each tick's own
    // displacement integrated, not final speed times total time.
    let mut game = new_game();
    for _ in 0..3 {
        game.tick(&forward(), 100).unwrap();
    }
    let entity = game.ship.as_ref().unwrap();
    assert_eq!(entity.ship.current_speed, 15_000);
    assert_eq!(entity.ship.heading_direction, Vec2 { x: 0, y: 1000 });
    // 0.5 + 1.0 + 1.5 units along the up axis.
    assert_eq!(entity.transform.translation, Vec2 { x: 0, y: 3_000 });
}

#[test]
fn crossing_the_boundary_snaps_to_the_opposite_edge() {
    // Half-extent 400 units; the ship sits at 399 and covers two units
    // this tick, so the next evaluated position is exactly -400.
    let mut game = new_game();
    {
        let entity = game.ship.as_mut().unwrap();
        entity.transform.translation = Vec2 { x: 399_000, y: 0 };
        entity.ship.heading_direction = Vec2 { x: 1000, y: 0 };
        entity.ship.current_speed = 20_000;
    }
    game.tick(&idle(), 100).unwrap();
    let entity = game.ship.as_ref().unwrap();
    assert_eq!(entity.transform.translation.x, -400_000);
}

#[test]
fn speed_is_clamped_to_the_top_speed() {
    let mut game = Game::new(GameData::new(800_000, 600_000));
    let plugin = ShipPlugin;
    plugin.build(
        &mut game,
        ShipInformation { max_speed: 50_000, acceleration: 60_000 },
        &ProjectileInfo { velocity: 100_000, duration_ms: 2_000 },
    );
    game.tick(&forward(), 100).unwrap();
    assert_eq!(game.ship.as_ref().unwrap().ship.current_speed, 50_000);
    let mut backward = idle();
    backward.backward = true;
    game.tick(&backward, 100).unwrap();
    assert_eq!(game.ship.as_ref().unwrap().ship.current_speed, -50_000);
}

#[test]
fn decay_steps_the_speed_toward_zero_by_the_acceleration() {
    // The decay timer has a period of 0.3 s, so every 300 ms tick
    // without thrust fires one decay step of the full acceleration.
    let mut game = new_game();
    game.ship.as_mut().unwrap().ship.current_speed = 12_000;
    game.tick(&idle(), 300).unwrap();
    assert_eq!(game.ship.as_ref().unwrap().ship.current_speed, 7_000);
    game.tick(&idle(), 300).unwrap();
    assert_eq!(game.ship.as_ref().unwrap().ship.current_speed, 2_000);
    // The as-built decay is not floored at zero: a magnitude smaller
    // than the acceleration overshoots.
    game.tick(&idle(), 300).unwrap();
    assert_eq!(game.ship.as_ref().unwrap().ship.current_speed, -3_000);
}

#[test]
fn decay_skips_ticks_while_thrust_is_held() {
    let mut game = new_game();
    game.tick(&forward(), 300).unwrap();
    // The timer fired, but forward was held: no decay on top of the
    // five-unit increment.
    assert_eq!(game.ship.as_ref().unwrap().ship.current_speed, 5_000);
}

#[test]
fn decay_timer_keeps_its_remainder_when_it_fires() {
    let mut game = new_game();
    game.tick(&idle(), 250).unwrap();
    assert_eq!(game.ship.as_ref().unwrap().velocity_timer.elapsed_ms, 250);
    game.tick(&idle(), 100).unwrap();
    assert_eq!(game.ship.as_ref().unwrap().velocity_timer.elapsed_ms, 50);
}

#[test]
fn rotating_a_quarter_second_turns_a_quarter_turn() {
    // One full turn per second: 250 ms of rotate-left faces the ship
    // exactly along the negative x axis.
    let mut game = new_game();
    let mut left = idle();
    left.rotate_left = true;
    game.tick(&left, 250).unwrap();
    let entity = game.ship.as_ref().unwrap();
    assert_eq!(entity.ship.orientation, 90_000);
    assert_eq!(entity.ship.rotation_direction, Vec2 { x: -1000, y: 0 });
    // Without thrust the committed heading is still the up axis.
    assert_eq!(entity.ship.heading_direction, Vec2 { x: 0, y: 1000 });
}

#[test]
fn thrust_commits_the_heading_to_the_new_facing() {
    let mut game = new_game();
    let mut left_and_forward = forward();
    left_and_forward.rotate_left = true;
    game.tick(&left_and_forward, 250).unwrap();
    let entity = game.ship.as_ref().unwrap();
    assert_eq!(entity.ship.heading_direction, Vec2 { x: -1000, y: 0 });
    // Speed five units per second for a quarter second: 1.25 units
    // leftward.
    assert_eq!(entity.transform.translation, Vec2 { x: -1_250, y: 0 });
}

#[test]
fn opposite_rotations_cancel() {
    let mut game = new_game();
    let mut both = idle();
    both.rotate_left = true;
    both.rotate_right = true;
    game.tick(&both, 250).unwrap();
    assert_eq!(game.ship.as_ref().unwrap().ship.orientation, 0);
}

#[test]
fn rotating_right_wraps_the_orientation() {
    let mut game = new_game();
    let mut right = idle();
    right.rotate_right = true;
    game.tick(&right, 250).unwrap();
    assert_eq!(game.ship.as_ref().unwrap().ship.orientation, 270_000);
    assert_eq!(
        game.ship.as_ref().unwrap().ship.rotation_direction,
        Vec2 { x: 1000, y: 0 }
    );
}

#[test]
fn thrust_increments_per_tick_not_per_elapsed_time() {
    // The speed increment is a flat step per tick; only the position
    // integration is scaled by the elapsed time.
    let mut game = new_game();
    game.tick(&forward(), 50).unwrap();
    assert_eq!(game.ship.as_ref().unwrap().ship.current_speed, 5_000);
    let mut other = new_game();
    other.tick(&forward(), 200).unwrap();
    assert_eq!(other.ship.as_ref().unwrap().ship.current_speed, 5_000);
}

#[test]
fn backward_zeroes_a_positive_speed_first() {
    let mut game = new_game();
    game.ship.as_mut().unwrap().ship.current_speed = 30_000;
    let mut backward = idle();
    backward.backward = true;
    game.tick(&backward, 100).unwrap();
    assert_eq!(game.ship.as_ref().unwrap().ship.current_speed, -5_000);
}
