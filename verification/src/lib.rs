//! Core simulation of a small arcade space-combat game: a ship that
//! rotates and thrusts under input, wraps at the playfield boundary and
//! fires time-limited projectiles, while asteroid obstacles drift by.
//!
//! All quantities are fixed-point integers: lengths in milli-units,
//! speeds in milli-units per second, angles in milli-degrees and time in
//! milliseconds. Each tick is a pure state transform over the [`game::Game`]
//! registry; rendering, windowing and configuration files live outside.

use vstd::prelude::*;

pub mod angle;
pub mod asteroid;
pub mod game;
pub mod ship;
pub mod units;

use crate::units::COORD_LIMIT;

verus! {

/// Milli-units per whole unit: the fixed-point scale of the simulation.
pub const SCALE: i64 = 1000;

/// The coarse session state of the game shell.
#[derive(Debug, Clone, Eq, PartialEq, Hash, Copy)]
pub enum GameState {
    MainMenu,
    InGame,
    Paused,
    GameOver,
    Exit,
}

/// Playfield half-extents, in milli-units: every moving entity wraps or
/// is measured against these.
#[derive(Clone, Copy, Debug, PartialEq, Eq, Structural)]
pub struct WindowData {
    pub width_boundary: i64,
    pub height_boundary: i64,
}

/// Shared read-only context of a session: the boundary box and the score.
#[derive(Clone, Copy, Debug, PartialEq, Eq, Structural)]
pub struct GameData {
    pub window: WindowData,
    pub score: i16,
}

/// Half-extents are non-negative and within the coordinate limit.
pub open spec fn wf_window(w: WindowData) -> bool {
    &&& 0 <= w.width_boundary <= COORD_LIMIT
    &&& 0 <= w.height_boundary <= COORD_LIMIT
}

impl GameData {
    /// A fresh session context: the boundary box is half the window
    /// size on each axis, the score starts at zero.
    pub fn new(width: i64, height: i64) -> (g: GameData)
        requires
            0 <= width <= 2 * COORD_LIMIT,
            0 <= height <= 2 * COORD_LIMIT,
        ensures
            g.window.width_boundary == width as int / 2,
            g.window.height_boundary == height as int / 2,
            g.score == 0,
            wf_window(g.window),
    {
        let wb: u64 = (width as u64) / 2;
        let hb: u64 = (height as u64) / 2;
        GameData {
            window: WindowData { width_boundary: wb as i64, height_boundary: hb as i64 },
            score: 0,
        }
    }
}

/// The pressed state of the logical controls for one tick. The fire
/// control is a level: the simulation itself recognizes the rising edge.
#[derive(Clone, Copy, Debug, PartialEq, Eq, Structural)]
pub struct InputSnapshot {
    pub forward: bool,
    pub backward: bool,
    pub rotate_left: bool,
    pub rotate_right: bool,
    pub fire: bool,
}

impl InputSnapshot {
    /// A snapshot with no control pressed.
    pub fn released() -> (s: InputSnapshot)
        ensures
            s == (InputSnapshot {
                forward: false,
                backward: false,
                rotate_left: false,
                rotate_right: false,
                fire: false,
            }),
    {
        InputSnapshot {
            forward: false,
            backward: false,
            rotate_left: false,
            rotate_right: false,
            fire: false,
        }
    }
}

/// A fatal invariant violation of the surrounding session: the
/// simulation core itself has no recoverable failures.
#[derive(Clone, Copy, Debug, PartialEq, Eq, Structural)]
pub enum SimError {
    /// The singleton ship entity is absent.
    MissingShip,
    /// The projectile configuration was never installed.
    MissingProjectileConfig,
}

} // verus!
