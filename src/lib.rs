//! A side-scrolling platformer simulation: kinematic bodies, one-way platform
//! landing, a streamed window of platforms, pursuing enemies and the player's
//! jump timing, advanced by a single hand-ordered step function.
//!
//! Lengths are thousandths of a world unit, speeds thousandths of a unit per
//! second, accelerations thousandths of a unit per second squared, and time
//! steps microseconds.
use vstd::prelude::*;

pub mod animation;
pub mod body;
pub mod enemy;
pub mod fixed;
pub mod geometry;
pub mod laws;
pub mod platform;
pub mod player;
pub mod random;
pub mod state;
pub mod timer;
pub mod world;

pub use animation::{Animation, AnimationIndices};
pub use body::{Body, Platform, PlatformQueue};
pub use enemy::Enemy;
pub use platform::spawn_platform;
pub use player::{Player, PlayerInput, PlayerState};
pub use state::{Distance, GameConfig, GameState};
pub use timer::{AnimationTimer, Countdown};
pub use world::World;

verus! {

/// Downward acceleration of airborne bodies.
pub const GRAVITY: u32 = 1_600_000;

/// Vertical speed given by a player's jump.
pub const PLAYER_JUMP_STRENGTH: i64 = 650_000;

/// Largest horizontal speed of the player.
pub const PLAYER_SPEED: i64 = 300_000;

/// Width of the player (and of an enemy).
pub const BODY_WIDTH: i64 = 50_000;

/// Height of the player (and of an enemy).
pub const BODY_HEIGHT: i64 = 80_000;

/// Thickness of every platform.
pub const PLATFORM_THICKNESS: i64 = 20_000;

/// Width of the visible part of the world.
pub const VIEWPORT_WIDTH: i64 = 800_000;

/// Horizontal chase speed of an enemy.
pub const ENEMY_SPEED: i64 = 270_000;

/// Vertical speed given by an enemy's jump.
pub const ENEMY_JUMP_STRENGTH: i64 = 650_000;

} // verus!
