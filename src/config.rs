use vstd::prelude::*;

verus! {

/// Length units per screen pixel.
pub const UNITS_PER_PIXEL: i64 = 1000;

/// Length of a unit direction vector.
pub const DIRECTION_SCALE: i64 = 1000;

/// Arena width and height.
pub const GAME_WIDTH: i64 = 800_000;
pub const GAME_HEIGHT: i64 = 600_000;
pub const HALF_WIDTH: i64 = 400_000;
pub const HALF_HEIGHT: i64 = 300_000;

/// Radius of a tank's body, used for containment and collisions.
pub const TANK_SIZE: i64 = 20_000;

/// Radius of a projectile.
pub const BULLET_SIZE: i64 = 6_000;

/// Velocity gained per tick for each held movement direction (two thirds of a pixel).
pub const TANK_SPEED: i64 = 667;

/// Projectile speed, in pixels per tick.
pub const BULLET_SPEED: i64 = 10;

/// Knockback impulse, in pixels per tick.
pub const KNOCKBACK: i64 = 5;

/// Health a tank spawns with.
pub const MAX_HEALTH: u8 = 5;

/// Largest coordinate magnitude a position may take.
pub const COORD_LIMIT: i64 = 1_000_000_000;

/// Largest velocity magnitude, per axis.
pub const VELOCITY_LIMIT: i64 = 1_000_000;

/// Time after start during which no tank moves or fires.
pub const GRACE_PERIOD_MS: i64 = 3_000;

} // verus!
