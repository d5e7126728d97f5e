use vstd::prelude::*;

use crate::combat::Bullet;
use crate::config::{COORD_LIMIT, DIRECTION_SCALE, GRACE_PERIOD_MS};
use crate::geometry::{
    abs, clamp, clamp_i64, difference, direction_scaled, div_toward_zero, div_trunc,
    in_coord_range, scaled_direction, Vec2,
};
use crate::healthbar::Viewport;
use crate::tank::{past_grace, Tank, OFFSET_LIMIT, TIMER_LIMIT};

verus! {

/// Offset at which a turret rests: four pixels beyond the tank's radius.
pub const TURRET_REST: i64 = 24_000;

/// How far a shot throws the turret back toward the pivot.
pub const TURRET_RECOIL: i64 = 10_000;

/// Milliseconds a player must wait between shots.
pub const PLAYER_COOLDOWN_MS: i64 = 400;

/// Milliseconds a struck tank flashes.
pub const FLASH_MS: i64 = 67;

/// A turret offset after one tick of easing: a tenth of the way back to rest.
pub open spec fn eased(offset: int) -> int {
    offset + div_trunc(TURRET_REST - offset, 10)
}

/// A timer advanced by `dt` milliseconds, saturating at the timer limit.
pub open spec fn timer_plus(t: int, dt: int) -> int {
    clamp(t + dt, -TIMER_LIMIT, TIMER_LIMIT as int)
}

/// Moves a turret offset a tenth of the way toward its resting offset.
pub fn ease_turret(offset: i64) -> (r: i64)
    requires
        abs(offset as int) <= OFFSET_LIMIT,
    ensures
        r == eased(offset as int),
        abs(r as int) <= OFFSET_LIMIT,
{
    offset + div_toward_zero(TURRET_REST - offset, 10)
}

/// Advances a timer by `dt` milliseconds.
pub fn advance_timer(t: i64, dt: i64) -> (r: i64)
    requires
        abs(t as int) <= TIMER_LIMIT,
        abs(dt as int) <= TIMER_LIMIT,
    ensures
        r == timer_plus(t as int, dt as int),
        abs(r as int) <= TIMER_LIMIT,
{
    clamp_i64(t + dt, -TIMER_LIMIT, TIMER_LIMIT)
}

/// The vector from `from` to `to`.
pub open spec fn aim_toward(from: Vec2, to: Vec2) -> Vec2 {
    Vec2 { x: (to.x - from.x) as i64, y: (to.y - from.y) as i64 }
}

/// The vector from `from` to `to`, which the bearing faces.
pub fn aim_vector(from: Vec2, to: Vec2) -> (r: Vec2)
    requires
        in_coord_range(from),
        in_coord_range(to),
    ensures
        r == aim_toward(from, to),
        r.x == to.x - from.x,
        r.y == to.y - from.y,
        abs(r.x as int) <= 2 * COORD_LIMIT,
        abs(r.y as int) <= 2 * COORD_LIMIT,
{
    Vec2 { x: to.x - from.x, y: to.y - from.y }
}

/// The projectile a tank fires toward `target`: from the tank's centre, along the unit
/// vector toward the target. A target at the tank's centre gives no direction.
pub open spec fn shot(t: Tank, target: Vec2) -> Option<Bullet> {
    let d = Vec2 { x: (target.x - t.position.x) as i64, y: (target.y - t.position.y) as i64 };
    if d.x == 0 && d.y == 0 {
        None
    } else {
        let u = scaled_direction(d, DIRECTION_SCALE as int);
        Some(Bullet { position: t.position, direction: Vec2 { x: u.0 as i64, y: u.1 as i64 }, from: t.faction })
    }
}

/// Spawns the projectile a tank fires toward `target`.
pub fn fire(t: &Tank, target: Vec2) -> (r: Option<Bullet>)
    requires
        t.wf(),
        in_coord_range(target),
    ensures
        r == shot(*t, target),
        r matches Some(b) ==> b.wf(),
{
    let d = difference(target, t.position);
    match direction_scaled(d, DIRECTION_SCALE) {
        None => None,
        Some(u) => Some(Bullet { position: t.position, direction: u, from: t.faction }),
    }
}

/// World coordinates of a cursor given in window coordinates (origin at the top left,
/// y downward), for a view centred on the world origin.
pub open spec fn cursor_world(cursor: Vec2, window: Viewport) -> Vec2 {
    Vec2 {
        x: (cursor.x - window.width / 2) as i64,
        y: (window.height - cursor.y - window.height / 2) as i64,
    }
}

/// Converts a cursor position to world coordinates.
pub fn cursor_to_world(cursor: Vec2, window: Viewport) -> (r: Vec2)
    requires
        0 <= cursor.x <= COORD_LIMIT / 4,
        0 <= cursor.y <= COORD_LIMIT / 4,
        0 <= window.width <= COORD_LIMIT / 4,
        0 <= window.height <= COORD_LIMIT / 4,
    ensures
        r == cursor_world(cursor, window),
        in_coord_range(r),
{
    Vec2 { x: cursor.x - window.width / 2, y: window.height - cursor.y - window.height / 2 }
}

/// The player may shoot: the button is held, the cooldown has passed, and the startup
/// grace period is over.
pub open spec fn player_may_fire(t: Tank, fire_held: bool, elapsed_ms: int) -> bool {
    fire_held && t.attack_timer > PLAYER_COOLDOWN_MS && past_grace(elapsed_ms)
}

/// A player tank after one tick of aiming and shooting.
pub open spec fn player_aimed(t: Tank, target: Vec2, fire_held: bool, elapsed_ms: int, dt: int) -> Tank {
    let aim = aim_toward(t.position, target);
    let fires = player_may_fire(t, fire_held, elapsed_ms) && shot(t, target) is Some;
    Tank {
        aim,
        turret_offset: (if fires { TURRET_REST - TURRET_RECOIL } else { eased(t.turret_offset as int) }) as i64,
        attack_timer: timer_plus(if fires { 0 } else { t.attack_timer as int }, dt) as i64,
        ..t
    }
}

/// Aims a player's turret at `target` and shoots when allowed: the bearing turns to the
/// target, the turret eases out or recoils on a shot, and the shot resets the cooldown.
/// Returns the projectile fired, for which one gunshot sound is owed.
pub fn mouse_button_input(tank: &mut Tank, target: Vec2, fire_held: bool, elapsed_ms: i64, dt_ms: i64) -> (r: Option<Bullet>)
    requires
        old(tank).wf(),
        in_coord_range(target),
        0 <= dt_ms <= TIMER_LIMIT,
    ensures
        *final(tank) == player_aimed(*old(tank), target, fire_held, elapsed_ms as int, dt_ms as int),
        r == (if player_may_fire(*old(tank), fire_held, elapsed_ms as int) { shot(*old(tank), target) } else { None }),
        final(tank).wf(),
        r matches Some(b) ==> b.wf(),
{
    tank.aim = aim_vector(tank.position, target);
    let mut bullet: Option<Bullet> = None;
    if fire_held && tank.attack_timer > PLAYER_COOLDOWN_MS && elapsed_ms > GRACE_PERIOD_MS {
        bullet = fire(tank, target);
    }
    if bullet.is_some() {
        tank.turret_offset = TURRET_REST - TURRET_RECOIL;
        tank.attack_timer = advance_timer(0, dt_ms);
    } else {
        tank.turret_offset = ease_turret(tank.turret_offset);
        tank.attack_timer = advance_timer(tank.attack_timer, dt_ms);
    }
    bullet
}

/// Advances the time since a tank was last hit.
pub fn update_hit_timer(tank: &mut Tank, dt_ms: i64)
    requires
        old(tank).wf(),
        0 <= dt_ms <= TIMER_LIMIT,
    ensures
        *final(tank) == (Tank { hit_timer: timer_plus(old(tank).hit_timer as int, dt_ms as int) as i64, ..*old(tank) }),
        final(tank).wf(),
{
    tank.hit_timer = advance_timer(tank.hit_timer, dt_ms);
}

/// A tank flashes for a moment after it is hit.
pub fn flash_yellow(tank: &Tank) -> (r: bool)
    ensures
        r == (tank.hit_timer < FLASH_MS),
{
    tank.hit_timer < FLASH_MS
}

} // verus!
