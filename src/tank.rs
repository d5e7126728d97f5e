use vstd::prelude::*;

use crate::config::{
    COORD_LIMIT, GRACE_PERIOD_MS, HALF_HEIGHT, HALF_WIDTH, TANK_SIZE, TANK_SPEED, VELOCITY_LIMIT,
};
use crate::geometry::{
    abs, clamp, clamp_i64, div_toward_zero, div_trunc, in_coord_range, in_velocity_range, Vec2,
};
use crate::turret::{FLASH_MS, TURRET_REST};

verus! {

/// Who controls a tank, and who fired a projectile.
#[derive(Clone, Copy, Debug, PartialEq, Eq, Structural)]
pub enum Faction {
    Player,
    Ai,
}

/// A wander direction of an AI tank.
#[derive(Clone, Copy, Debug, PartialEq, Eq, Structural)]
pub enum Heading {
    Left,
    Right,
    Down,
    Up,
    Still,
}

/// Movement directions held during one tick.
#[derive(Clone, Copy, Debug, PartialEq, Eq, Structural)]
pub struct MoveIntent {
    pub left: bool,
    pub right: bool,
    pub down: bool,
    pub up: bool,
}

/// Decision state of an AI-controlled tank.
#[derive(Clone, Copy, Debug, PartialEq, Eq, Structural)]
pub struct AiState {
    /// False while there is no player tank to target.
    pub active: bool,
    /// Milliseconds left before a new wander direction is drawn.
    pub steps: i64,
    /// Current wander direction.
    pub direction: Heading,
}

/// A tank together with the parts it carries: its turret mount and its health bar.
#[derive(Clone, Copy, Debug, PartialEq, Eq, Structural)]
pub struct Tank {
    pub id: u64,
    pub faction: Faction,
    pub position: Vec2,
    pub velocity: Vec2,
    pub health: u8,
    pub max_health: u8,
    /// Player: milliseconds since the last shot. AI: milliseconds until the next shot.
    pub attack_timer: i64,
    /// Milliseconds since the tank was last hit.
    pub hit_timer: i64,
    /// Offset of the turret from the bearing's pivot.
    pub turret_offset: i64,
    /// Vector from the tank toward the point its bearing faces.
    pub aim: Vec2,
    /// Present exactly for AI tanks.
    pub ai: Option<AiState>,
}

/// Largest magnitude of a timer.
pub const TIMER_LIMIT: i64 = 1_000_000_000_000;

/// Largest magnitude of a turret offset.
pub const OFFSET_LIMIT: i64 = 1_000_000_000;

impl Tank {
    /// The tank's fields lie within their ranges.
    pub open spec fn wf(&self) -> bool {
        &&& in_coord_range(self.position)
        &&& in_velocity_range(self.velocity)
        &&& abs(self.aim.x as int) <= 2 * COORD_LIMIT
        &&& abs(self.aim.y as int) <= 2 * COORD_LIMIT
        &&& 1 <= self.health <= self.max_health
        &&& abs(self.attack_timer as int) <= TIMER_LIMIT
        &&& abs(self.hit_timer as int) <= TIMER_LIMIT
        &&& abs(self.turret_offset as int) <= OFFSET_LIMIT
        &&& (self.ai is Some <==> self.faction == Faction::Ai)
        &&& (self.ai matches Some(a) ==> abs(a.steps as int) <= TIMER_LIMIT)
    }
}

impl Tank {
    /// A tank at rest with full health, its turret at rest, not flashing. An AI tank
    /// starts active, with its wander countdown expired.
    pub fn new(id: u64, faction: Faction, position: Vec2, max_health: u8) -> (r: Tank)
        requires
            in_coord_range(position),
            max_health >= 1,
        ensures
            r == (Tank {
                id,
                faction,
                position,
                velocity: Vec2 { x: 0, y: 0 },
                health: max_health,
                max_health,
                attack_timer: 0,
                hit_timer: FLASH_MS,
                turret_offset: TURRET_REST,
                aim: Vec2 { x: 0, y: 0 },
                ai: if faction == Faction::Ai {
                    Some(AiState { active: true, steps: 0, direction: Heading::Left })
                } else {
                    None
                },
            }),
            r.wf(),
    {
        let ai = match faction {
            Faction::Ai => Some(AiState { active: true, steps: 0, direction: Heading::Left }),
            Faction::Player => None,
        };
        Tank {
            id,
            faction,
            position,
            velocity: Vec2 { x: 0, y: 0 },
            health: max_health,
            max_health,
            attack_timer: 0,
            hit_timer: FLASH_MS,
            turret_offset: TURRET_REST,
            aim: Vec2 { x: 0, y: 0 },
            ai,
        }
    }
}

/// The startup grace period is over.
pub open spec fn past_grace(elapsed_ms: int) -> bool {
    elapsed_ms > GRACE_PERIOD_MS
}

/// Velocity after one tick of damping, to nine tenths.
pub open spec fn damp(v: int) -> int {
    div_trunc(v * 9, 10)
}

/// One axis of velocity after this tick's input and damping.
pub open spec fn axis_velocity(v: int, neg: bool, pos: bool) -> int {
    damp(v - (if neg { TANK_SPEED as int } else { 0 }) + (if pos { TANK_SPEED as int } else { 0 }))
}

/// A position coordinate moved by a velocity, saturating at the coordinate limit.
pub open spec fn advance(p: int, v: int) -> int {
    clamp(p + v, -COORD_LIMIT, COORD_LIMIT as int)
}

/// The tank after one tick of the movement integrator; `go` is false during the grace period.
pub open spec fn moved(t: Tank, intent: MoveIntent, go: bool) -> Tank {
    let vx = axis_velocity(t.velocity.x as int, go && intent.left, go && intent.right);
    let vy = axis_velocity(t.velocity.y as int, go && intent.down, go && intent.up);
    Tank {
        velocity: Vec2 { x: vx as i64, y: vy as i64 },
        position: Vec2 {
            x: advance(t.position.x as int, vx) as i64,
            y: advance(t.position.y as int, vy) as i64,
        },
        ..t
    }
}

/// The movement intent of a wander heading.
pub open spec fn heading_intent(h: Heading) -> MoveIntent {
    MoveIntent {
        left: h == Heading::Left,
        right: h == Heading::Right,
        down: h == Heading::Down,
        up: h == Heading::Up,
    }
}

fn axis_step(v: i64, neg: bool, pos: bool) -> (r: i64)
    requires
        abs(v as int) <= VELOCITY_LIMIT,
    ensures
        r == axis_velocity(v as int, neg, pos),
        abs(r as int) <= VELOCITY_LIMIT,
{
    let mut w: i64 = v;
    if neg {
        w = w - TANK_SPEED;
    }
    if pos {
        w = w + TANK_SPEED;
    }
    div_toward_zero(w * 9, 10)
}

/// Applies one tick of movement: input accumulates into velocity, velocity is damped
/// once, and the position moves by the new velocity. No input counts during the
/// startup grace period.
pub fn integrate(tank: &mut Tank, intent: MoveIntent, elapsed_ms: i64)
    requires
        old(tank).wf(),
    ensures
        *final(tank) == moved(*old(tank), intent, past_grace(elapsed_ms as int)),
        final(tank).wf(),
{
    let go = elapsed_ms > GRACE_PERIOD_MS;
    let vx = axis_step(tank.velocity.x, go && intent.left, go && intent.right);
    let vy = axis_step(tank.velocity.y, go && intent.down, go && intent.up);
    tank.velocity = Vec2 { x: vx, y: vy };
    let px = clamp_i64(tank.position.x + vx, -COORD_LIMIT, COORD_LIMIT);
    let py = clamp_i64(tank.position.y + vy, -COORD_LIMIT, COORD_LIMIT);
    tank.position = Vec2 { x: px, y: py };
}

/// The heading that leads away from the last arena edge the position crosses,
/// checked right, left, top, bottom.
pub open spec fn forced_heading(p: Vec2) -> Option<Heading> {
    if p.y < -HALF_HEIGHT + TANK_SIZE {
        Some(Heading::Up)
    } else if p.y > HALF_HEIGHT - TANK_SIZE {
        Some(Heading::Down)
    } else if p.x < -HALF_WIDTH + TANK_SIZE {
        Some(Heading::Right)
    } else if p.x > HALF_WIDTH - TANK_SIZE {
        Some(Heading::Left)
    } else {
        None
    }
}

/// The tank after containment: each axis on which it crosses an edge is clamped to
/// the boundary and loses its velocity, and an AI turns away from the edge.
pub open spec fn contained(t: Tank) -> Tank {
    let out_x = t.position.x > HALF_WIDTH - TANK_SIZE || t.position.x < -HALF_WIDTH + TANK_SIZE;
    let out_y = t.position.y > HALF_HEIGHT - TANK_SIZE || t.position.y < -HALF_HEIGHT + TANK_SIZE;
    Tank {
        position: Vec2 {
            x: clamp(t.position.x as int, -HALF_WIDTH + TANK_SIZE, HALF_WIDTH - TANK_SIZE) as i64,
            y: clamp(t.position.y as int, -HALF_HEIGHT + TANK_SIZE, HALF_HEIGHT - TANK_SIZE) as i64,
        },
        velocity: Vec2 {
            x: if out_x { 0 } else { t.velocity.x },
            y: if out_y { 0 } else { t.velocity.y },
        },
        ai: match (t.ai, forced_heading(t.position)) {
            (Some(a), Some(h)) => Some(AiState { direction: h, ..a }),
            _ => t.ai,
        },
        ..t
    }
}

/// Keeps a tank inside the arena.
pub fn keep_tank_on_screen(tank: &mut Tank)
    requires
        old(tank).wf(),
    ensures
        *final(tank) == contained(*old(tank)),
        final(tank).wf(),
        abs(final(tank).position.x as int) <= HALF_WIDTH - TANK_SIZE,
        abs(final(tank).position.y as int) <= HALF_HEIGHT - TANK_SIZE,
{
    let mut forced: Option<Heading> = None;
    if tank.position.x > HALF_WIDTH - TANK_SIZE {
        tank.velocity.x = 0;
        tank.position.x = HALF_WIDTH - TANK_SIZE;
        forced = Some(Heading::Left);
    }
    if tank.position.x < -HALF_WIDTH + TANK_SIZE {
        tank.velocity.x = 0;
        tank.position.x = -HALF_WIDTH + TANK_SIZE;
        forced = Some(Heading::Right);
    }
    if tank.position.y > HALF_HEIGHT - TANK_SIZE {
        tank.velocity.y = 0;
        tank.position.y = HALF_HEIGHT - TANK_SIZE;
        forced = Some(Heading::Down);
    }
    if tank.position.y < -HALF_HEIGHT + TANK_SIZE {
        tank.velocity.y = 0;
        tank.position.y = -HALF_HEIGHT + TANK_SIZE;
        forced = Some(Heading::Up);
    }
    if let Some(h) = forced {
        if let Some(a) = tank.ai {
            tank.ai = Some(AiState { direction: h, ..a });
        }
    }
}

} // verus!
