use vstd::prelude::*;

use crate::combat::Bullet;
use crate::config::GRACE_PERIOD_MS;
use crate::geometry::{in_coord_range, Vec2};
use crate::random::draw_between;
use crate::tank::{
    heading_intent, integrate, moved, past_grace, AiState, Heading, MoveIntent, Tank, TIMER_LIMIT,
};
use crate::turret::{
    advance_timer, aim_toward, aim_vector, ease_turret, eased, fire, shot, timer_plus, TURRET_RECOIL, TURRET_REST,
};

verus! {

/// Shortest and longest wait, in milliseconds, between two shots of an AI tank.
pub const AI_COOLDOWN_MIN_MS: i64 = 500;
pub const AI_COOLDOWN_MAX_MS: i64 = 1_400;

/// Longest time, in milliseconds, an AI keeps one wander direction.
pub const WANDER_MAX_MS: i64 = 1_000;

/// The wander heading for a draw of `0 ..= 4`.
pub open spec fn heading_of(draw: int) -> Heading {
    if draw == 0 {
        Heading::Left
    } else if draw == 1 {
        Heading::Right
    } else if draw == 2 {
        Heading::Down
    } else if draw == 3 {
        Heading::Up
    } else {
        Heading::Still
    }
}

/// The AI state of a tank; meaningful for AI tanks only.
pub open spec fn ai_of(t: Tank) -> AiState {
    match t.ai {
        Some(a) => a,
        None => AiState { active: false, steps: 0, direction: Heading::Still },
    }
}

/// An AI tank after one wander tick. When its countdown is at or below zero, it takes the drawn
/// heading and duration. It then moves along its heading, unless it is inactive or the
/// grace period lasts, and its countdown runs down by the elapsed time.
pub open spec fn wandered(t: Tank, elapsed_ms: int, dt: int, heading_draw: int, steps_draw: int) -> Tank {
    let a = ai_of(t);
    let a1 = if a.steps <= 0 {
        AiState { direction: heading_of(heading_draw), steps: steps_draw as i64, ..a }
    } else {
        a
    };
    let m = moved(t, heading_intent(a1.direction), past_grace(elapsed_ms) && a1.active);
    Tank { ai: Some(AiState { steps: timer_plus(a1.steps as int, -dt) as i64, ..a1 }), ..m }
}

fn heading_from_draw(draw: i64) -> (r: Heading)
    ensures
        r == heading_of(draw as int),
{
    if draw == 0 {
        Heading::Left
    } else if draw == 1 {
        Heading::Right
    } else if draw == 2 {
        Heading::Down
    } else if draw == 3 {
        Heading::Up
    } else {
        Heading::Still
    }
}

/// One wander tick of an AI tank with the given draws for a new heading and duration.
pub fn ai_movement_with(tank: &mut Tank, elapsed_ms: i64, dt_ms: i64, heading_draw: i64, steps_draw: i64)
    requires
        old(tank).wf(),
        old(tank).ai is Some,
        0 <= dt_ms <= TIMER_LIMIT,
        0 <= steps_draw <= WANDER_MAX_MS,
    ensures
        *final(tank) == wandered(*old(tank), elapsed_ms as int, dt_ms as int, heading_draw as int, steps_draw as int),
        final(tank).wf(),
{
    let mut a = match tank.ai {
        Some(a) => a,
        None => AiState { active: false, steps: 0, direction: Heading::Still },
    };
    if a.steps <= 0 {
        a = AiState { direction: heading_from_draw(heading_draw), steps: steps_draw, ..a };
    }
    let intent = MoveIntent {
        left: a.direction == Heading::Left,
        right: a.direction == Heading::Right,
        down: a.direction == Heading::Down,
        up: a.direction == Heading::Up,
    };
    let go_ms = if a.active { elapsed_ms } else { GRACE_PERIOD_MS };
    let ghost before = *tank;
    integrate(tank, intent, go_ms);
    assert(*tank == moved(before, heading_intent(a.direction), past_grace(elapsed_ms as int) && a.active));
    tank.ai = Some(AiState { steps: advance_timer(a.steps, -dt_ms), ..a });
}

/// One wander tick of an AI tank, drawing a new heading from `0 ..= 4` and a new
/// duration from `0 ..= WANDER_MAX_MS` at random.
pub fn ai_movement(tank: &mut Tank, elapsed_ms: i64, dt_ms: i64)
    requires
        old(tank).wf(),
        old(tank).ai is Some,
        0 <= dt_ms <= TIMER_LIMIT,
    ensures
        exists|h: int, s: int|
            0 <= h <= 4 && 0 <= s <= WANDER_MAX_MS && *final(tank) == #[trigger] wandered(
                *old(tank),
                elapsed_ms as int,
                dt_ms as int,
                h,
                s,
            ),
        final(tank).wf(),
{
    let h = draw_between(0, 4);
    let s = draw_between(0, WANDER_MAX_MS);
    ai_movement_with(tank, elapsed_ms, dt_ms, h, s);
}

/// An AI tank after one tick of aiming and shooting, with `target` the position of a
/// live player tank, if any, and `cooldown` the drawn wait before its next shot.
///
/// An active AI with no player to target becomes inactive and leaves its timer alone.
/// An active AI with a target turns its bearing to it, eases its turret out, and once
/// its timer is at or below zero (after the grace period) shoots, recoils and restarts the
/// timer from `cooldown`; its timer runs down after the grace period. An inactive AI
/// eases its turret back and becomes active again once a player exists.
pub open spec fn ai_aimed(t: Tank, target: Option<Vec2>, elapsed_ms: int, dt: int, cooldown: int) -> (Tank, Option<Bullet>) {
    let a = ai_of(t);
    if a.active {
        match target {
            None => (Tank { ai: Some(AiState { active: false, ..a }), ..t }, None),
            Some(p) => {
                let aim = aim_toward(t.position, p);
                let fires = t.attack_timer <= 0 && past_grace(elapsed_ms) && shot(t, p) is Some;
                let timer = if fires { cooldown } else { t.attack_timer as int };
                let timer = if past_grace(elapsed_ms) { timer_plus(timer, -dt) } else { timer };
                (
                    Tank {
                        aim,
                        turret_offset: (if fires { TURRET_REST - TURRET_RECOIL } else { eased(t.turret_offset as int) }) as i64,
                        attack_timer: timer as i64,
                        ..t
                    },
                    if fires { shot(t, p) } else { None },
                )
            },
        }
    } else {
        (
            Tank {
                turret_offset: eased(t.turret_offset as int) as i64,
                ai: Some(AiState { active: target is Some, ..a }),
                ..t
            },
            None,
        )
    }
}

/// One tick of aiming and shooting of an AI tank with a drawn cooldown.
/// Returns the projectile fired, for which one gunshot sound is owed.
pub fn ai_rotate_with(tank: &mut Tank, target: Option<Vec2>, elapsed_ms: i64, dt_ms: i64, cooldown: i64) -> (r: Option<Bullet>)
    requires
        old(tank).wf(),
        old(tank).ai is Some,
        target matches Some(p) ==> in_coord_range(p),
        0 <= dt_ms <= TIMER_LIMIT,
        AI_COOLDOWN_MIN_MS <= cooldown <= AI_COOLDOWN_MAX_MS,
    ensures
        (*final(tank), r) == ai_aimed(*old(tank), target, elapsed_ms as int, dt_ms as int, cooldown as int),
        final(tank).wf(),
        r matches Some(b) ==> b.wf(),
        target is None ==> !ai_of(*final(tank)).active && final(tank).attack_timer == old(tank).attack_timer && r is None,
        target is Some ==> ai_of(*final(tank)).active,
{
    let a = match tank.ai {
        Some(a) => a,
        None => AiState { active: false, steps: 0, direction: Heading::Still },
    };
    if a.active {
        match target {
            None => {
                tank.ai = Some(AiState { active: false, ..a });
                None
            },
            Some(p) => {
                tank.aim = aim_vector(tank.position, p);
                let grace_over = elapsed_ms > GRACE_PERIOD_MS;
                let mut bullet: Option<Bullet> = None;
                if tank.attack_timer <= 0 && grace_over {
                    bullet = fire(tank, p);
                }
                let mut timer = tank.attack_timer;
                if bullet.is_some() {
                    tank.turret_offset = TURRET_REST - TURRET_RECOIL;
                    timer = cooldown;
                } else {
                    tank.turret_offset = ease_turret(tank.turret_offset);
                }
                if grace_over {
                    timer = advance_timer(timer, -dt_ms);
                }
                tank.attack_timer = timer;
                bullet
            },
        }
    } else {
        tank.turret_offset = ease_turret(tank.turret_offset);
        tank.ai = Some(AiState { active: target.is_some(), ..a });
        None
    }
}

/// One tick of aiming and shooting of an AI tank, drawing its next cooldown from
/// `AI_COOLDOWN_MIN_MS ..= AI_COOLDOWN_MAX_MS` at random.
pub fn ai_rotate(tank: &mut Tank, target: Option<Vec2>, elapsed_ms: i64, dt_ms: i64) -> (r: Option<Bullet>)
    requires
        old(tank).wf(),
        old(tank).ai is Some,
        target matches Some(p) ==> in_coord_range(p),
        0 <= dt_ms <= TIMER_LIMIT,
    ensures
        exists|c: int|
            AI_COOLDOWN_MIN_MS <= c <= AI_COOLDOWN_MAX_MS && (*final(tank), r) == #[trigger] ai_aimed(
                *old(tank),
                target,
                elapsed_ms as int,
                dt_ms as int,
                c,
            ),
        final(tank).wf(),
        r matches Some(b) ==> b.wf(),
        target is None ==> !ai_of(*final(tank)).active && final(tank).attack_timer == old(tank).attack_timer && r is None,
        target is Some ==> ai_of(*final(tank)).active,
{
    let c = draw_between(AI_COOLDOWN_MIN_MS, AI_COOLDOWN_MAX_MS);
    ai_rotate_with(tank, target, elapsed_ms, dt_ms, c)
}

} // verus!
