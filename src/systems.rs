use vstd::prelude::*;

use crate::ai::{
    ai_aimed, ai_movement, ai_rotate, wandered, AI_COOLDOWN_MAX_MS, AI_COOLDOWN_MIN_MS, WANDER_MAX_MS,
};
use crate::combat::Bullet;
use crate::geometry::{in_coord_range, Vec2};
use crate::config::{HALF_HEIGHT, HALF_WIDTH};
use crate::tank::{
    contained, integrate, keep_tank_on_screen, moved, past_grace, Faction, MoveIntent, Tank,
    TIMER_LIMIT,
};
use crate::turret::{
    mouse_button_input, player_aimed, player_may_fire, shot, timer_plus, update_hit_timer,
};

verus! {

/// Whether the simulation runs.
#[derive(Clone, Copy, Debug, PartialEq, Eq, Structural)]
pub enum AppState {
    Paused,
    Game,
}

/// While the game runs, the pause key or a loss of window focus pauses it.
pub fn pause_system(state: AppState, pause_pressed: bool, focus_lost: bool) -> (r: AppState)
    ensures
        r == (if pause_pressed || focus_lost { AppState::Paused } else { state }),
{
    if pause_pressed || focus_lost {
        AppState::Paused
    } else {
        state
    }
}

/// While the game is paused, the pause key or the fire button resumes it.
pub fn unpause_system(state: AppState, pause_pressed: bool, fire_held: bool) -> (r: AppState)
    ensures
        r == (if pause_pressed || fire_held { AppState::Game } else { state }),
{
    if pause_pressed || fire_held {
        AppState::Game
    } else {
        state
    }
}

pub open spec fn all_wf(ts: Seq<Tank>) -> bool {
    forall|i: int| 0 <= i < ts.len() ==> (#[trigger] ts[i]).wf()
}

/// Position of the first player tank, if there is one.
pub open spec fn first_player_spec(ts: Seq<Tank>) -> Option<Vec2>
    decreases ts.len(),
{
    if ts.len() == 0 {
        None
    } else if ts[0].faction == Faction::Player {
        Some(ts[0].position)
    } else {
        first_player_spec(ts.drop_first())
    }
}

/// Position of the first player tank, which AI tanks aim at.
pub fn first_player(tanks: &Vec<Tank>) -> (r: Option<Vec2>)
    requires
        all_wf(tanks@),
    ensures
        r == first_player_spec(tanks@),
        r matches Some(p) ==> in_coord_range(p),
        r is None <==> forall|i: int| 0 <= i < tanks.len() ==> (#[trigger] tanks[i]).faction != Faction::Player,
{
    let n = tanks.len();
    let mut i: usize = 0;
    assert(tanks@.subrange(0, n as int) =~= tanks@);
    while i < n
        invariant
            n == tanks.len(),
            0 <= i <= n,
            all_wf(tanks@),
            first_player_spec(tanks@) == first_player_spec(tanks@.subrange(i as int, n as int)),
            forall|k: int| 0 <= k < i ==> (#[trigger] tanks[k]).faction != Faction::Player,
        decreases n - i,
    {
        let sub = Ghost(tanks@.subrange(i as int, n as int));
        assert(sub@.drop_first() =~= tanks@.subrange(i as int + 1, n as int));
        if tanks[i].faction == Faction::Player {
            return Some(tanks[i].position);
        }
        i = i + 1;
    }
    assert(tanks@.subrange(n as int, n as int).len() == 0);
    None
}

/// Applies the movement integrator to every player tank with the held directions.
pub fn movement(tanks: &mut Vec<Tank>, intent: MoveIntent, elapsed_ms: i64)
    requires
        all_wf(old(tanks)@),
    ensures
        final(tanks).len() == old(tanks).len(),
        forall|i: int|
            0 <= i < final(tanks).len() ==> #[trigger] final(tanks)[i] == (if old(tanks)[i].faction
                == Faction::Player {
                moved(old(tanks)[i], intent, past_grace(elapsed_ms as int))
            } else {
                old(tanks)[i]
            }),
        all_wf(final(tanks)@),
{
    let n = tanks.len();
    let mut i: usize = 0;
    while i < n
        invariant
            n == tanks.len(),
            n == old(tanks).len(),
            0 <= i <= n,
            all_wf(old(tanks)@),
            all_wf(tanks@),
            forall|k: int| i <= k < n ==> #[trigger] tanks[k] == old(tanks)[k],
            forall|k: int|
                0 <= k < i ==> #[trigger] tanks[k] == (if old(tanks)[k].faction == Faction::Player {
                    moved(old(tanks)[k], intent, past_grace(elapsed_ms as int))
                } else {
                    old(tanks)[k]
                }),
        decreases n - i,
    {
        let mut t = tanks[i];
        if t.faction == Faction::Player {
            integrate(&mut t, intent, elapsed_ms);
            tanks.set(i, t);
        }
        i = i + 1;
    }
}

/// `after` is `before` after one wander tick with some draws of a heading from
/// `0 ..= 4` and a duration from `0 ..= WANDER_MAX_MS`; a player tank does not wander.
pub open spec fn wandered_by_draws(before: Tank, after: Tank, elapsed_ms: int, dt: int) -> bool {
    if before.faction == Faction::Ai {
        exists|h: int, s: int|
            0 <= h <= 4 && 0 <= s <= WANDER_MAX_MS && after == #[trigger] wandered(before, elapsed_ms, dt, h, s)
    } else {
        after == before
    }
}

/// One wander tick of every AI tank, each with its own random draws.
pub fn wander(tanks: &mut Vec<Tank>, elapsed_ms: i64, dt_ms: i64)
    requires
        all_wf(old(tanks)@),
        0 <= dt_ms <= TIMER_LIMIT,
    ensures
        final(tanks).len() == old(tanks).len(),
        forall|i: int|
            0 <= i < final(tanks).len() ==> wandered_by_draws(
                old(tanks)[i],
                #[trigger] final(tanks)[i],
                elapsed_ms as int,
                dt_ms as int,
            ),
        all_wf(final(tanks)@),
{
    let n = tanks.len();
    let mut i: usize = 0;
    while i < n
        invariant
            n == tanks.len(),
            n == old(tanks).len(),
            0 <= i <= n,
            0 <= dt_ms <= TIMER_LIMIT,
            all_wf(old(tanks)@),
            all_wf(tanks@),
            forall|k: int| i <= k < n ==> #[trigger] tanks[k] == old(tanks)[k],
            forall|k: int|
                0 <= k < i ==> wandered_by_draws(
                    old(tanks)[k],
                    #[trigger] tanks[k],
                    elapsed_ms as int,
                    dt_ms as int,
                ),
        decreases n - i,
    {
        let mut t = tanks[i];
        if t.faction == Faction::Ai {
            ai_movement(&mut t, elapsed_ms, dt_ms);
            tanks.set(i, t);
        }
        i = i + 1;
    }
}

/// Keeps every tank inside the arena.
pub fn keep_tanks_on_screen(tanks: &mut Vec<Tank>)
    requires
        all_wf(old(tanks)@),
    ensures
        final(tanks).len() == old(tanks).len(),
        forall|i: int| 0 <= i < final(tanks).len() ==> #[trigger] final(tanks)[i] == contained(old(tanks)[i]),
        all_wf(final(tanks)@),
        forall|i: int|
            0 <= i < final(tanks).len() ==> -HALF_WIDTH <= (#[trigger] final(tanks)[i]).position.x
                <= HALF_WIDTH && -HALF_HEIGHT <= final(tanks)[i].position.y
                <= HALF_HEIGHT,
{
    let n = tanks.len();
    let mut i: usize = 0;
    while i < n
        invariant
            n == tanks.len(),
            n == old(tanks).len(),
            0 <= i <= n,
            all_wf(old(tanks)@),
            all_wf(tanks@),
            forall|k: int| i <= k < n ==> #[trigger] tanks[k] == old(tanks)[k],
            forall|k: int| 0 <= k < i ==> #[trigger] tanks[k] == contained(old(tanks)[k]),
            forall|k: int|
                0 <= k < i ==> -HALF_WIDTH <= (#[trigger] tanks[k]).position.x
                    <= HALF_WIDTH && -HALF_HEIGHT <= tanks[k].position.y
                    <= HALF_HEIGHT,
        decreases n - i,
    {
        let mut t = tanks[i];
        keep_tank_on_screen(&mut t);
        tanks.set(i, t);
        i = i + 1;
    }
}


/// The shots the player tanks fire this tick, in order.
pub open spec fn player_shots(ts: Seq<Tank>, target: Vec2, fire_held: bool, elapsed_ms: int) -> Seq<Bullet>
    decreases ts.len(),
{
    if ts.len() == 0 {
        Seq::empty()
    } else {
        let rest = player_shots(ts.drop_last(), target, fire_held, elapsed_ms);
        let t = ts.last();
        if t.faction == Faction::Player && player_may_fire(t, fire_held, elapsed_ms) {
            match shot(t, target) {
                Some(b) => rest.push(b),
                None => rest,
            }
        } else {
            rest
        }
    }
}

/// Aims every player tank at `target` and fires where allowed.
/// Returns the projectiles fired, one gunshot sound owed for each.
pub fn aim_players(tanks: &mut Vec<Tank>, target: Vec2, fire_held: bool, elapsed_ms: i64, dt_ms: i64) -> (r: Vec<Bullet>)
    requires
        all_wf(old(tanks)@),
        in_coord_range(target),
        0 <= dt_ms <= TIMER_LIMIT,
    ensures
        final(tanks).len() == old(tanks).len(),
        forall|i: int|
            0 <= i < final(tanks).len() ==> #[trigger] final(tanks)[i] == (if old(tanks)[i].faction
                == Faction::Player {
                player_aimed(old(tanks)[i], target, fire_held, elapsed_ms as int, dt_ms as int)
            } else {
                old(tanks)[i]
            }),
        r@ == player_shots(old(tanks)@, target, fire_held, elapsed_ms as int),
        all_wf(final(tanks)@),
        forall|i: int| 0 <= i < r.len() ==> (#[trigger] r[i]).wf(),
{
    let n = tanks.len();
    let mut shots: Vec<Bullet> = Vec::new();
    let mut i: usize = 0;
    while i < n
        invariant
            n == tanks.len(),
            n == old(tanks).len(),
            0 <= i <= n,
            in_coord_range(target),
            0 <= dt_ms <= TIMER_LIMIT,
            all_wf(old(tanks)@),
            all_wf(tanks@),
            forall|k: int| i <= k < n ==> #[trigger] tanks[k] == old(tanks)[k],
            forall|k: int|
                0 <= k < i ==> #[trigger] tanks[k] == (if old(tanks)[k].faction == Faction::Player {
                    player_aimed(old(tanks)[k], target, fire_held, elapsed_ms as int, dt_ms as int)
                } else {
                    old(tanks)[k]
                }),
            shots@ == player_shots(old(tanks)@.subrange(0, i as int), target, fire_held, elapsed_ms as int),
            forall|k: int| 0 <= k < shots.len() ==> (#[trigger] shots[k]).wf(),
        decreases n - i,
    {
        let mut t = tanks[i];
        proof {
            let sub = old(tanks)@.subrange(0, i as int + 1);
            assert(sub.drop_last() =~= old(tanks)@.subrange(0, i as int));
            assert(sub.last() == t);
        }
        if t.faction == Faction::Player {
            let fired = mouse_button_input(&mut t, target, fire_held, elapsed_ms, dt_ms);
            tanks.set(i, t);
            if let Some(b) = fired {
                shots.push(b);
            }
        }
        i = i + 1;
    }
    assert(old(tanks)@.subrange(0, n as int) =~= old(tanks)@);
    shots
}

/// The shot an AI tank fires this tick at `target`.
pub open spec fn ai_shot(t: Tank, target: Option<Vec2>, elapsed_ms: int) -> Option<Bullet> {
    if t.faction == Faction::Ai {
        ai_aimed(t, target, elapsed_ms, 0, AI_COOLDOWN_MIN_MS as int).1
    } else {
        None
    }
}

/// The shots the AI tanks fire this tick, in order.
pub open spec fn ai_shots(ts: Seq<Tank>, target: Option<Vec2>, elapsed_ms: int) -> Seq<Bullet>
    decreases ts.len(),
{
    if ts.len() == 0 {
        Seq::empty()
    } else {
        let rest = ai_shots(ts.drop_last(), target, elapsed_ms);
        match ai_shot(ts.last(), target, elapsed_ms) {
            Some(b) => rest.push(b),
            None => rest,
        }
    }
}

/// `after` is `before` after one tick of AI aiming with some drawn cooldown;
/// a player tank is left alone.
pub open spec fn aimed_by_draw(before: Tank, after: Tank, target: Option<Vec2>, elapsed_ms: int, dt: int) -> bool {
    if before.faction == Faction::Ai {
        exists|c: int|
            AI_COOLDOWN_MIN_MS <= c <= AI_COOLDOWN_MAX_MS && after == (#[trigger] ai_aimed(before, target, elapsed_ms, dt, c)).0
    } else {
        after == before
    }
}

/// One tick of aiming and shooting of every AI tank, with the first player tank as
/// their target. Returns the projectiles fired, one gunshot sound owed for each.
pub fn aim_ais(tanks: &mut Vec<Tank>, elapsed_ms: i64, dt_ms: i64) -> (r: Vec<Bullet>)
    requires
        all_wf(old(tanks)@),
        0 <= dt_ms <= TIMER_LIMIT,
    ensures
        final(tanks).len() == old(tanks).len(),
        forall|i: int|
            0 <= i < final(tanks).len() ==> aimed_by_draw(
                old(tanks)[i],
                #[trigger] final(tanks)[i],
                first_player_spec(old(tanks)@),
                elapsed_ms as int,
                dt_ms as int,
            ),
        r@ == ai_shots(old(tanks)@, first_player_spec(old(tanks)@), elapsed_ms as int),
        all_wf(final(tanks)@),
        forall|i: int| 0 <= i < r.len() ==> (#[trigger] r[i]).wf(),
{
    let target = first_player(tanks);
    let n = tanks.len();
    let mut shots: Vec<Bullet> = Vec::new();
    let mut i: usize = 0;
    while i < n
        invariant
            n == tanks.len(),
            n == old(tanks).len(),
            0 <= i <= n,
            target == first_player_spec(old(tanks)@),
            target matches Some(p) ==> in_coord_range(p),
            0 <= dt_ms <= TIMER_LIMIT,
            all_wf(old(tanks)@),
            all_wf(tanks@),
            forall|k: int| i <= k < n ==> #[trigger] tanks[k] == old(tanks)[k],
            forall|k: int|
                0 <= k < i ==> aimed_by_draw(
                    old(tanks)[k],
                    #[trigger] tanks[k],
                    target,
                    elapsed_ms as int,
                    dt_ms as int,
                ),
            shots@ == ai_shots(old(tanks)@.subrange(0, i as int), target, elapsed_ms as int),
            forall|k: int| 0 <= k < shots.len() ==> (#[trigger] shots[k]).wf(),
        decreases n - i,
    {
        let mut t = tanks[i];
        proof {
            let sub = old(tanks)@.subrange(0, i as int + 1);
            assert(sub.drop_last() =~= old(tanks)@.subrange(0, i as int));
            assert(sub.last() == t);
        }
        if t.faction == Faction::Ai {
            let fired = ai_rotate(&mut t, target, elapsed_ms, dt_ms);
            tanks.set(i, t);
            if let Some(b) = fired {
                shots.push(b);
            }
        }
        i = i + 1;
    }
    assert(old(tanks)@.subrange(0, n as int) =~= old(tanks)@);
    shots
}

/// Advances the time since each tank was last hit.
pub fn update_hit_timers(tanks: &mut Vec<Tank>, dt_ms: i64)
    requires
        all_wf(old(tanks)@),
        0 <= dt_ms <= TIMER_LIMIT,
    ensures
        final(tanks).len() == old(tanks).len(),
        forall|i: int|
            0 <= i < final(tanks).len() ==> #[trigger] final(tanks)[i] == (Tank {
                hit_timer: timer_plus(old(tanks)[i].hit_timer as int, dt_ms as int) as i64,
                ..old(tanks)[i]
            }),
        all_wf(final(tanks)@),
{
    let n = tanks.len();
    let mut i: usize = 0;
    while i < n
        invariant
            n == tanks.len(),
            n == old(tanks).len(),
            0 <= i <= n,
            0 <= dt_ms <= TIMER_LIMIT,
            all_wf(old(tanks)@),
            all_wf(tanks@),
            forall|k: int| i <= k < n ==> #[trigger] tanks[k] == old(tanks)[k],
            forall|k: int|
                0 <= k < i ==> #[trigger] tanks[k] == (Tank {
                    hit_timer: timer_plus(old(tanks)[k].hit_timer as int, dt_ms as int) as i64,
                    ..old(tanks)[k]
                }),
        decreases n - i,
    {
        let mut t = tanks[i];
        update_hit_timer(&mut t, dt_ms);
        tanks.set(i, t);
        i = i + 1;
    }
}

} // verus!
