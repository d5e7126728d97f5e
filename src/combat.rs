use vstd::prelude::*;

use crate::config::{
    BULLET_SIZE, BULLET_SPEED, COORD_LIMIT, DIRECTION_SCALE, HALF_HEIGHT, HALF_WIDTH, KNOCKBACK,
    TANK_SIZE, UNITS_PER_PIXEL, VELOCITY_LIMIT,
};
use crate::geometry::{
    abs, clamp, clamp_i64, difference, direction_scaled, in_coord_range, length_squared, norm_sq,
    scaled_direction, Vec2,
};
use crate::tank::{Faction, Tank};

verus! {

/// Square of the largest centre distance at which a bullet still strikes a tank.
pub const HIT_RANGE_SQUARED: u64 = 676_000_000;

/// A projectile in flight.
#[derive(Clone, Copy, Debug, PartialEq, Eq, Structural)]
pub struct Bullet {
    pub position: Vec2,
    /// Direction of flight, of length `DIRECTION_SCALE`.
    pub direction: Vec2,
    /// The side that fired it.
    pub from: Faction,
}

impl Bullet {
    pub open spec fn wf(&self) -> bool {
        &&& in_coord_range(self.position)
        &&& abs(self.direction.x as int) <= DIRECTION_SCALE
        &&& abs(self.direction.y as int) <= DIRECTION_SCALE
    }
}

/// What one pass of hit resolution did: how many projectiles struck a tank, and the
/// identifiers of the tanks it destroyed, in order.
#[derive(Debug)]
pub struct HitReport {
    pub tank_hits: usize,
    pub destroyed: Vec<u64>,
}

/// The bullet after one tick of flight, saturating at the coordinate limit.
pub open spec fn flown(b: Bullet) -> Bullet {
    Bullet {
        position: Vec2 {
            x: clamp(b.position.x + b.direction.x * BULLET_SPEED, -COORD_LIMIT, COORD_LIMIT as int) as i64,
            y: clamp(b.position.y + b.direction.y * BULLET_SPEED, -COORD_LIMIT, COORD_LIMIT as int) as i64,
        },
        ..b
    }
}

/// Moves every projectile one tick along its direction.
pub fn update_bullets(bullets: &mut Vec<Bullet>)
    requires
        forall|i: int| 0 <= i < old(bullets).len() ==> (#[trigger] old(bullets)[i]).wf(),
    ensures
        final(bullets).len() == old(bullets).len(),
        forall|i: int| 0 <= i < final(bullets).len() ==> #[trigger] final(bullets)[i] == flown(old(bullets)[i]),
        forall|i: int| 0 <= i < final(bullets).len() ==> (#[trigger] final(bullets)[i]).wf(),
{
    let n = bullets.len();
    let mut i: usize = 0;
    while i < n
        invariant
            n == bullets.len(),
            n == old(bullets).len(),
            0 <= i <= n,
            forall|k: int| 0 <= k < n ==> (#[trigger] old(bullets)[k]).wf(),
            forall|k: int| i <= k < n ==> #[trigger] bullets[k] == old(bullets)[k],
            forall|k: int| 0 <= k < i ==> #[trigger] bullets[k] == flown(old(bullets)[k]),
        decreases n - i,
    {
        let b = bullets[i];
        let x = clamp_i64(b.position.x + b.direction.x * BULLET_SPEED, -COORD_LIMIT, COORD_LIMIT);
        let y = clamp_i64(b.position.y + b.direction.y * BULLET_SPEED, -COORD_LIMIT, COORD_LIMIT);
        bullets.set(i, Bullet { position: Vec2 { x, y }, ..b });
        i = i + 1;
    }
}

/// The projectile is still inside the arena.
pub open spec fn in_arena(b: Bullet) -> bool {
    abs(b.position.x as int) <= HALF_WIDTH && abs(b.position.y as int) <= HALF_HEIGHT
}

/// Removes every projectile that has left the arena, keeping the others in order.
/// Returns the number removed: one wall-hit sound is owed for each.
pub fn kill_bullets(bullets: &mut Vec<Bullet>) -> (wall_hits: usize)
    ensures
        final(bullets)@ == old(bullets)@.filter(|b: Bullet| in_arena(b)),
        wall_hits == old(bullets).len() - final(bullets).len(),
        wall_hits == old(bullets)@.filter(|b: Bullet| !in_arena(b)).len(),
{
    proof {
        lemma_filter_split(old(bullets)@);
    }
    let n = bullets.len();
    let mut kept: Vec<Bullet> = Vec::new();
    let mut i: usize = 0;
    while i < n
        invariant
            n == bullets.len(),
            bullets@ == old(bullets)@,
            0 <= i <= n,
            kept@ == bullets@.subrange(0, i as int).filter(|b: Bullet| in_arena(b)),
            kept.len() <= i,
        decreases n - i,
    {
        let b = bullets[i];
        proof {
            let s = bullets@.subrange(0, i as int + 1);
            assert(s.drop_last() =~= bullets@.subrange(0, i as int));
            assert(s.last() == b);
            reveal(Seq::filter);
        }
        let inside = (if b.position.x >= 0 { b.position.x <= HALF_WIDTH } else { b.position.x >= -HALF_WIDTH })
            && (if b.position.y >= 0 { b.position.y <= HALF_HEIGHT } else { b.position.y >= -HALF_HEIGHT });
        if inside {
            kept.push(b);
        }
        i = i + 1;
    }
    assert(bullets@.subrange(0, n as int) =~= bullets@);
    let wall_hits = n - kept.len();
    *bullets = kept;
    wall_hits
}

proof fn lemma_filter_split(bs: Seq<Bullet>)
    ensures
        bs.filter(|b: Bullet| in_arena(b)).len() + bs.filter(|b: Bullet| !in_arena(b)).len() == bs.len(),
    decreases bs.len(),
{
    reveal(Seq::filter);
    if bs.len() > 0 {
        lemma_filter_split(bs.drop_last());
    }
}

/// The bullet can strike the tank: it was fired by the other side, and the two
/// circles overlap.
pub open spec fn strikes(b: Bullet, t: Tank) -> bool {
    let d = Vec2 { x: (t.position.x - b.position.x) as i64, y: (t.position.y - b.position.y) as i64 };
    b.from != t.faction && norm_sq(d) < (TANK_SIZE + BULLET_SIZE) * (TANK_SIZE + BULLET_SIZE)
}

/// Index of the first tank from `k` on that the bullet strikes.
pub open spec fn first_hit_from(ts: Seq<Tank>, b: Bullet, k: int) -> Option<int>
    decreases ts.len() - k,
{
    if k < 0 || k >= ts.len() {
        None
    } else if strikes(b, ts[k]) {
        Some(k)
    } else {
        first_hit_from(ts, b, k + 1)
    }
}

/// Knockback impulse on a struck tank: away from the bullet, `KNOCKBACK` pixels per
/// tick; none where the two centres coincide.
pub open spec fn knockback(t: Tank, b: Bullet) -> (int, int) {
    let d = Vec2 { x: (t.position.x - b.position.x) as i64, y: (t.position.y - b.position.y) as i64 };
    if d.x == 0 && d.y == 0 {
        (0, 0)
    } else {
        scaled_direction(d, KNOCKBACK * UNITS_PER_PIXEL)
    }
}

/// The tank after a hit it survives: knocked back, flashing, one health lower.
pub open spec fn struck(t: Tank, b: Bullet) -> Tank {
    let k = knockback(t, b);
    Tank {
        velocity: Vec2 {
            x: clamp(t.velocity.x + k.0, -VELOCITY_LIMIT, VELOCITY_LIMIT as int) as i64,
            y: clamp(t.velocity.y + k.1, -VELOCITY_LIMIT, VELOCITY_LIMIT as int) as i64,
        },
        hit_timer: 0,
        health: (t.health - 1) as u8,
        ..t
    }
}

/// State of a hit-resolution pass: the tanks, the bullets that flew on, the score,
/// the number of hits, and the identifiers of destroyed tanks.
pub type Battle = (Seq<Tank>, Seq<Bullet>, int, int, Seq<u64>);

/// The pass after one more bullet. It is consumed by the first opposing tank it
/// overlaps; a tank with one health left is destroyed, and each AI tank destroyed
/// adds one to the score.
pub open spec fn after_bullet(s: Battle, b: Bullet) -> Battle {
    match first_hit_from(s.0, b, 0) {
        None => (s.0, s.1.push(b), s.2, s.3, s.4),
        Some(k) => {
            let t = s.0[k];
            if t.health > 1 {
                (s.0.update(k, struck(t, b)), s.1, s.2, s.3 + 1, s.4)
            } else {
                (
                    s.0.remove(k),
                    s.1,
                    s.2 + (if t.faction == Faction::Ai { 1int } else { 0int }),
                    s.3 + 1,
                    s.4.push(t.id),
                )
            }
        },
    }
}

/// The pass after the given bullets, in order.
pub open spec fn resolve(s: Battle, bs: Seq<Bullet>) -> Battle
    decreases bs.len(),
{
    if bs.len() == 0 {
        s
    } else {
        after_bullet(resolve(s, bs.drop_last()), bs.last())
    }
}

/// The bullet strikes the tank.
pub fn bullet_strikes(b: &Bullet, t: &Tank) -> (r: bool)
    requires
        b.wf(),
        t.wf(),
    ensures
        r == strikes(*b, *t),
{
    if b.from == t.faction {
        false
    } else {
        let d = difference(t.position, b.position);
        let sq = length_squared(d);
        assert(HIT_RANGE_SQUARED == (TANK_SIZE + BULLET_SIZE) * (TANK_SIZE + BULLET_SIZE));
        sq < HIT_RANGE_SQUARED
    }
}

/// The tank after a hit it survives.
pub fn strike(t: Tank, b: &Bullet) -> (r: Tank)
    requires
        t.wf(),
        b.wf(),
        t.health > 1,
    ensures
        r == struck(t, *b),
        r.wf(),
{
    let d = difference(t.position, b.position);
    let k = match direction_scaled(d, KNOCKBACK * UNITS_PER_PIXEL) {
        Some(k) => k,
        None => Vec2 { x: 0, y: 0 },
    };
    let vx = clamp_i64(t.velocity.x + k.x, -VELOCITY_LIMIT, VELOCITY_LIMIT);
    let vy = clamp_i64(t.velocity.y + k.y, -VELOCITY_LIMIT, VELOCITY_LIMIT);
    Tank { velocity: Vec2 { x: vx, y: vy }, hit_timer: 0, health: t.health - 1, ..t }
}


proof fn lemma_first_hit_in_range(ts: Seq<Tank>, b: Bullet, k: int)
    requires
        0 <= k,
    ensures
        first_hit_from(ts, b, k) matches Some(j) ==> k <= j < ts.len(),
    decreases ts.len() - k,
{
    if k < ts.len() && !strikes(b, ts[k]) {
        lemma_first_hit_in_range(ts, b, k + 1);
    }
}

/// Index of the first tank that the bullet strikes.
fn find_hit(tanks: &Vec<Tank>, b: &Bullet) -> (r: Option<usize>)
    requires
        b.wf(),
        forall|i: int| 0 <= i < tanks.len() ==> (#[trigger] tanks[i]).wf(),
    ensures
        r matches Some(k) ==> k < tanks.len(),
        r == (match first_hit_from(tanks@, *b, 0) {
            Some(k) => Some(k as usize),
            None => None,
        }),
{
    let n = tanks.len();
    let mut k: usize = 0;
    while k < n
        invariant
            n == tanks.len(),
            0 <= k <= n,
            b.wf(),
            forall|i: int| 0 <= i < tanks.len() ==> (#[trigger] tanks[i]).wf(),
            first_hit_from(tanks@, *b, 0) == first_hit_from(tanks@, *b, k as int),
        decreases n - k,
    {
        if bullet_strikes(b, &tanks[k]) {
            return Some(k);
        }
        k = k + 1;
    }
    None
}

/// Resolves the hits of all projectiles on tanks of the other side, bullet by bullet
/// in order. A bullet is consumed by the first such tank it overlaps. The struck tank
/// is knocked back and loses one health; one with a single health left is destroyed,
/// together with its turret and health bar, and the score gains one when it is an AI
/// tank. Bullets that hit nothing fly on.
pub fn hurt_tanks(tanks: &mut Vec<Tank>, bullets: &mut Vec<Bullet>, score: &mut u64) -> (r: HitReport)
    requires
        forall|i: int| 0 <= i < old(tanks).len() ==> (#[trigger] old(tanks)[i]).wf(),
        forall|i: int| 0 <= i < old(bullets).len() ==> (#[trigger] old(bullets)[i]).wf(),
        *old(score) + old(bullets).len() <= u64::MAX,
    ensures
        (final(tanks)@, final(bullets)@, *final(score) as int, r.tank_hits as int, r.destroyed@)
            == resolve(
            (old(tanks)@, Seq::empty(), *old(score) as int, 0, Seq::empty()),
            old(bullets)@,
        ),
        forall|i: int| 0 <= i < final(tanks).len() ==> (#[trigger] final(tanks)[i]).wf(),
        forall|i: int| 0 <= i < final(bullets).len() ==> (#[trigger] final(bullets)[i]).wf(),
{
    let ghost init: Battle = (tanks@, Seq::empty(), *score as int, 0, Seq::empty());
    let n = bullets.len();
    let mut kept: Vec<Bullet> = Vec::new();
    let mut hits: usize = 0;
    let mut destroyed: Vec<u64> = Vec::new();
    let mut i: usize = 0;
    while i < n
        invariant
            n == bullets.len(),
            bullets@ == old(bullets)@,
            0 <= i <= n,
            init == (old(tanks)@, Seq::<Bullet>::empty(), *old(score) as int, 0int, Seq::<u64>::empty()),
            forall|m: int| 0 <= m < n ==> (#[trigger] bullets[m]).wf(),
            forall|m: int| 0 <= m < tanks.len() ==> (#[trigger] tanks[m]).wf(),
            forall|m: int| 0 <= m < kept.len() ==> (#[trigger] kept[m]).wf(),
            (tanks@, kept@, *score as int, hits as int, destroyed@) == resolve(
                init,
                bullets@.subrange(0, i as int),
            ),
            *score <= *old(score) + i,
            hits <= i,
            *old(score) + n <= u64::MAX,
        decreases n - i,
    {
        let b = bullets[i];
        let ghost prev: Battle = (tanks@, kept@, *score as int, hits as int, destroyed@);
        proof {
            let sub = bullets@.subrange(0, i as int + 1);
            assert(sub.drop_last() =~= bullets@.subrange(0, i as int));
            assert(sub.last() == b);
            assert(resolve(init, sub) == after_bullet(prev, b));
        }
        let found = find_hit(tanks, &b);
        proof {
            match first_hit_from(prev.0, b, 0) {
                Some(j) => {
                    assert(found == Some(j as usize));
                    assert(0 <= j < prev.0.len()) by {
                        lemma_first_hit_in_range(prev.0, b, 0);
                    }
                },
                None => {},
            }
        }
        match found {
            None => {
                kept.push(b);
            },
            Some(k) => {
                let t = tanks[k];
                if t.health > 1 {
                    let s = strike(t, &b);
                    tanks.set(k, s);
                } else {
                    let ghost before = tanks@;
                    let gone = tanks.remove(k);
                    assert(forall|m: int|
                        0 <= m < tanks.len() ==> #[trigger] tanks[m] == (if m < k {
                            before[m]
                        } else {
                            before[m + 1]
                        }));
                    if gone.faction == Faction::Ai {
                        *score = *score + 1;
                    }
                    destroyed.push(gone.id);
                }
                hits = hits + 1;
            },
        }
        i = i + 1;
    }
    assert(bullets@.subrange(0, n as int) =~= bullets@);
    *bullets = kept;
    HitReport { tank_hits: hits, destroyed }
}


/// Number of AI tanks in a list.
pub open spec fn ai_count(ts: Seq<Tank>) -> int
    decreases ts.len(),
{
    if ts.len() == 0 {
        0
    } else {
        ai_count(ts.drop_last()) + (if ts.last().faction == Faction::Ai { 1int } else { 0int })
    }
}

proof fn lemma_ai_count_update(ts: Seq<Tank>, k: int, t: Tank)
    requires
        0 <= k < ts.len(),
        t.faction == ts[k].faction,
    ensures
        ai_count(ts.update(k, t)) == ai_count(ts),
    decreases ts.len(),
{
    let u = ts.update(k, t);
    if k == ts.len() - 1 {
        assert(u.drop_last() =~= ts.drop_last());
    } else {
        assert(u.drop_last() =~= ts.drop_last().update(k, t));
        lemma_ai_count_update(ts.drop_last(), k, t);
    }
}

proof fn lemma_ai_count_remove(ts: Seq<Tank>, k: int)
    requires
        0 <= k < ts.len(),
    ensures
        ai_count(ts.remove(k)) == ai_count(ts) - (if ts[k].faction == Faction::Ai { 1int } else { 0int }),
    decreases ts.len(),
{
    let r = ts.remove(k);
    if k == ts.len() - 1 {
        assert(r =~= ts.drop_last());
    } else {
        assert(r.drop_last() =~= ts.drop_last().remove(k));
        assert(r.last() == ts.last());
        lemma_ai_count_remove(ts.drop_last(), k);
    }
}

/// The score counts AI kills: over any sequence of bullets, it grows by exactly the
/// number of AI tanks destroyed, and a destroyed player tank adds nothing.
pub proof fn lemma_score_counts_ai_kills(s: Battle, bs: Seq<Bullet>)
    ensures
        resolve(s, bs).2 - s.2 == ai_count(s.0) - ai_count(resolve(s, bs).0),
    decreases bs.len(),
{
    if bs.len() > 0 {
        lemma_score_counts_ai_kills(s, bs.drop_last());
        let p = resolve(s, bs.drop_last());
        let b = bs.last();
        lemma_first_hit_in_range(p.0, b, 0);
        match first_hit_from(p.0, b, 0) {
            None => {},
            Some(k) => {
                if p.0[k].health > 1 {
                    lemma_ai_count_update(p.0, k, struck(p.0[k], b));
                } else {
                    lemma_ai_count_remove(p.0, k);
                }
            },
        }
    }
}

/// A run of hit-resolution passes. Each pass starts from the tanks and score the one
/// before it left, with no hits or destroyed tanks counted yet, and resolves its own
/// bullets.
pub open spec fn run_passes(s: Battle, passes: Seq<Seq<Bullet>>) -> Battle
    decreases passes.len(),
{
    if passes.len() == 0 {
        s
    } else {
        let p = run_passes(s, passes.drop_last());
        resolve((p.0, Seq::empty(), p.2, 0, Seq::empty()), passes.last())
    }
}

/// Over any run of passes, the score grows by exactly the number of AI tanks destroyed:
/// from a score of zero with `N` AI tanks destroyed, it ends at `N`.
pub proof fn lemma_score_over_passes(s: Battle, passes: Seq<Seq<Bullet>>)
    ensures
        run_passes(s, passes).2 - s.2 == ai_count(s.0) - ai_count(run_passes(s, passes).0),
    decreases passes.len(),
{
    if passes.len() > 0 {
        lemma_score_over_passes(s, passes.drop_last());
        let p = run_passes(s, passes.drop_last());
        lemma_score_counts_ai_kills((p.0, Seq::empty(), p.2, 0, Seq::empty()), passes.last());
    }
}

/// A fatal hit removes the whole tank at once: the struck tank, with the turret and
/// health bar it carries, leaves the list, the tanks after it move up one place, and
/// its identifier is reported as destroyed.
pub proof fn lemma_fatal_hit_despawns(s: Battle, b: Bullet, k: int)
    requires
        first_hit_from(s.0, b, 0) == Some(k),
        s.0[k].health <= 1,
    ensures
        after_bullet(s, b).0.len() == s.0.len() - 1,
        forall|m: int| 0 <= m < k ==> #[trigger] after_bullet(s, b).0[m] == s.0[m],
        forall|m: int| k <= m < s.0.len() - 1 ==> #[trigger] after_bullet(s, b).0[m] == s.0[m + 1],
        after_bullet(s, b).4 == s.4.push(s.0[k].id),
        after_bullet(s, b).1 == s.1,
{
    lemma_first_hit_in_range(s.0, b, 0);
}

} // verus!
