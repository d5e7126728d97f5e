use vstd::arithmetic::div_mod::lemma_fundamental_div_mod_converse;
use vstd::prelude::*;

use crate::config::{COORD_LIMIT, TANK_SIZE};
use crate::geometry::{
    abs, clamp, clamp_i64, lemma_div_trunc_neg, lemma_isqrt_spec, lemma_div_trunc_error, difference, div_toward_zero, div_trunc, in_coord_range,
    isqrt, lemma_component_bound, lemma_isqrt_exact, length_squared, norm, norm_sq, Vec2,
};
use crate::tank::Tank;

verus! {

/// Largest number of tanks a separation pass handles.
pub const MAX_TANKS: usize = 100_000;

/// Displacement that tank `a` receives from an overlap with tank `b`: half the
/// penetration depth, along the unit vector from `b` to `a`. Tanks that do not
/// overlap, or that sit exactly on one another, push nothing.
pub open spec fn push(a: Vec2, b: Vec2) -> (int, int) {
    let d = Vec2 { x: (a.x - b.x) as i64, y: (a.y - b.y) as i64 };
    let dist = norm(d);
    if norm_sq(d) >= 4 * TANK_SIZE * TANK_SIZE || norm_sq(d) == 0 {
        (0, 0)
    } else {
        let pen = 2 * TANK_SIZE - dist;
        (div_trunc(d.x * pen, 2 * dist), div_trunc(d.y * pen, 2 * dist))
    }
}

/// Sum of the pushes that the tank at `i` receives from the tanks before `n`.
pub open spec fn push_sum(ps: Seq<Vec2>, i: int, n: int) -> (int, int)
    decreases n,
{
    if n <= 0 {
        (0, 0)
    } else {
        let s = push_sum(ps, i, n - 1);
        if n - 1 == i {
            s
        } else {
            let p = push(ps[i], ps[n - 1]);
            (s.0 + p.0, s.1 + p.1)
        }
    }
}

pub open spec fn positions(ts: Seq<Tank>) -> Seq<Vec2> {
    ts.map_values(|t: Tank| t.position)
}

/// The tank moved by the displacement `m`, saturating at the coordinate limit.
pub open spec fn shifted(t: Tank, m: (int, int)) -> Tank {
    Tank {
        position: Vec2 {
            x: clamp(t.position.x + m.0, -COORD_LIMIT, COORD_LIMIT as int) as i64,
            y: clamp(t.position.y + m.1, -COORD_LIMIT, COORD_LIMIT as int) as i64,
        },
        ..t
    }
}

/// Separation is symmetric: whatever one tank of an overlapping pair is pushed by,
/// the other is pushed by its negation.
pub proof fn lemma_push_antisymmetric(a: Vec2, b: Vec2)
    requires
        in_coord_range(a),
        in_coord_range(b),
    ensures
        push(b, a).0 == -push(a, b).0,
        push(b, a).1 == -push(a, b).1,
{
    let d = Vec2 { x: (a.x - b.x) as i64, y: (a.y - b.y) as i64 };
    let e = Vec2 { x: (b.x - a.x) as i64, y: (b.y - a.y) as i64 };
    assert(norm_sq(d) == norm_sq(e)) by (nonlinear_arith)
        requires
            e.x == -d.x,
            e.y == -d.y,
    ;
    let dist = norm(d);
    let pen = 2 * TANK_SIZE - dist;
    assert(e.x * pen == -(d.x * pen)) by (nonlinear_arith)
        requires
            e.x == -d.x,
    ;
    assert(e.y * pen == -(d.y * pen)) by (nonlinear_arith)
        requires
            e.y == -d.y,
    ;
    assert(norm(e) == dist);
    if 0 < norm_sq(d) {
        lemma_isqrt_spec(norm_sq(d));
        assert(dist >= 1) by (nonlinear_arith)
            requires
                norm_sq(d) < (dist + 1) * (dist + 1),
                0 < norm_sq(d),
                dist >= 0,
        ;
        lemma_div_trunc_neg(d.x * pen, 2 * dist);
        lemma_div_trunc_neg(d.y * pen, 2 * dist);
        assert(-(d.x * pen) == e.x * pen);
        assert(-(d.y * pen) == e.y * pen);
        if norm_sq(d) < 4 * TANK_SIZE * TANK_SIZE {
            assert(push(a, b) == (div_trunc(d.x * pen, 2 * dist), div_trunc(d.y * pen, 2 * dist)));
            assert(push(b, a) == (div_trunc(e.x * pen, 2 * dist), div_trunc(e.y * pen, 2 * dist)));
        }
    } else {
        assert(norm_sq(d) >= 0) by (nonlinear_arith);
    }
}

/// In a separation pass over exactly two tanks, the second is displaced by the
/// negation of the first one's displacement.
pub proof fn lemma_pair_separation_symmetric(ps: Seq<Vec2>)
    requires
        ps.len() == 2,
        in_coord_range(ps[0]),
        in_coord_range(ps[1]),
    ensures
        push_sum(ps, 1, 2).0 == -push_sum(ps, 0, 2).0,
        push_sum(ps, 1, 2).1 == -push_sum(ps, 0, 2).1,
{
    lemma_push_antisymmetric(ps[0], ps[1]);
    reveal_with_fuel(push_sum, 3);
}

/// Resolving an isolated overlapping pair that lies on a horizontal line leaves the two
/// tanks touching: their separation becomes twice the tank radius, less one unit when
/// the penetration depth is odd.
pub proof fn lemma_horizontal_pair_touches(a: Vec2, b: Vec2)
    requires
        in_coord_range(a),
        in_coord_range(b),
        a.y == b.y,
        0 < abs(a.x - b.x) < 2 * TANK_SIZE,
    ensures
        push(a, b).1 == 0,
        push(b, a).1 == 0,
        abs((a.x + push(a, b).0) - (b.x + push(b, a).0)) == 2 * TANK_SIZE - (2 * TANK_SIZE - abs(
            a.x - b.x,
        )) % 2,
{
    let d = Vec2 { x: (a.x - b.x) as i64, y: 0 };
    let m = abs(a.x - b.x);
    assert(norm_sq(d) == m * m) by (nonlinear_arith)
        requires
            m == abs(d.x as int),
            d.y == 0,
    ;
    assert(m * m < 4 * TANK_SIZE * TANK_SIZE) by (nonlinear_arith)
        requires
            0 < m < 2 * TANK_SIZE,
    ;
    assert(m * m <= m * m < (m + 1) * (m + 1)) by (nonlinear_arith)
        requires
            m > 0,
    ;
    assert(0 < m * m) by (nonlinear_arith)
        requires
            m > 0,
    ;
    lemma_isqrt_exact(m * m, m);
    assert(norm(d) == m);
    let pen = 2 * TANK_SIZE - m;
    let q = pen / 2;
    let r = pen % 2;
    assert(m * pen == q * (2 * m) + m * r) by (nonlinear_arith)
        requires
            pen == 2 * q + r,
    ;
    assert(0 <= m * r < 2 * m) by (nonlinear_arith)
        requires
            0 <= r < 2,
            m > 0,
    ;
    lemma_fundamental_div_mod_converse(m * pen, 2 * m, q, m * r);
    if d.x > 0 {
        assert(d.x * pen == m * pen);
    } else {
        assert(-(d.x * pen) == m * pen) by (nonlinear_arith)
            requires
                d.x == -m,
        ;
    }
    assert(0 * pen == 0);
    lemma_push_antisymmetric(a, b);
}

pub open spec fn plus(a: (int, int), b: (int, int)) -> (int, int) {
    (a.0 + b.0, a.1 + b.1)
}

/// Sum of the pushes that the tanks before `m` receive from the tank at `k`.
pub open spec fn column_sum(ps: Seq<Vec2>, k: int, m: int) -> (int, int)
    decreases m,
{
    if m <= 0 {
        (0, 0)
    } else {
        plus(column_sum(ps, k, m - 1), push(ps[m - 1], ps[k]))
    }
}

/// Sum of the displacements of the tanks before `m` in a pass over the tanks before `n`.
pub open spec fn total_push(ps: Seq<Vec2>, m: int, n: int) -> (int, int)
    decreases m,
{
    if m <= 0 {
        (0, 0)
    } else {
        plus(total_push(ps, m - 1, n), push_sum(ps, m - 1, n))
    }
}

pub open spec fn all_in_range(ps: Seq<Vec2>) -> bool {
    forall|i: int| 0 <= i < ps.len() ==> in_coord_range(#[trigger] ps[i])
}

proof fn lemma_column_opposes_row(ps: Seq<Vec2>, k: int, m: int)
    requires
        all_in_range(ps),
        0 <= m <= k < ps.len(),
    ensures
        column_sum(ps, k, m).0 == -push_sum(ps, k, m).0,
        column_sum(ps, k, m).1 == -push_sum(ps, k, m).1,
    decreases m,
{
    if m > 0 {
        lemma_column_opposes_row(ps, k, m - 1);
        lemma_push_antisymmetric(ps[k], ps[m - 1]);
    }
}

proof fn lemma_total_step(ps: Seq<Vec2>, m: int, n: int)
    requires
        0 <= m <= n < ps.len(),
    ensures
        total_push(ps, m, n + 1) == plus(total_push(ps, m, n), column_sum(ps, n, m)),
    decreases m,
{
    if m > 0 {
        lemma_total_step(ps, m - 1, n);
    }
}

/// The displacements of one separation pass sum to zero: pushing tanks apart never
/// shifts their centre of mass (up to saturation at the coordinate limit).
pub proof fn lemma_separation_balances(ps: Seq<Vec2>, n: int)
    requires
        all_in_range(ps),
        0 <= n <= ps.len(),
    ensures
        total_push(ps, n, n) == (0int, 0int),
    decreases n,
{
    if n > 0 {
        let k = n - 1;
        lemma_separation_balances(ps, k);
        lemma_total_step(ps, k, k);
        lemma_column_opposes_row(ps, k, k);
        assert(push_sum(ps, k, n) == push_sum(ps, k, k));
    }
}

proof fn lemma_isolated_sum(ps: Seq<Vec2>, a: int, b: int, n: int)
    requires
        0 <= a < ps.len(),
        0 <= b < ps.len(),
        a != b,
        0 <= n <= ps.len(),
        forall|j: int| 0 <= j < ps.len() && j != a && j != b ==> #[trigger] push(ps[a], ps[j]) == (0int, 0int),
    ensures
        push_sum(ps, a, n) == (if b < n { push(ps[a], ps[b]) } else { (0int, 0int) }),
    decreases n,
{
    if n > 0 {
        lemma_isolated_sum(ps, a, b, n - 1);
    }
}

/// In a pass over any number of tanks, a pair that overlaps only each other is
/// pushed apart symmetrically: the second tank's displacement is the negation of the
/// first's, and the first moves by its push from the second alone.
pub proof fn lemma_isolated_pair_symmetric(ps: Seq<Vec2>, a: int, b: int)
    requires
        all_in_range(ps),
        0 <= a < ps.len(),
        0 <= b < ps.len(),
        a != b,
        forall|j: int| 0 <= j < ps.len() && j != a && j != b ==> #[trigger] push(ps[a], ps[j]) == (0int, 0int),
        forall|j: int| 0 <= j < ps.len() && j != a && j != b ==> #[trigger] push(ps[b], ps[j]) == (0int, 0int),
    ensures
        push_sum(ps, a, ps.len() as int) == push(ps[a], ps[b]),
        push_sum(ps, b, ps.len() as int).0 == -push_sum(ps, a, ps.len() as int).0,
        push_sum(ps, b, ps.len() as int).1 == -push_sum(ps, a, ps.len() as int).1,
{
    lemma_isolated_sum(ps, a, b, ps.len() as int);
    lemma_isolated_sum(ps, b, a, ps.len() as int);
    lemma_push_antisymmetric(ps[a], ps[b]);
}

/// Resolving an isolated overlapping pair in any direction leaves the two tanks
/// touching, up to rounding. With `d` the separation before, `L` its length rounded
/// down and `d2` the separation after, `L * d2` is `2 * TANK_SIZE * d` within less
/// than `2 * L` on each axis: `d2` is `d` stretched to length `2 * TANK_SIZE * |d| / L`
/// (and `L <= |d| < L + 1`), off by less than two units per axis.
pub proof fn lemma_pair_touches(a: Vec2, b: Vec2)
    requires
        in_coord_range(a),
        in_coord_range(b),
        0 < norm_sq(Vec2 { x: (a.x - b.x) as i64, y: (a.y - b.y) as i64 }) < 4 * TANK_SIZE * TANK_SIZE,
    ensures
        ({
            let d = Vec2 { x: (a.x - b.x) as i64, y: (a.y - b.y) as i64 };
            let len = norm(d);
            let d2x = (a.x + push(a, b).0) - (b.x + push(b, a).0);
            let d2y = (a.y + push(a, b).1) - (b.y + push(b, a).1);
            &&& 1 <= len < 2 * TANK_SIZE
            &&& len * len <= norm_sq(d) < (len + 1) * (len + 1)
            &&& abs(len * d2x - 2 * TANK_SIZE * d.x) < 2 * len
            &&& abs(len * d2y - 2 * TANK_SIZE * d.y) < 2 * len
        }),
{
    let d = Vec2 { x: (a.x - b.x) as i64, y: (a.y - b.y) as i64 };
    let len = norm(d);
    lemma_isqrt_spec(norm_sq(d));
    assert(1 <= len < 2 * TANK_SIZE) by (nonlinear_arith)
        requires
            len * len <= norm_sq(d),
            norm_sq(d) < (len + 1) * (len + 1),
            0 < norm_sq(d) < 4 * TANK_SIZE * TANK_SIZE,
            len >= 0,
    ;
    lemma_push_antisymmetric(a, b);
    let pen = 2 * TANK_SIZE - len;
    let vx = div_trunc(d.x * pen, 2 * len);
    let vy = div_trunc(d.y * pen, 2 * len);
    assert(push(a, b) == (vx, vy));
    lemma_div_trunc_error(d.x * pen, 2 * len);
    lemma_div_trunc_error(d.y * pen, 2 * len);
    assert(len * (d.x + 2 * vx) - 2 * TANK_SIZE * d.x == -(d.x * pen - 2 * len * vx)) by (nonlinear_arith)
        requires
            pen == 2 * TANK_SIZE - len,
    ;
    assert(len * (d.y + 2 * vy) - 2 * TANK_SIZE * d.y == -(d.y * pen - 2 * len * vy)) by (nonlinear_arith)
        requires
            pen == 2 * TANK_SIZE - len,
    ;
}

/// The displacement of the tank at `a` caused by the tank at `b`.
pub fn pair_push(a: Vec2, b: Vec2) -> (r: Vec2)
    requires
        in_coord_range(a),
        in_coord_range(b),
    ensures
        (r.x as int, r.y as int) == push(a, b),
        abs(r.x as int) <= 2 * TANK_SIZE,
        abs(r.y as int) <= 2 * TANK_SIZE,
{
    let d = difference(a, b);
    let sq = length_squared(d);
    if sq >= 4 * (TANK_SIZE as u64) * (TANK_SIZE as u64) || sq == 0 {
        Vec2 { x: 0, y: 0 }
    } else {
        let dist_u = isqrt(sq);
        assert(1 <= dist_u < 2 * TANK_SIZE) by (nonlinear_arith)
            requires
                dist_u * dist_u <= sq,
                sq < (dist_u + 1) * (dist_u + 1),
                1 <= sq < 4 * TANK_SIZE * TANK_SIZE,
                dist_u >= 0,
        ;
        let dist = dist_u as i64;
        let pen = 2 * TANK_SIZE - dist;
        proof {
            lemma_component_bound(d.x as int, d.y as int, 1, dist as int);
            lemma_component_bound(d.y as int, d.x as int, 1, dist as int);
            lemma_half_bound(d.x as int, pen as int, dist as int);
            lemma_half_bound(d.y as int, pen as int, dist as int);
        }
        assert(abs(d.x * pen) <= 2_000_000_000 * 40_000) by (nonlinear_arith)
            requires
                abs(d.x as int) <= dist,
                dist < 40_000,
                0 < pen <= 40_000,
        ;
        assert(abs(d.y * pen) <= 2_000_000_000 * 40_000) by (nonlinear_arith)
            requires
                abs(d.y as int) <= dist,
                dist < 40_000,
                0 < pen <= 40_000,
        ;
        let x = div_toward_zero(d.x * pen, 2 * dist);
        let y = div_toward_zero(d.y * pen, 2 * dist);
        Vec2 { x, y }
    }
}

proof fn lemma_half_bound(a: int, pen: int, dist: int)
    requires
        abs(a) <= dist,
        dist >= 1,
        pen >= 0,
    ensures
        abs(div_trunc(a * pen, 2 * dist)) <= pen,
{
    assert(abs(a * pen) == abs(a) * pen) by (nonlinear_arith)
        requires
            pen >= 0,
    ;
    assert(abs(a) * pen <= dist * pen) by (nonlinear_arith)
        requires
            abs(a) <= dist,
            pen >= 0,
    ;
    assert(abs(a * pen) / (2 * dist) <= pen) by (nonlinear_arith)
        requires
            abs(a * pen) <= dist * pen,
            dist >= 1,
            pen >= 0,
    ;
}

/// Pushes overlapping tanks apart. Every displacement is computed from the positions
/// at the start of the pass, and all are applied together afterwards.
pub fn collide_tanks(tanks: &mut Vec<Tank>)
    requires
        old(tanks).len() <= MAX_TANKS,
        forall|i: int| 0 <= i < old(tanks).len() ==> (#[trigger] old(tanks)[i]).wf(),
    ensures
        final(tanks).len() == old(tanks).len(),
        forall|i: int|
            0 <= i < final(tanks).len() ==> #[trigger] final(tanks)[i] == shifted(
                old(tanks)[i],
                push_sum(positions(old(tanks)@), i, old(tanks).len() as int),
            ),
        forall|i: int| 0 <= i < final(tanks).len() ==> (#[trigger] final(tanks)[i]).wf(),
{
    let n = tanks.len();
    let ghost ps = positions(tanks@);
    let mut moves: Vec<Vec2> = Vec::new();
    let mut i: usize = 0;
    while i < n
        invariant
            n == tanks.len(),
            n <= MAX_TANKS,
            ps == positions(tanks@),
            forall|k: int| 0 <= k < n ==> (#[trigger] tanks[k]).wf(),
            0 <= i <= n,
            moves.len() == i,
            forall|k: int|
                0 <= k < i ==> (#[trigger] moves[k].x as int, moves[k].y as int) == push_sum(
                    ps,
                    k,
                    n as int,
                ),
            forall|k: int|
                0 <= k < i ==> abs(#[trigger] moves[k].x as int) <= 40_000 * n && abs(
                    moves[k].y as int,
                ) <= 40_000 * n,
        decreases n - i,
    {
        let mut sx: i64 = 0;
        let mut sy: i64 = 0;
        let mut j: usize = 0;
        while j < n
            invariant
                n == tanks.len(),
                n <= MAX_TANKS,
                ps == positions(tanks@),
                forall|k: int| 0 <= k < n ==> (#[trigger] tanks[k]).wf(),
                0 <= i < n,
                0 <= j <= n,
                (sx as int, sy as int) == push_sum(ps, i as int, j as int),
                abs(sx as int) <= 40_000 * j,
                abs(sy as int) <= 40_000 * j,
            decreases n - j,
        {
            assert(40_000 * j <= 4_000_000_000) by (nonlinear_arith)
                requires
                    j < MAX_TANKS,
            ;
            if j != i {
                let p = pair_push(tanks[i].position, tanks[j].position);
                sx = sx + p.x;
                sy = sy + p.y;
            }
            j = j + 1;
        }
        moves.push(Vec2 { x: sx, y: sy });
        i = i + 1;
    }
    let mut k: usize = 0;
    while k < n
        invariant
            n == tanks.len(),
            n == old(tanks).len(),
            n <= MAX_TANKS,
            ps == positions(old(tanks)@),
            moves.len() == n,
            forall|m: int|
                0 <= m < n ==> (#[trigger] moves[m].x as int, moves[m].y as int) == push_sum(
                    ps,
                    m,
                    n as int,
                ),
            forall|m: int|
                0 <= m < n ==> abs(#[trigger] moves[m].x as int) <= 40_000 * n && abs(
                    moves[m].y as int,
                ) <= 40_000 * n,
            0 <= k <= n,
            forall|m: int| k <= m < n ==> #[trigger] tanks[m] == old(tanks)[m],
            forall|m: int|
                0 <= m < k ==> #[trigger] tanks[m] == shifted(
                    old(tanks)[m],
                    push_sum(ps, m, n as int),
                ),
            forall|m: int| 0 <= m < n ==> (#[trigger] old(tanks)[m]).wf(),
            forall|m: int| 0 <= m < n ==> (#[trigger] tanks[m]).wf(),
        decreases n - k,
    {
        let mut t = tanks[k];
        let mv = moves[k];
        assert(40_000 * n <= 4_000_000_000) by (nonlinear_arith)
            requires
                n <= MAX_TANKS,
        ;
        let x = clamp_i64(t.position.x + mv.x, -COORD_LIMIT, COORD_LIMIT);
        let y = clamp_i64(t.position.y + mv.y, -COORD_LIMIT, COORD_LIMIT);
        t.position = Vec2 { x, y };
        tanks.set(k, t);
        k = k + 1;
    }
}

} // verus!
