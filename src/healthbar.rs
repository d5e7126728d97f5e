use vstd::prelude::*;

use crate::config::COORD_LIMIT;
use crate::geometry::{in_coord_range, Vec2};

verus! {

/// Height of a health bar above its tank while the tank is well inside the view.
pub const HEALTHBAR_Y_OFFSET: i64 = 40_000;

/// Width of a full health bar.
pub const HEALTHBAR_WIDTH: i64 = 60_000;

/// Height of the border plate behind the bar.
pub const HEALTHBAR_BORDER_HEIGHT: i64 = 15_000;

/// Height of the inner bar: half the border's.
pub const HEALTHBAR_HEIGHT: i64 = 7_500;

/// Width of the outline around the inner bar: a quarter of the border's height.
pub const HEALTHBAR_BORDER_THICKNESS: i64 = 3_750;

/// Hue of a bar at full health (green); zero health is red.
pub const FULL_HEALTH_HUE: i64 = 150;

/// Fixed-point scale of the ratios used for side markers.
pub const RATIO_SCALE: i64 = 1000;

/// The maximum health a bar shows.
#[derive(Clone, Copy, Debug, PartialEq, Eq, Structural)]
pub struct MaxHealth(pub u8);

#[derive(Clone, Copy, Debug, PartialEq, Eq, Structural)]
pub enum Side {
    Right,
    Left,
}

/// A round marker at one end of a bar or border.
#[derive(Clone, Copy, Debug, PartialEq, Eq, Structural)]
pub struct HealthbarSide(pub Side);

/// A colour by hue (degrees), saturation and lightness (percent).
#[derive(Clone, Copy, Debug, PartialEq, Eq, Structural)]
pub struct Hsl {
    pub hue: i64,
    pub saturation: i64,
    pub lightness: i64,
}

/// Width and colour of an inner health bar.
#[derive(Clone, Copy, Debug, PartialEq, Eq, Structural)]
pub struct BarFill {
    pub width: i64,
    pub color: Hsl,
}

/// Layout of a side marker, in its parent's coordinates: its horizontal scale and its
/// horizontal offset, both in thousandths, and its colour.
#[derive(Clone, Copy, Debug, PartialEq, Eq, Structural)]
pub struct SideLayout {
    pub scale_x: i64,
    pub offset_x: i64,
    pub color: Hsl,
}

/// Whether a placed element is the inner bar or the border plate behind it.
#[derive(Clone, Copy, Debug, PartialEq, Eq, Structural)]
pub enum BarKind {
    Fill,
    Border,
}

/// A bar or border as placed on screen: its offset from its tank, its position in
/// the world and its current width.
#[derive(Clone, Copy, Debug, PartialEq, Eq, Structural)]
pub struct BarPlacement {
    pub kind: BarKind,
    pub local: Vec2,
    pub global: Vec2,
    pub width: i64,
}

/// Width and height of the view.
#[derive(Clone, Copy, Debug, PartialEq, Eq, Structural)]
pub struct Viewport {
    pub width: i64,
    pub height: i64,
}

pub open spec fn min(a: int, b: int) -> int {
    if a <= b { a } else { b }
}

pub open spec fn max(a: int, b: int) -> int {
    if a >= b { a } else { b }
}

/// `health * scale / max_health`, with health capped at the maximum and rounded down.
pub open spec fn health_scaled(health: int, max_health: int, scale: int) -> int {
    min(health, max_health) * scale / max_health
}

pub open spec fn bar_color(health: int, max_health: int) -> Hsl {
    Hsl { hue: health_scaled(health, max_health, FULL_HEALTH_HUE as int) as i64, saturation: 98, lightness: 58 }
}

pub open spec fn border_color(health: int, max_health: int) -> Hsl {
    Hsl { hue: health_scaled(health, max_health, FULL_HEALTH_HUE as int) as i64, saturation: 73, lightness: 48 }
}

fn scale_health(health: u8, max_health: u8, scale: i64) -> (r: i64)
    requires
        max_health > 0,
        0 <= scale <= 1_000_000,
    ensures
        r == health_scaled(health as int, max_health as int, scale as int),
        0 <= r <= scale,
{
    let h: i64 = if health <= max_health { health as i64 } else { max_health as i64 };
    assert(h * scale <= max_health * scale) by (nonlinear_arith)
        requires
            0 <= h <= max_health,
            scale >= 0,
    ;
    assert(h * scale / (max_health as int) <= scale) by (nonlinear_arith)
        requires
            0 <= h * scale <= max_health * scale,
            max_health > 0,
    ;
    assert(0 <= h * scale <= 255 * 1_000_000) by (nonlinear_arith)
        requires
            0 <= h <= 255,
            0 <= scale <= 1_000_000,
    ;
    h * scale / (max_health as i64)
}

/// Width and colour of the inner bar for a tank's health: the width and the hue grow
/// linearly with the fraction of health left.
pub fn update_healthbar(health: u8, max_health: MaxHealth) -> (r: BarFill)
    requires
        max_health.0 > 0,
    ensures
        r.width == health_scaled(health as int, max_health.0 as int, HEALTHBAR_WIDTH as int),
        r.color == bar_color(health as int, max_health.0 as int),
        0 <= r.width <= HEALTHBAR_WIDTH,
{
    let width = scale_health(health, max_health.0, HEALTHBAR_WIDTH);
    let hue = scale_health(health, max_health.0, FULL_HEALTH_HUE);
    BarFill { width, color: Hsl { hue, saturation: 98, lightness: 58 } }
}

/// Colour of the border plate: the bar's hue, less saturated and darker.
pub fn update_healthbar_border(health: u8, max_health: MaxHealth) -> (r: Hsl)
    requires
        max_health.0 > 0,
    ensures
        r == border_color(health as int, max_health.0 as int),
{
    let hue = scale_health(health, max_health.0, FULL_HEALTH_HUE);
    Hsl { hue, saturation: 73, lightness: 48 }
}

/// Layout of a side marker of a bar with the given scale and colour: as wide as the
/// bar is high, half the bar's width off its centre, in the bar's colour. A bar of
/// zero width has no sides to lay out.
pub fn update_healthbar_sides(
    parent_width: i64,
    parent_height: i64,
    parent_color: Hsl,
    side: HealthbarSide,
) -> (r: Option<SideLayout>)
    requires
        0 <= parent_width <= COORD_LIMIT,
        0 <= parent_height <= COORD_LIMIT,
    ensures
        r is None <==> parent_width == 0,
        r matches Some(l) ==> {
            &&& l.scale_x == parent_height * RATIO_SCALE / (parent_width as int)
            &&& l.offset_x == (if side.0 == Side::Right { RATIO_SCALE / 2 } else { -(RATIO_SCALE / 2) })
            &&& l.color == parent_color
        },
{
    if parent_width == 0 {
        None
    } else {
        let offset_x = match side.0 {
            Side::Right => RATIO_SCALE / 2,
            Side::Left => -(RATIO_SCALE / 2),
        };
        assert(0 <= parent_height * RATIO_SCALE <= COORD_LIMIT * RATIO_SCALE) by (nonlinear_arith)
            requires
                0 <= parent_height <= COORD_LIMIT,
        ;
        Some(SideLayout {
            scale_x: parent_height * RATIO_SCALE / parent_width,
            offset_x,
            color: parent_color,
        })
    }
}

/// Height of the border plate, which both the bar and the border use so that they
/// stop together.
pub open spec fn bar_total_height() -> int {
    HEALTHBAR_HEIGHT + 2 * HEALTHBAR_BORDER_THICKNESS
}

/// The highest offset a bar's centre may take: half the bar below the top of the view.
pub open spec fn ceiling(view: Viewport) -> int {
    view.height / 2 - bar_total_height() / 2
}

/// The rightmost offset a border's centre may take.
pub open spec fn right_edge(view: Viewport) -> int {
    view.width / 2 - (HEALTHBAR_WIDTH + bar_total_height()) / 2
}

/// Vertical offset of a bar above its tank: the configured offset, unless that would
/// put the bar above the top of the view, where it is pinned.
pub open spec fn bar_local_y(view: Viewport, parent_y: int) -> int {
    min(HEALTHBAR_Y_OFFSET as int, ceiling(view) - parent_y)
}

/// Horizontal offset of a border from its tank: zero, unless that would put it past
/// the left or right edge of the view.
pub open spec fn border_local_x(view: Viewport, parent_x: int) -> int {
    max(min(0, right_edge(view) - parent_x), -right_edge(view) - parent_x)
}

/// The new offset of a placed bar or border from its tank. The inner bar keeps its
/// left end at the border's left end as it shrinks.
pub open spec fn placed_local(view: Viewport, p: BarPlacement) -> Vec2 {
    let parent_x = p.global.x - p.local.x;
    let parent_y = p.global.y - p.local.y;
    let x = border_local_x(view, parent_x);
    Vec2 {
        x: (if p.kind == BarKind::Fill { x - (HEALTHBAR_WIDTH - p.width) / 2 } else { x }) as i64,
        y: bar_local_y(view, parent_y) as i64,
    }
}

pub open spec fn viewport_ok(view: Viewport) -> bool {
    0 <= view.width <= COORD_LIMIT && 0 <= view.height <= COORD_LIMIT
}

pub open spec fn placement_ok(p: BarPlacement) -> bool {
    in_coord_range(p.local) && in_coord_range(p.global) && 0 <= p.width <= HEALTHBAR_WIDTH
}

/// The vertical screen clamp. While the tank is low enough, its bar floats at the
/// configured offset; once the bar would rise past the top of the view, it is pinned
/// there, at `ceiling - parent_y`.
pub proof fn lemma_vertical_clamp(view: Viewport, parent_y: int)
    ensures
        parent_y > ceiling(view) - HEALTHBAR_Y_OFFSET ==> bar_local_y(view, parent_y) == ceiling(
            view,
        ) - parent_y,
        parent_y <= ceiling(view) - HEALTHBAR_Y_OFFSET ==> bar_local_y(view, parent_y)
            == HEALTHBAR_Y_OFFSET,
{
}

/// Places one bar or border for the current view.
pub fn place_bar(view: Viewport, p: BarPlacement) -> (r: Vec2)
    requires
        viewport_ok(view),
        placement_ok(p),
    ensures
        r == placed_local(view, p),
{
    let ceiling = view.height / 2 - (HEALTHBAR_HEIGHT + 2 * HEALTHBAR_BORDER_THICKNESS) / 2;
    let right = view.width / 2 - (HEALTHBAR_WIDTH + HEALTHBAR_HEIGHT + 2 * HEALTHBAR_BORDER_THICKNESS) / 2;
    let parent_x = p.global.x - p.local.x;
    let parent_y = p.global.y - p.local.y;
    let top = ceiling - parent_y;
    let y = if HEALTHBAR_Y_OFFSET <= top { HEALTHBAR_Y_OFFSET } else { top };
    let to_right = right - parent_x;
    let to_left = -right - parent_x;
    let inner = if 0 <= to_right { 0 } else { to_right };
    let x = if inner >= to_left { inner } else { to_left };
    let x = match p.kind {
        BarKind::Fill => x - (HEALTHBAR_WIDTH - p.width) / 2,
        BarKind::Border => x,
    };
    Vec2 { x, y }
}

/// Moves every bar and border so that it stays on screen while following its tank.
pub fn keep_healthbars_on_screen(view: Viewport, bars: &mut Vec<BarPlacement>)
    requires
        viewport_ok(view),
        forall|i: int| 0 <= i < old(bars).len() ==> placement_ok(#[trigger] old(bars)[i]),
    ensures
        final(bars).len() == old(bars).len(),
        forall|i: int|
            0 <= i < final(bars).len() ==> #[trigger] final(bars)[i] == (BarPlacement {
                local: placed_local(view, old(bars)[i]),
                ..old(bars)[i]
            }),
{
    let n = bars.len();
    let mut i: usize = 0;
    while i < n
        invariant
            n == bars.len(),
            n == old(bars).len(),
            viewport_ok(view),
            0 <= i <= n,
            forall|k: int| 0 <= k < n ==> placement_ok(#[trigger] old(bars)[k]),
            forall|k: int| i <= k < n ==> #[trigger] bars[k] == old(bars)[k],
            forall|k: int|
                0 <= k < i ==> #[trigger] bars[k] == (BarPlacement {
                    local: placed_local(view, old(bars)[k]),
                    ..old(bars)[k]
                }),
        decreases n - i,
    {
        let p = bars[i];
        let local = place_bar(view, p);
        bars.set(i, BarPlacement { local, ..p });
        i = i + 1;
    }
}

} // verus!
