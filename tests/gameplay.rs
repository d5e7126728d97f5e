use tiny_tank::ai::{ai_movement_with, ai_rotate, ai_rotate_with};
use tiny_tank::collision::{collide_tanks, pair_push};
use tiny_tank::combat::{hurt_tanks, kill_bullets, update_bullets, Bullet};
use tiny_tank::geometry::{direction_scaled, isqrt, Vec2};
use tiny_tank::healthbar::{
    keep_healthbars_on_screen, place_bar, update_healthbar, update_healthbar_border,
    update_healthbar_sides, BarKind, BarPlacement, HealthbarSide, Hsl, MaxHealth, Side, Viewport,
};
use tiny_tank::random::draw_between;
use tiny_tank::systems::{
    aim_ais, aim_players, first_player, keep_tanks_on_screen, movement, pause_system,
    unpause_system, AppState,
};
use tiny_tank::tank::{integrate, keep_tank_on_screen, Faction, Heading, MoveIntent, Tank};
use tiny_tank::turret::{cursor_to_world, ease_turret, flash_yellow, mouse_button_input};

fn v(x: i64, y: i64) -> Vec2 {
    Vec2 { x, y }
}

fn player_at(x: i64, y: i64) -> Tank {
    Tank::new(1, Faction::Player, v(x, y), 5)
}

fn ai_at(id: u64, x: i64, y: i64) -> Tank {
    Tank::new(id, Faction::Ai, v(x, y), 5)
}

const NO_INPUT: MoveIntent = MoveIntent { left: false, right: false, down: false, up: false };

#[test]
fn integer_square_root() {
    assert_eq!(isqrt(0), 0);
    assert_eq!(isqrt(15), 3);
    assert_eq!(isqrt(16), 4);
    assert_eq!(isqrt(8_000_000_000_000_000_000), 2_828_427_124);
}

#[test]
fn direction_of_a_vector() {
    assert_eq!(direction_scaled(v(3, 4), 1000), Some(v(600, 800)));
    assert_eq!(direction_scaled(v(-3, -4), 1000), Some(v(-600, -800)));
    assert_eq!(direction_scaled(v(0, 0), 1000), None);
}

#[test]
fn movement_accumulates_then_damps() {
    let mut t = player_at(0, 0);
    let right = MoveIntent { right: true, ..NO_INPUT };
    integrate(&mut t, right, 5_000);
    assert_eq!(t.velocity, v(600, 0));
    assert_eq!(t.position, v(600, 0));
    integrate(&mut t, NO_INPUT, 5_000);
    assert_eq!(t.velocity, v(540, 0));
    assert_eq!(t.position, v(1_140, 0));
}

#[test]
fn diagonal_movement_is_not_normalised() {
    let mut t = player_at(0, 0);
    let diag = MoveIntent { left: true, up: true, ..NO_INPUT };
    integrate(&mut t, diag, 5_000);
    assert_eq!(t.velocity, v(-600, 600));
}

#[test]
fn no_movement_during_grace_period() {
    let mut t = player_at(0, 0);
    let right = MoveIntent { right: true, ..NO_INPUT };
    integrate(&mut t, right, 1_000);
    assert_eq!(t.velocity, v(0, 0));
    assert_eq!(t.position, v(0, 0));
}

#[test]
fn movement_system_moves_only_players() {
    let mut tanks = vec![player_at(0, 0), ai_at(2, 100_000, 0)];
    movement(&mut tanks, MoveIntent { down: true, ..NO_INPUT }, 5_000);
    assert_eq!(tanks[0].position, v(0, -600));
    assert_eq!(tanks[1].position, v(100_000, 0));
}

#[test]
fn containment_clamps_and_stops() {
    let mut t = player_at(500_000, -400_000);
    t.velocity = v(3_000, -2_000);
    keep_tank_on_screen(&mut t);
    assert_eq!(t.position, v(380_000, -280_000));
    assert_eq!(t.velocity, v(0, 0));
}

#[test]
fn containment_turns_ai_away_from_wall() {
    let mut t = ai_at(2, 390_000, 0);
    t.velocity = v(5, 7);
    keep_tank_on_screen(&mut t);
    assert_eq!(t.position, v(380_000, 0));
    assert_eq!(t.velocity, v(0, 7));
    assert_eq!(t.ai.unwrap().direction, Heading::Left);
}

#[test]
fn containment_holds_for_every_tank() {
    let mut tanks = vec![player_at(-900_000, 900_000), ai_at(2, 0, 0), ai_at(3, 999_999, -999_999)];
    keep_tanks_on_screen(&mut tanks);
    for t in &tanks {
        assert!(t.position.x.abs() <= 400_000 && t.position.y.abs() <= 300_000);
    }
    assert_eq!(tanks[1].position, v(0, 0));
}

#[test]
fn overlapping_pair_is_pushed_apart_symmetrically() {
    let mut tanks = vec![player_at(0, 0), ai_at(2, 30_000, 0)];
    collide_tanks(&mut tanks);
    assert_eq!(tanks[0].position, v(-5_000, 0));
    assert_eq!(tanks[1].position, v(35_000, 0));
    assert_eq!(tanks[1].position.x - tanks[0].position.x, 40_000);
}

#[test]
fn pair_push_is_antisymmetric() {
    let a = v(1_000, 2_000);
    let b = v(13_000, -7_000);
    let p = pair_push(a, b);
    let q = pair_push(b, a);
    assert_eq!(q, v(-p.x, -p.y));
    assert!(p.x != 0 || p.y != 0);
}

#[test]
fn distant_or_coincident_tanks_do_not_push() {
    assert_eq!(pair_push(v(0, 0), v(40_000, 0)), v(0, 0));
    assert_eq!(pair_push(v(5, 5), v(5, 5)), v(0, 0));
}

#[test]
fn health_bar_full_and_low() {
    let full = update_healthbar(5, MaxHealth(5));
    assert_eq!(full.width, 60_000);
    assert_eq!(full.color, Hsl { hue: 150, saturation: 98, lightness: 58 });
    let low = update_healthbar(1, MaxHealth(5));
    assert_eq!(low.width, 12_000);
    assert_eq!(low.color.hue, 30);
}

#[test]
fn health_bar_caps_fraction_at_one() {
    let over = update_healthbar(9, MaxHealth(5));
    assert_eq!(over.width, 60_000);
    assert_eq!(over.color.hue, 150);
}

#[test]
fn border_colour_follows_health() {
    assert_eq!(update_healthbar_border(3, MaxHealth(5)), Hsl { hue: 90, saturation: 73, lightness: 48 });
}

#[test]
fn side_markers() {
    let c = Hsl { hue: 90, saturation: 98, lightness: 58 };
    let right = update_healthbar_sides(60_000, 7_500, c, HealthbarSide(Side::Right)).unwrap();
    assert_eq!(right.scale_x, 125);
    assert_eq!(right.offset_x, 500);
    assert_eq!(right.color, c);
    let left = update_healthbar_sides(60_000, 7_500, c, HealthbarSide(Side::Left)).unwrap();
    assert_eq!(left.offset_x, -500);
    assert_eq!(update_healthbar_sides(0, 7_500, c, HealthbarSide(Side::Left)), None);
}

fn view() -> Viewport {
    Viewport { width: 800_000, height: 600_000 }
}

#[test]
fn bar_floats_at_offset_below_ceiling() {
    let p = BarPlacement { kind: BarKind::Border, local: v(0, 40_000), global: v(100_000, 140_000), width: 60_000 };
    assert_eq!(place_bar(view(), p), v(0, 40_000));
}

#[test]
fn bar_pins_to_top_of_view() {
    // ceiling = 300_000 - 7_500 = 292_500; parent at y = 280_000
    let p = BarPlacement { kind: BarKind::Border, local: v(0, 40_000), global: v(0, 320_000), width: 60_000 };
    assert_eq!(place_bar(view(), p), v(0, 12_500));
}

#[test]
fn bar_clamps_horizontally() {
    // right edge = 400_000 - 37_500 = 362_500; parent at x = 380_000
    let p = BarPlacement { kind: BarKind::Border, local: v(0, 40_000), global: v(380_000, 40_000), width: 60_000 };
    assert_eq!(place_bar(view(), p), v(-17_500, 40_000));
    let q = BarPlacement { kind: BarKind::Border, local: v(0, 40_000), global: v(-380_000, 40_000), width: 60_000 };
    assert_eq!(place_bar(view(), q), v(17_500, 40_000));
}

#[test]
fn fill_stays_left_aligned() {
    let p = BarPlacement { kind: BarKind::Fill, local: v(0, 40_000), global: v(0, 40_000), width: 12_000 };
    assert_eq!(place_bar(view(), p), v(-24_000, 40_000));
    let mut bars = vec![p, BarPlacement { kind: BarKind::Border, ..p }];
    keep_healthbars_on_screen(view(), &mut bars);
    assert_eq!(bars[0].local, v(-24_000, 40_000));
    assert_eq!(bars[1].local, v(0, 40_000));
}

fn bullet(x: i64, y: i64, dx: i64, dy: i64, from: Faction) -> Bullet {
    Bullet { position: v(x, y), direction: v(dx, dy), from }
}

#[test]
fn bullets_fly_along_their_direction() {
    let mut bs = vec![bullet(0, 0, 600, -800, Faction::Player)];
    update_bullets(&mut bs);
    assert_eq!(bs[0].position, v(6_000, -8_000));
}

#[test]
fn bullets_leaving_the_arena_are_removed_once() {
    let mut bs = vec![
        bullet(0, 0, 1000, 0, Faction::Player),
        bullet(400_001, 0, 1000, 0, Faction::Ai),
        bullet(10, -300_000, 0, -1000, Faction::Ai),
        bullet(0, -300_001, 0, -1000, Faction::Player),
    ];
    let hits = kill_bullets(&mut bs);
    assert_eq!(hits, 2);
    assert_eq!(bs.len(), 2);
    assert_eq!(bs[0].position, v(0, 0));
    assert_eq!(bs[1].position, v(10, -300_000));
    assert_eq!(kill_bullets(&mut bs), 0);
}

#[test]
fn hit_knocks_back_and_damages() {
    let mut tanks = vec![ai_at(2, 0, 0)];
    let mut bs = vec![bullet(-10_000, 0, 1000, 0, Faction::Player)];
    let mut score = 0u64;
    let report = hurt_tanks(&mut tanks, &mut bs, &mut score);
    assert_eq!(report.tank_hits, 1);
    assert!(bs.is_empty());
    assert_eq!(tanks[0].health, 4);
    assert_eq!(tanks[0].velocity, v(5_000, 0));
    assert_eq!(tanks[0].hit_timer, 0);
    assert!(flash_yellow(&tanks[0]));
    assert_eq!(score, 0);
}

#[test]
fn no_friendly_fire() {
    let mut tanks = vec![ai_at(2, 0, 0)];
    let mut bs = vec![bullet(0, 0, 1000, 0, Faction::Ai)];
    let mut score = 0u64;
    let report = hurt_tanks(&mut tanks, &mut bs, &mut score);
    assert_eq!(report.tank_hits, 0);
    assert_eq!(bs.len(), 1);
    assert_eq!(tanks[0].health, 5);
}

#[test]
fn fatal_hit_despawns_tank_and_scores() {
    let mut last = ai_at(7, 0, 0);
    last.health = 1;
    let mut tanks = vec![player_at(200_000, 0), last, ai_at(8, -200_000, 0)];
    let mut bs = vec![bullet(5_000, 5_000, 0, 1000, Faction::Player)];
    let mut score = 3u64;
    let report = hurt_tanks(&mut tanks, &mut bs, &mut score);
    assert_eq!(report.destroyed, vec![7]);
    assert_eq!(tanks.len(), 2);
    assert!(tanks.iter().all(|t| t.id != 7));
    assert_eq!(score, 4);
}

#[test]
fn player_death_does_not_score() {
    let mut p = player_at(0, 0);
    p.health = 1;
    let mut tanks = vec![p, ai_at(2, 100_000, 0)];
    let mut bs = vec![bullet(0, 1_000, 0, 1000, Faction::Ai)];
    let mut score = 0u64;
    let report = hurt_tanks(&mut tanks, &mut bs, &mut score);
    assert_eq!(report.destroyed, vec![1]);
    assert_eq!(score, 0);
    assert_eq!(tanks.len(), 1);
}

#[test]
fn score_counts_each_ai_kill() {
    let mut a = ai_at(2, 0, 0);
    a.health = 1;
    let mut b = ai_at(3, 100_000, 0);
    b.health = 1;
    let mut tanks = vec![a, b, player_at(-200_000, 0)];
    let mut bs = vec![bullet(0, 0, 0, 0, Faction::Player), bullet(100_000, 0, 0, 0, Faction::Player)];
    let mut score = 0u64;
    let report = hurt_tanks(&mut tanks, &mut bs, &mut score);
    assert_eq!(report.tank_hits, 2);
    assert_eq!(score, 2);
    assert_eq!(tanks.len(), 1);
}

#[test]
fn one_bullet_hits_only_the_first_tank() {
    let mut tanks = vec![ai_at(2, 0, 0), ai_at(3, 10_000, 0)];
    let mut bs = vec![bullet(5_000, 0, 0, 1000, Faction::Player)];
    let mut score = 0u64;
    let report = hurt_tanks(&mut tanks, &mut bs, &mut score);
    assert_eq!(report.tank_hits, 1);
    assert_eq!(tanks[0].health, 4);
    assert_eq!(tanks[1].health, 5);
}

#[test]
fn turret_eases_back_to_rest() {
    assert_eq!(ease_turret(14_000), 15_000);
    assert_eq!(ease_turret(24_000), 24_000);
    assert_eq!(ease_turret(34_000), 33_000);
}

#[test]
fn player_fires_after_cooldown() {
    let mut t = player_at(0, 0);
    t.attack_timer = 500;
    let b = mouse_button_input(&mut t, v(100_000, 0), true, 5_000, 16).unwrap();
    assert_eq!(b.direction, v(1000, 0));
    assert_eq!(b.position, v(0, 0));
    assert_eq!(b.from, Faction::Player);
    assert_eq!(t.attack_timer, 16);
    assert_eq!(t.turret_offset, 14_000);
    assert_eq!(t.aim, v(100_000, 0));
    assert!(mouse_button_input(&mut t, v(100_000, 0), true, 5_000, 16).is_none());
    assert_eq!(t.attack_timer, 32);
    assert_eq!(t.turret_offset, 15_000);
}

#[test]
fn player_does_not_fire_during_grace() {
    let mut t = player_at(0, 0);
    t.attack_timer = 500;
    assert!(mouse_button_input(&mut t, v(100_000, 0), true, 100, 16).is_none());
}

#[test]
fn player_system_collects_shots() {
    let mut p = player_at(0, 0);
    p.attack_timer = 401;
    let mut tanks = vec![ai_at(2, 50_000, 0), p];
    let shots = aim_players(&mut tanks, v(0, 100_000), true, 5_000, 10);
    assert_eq!(shots.len(), 1);
    assert_eq!(shots[0].direction, v(0, 1000));
    assert_eq!(tanks[0], ai_at(2, 50_000, 0));
}

#[test]
fn cursor_maps_to_world() {
    let w = Viewport { width: 800, height: 600 };
    assert_eq!(cursor_to_world(v(400, 300), w), v(0, 0));
    assert_eq!(cursor_to_world(v(0, 0), w), v(-400, 300));
}

#[test]
fn ai_goes_inactive_without_players() {
    let mut t = ai_at(2, 0, 0);
    t.attack_timer = -5;
    let shot = ai_rotate_with(&mut t, None, 5_000, 16, 900);
    assert!(shot.is_none());
    assert!(!t.ai.unwrap().active);
    assert_eq!(t.attack_timer, -5);
    let again = ai_rotate_with(&mut t, Some(v(10_000, 0)), 5_000, 16, 900);
    assert!(again.is_none());
    assert!(t.ai.unwrap().active);
}

#[test]
fn ai_fires_when_timer_expires() {
    let mut t = ai_at(2, 0, 0);
    t.attack_timer = -1;
    let shot = ai_rotate_with(&mut t, Some(v(0, -50_000)), 5_000, 16, 900).unwrap();
    assert_eq!(shot.direction, v(0, -1000));
    assert_eq!(shot.from, Faction::Ai);
    assert_eq!(t.attack_timer, 884);
    assert_eq!(t.turret_offset, 14_000);
}

#[test]
fn ai_cooldown_is_drawn_in_range() {
    let mut t = ai_at(2, 0, 0);
    t.attack_timer = -1;
    let shot = ai_rotate(&mut t, Some(v(50_000, 0)), 5_000, 0);
    assert!(shot.is_some());
    assert!(t.attack_timer >= 500 && t.attack_timer <= 1_400);
}

#[test]
fn ai_system_targets_first_player() {
    let mut a = ai_at(2, 0, 0);
    a.attack_timer = -1;
    let mut tanks = vec![a, player_at(0, 70_000)];
    assert_eq!(first_player(&tanks), Some(v(0, 70_000)));
    let shots = aim_ais(&mut tanks, 5_000, 0);
    assert_eq!(shots.len(), 1);
    assert_eq!(shots[0].direction, v(0, 1000));
    assert_eq!(tanks[0].aim, v(0, 70_000));
}

#[test]
fn ai_wander_draws_new_heading_when_expired() {
    let mut t = ai_at(2, 0, 0);
    t.ai = Some(tiny_tank::tank::AiState { active: true, steps: -1, direction: Heading::Left });
    ai_movement_with(&mut t, 5_000, 16, 3, 700);
    let a = t.ai.unwrap();
    assert_eq!(a.direction, Heading::Up);
    assert_eq!(a.steps, 684);
    assert_eq!(t.velocity, v(0, 600));
    ai_movement_with(&mut t, 5_000, 16, 0, 0);
    assert_eq!(t.ai.unwrap().direction, Heading::Up);
}

#[test]
fn inactive_ai_does_not_move() {
    let mut t = ai_at(2, 0, 0);
    t.ai = Some(tiny_tank::tank::AiState { active: false, steps: 500, direction: Heading::Right });
    ai_movement_with(&mut t, 5_000, 16, 0, 0);
    assert_eq!(t.velocity, v(0, 0));
}

#[test]
fn random_draw_stays_in_range() {
    assert_eq!(draw_between(5, 5), 5);
    for _ in 0..50 {
        let r = draw_between(0, 4);
        assert!((0..=4).contains(&r));
    }
}

#[test]
fn pausing_and_resuming() {
    assert_eq!(pause_system(AppState::Game, true, false), AppState::Paused);
    assert_eq!(pause_system(AppState::Game, false, true), AppState::Paused);
    assert_eq!(pause_system(AppState::Game, false, false), AppState::Game);
    assert_eq!(unpause_system(AppState::Paused, false, true), AppState::Game);
    assert_eq!(unpause_system(AppState::Paused, false, false), AppState::Paused);
}

#[test]
fn odd_penetration_leaves_one_unit() {
    let mut tanks = vec![player_at(0, 0), ai_at(2, 30_001, 0)];
    collide_tanks(&mut tanks);
    assert_eq!(tanks[0].position, v(-4_999, 0));
    assert_eq!(tanks[1].position, v(35_000, 0));
}

#[test]
fn three_tanks_sum_their_pushes() {
    let mut tanks = vec![ai_at(2, 0, 0), player_at(30_000, 0), ai_at(3, -30_000, 0)];
    collide_tanks(&mut tanks);
    assert_eq!(tanks[0].position, v(0, 0));
    assert_eq!(tanks[1].position, v(35_000, 0));
    assert_eq!(tanks[2].position, v(-35_000, 0));
}

#[test]
fn ai_fires_when_timer_reaches_zero() {
    let mut t = ai_at(2, 0, 0);
    t.attack_timer = 0;
    let shot = ai_rotate_with(&mut t, Some(v(30_000, 40_000)), 5_000, 16, 1_400).unwrap();
    assert_eq!(shot.direction, v(600, 800));
    assert_eq!(t.attack_timer, 1_384);
}

#[test]
fn ai_redraws_heading_when_countdown_reaches_zero() {
    let mut t = ai_at(2, 0, 0);
    t.ai = Some(tiny_tank::tank::AiState { active: true, steps: 0, direction: Heading::Left });
    ai_movement_with(&mut t, 5_000, 10, 1, 300);
    let a = t.ai.unwrap();
    assert_eq!(a.direction, Heading::Right);
    assert_eq!(a.steps, 290);
    assert_eq!(t.velocity, v(600, 0));
}

#[test]
fn aim_points_at_distant_target() {
    let mut t = player_at(-900_000_000, 0);
    mouse_button_input(&mut t, v(900_000_000, 5), false, 5_000, 16);
    assert_eq!(t.aim, v(1_800_000_000, 5));
}
