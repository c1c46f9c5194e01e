use barrage::driver::GameLoop;
use barrage::entity::{Boss, Bullet, Ship, Shot, ShotType, BOSS_MAX_HP, SHIP_Y, SHOT_SPEED};
use barrage::game::{elapsed_parts, next_timers, Game, Stage, MAX_BULLET_NUMBER, SUPER_TIME};

fn playing() -> Game {
    let mut g = Game::new(0);
    g.shot(0);
    g
}

fn normal_shot(x: i64, y: i64) -> Shot {
    Shot { x, y, dx: 0, dy: SHOT_SPEED, w: 5000, h: 5000, hp: 1, t: ShotType::Normal }
}

fn still_bullet(x: i64, y: i64) -> Bullet {
    Bullet { x, y, dx: 0, dy: 0, w: 28_000, h: 28_000, hp: 2 }
}

fn assert_fresh(g: &Game, now: u64) {
    assert_eq!(g.stage, Stage::Opening);
    assert!(!g.shooting);
    assert_eq!(g.wait_time, 0);
    assert_eq!(g.super_time, 0);
    assert_eq!(g.ship, Ship::new());
    assert_eq!(g.bosses, vec![Boss::new()]);
    assert!(g.bullets.is_empty());
    assert!(g.shots.is_empty());
    assert_eq!(g.max_update_ms, 0);
    assert_eq!(g.max_draw_ms, 0);
    assert_eq!(g.passed_ms, 0);
    assert_eq!(g.start_ms, now);
}

#[test]
fn opening_then_first_ticks() {
    let mut g = Game::new(0);
    assert_eq!(g.stage, Stage::Opening);
    g.shot(0);
    assert_eq!(g.stage, Stage::Playing);
    assert_eq!(g.bosses.len(), 1);
    assert_eq!((g.bosses[0].x, g.bosses[0].y, g.bosses[0].hp), (180_000, 60_000, 999));
    assert_eq!((g.ship.x, g.ship.y), (380_000, 940_000));
    assert!(g.bullets.is_empty() && g.shots.is_empty());

    g.update_with(16, 500, 500);
    assert_eq!(g.bullets.len(), 1);
    assert_eq!((g.bullets[0].x, g.bullets[0].y), (278_500, 158_500));
    assert_eq!(g.bullets[0].hp, 2);
    assert!(g.shots.is_empty());
    assert_eq!(g.passed_ms, 16);

    g.shot(20);
    assert!(g.shooting);
    g.update_with(32, 500, 500);
    assert_eq!(g.shots.len(), 1);
    let s = g.shots[0];
    assert_eq!(s.t, ShotType::Normal);
    assert_eq!(s.x, g.ship.x + 20_000);
    assert_eq!(s.y, SHIP_Y - SHOT_SPEED);
    assert_eq!(s.dy, SHOT_SPEED);
    assert_eq!(g.bullets.len(), 2);
}

#[test]
fn last_hit_point_clears_game() {
    let mut g = playing();
    g.bosses[0].hp = 1;
    g.shots.push(normal_shot(230_000, 160_000));
    g.update_with(16, 500, 500);
    assert!(g.bosses.is_empty());
    assert_eq!(g.stage, Stage::GameClear);
    assert_eq!(g.shots.len(), 1);
    assert_eq!(g.shots[0].hp, 0);
    g.update_with(32, 500, 500);
    assert_eq!(g.stage, Stage::GameClear);
}

#[test]
fn boss_loses_one_point_per_hit() {
    let mut g = playing();
    g.shots.push(normal_shot(230_000, 160_000));
    g.update_with(16, 500, 500);
    assert_eq!(g.bosses[0].hp, BOSS_MAX_HP - 1);
    assert_eq!(g.stage, Stage::Playing);
}

#[test]
fn bullet_on_ship_ends_game() {
    let mut g = playing();
    g.bullets.push(still_bullet(390_000, 950_000));
    g.update_with(16, 500, 500);
    assert_eq!(g.stage, Stage::GameOver);
    g.update_with(32, 500, 500);
    assert_eq!(g.bullets.len(), 2);
    g.shot(40);
    assert_fresh(&g, 40);
}

#[test]
fn entities_off_the_field_are_culled() {
    let mut g = playing();
    g.bullets.push(Bullet { dx: -2000, ..still_bullet(1000, 500_000) });
    g.shots.push(normal_shot(400_000, -5000));
    g.shots.push(normal_shot(400_000, 5000));
    g.update_with(16, 500, 500);
    assert_eq!(g.bullets.len(), 1);
    assert_eq!(g.bullets[0].x, 278_500);
    assert_eq!(g.shots.len(), 1);
    assert_eq!(g.shots[0].y, -5000);
    g.update_with(32, 500, 500);
    assert!(g.shots.is_empty());
}

#[test]
fn dead_bullets_are_culled_next_tick() {
    let mut g = playing();
    g.bullets.push(Bullet { hp: 1, ..still_bullet(400_000, 500_000) });
    g.shots.push(normal_shot(405_000, 515_000));
    g.update_with(16, 500, 500);
    assert_eq!(g.bullets.len(), 2);
    assert_eq!(g.bullets[0].hp, 0);
    assert!(g.shots.is_empty() || g.shots[0].hp == 0);
    g.update_with(32, 500, 500);
    assert_eq!(g.bullets.len(), 2);
    assert!(g.bullets.iter().all(|b| b.hp > 0));
}

#[test]
fn bullet_cap_is_kept() {
    let mut g = playing();
    for _ in 0..MAX_BULLET_NUMBER {
        g.bullets.push(still_bullet(10_000, 10_000));
    }
    g.update_with(16, 500, 500);
    assert_eq!(g.bullets.len(), MAX_BULLET_NUMBER);
}

#[test]
fn idle_ticks_enter_super_mode() {
    let mut g = playing();
    for t in 0..200u64 {
        g.update_with(t, 500, 500);
    }
    assert_eq!(g.stage, Stage::Playing);
    assert_eq!((g.wait_time, g.super_time, g.ship.t), (200, 0, ShotType::Normal));
    g.update_with(200, 500, 500);
    assert_eq!((g.wait_time, g.super_time, g.ship.t), (201, SUPER_TIME, ShotType::Super));
    g.shot(201);
    assert_eq!(g.wait_time, 0);
    g.update_with(202, 500, 500);
    assert_eq!(g.wait_time, 0);
    let last = g.shots[g.shots.len() - 1];
    assert_eq!(last.t, ShotType::Super);
    assert_eq!(last.x, g.ship.x + 20_000 - 50_000);
    assert_eq!(last.hp, 3);
}

#[test]
fn firing_resets_wait() {
    let mut g = playing();
    for t in 0..50u64 {
        g.update_with(t, 500, 500);
    }
    assert_eq!(g.wait_time, 50);
    g.shot(50);
    g.update_with(51, 500, 500);
    assert_eq!(g.wait_time, 0);
    g.update_with(52, 500, 500);
    assert_eq!(g.wait_time, 0);
}

#[test]
fn reset_from_every_stage_is_fresh() {
    let mut g = playing();
    g.update_with(10, 1, 999);
    g.reset(77);
    assert_fresh(&g, 77);
    g.reset(78);
    assert_fresh(&g, 78);
    let mut over = playing();
    over.stage = Stage::GameOver;
    over.shot(90);
    assert_fresh(&over, 90);
    let mut clear = playing();
    clear.bosses.clear();
    clear.stage = Stage::GameClear;
    clear.shot(91);
    assert_fresh(&clear, 91);
    let mut opening = Game::new(3);
    opening.reset(4);
    assert_fresh(&opening, 4);
}

#[test]
fn nothing_changes_outside_play() {
    let mut g = Game::new(0);
    g.update_with(100, 1, 1);
    assert_fresh(&g, 0);
    g.update(100);
    assert_fresh(&g, 0);
}

#[test]
fn random_update_draws_within_range() {
    let mut g = playing();
    for t in 0..20u64 {
        g.update(t);
    }
    assert!(!g.bullets.is_empty());
    for b in g.bullets.iter() {
        assert!(-2000 <= b.dx && b.dx <= 1996 && b.dx % 4 == 0);
        assert!(-2000 <= b.dy && b.dy <= 1996 && b.dy % 4 == 0);
    }
}

#[test]
fn pointer_moves_ship() {
    let mut g = playing();
    g.mouse_move(100_000);
    assert_eq!(g.ship.mouse_x, 100_000);
    g.update_with(1, 500, 500);
    assert_eq!(g.ship.x, 379_000);
    g.mouse_move(700_000);
    g.update_with(2, 500, 500);
    assert_eq!(g.ship.x, 380_000);
    g.mouse_move(400_000);
    g.update_with(3, 500, 500);
    assert_eq!(g.ship.x, 380_000);
}

#[test]
fn diagnostics_keep_maximum() {
    let mut g = Game::new(0);
    g.record_update_time(5);
    g.record_update_time(3);
    g.record_draw_time(2);
    g.record_draw_time(9);
    assert_eq!((g.max_update_ms, g.max_draw_ms), (5, 9));
}

#[test]
fn timers_bookkeeping() {
    assert_eq!(next_timers(false, 0, 0, ShotType::Normal), (1, 0, ShotType::Normal));
    assert_eq!(next_timers(false, 200, 0, ShotType::Normal), (201, 200, ShotType::Super));
    assert_eq!(next_timers(true, 150, 0, ShotType::Normal), (0, 0, ShotType::Normal));
    assert_eq!(next_timers(true, 0, 1, ShotType::Super), (0, 1, ShotType::Normal));
    assert_eq!(next_timers(false, 201, 200, ShotType::Super), (201, 200, ShotType::Super));
}

#[test]
fn elapsed_split() {
    assert_eq!(elapsed_parts(12_345), (12, 345));
    assert_eq!(elapsed_parts(999), (0, 999));
    assert_eq!(elapsed_parts(0), (0, 0));
}

#[test]
fn loop_counts_steps() {
    let mut l = GameLoop::new(0);
    assert_eq!(l.advance(40), 3);
    assert_eq!(l.accumulated_delta, -8);
    assert_eq!(l.last_frame, 40);
    assert_eq!(l.advance(45), 0);
    assert_eq!(l.accumulated_delta, -3);
    assert_eq!(l.advance(48), 1);
    assert_eq!(l.accumulated_delta, -16);
    assert_eq!(l.advance(48), 0);
}

#[test]
fn ship_hit_wins_over_boss_falling() {
    let mut g = playing();
    g.bosses[0].hp = 1;
    g.shots.push(normal_shot(230_000, 160_000));
    g.bullets.push(still_bullet(390_000, 950_000));
    g.update_with(16, 500, 500);
    assert_eq!(g.stage, Stage::GameOver);
    assert!(g.bosses.is_empty());
    g.shot(20);
    assert_fresh(&g, 20);
}
