use barrage::collision::{collide_shots_boss, collide_shots_bullets};
use barrage::entity::{Boss, Bullet, Character, Ship, Shot, ShotType, SHOT_SPEED};
use barrage::geometry::{is_outside, overlaps, to_px, Rect};

fn shot(x: i64, y: i64) -> Shot {
    Shot { x, y, dx: 0, dy: SHOT_SPEED, w: 5000, h: 5000, hp: 1, t: ShotType::Normal }
}

fn bullet(x: i64, y: i64) -> Bullet {
    Bullet { x, y, dx: 0, dy: 0, w: 28_000, h: 28_000, hp: 2 }
}

#[test]
fn truncation_toward_zero() {
    assert_eq!(to_px(1999), 1);
    assert_eq!(to_px(-1500), -1);
    assert_eq!(to_px(-999), 0);
    assert_eq!(to_px(0), 0);
}

#[test]
fn overlap_is_half_open_on_pixels() {
    let a = Rect { x: 0, y: 0, w: 10_000, h: 10_000 };
    let touching = Rect { x: 10_000, y: 0, w: 10_000, h: 10_000 };
    let inside = Rect { x: 9_999, y: 9_999, w: 10_000, h: 10_000 };
    let below = Rect { x: 0, y: 10_500, w: 10_000, h: 10_000 };
    assert!(!overlaps(&a, &touching));
    assert!(overlaps(&a, &inside));
    assert!(!overlaps(&a, &below));
    assert!(overlaps(&a, &a));
}

#[test]
fn playfield_edges() {
    assert!(!is_outside(0, 0));
    assert!(!is_outside(800_000, 1_000_000));
    assert!(is_outside(-1, 0));
    assert!(is_outside(0, -1));
    assert!(is_outside(800_001, 5));
    assert!(is_outside(5, 1_000_001));
}

#[test]
fn pair_overlap_costs_one_each() {
    let mut ss = vec![shot(100_000, 100_000), shot(600_000, 600_000)];
    let mut bs = vec![bullet(95_000, 95_000), bullet(300_000, 300_000)];
    collide_shots_bullets(&mut ss, &mut bs);
    assert_eq!((ss[0].hp, bs[0].hp), (0, 1));
    assert_eq!((ss[1].hp, bs[1].hp), (1, 2));
}

#[test]
fn shot_over_two_bullets_loses_two() {
    let mut ss = vec![shot(100_000, 100_000)];
    let mut bs = vec![bullet(95_000, 95_000), bullet(90_000, 90_000)];
    collide_shots_bullets(&mut ss, &mut bs);
    assert_eq!(ss[0].hp, -1);
    assert_eq!((bs[0].hp, bs[1].hp), (1, 1));
}

#[test]
fn boss_counts_every_shot() {
    let mut ss = vec![shot(200_000, 100_000), shot(250_000, 150_000), shot(10_000, 10_000)];
    let mut boss = Boss::new();
    collide_shots_boss(&mut ss, &mut boss);
    assert_eq!(boss.hp, 997);
    assert_eq!((ss[0].hp, ss[1].hp, ss[2].hp), (0, 0, 1));
}

#[test]
fn boss_turns_at_edges() {
    let mut b = Boss { x: 576_000, ..Boss::new() };
    b.update();
    assert_eq!((b.x, b.d), (575_000, -1));
    let mut b = Boss { x: -1000, d: -1, ..Boss::new() };
    b.update();
    assert_eq!((b.x, b.d), (0, 1));
    let mut b = Boss::new();
    b.update();
    assert_eq!((b.x, b.d), (181_000, 1));
}

#[test]
fn movers_move() {
    let mut s = shot(10_000, 500_000);
    s.update();
    assert_eq!(s.y, 490_000);
    let mut b = Bullet { dx: -1996, dy: 4, ..bullet(50_000, 50_000) };
    b.update();
    assert_eq!((b.x, b.y), (48_004, 50_004));
    let mut ship = Ship::new();
    ship.set_mouse_x(0);
    ship.update();
    assert_eq!(ship.x, 379_000);
}

#[test]
fn characters_exit_and_hit() {
    assert!(shot(10_000, -1).exit());
    assert!(!shot(10_000, 0).exit());
    assert!(bullet(800_001, 10).exit());
    assert!(!Ship::new().exit());
    let boss = Boss::new();
    assert!(shot(200_000, 100_000).hit(&boss.bounds()));
    assert!(!shot(100_000, 100_000).hit(&boss.bounds()));
    let b = bullet(390_000, 950_000);
    assert!(Ship::new().hit(&b.bounds()));
    assert_eq!(b.bounds(), Rect { x: 390_000, y: 950_000, w: 28_000, h: 28_000 });
}

#[test]
fn movers_move_off_the_field() {
    let mut b = Bullet { dx: -3000, dy: 5000, ..bullet(-10_000, 2_000_000) };
    b.update();
    assert_eq!((b.x, b.y), (-13_000, 2_005_000));
    let mut s = shot(10_000, -20_000);
    s.update();
    assert_eq!(s.y, -30_000);
    let mut boss = Boss { x: 700_000, ..Boss::new() };
    boss.update();
    assert_eq!((boss.x, boss.d), (699_000, -1));
}
