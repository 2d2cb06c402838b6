//! Behaviour of the individual entities: circles, bullets, the player, and
//! the geometric tests they are built on.
use circle_dodger::bullet::Bullet;
use circle_dodger::circle::CircleType;
use circle_dodger::circle::FallingCircle;
use circle_dodger::geom::circle_rect_overlap;
use circle_dodger::player::Player;

fn normal_circle(x: i64, y: i64) -> FallingCircle {
    FallingCircle { x, y, radius: 20_000, speed: 100, color: 0, kind: CircleType::Normal, health: 1 }
}

#[test]
fn points_by_type() {
    assert_eq!(CircleType::Normal.get_points(), 100);
    assert_eq!(CircleType::Fast.get_points(), 150);
    assert_eq!(CircleType::Big.get_points(), 200);
}

#[test]
fn spawned_circles_respect_their_type() {
    let mut seen_two_xs = false;
    let mut first_x: Option<i64> = None;
    let mut seen_normal = false;
    for _ in 0..200 {
        let c = FallingCircle::new(800_000);
        assert!(0 <= c.x && c.x <= 800_000);
        assert_eq!(c.y, -50_000);
        assert!(c.color < 15);
        match c.kind {
            CircleType::Normal => {
                assert_eq!(c.radius, 20_000);
                assert!(100 <= c.speed && c.speed <= 250);
                assert_eq!(c.health, 1);
                seen_normal = true;
            }
            CircleType::Fast => {
                assert_eq!(c.radius, 15_000);
                assert!(250 <= c.speed && c.speed <= 1000);
                assert_eq!(c.health, 1);
            }
            CircleType::Big => {
                assert_eq!(c.radius, 35_000);
                assert!(80 <= c.speed && c.speed <= 150);
                assert_eq!(c.health, 2);
            }
        }
        match first_x {
            None => first_x = Some(c.x),
            Some(x0) => {
                if c.x != x0 {
                    seen_two_xs = true;
                }
            }
        }
    }
    // the draws really vary: a source that echoed its bound back would fail
    assert!(seen_two_xs);
    assert!(seen_normal);
}

#[test]
fn circle_falls_exactly_speed_times_time() {
    let mut c = normal_circle(100_000, -50_000);
    c.update(1000);
    assert_eq!(c.x, 100_000);
    assert_eq!(c.y, 50_000);
    assert_eq!(c.health, 1);
    assert_eq!(c.radius, 20_000);
}

#[test]
fn off_screen_boundary_is_exclusive_and_sticky() {
    // top of the disc exactly at the bottom edge: still on-screen
    let mut c = normal_circle(0, 820_000);
    assert!(!c.is_off_screen(800_000));
    // one subpixel further: off-screen
    c.y = 820_001;
    assert!(c.is_off_screen(800_000));
    // and falling further keeps it off-screen
    c.update(500);
    assert!(c.is_off_screen(800_000));
}

#[test]
fn take_damage_counts_down_to_destruction() {
    let mut big = FallingCircle {
        x: 0,
        y: 0,
        radius: 35_000,
        speed: 100,
        color: 3,
        kind: CircleType::Big,
        health: 2,
    };
    assert!(!big.take_damage());
    assert_eq!(big.health, 1);
    assert!(big.take_damage());
    assert_eq!(big.health, 0);
}

#[test]
fn circle_rect_overlap_cases() {
    // rectangle fully containing the centre: overlap
    assert!(circle_rect_overlap(0, 0, 5_000, -10_000, -10_000, 20_000, 20_000));
    // rectangle far away: no overlap
    assert!(!circle_rect_overlap(0, 0, 5_000, 100_000, 100_000, 10_000, 10_000));
    // tangent at exactly the radius: the boundary is exclusive
    assert!(!circle_rect_overlap(0, 0, 5_000, 5_000, -1_000, 10_000, 2_000));
    // one subpixel closer: overlap
    assert!(circle_rect_overlap(0, 0, 5_000, 4_999, -1_000, 10_000, 2_000));
}

#[test]
fn circle_rect_overlap_mirrored() {
    // mirroring the circle and the rectangle across either axis preserves
    // the answer
    let hit = circle_rect_overlap(7_000, 3_000, 5_000, 4_000, -1_000, 10_000, 2_000);
    let hit_mx = circle_rect_overlap(-7_000, 3_000, 5_000, -(4_000 + 10_000), -1_000, 10_000, 2_000);
    let hit_my = circle_rect_overlap(7_000, -3_000, 5_000, 4_000, -(-1_000 + 2_000), 10_000, 2_000);
    assert_eq!(hit, hit_mx);
    assert_eq!(hit, hit_my);
}

#[test]
fn bullet_flies_up_and_leaves_the_screen() {
    let mut b = Bullet::new(425_000, 550_000);
    assert!(b.active);
    assert_eq!(b.speed, 800);
    assert!(!b.is_off_screen());
    b.update(500);
    assert_eq!(b.y, 150_000);
    assert!(!b.is_off_screen());
    b.update(1000);
    assert_eq!(b.y, -650_000);
    assert!(b.is_off_screen());
}

#[test]
fn bullet_point_test_against_circle() {
    let c = normal_circle(100_000, 100_000);
    let inside = Bullet::new(100_000, 110_000);
    assert!(inside.collides_with_circle(&c));
    // exactly on the rim: exclusive
    let rim = Bullet::new(100_000, 120_000);
    assert!(!rim.collides_with_circle(&c));
    let outside = Bullet::new(100_000, 130_000);
    assert!(!outside.collides_with_circle(&c));
}

#[test]
fn player_slides_and_is_clamped() {
    let mut p = Player::new(800_000, 600_000);
    assert_eq!(p.x, 400_000);
    assert_eq!(p.y, 550_000);
    p.slide(true, false, 100, 800_000, 600_000);
    assert_eq!(p.x, 370_000);
    assert_eq!(p.y, 550_000);
    p.slide(false, true, 200, 800_000, 600_000);
    assert_eq!(p.x, 430_000);
    // a long frame drives the ship into the left wall, where it stops
    p.slide(true, false, 60_000, 800_000, 600_000);
    assert_eq!(p.x, 0);
    // both directions held cancel out
    p.slide(true, true, 1_000, 800_000, 600_000);
    assert_eq!(p.x, 0);
}
