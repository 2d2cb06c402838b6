//! Behaviour of a whole round: firing and ammunition, recharge, scoring,
//! collisions resolved over a frame, game over and restart.
use circle_dodger::session::blink_visible;
use circle_dodger::bullet::Bullet;
use circle_dodger::circle::CircleType;
use circle_dodger::circle::FallingCircle;
use circle_dodger::session::FrameInput;
use circle_dodger::session::GameState;
use circle_dodger::session::Session;

const W: i64 = 800_000;
const H: i64 = 800_000;

fn no_input() -> FrameInput {
    FrameInput { left: false, right: false, fire: false }
}

fn normal_at(x: i64, y: i64) -> FallingCircle {
    FallingCircle { x, y, radius: 20_000, speed: 100, color: 0, kind: CircleType::Normal, health: 1 }
}

#[test]
fn new_round_is_fully_stocked() {
    let s = Session::new(W, H);
    assert_eq!(s.score, 0);
    assert_eq!(s.lives, 3);
    assert_eq!(s.ammo, 20);
    assert_eq!(s.max_ammo, 20);
    assert_eq!(s.spawn_timer, 0);
    assert_eq!(s.recharge_timer, 0);
    assert_eq!(s.hit_timer, 0);
    assert!(s.circles.is_empty());
    assert!(s.bullets.is_empty());
    assert_eq!(s.state, GameState::Playing);
    assert_eq!(s.player.x, 400_000);
    assert_eq!(s.player.y, 750_000);
}

#[test]
fn firing_spends_one_unit_and_spawns_one_bullet_at_the_muzzle() {
    let mut s = Session::new(W, H);
    s.fire(true);
    assert_eq!(s.ammo, 19);
    assert_eq!(s.bullets.len(), 1);
    assert_eq!(s.bullets[0].x, s.player.x + 25_000);
    assert_eq!(s.bullets[0].y, s.player.y);
    assert!(s.bullets[0].active);
    // no press: nothing happens
    s.fire(false);
    assert_eq!(s.ammo, 19);
    assert_eq!(s.bullets.len(), 1);
}

#[test]
fn firing_with_empty_pool_is_a_no_op() {
    let mut s = Session::new(W, H);
    s.ammo = 0;
    s.fire(true);
    assert_eq!(s.ammo, 0);
    assert_eq!(s.bullets.len(), 0);
}

#[test]
fn ammo_recharges_one_unit_per_interval_and_never_overflows() {
    let mut s = Session::new(W, H);
    s.ammo = 18;
    s.advance_timers(2000);
    assert_eq!(s.ammo, 19);
    assert_eq!(s.recharge_timer, 0);
    // half the interval is not enough
    s.advance_timers(1000);
    assert_eq!(s.ammo, 19);
    assert_eq!(s.recharge_timer, 1000);
    s.advance_timers(1000);
    assert_eq!(s.ammo, 20);
    assert_eq!(s.recharge_timer, 0);
    // at the maximum, nothing recharges however long we wait
    s.advance_timers(10_000);
    assert_eq!(s.ammo, 20);
}

#[test]
fn hit_timer_counts_down_and_stops_at_zero() {
    let mut s = Session::new(W, H);
    s.hit_timer = 2_500;
    s.advance_timers(1_000);
    assert_eq!(s.hit_timer, 1_500);
    s.advance_timers(2_000);
    assert_eq!(s.hit_timer, 0);
}

#[test]
fn bullet_kills_normal_circle_and_scores_its_points() {
    let mut s = Session::new(W, H);
    s.circles.push(normal_at(100_000, 100_000));
    s.bullets.push(Bullet::new(100_000, 100_000));
    let kills = s.resolve_bullet_hits();
    assert_eq!(kills, 1);
    assert_eq!(s.score, 100);
    assert_eq!(s.circles[0].health, 0);
    assert!(!s.bullets[0].active);
    s.compact_circles();
    assert!(s.circles.is_empty());
}

#[test]
fn big_circle_needs_two_bullets_and_scores_only_on_the_second() {
    let mut s = Session::new(W, H);
    s.circles.push(FallingCircle {
        x: 100_000,
        y: 100_000,
        radius: 35_000,
        speed: 100,
        color: 0,
        kind: CircleType::Big,
        health: 2,
    });
    s.bullets.push(Bullet::new(100_000, 100_000));
    let kills = s.resolve_bullet_hits();
    assert_eq!(kills, 0);
    assert_eq!(s.score, 0);
    assert_eq!(s.circles[0].health, 1);
    assert!(!s.bullets[0].active);
    // a second bullet finishes it and only then awards the 200 points
    s.bullets.push(Bullet::new(100_000, 110_000));
    let kills = s.resolve_bullet_hits();
    assert_eq!(kills, 1);
    assert_eq!(s.score, 200);
    assert_eq!(s.circles[0].health, 0);
}

#[test]
fn one_bullet_hits_at_most_one_circle() {
    let mut s = Session::new(W, H);
    s.circles.push(normal_at(100_000, 100_000));
    s.circles.push(normal_at(100_000, 105_000));
    s.bullets.push(Bullet::new(100_000, 102_000));
    let kills = s.resolve_bullet_hits();
    // the first enumerated circle absorbs the hit; the bullet is then spent
    assert_eq!(kills, 1);
    assert_eq!(s.score, 100);
    assert_eq!(s.circles[0].health, 0);
    assert_eq!(s.circles[1].health, 1);
}

#[test]
fn circle_on_player_costs_a_life_and_arms_the_blink_window() {
    let mut s = Session::new(W, H);
    let cx = s.player.x + 25_000;
    let cy = s.player.y + 25_000;
    s.circles.push(normal_at(cx, cy));
    s.resolve_player_hits();
    assert_eq!(s.lives, 2);
    assert_eq!(s.hit_timer, 3_000);
    assert_eq!(s.circles[0].health, 0);
    assert_eq!(s.state, GameState::Playing);
}

#[test]
fn losing_the_last_life_ends_the_round() {
    let mut s = Session::new(W, H);
    s.lives = 1;
    let cx = s.player.x + 25_000;
    let cy = s.player.y + 25_000;
    s.circles.push(normal_at(cx, cy));
    let ev = s.step(no_input(), 0, W, H);
    assert!(ev.game_over);
    assert_eq!(ev.kills, 0);
    assert_eq!(s.state, GameState::GameOver);
    assert_eq!(s.lives, 0);
}

#[test]
fn one_second_of_free_fall() {
    let mut s = Session::new(W, H);
    s.circles.push(normal_at(100_000, -50_000));
    let ev = s.step(no_input(), 1_000, W, H);
    assert!(!ev.game_over);
    assert_eq!(ev.kills, 0);
    // the seeded circle fell from -50 to 50 pixels and is still on screen
    assert_eq!(s.circles[0].x, 100_000);
    assert_eq!(s.circles[0].y, 50_000);
    assert!(!s.circles[0].is_off_screen(H));
    // a full second also accumulated enough time for one spawn (the drawn
    // circle may itself already have fallen off a fast draw's full second)
    assert!(!s.circles.is_empty());
    assert_eq!(s.spawn_timer, 0);
    // ten survival points per second
    assert_eq!(s.score, 10);
}

#[test]
fn frames_shorter_than_the_spawn_interval_do_not_spawn() {
    let mut s = Session::new(W, H);
    let _ = s.step(no_input(), 400, W, H);
    assert_eq!(s.circles.len(), 0);
    assert_eq!(s.spawn_timer, 400);
    let _ = s.step(no_input(), 400, W, H);
    // the accumulator crossed the interval on the second frame
    assert_eq!(s.circles.len(), 1);
    assert_eq!(s.spawn_timer, 0);
}

#[test]
fn off_screen_circles_are_pruned_by_a_step() {
    let mut s = Session::new(W, H);
    // this one ends the frame just past the bottom edge
    s.circles.push(normal_at(50_000, 820_500));
    // this one stays
    s.circles.push(normal_at(60_000, 100_000));
    s.advance_circles(100, H);
    assert_eq!(s.circles.len(), 1);
    assert_eq!(s.circles[0].x, 60_000);
    assert_eq!(s.circles[0].y, 110_000);
}

#[test]
fn spent_and_escaped_bullets_are_pruned() {
    let mut s = Session::new(W, H);
    let mut spent = Bullet::new(100_000, 500_000);
    spent.active = false;
    s.bullets.push(spent);
    // leaves the screen within the frame
    s.bullets.push(Bullet::new(200_000, 10_000));
    // stays
    s.bullets.push(Bullet::new(300_000, 700_000));
    s.advance_bullets(100);
    assert_eq!(s.bullets.len(), 1);
    assert_eq!(s.bullets[0].x, 300_000);
    assert_eq!(s.bullets[0].y, 620_000);
}

#[test]
fn restart_resets_everything() {
    let mut s = Session::new(W, H);
    s.circles.push(normal_at(100_000, 100_000));
    s.bullets.push(Bullet::new(100_000, 500_000));
    s.score = 12_345;
    s.lives = 1;
    s.ammo = 2;
    s.spawn_timer = 300;
    s.recharge_timer = 700;
    s.hit_timer = 1_000;
    s.state = GameState::GameOver;
    s.restart(W, H);
    assert_eq!(s.score, 0);
    assert_eq!(s.lives, 3);
    assert_eq!(s.ammo, 20);
    assert_eq!(s.max_ammo, 20);
    assert!(s.circles.is_empty());
    assert!(s.bullets.is_empty());
    assert_eq!(s.spawn_timer, 0);
    assert_eq!(s.recharge_timer, 0);
    assert_eq!(s.hit_timer, 0);
    assert_eq!(s.state, GameState::Playing);
}

#[test]
fn blink_parity() {
    // no window armed: always visible
    assert!(blink_visible(0, 7));
    assert!(blink_visible(0, 8));
    // window armed: visible only on even tenths
    assert!(!blink_visible(1_000, 7));
    assert!(blink_visible(1_000, 8));
}
