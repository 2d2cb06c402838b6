//! One round of the game: the session holds the player, all live entities,
//! the resource pools and the score, and advances one frame at a time from
//! frame input and the frame delta.  Every per-frame rule is stated as a
//! spec-level transformation of the session's model, and each exec phase is
//! proved equal to its transformation.
use vstd::prelude::*;

verus! {

use crate::bullet::bullet_off_screen_spec;
use crate::bullet::risen;
use crate::bullet::Bullet;
use crate::bullet::BULLET_SPEED_PPS;
use crate::circle::fallen;
use crate::circle::off_screen_spec;
use crate::circle::CircleType;
use crate::circle::FallingCircle;
use crate::circle::MAX_CIRCLE_SPEED_PPS;
use crate::circle::SPAWN_Y_SPX;
use crate::geom::circle_rect_overlap_spec;
use crate::geom::clamp_spec;
use crate::player::moved;
use crate::player::Player;
use crate::player::PLAYER_SIZE_SPX;
use crate::MAX_DIM_SPX;
use crate::MAX_DT_MS;

/// A new circle is spawned whenever at least this much time has accumulated.
pub const SPAWN_INTERVAL_MS: i64 = 500;

/// One ammunition unit is restored whenever this much time has accumulated
/// while ammunition is below the maximum.
pub const RECHARGE_INTERVAL_MS: i64 = 2000;

/// Length of the cosmetic blink window armed when the player is hit.  It
/// does not protect against further hits.
pub const HIT_INVINCIBILITY_MS: i64 = 3000;

/// Ammunition a round starts with, also the recharge ceiling.
pub const MAX_AMMO: u32 = 20;

/// Lives a round starts with.
pub const INITIAL_LIVES: u32 = 3;

/// One survival point is scored per this many milliseconds survived
/// (ten points per second, truncated).
pub const TIME_SCORE_UNIT_MS: i64 = 100;

/// The two states of a round.
#[derive(Clone, Copy, PartialEq, Eq, Debug)]
pub enum GameState {
    Playing,
    GameOver,
}

/// What the player pressed this frame: held movement keys and the
/// edge-triggered fire key.
#[derive(Clone, Copy, PartialEq, Eq, Debug)]
pub struct FrameInput {
    pub left: bool,
    pub right: bool,
    pub fire: bool,
}

/// What a frame produced for the outside world: how many circles were
/// destroyed (one explosion cue each) and whether the round just ended.
#[derive(Clone, Copy, PartialEq, Eq, Debug)]
pub struct StepEvents {
    pub kills: usize,
    pub game_over: bool,
}

/// The mathematical model of a session: the same data with sequences for the
/// entity collections and unbounded integers for the counters.
#[verifier::ext_equal]
pub ghost struct SessionModel {
    pub player: Player,
    pub circles: Seq<FallingCircle>,
    pub bullets: Seq<Bullet>,
    pub spawn_timer: int,
    pub ammo: int,
    pub max_ammo: int,
    pub recharge_timer: int,
    pub hit_timer: int,
    pub score: int,
    pub lives: int,
    pub state: GameState,
}

/// `v`, but capped at `hi`.
pub open spec fn cap_at(v: int, hi: int) -> int {
    if v > hi {
        hi
    } else {
        v
    }
}

/// `v`, but no lower than zero.
pub open spec fn at_least_zero(v: int) -> int {
    if v < 0 {
        0
    } else {
        v
    }
}

/// Addition that saturates at the top of `i64`; both summands are
/// non-negative wherever scores are added.
pub open spec fn sat_add(a: int, b: int) -> int {
    if a + b > i64::MAX {
        i64::MAX as int
    } else {
        a + b
    }
}

impl SessionModel {
    /// The invariant every session satisfies between frames.
    pub open spec fn wf(self) -> bool {
        &&& self.player.wf()
        &&& forall|i: int|
            0 <= i < self.circles.len() ==> (#[trigger] self.circles[i]).wf()
        &&& forall|i: int|
            0 <= i < self.bullets.len() ==> (#[trigger] self.bullets[i]).wf()
        &&& 0 <= self.ammo <= self.max_ammo
        &&& 1 <= self.max_ammo <= 1_000_000
        &&& 0 <= self.spawn_timer <= SPAWN_INTERVAL_MS + 1
        &&& 0 <= self.recharge_timer <= RECHARGE_INTERVAL_MS
        &&& 0 <= self.hit_timer <= HIT_INVINCIBILITY_MS
        &&& 0 <= self.score <= i64::MAX
        &&& 0 <= self.lives <= INITIAL_LIVES
        &&& (self.state is Playing ==> self.lives >= 1)
        &&& (self.state is GameOver ==> self.lives == 0)
    }
}

/// The session a round starts with, on a screen of the given size.
pub open spec fn initial_model(w: int, h: int) -> SessionModel {
    SessionModel {
        player: Player {
            x: clamp_spec(w / 2, 0, w - PLAYER_SIZE_SPX) as i64,
            y: (h - PLAYER_SIZE_SPX) as i64,
        },
        circles: Seq::empty(),
        bullets: Seq::empty(),
        spawn_timer: 0,
        ammo: MAX_AMMO as int,
        max_ammo: MAX_AMMO as int,
        recharge_timer: 0,
        hit_timer: 0,
        score: 0,
        lives: INITIAL_LIVES as int,
        state: GameState::Playing,
    }
}

/// Movement phase: the player steers and is clamped to the screen.
pub open spec fn with_movement(
    m: SessionModel,
    left: bool,
    right: bool,
    dt: int,
    w: int,
    h: int,
) -> SessionModel {
    SessionModel { player: moved(m.player, left, right, dt, w, h), ..m }
}

/// The bullet a fire action creates: an active bullet at the middle of the
/// player's top edge.
pub open spec fn muzzle_bullet(p: Player) -> Bullet {
    Bullet {
        x: (p.x + PLAYER_SIZE_SPX / 2) as i64,
        y: p.y,
        speed: BULLET_SPEED_PPS,
        active: true,
    }
}

/// Fire phase: a fire press with ammunition left appends exactly one bullet
/// at the muzzle and costs exactly one unit; otherwise the frame is
/// unchanged.
pub open spec fn with_fire(m: SessionModel, fire: bool) -> SessionModel {
    if fire && m.ammo > 0 {
        SessionModel { bullets: m.bullets.push(muzzle_bullet(m.player)), ammo: m.ammo - 1, ..m }
    } else {
        m
    }
}

/// Timer phase: the spawn accumulator and the recharge accumulator grow by
/// `dt` and the blink timer shrinks by `dt`.  Once the recharge accumulator
/// has gathered `RECHARGE_INTERVAL_MS` while ammunition is below the
/// maximum, one unit is restored and the accumulator starts over.  Each
/// accumulator is capped just past its threshold — every value beyond the
/// threshold behaves the same, so the cap is unobservable and keeps the
/// counters bounded — and the blink timer stops at zero, where only its sign
/// is ever read.
pub open spec fn with_timers(m: SessionModel, dt: int) -> SessionModel {
    let spawn2 = cap_at(m.spawn_timer + dt, SPAWN_INTERVAL_MS + 1);
    let hit2 = at_least_zero(m.hit_timer - dt);
    let rt = cap_at(m.recharge_timer + dt, RECHARGE_INTERVAL_MS as int);
    if m.ammo < m.max_ammo && rt >= RECHARGE_INTERVAL_MS {
        SessionModel {
            spawn_timer: spawn2,
            hit_timer: hit2,
            recharge_timer: 0,
            ammo: m.ammo + 1,
            ..m
        }
    } else {
        SessionModel { spawn_timer: spawn2, hit_timer: hit2, recharge_timer: rt, ..m }
    }
}

/// Bullet motion phase: every bullet rises, then inactive bullets and
/// bullets past the top edge are pruned.
pub open spec fn with_bullets_advanced(m: SessionModel, dt: int) -> SessionModel {
    SessionModel {
        bullets: m.bullets.map_values(|b: Bullet| risen(b, dt)).filter(
            |b: Bullet| b.active && !bullet_off_screen_spec(b),
        ),
        ..m
    }
}

/// Circle motion phase: every circle falls, then circles past the bottom
/// edge are pruned.
pub open spec fn with_circles_advanced(m: SessionModel, dt: int, h: int) -> SessionModel {
    SessionModel {
        circles: m.circles.map_values(|c: FallingCircle| fallen(c, dt)).filter(
            |c: FallingCircle| !off_screen_spec(c, h),
        ),
        ..m
    }
}

/// One circle absorbing the bullets from index `j` on, in order: each active
/// bullet inside the circle while the circle is still alive is deactivated
/// and costs the circle one hit point.  Returns the bullets and the circle
/// after the pass.
pub open spec fn bullet_damage(c: FallingCircle, bs: Seq<Bullet>, j: int) -> (Seq<Bullet>,
    FallingCircle)
    decreases bs.len() - j,
{
    if j < 0 || j >= bs.len() {
        (bs, c)
    } else if bs[j].active && c.health > 0 && crate::geom::point_in_circle_spec(
        bs[j].x as int,
        bs[j].y as int,
        c.x as int,
        c.y as int,
        c.radius as int,
    ) {
        bullet_damage(
            FallingCircle { health: (c.health - 1) as u32, ..c },
            bs.update(j, Bullet { active: false, ..bs[j] }),
            j + 1,
        )
    } else {
        bullet_damage(c, bs, j + 1)
    }
}

/// Bullet-versus-circle resolution from circle index `i` on: each circle in
/// order absorbs the bullets, and a circle whose health reaches zero in this
/// pass scores its type's points and counts as one kill.  Returns the
/// circles, the bullets, the scored points and the kill count.
pub open spec fn resolve_hits(cs: Seq<FallingCircle>, bs: Seq<Bullet>, i: int) -> (Seq<
    FallingCircle,
>, Seq<Bullet>, int, nat)
    decreases cs.len() - i,
{
    if i < 0 || i >= cs.len() {
        (cs, bs, 0, 0)
    } else {
        let r = bullet_damage(cs[i], bs, 0);
        let killed = cs[i].health > 0 && r.1.health == 0;
        let rest = resolve_hits(cs.update(i, r.1), r.0, i + 1);
        (
            rest.0,
            rest.1,
            rest.2 + if killed {
                cs[i].kind.spec_points() as int
            } else {
                0
            },
            rest.3 + if killed {
                1nat
            } else {
                0nat
            },
        )
    }
}

/// Bullet-hit phase: the resolution pass over all circles, with the scored
/// points added to the score (saturating at the top of `i64`).  The second
/// component is the number of circles destroyed.
pub open spec fn with_bullet_hits(m: SessionModel) -> (SessionModel, nat) {
    let r = resolve_hits(m.circles, m.bullets, 0);
    (SessionModel { circles: r.0, bullets: r.1, score: sat_add(m.score, r.2), ..m }, r.3)
}

/// Spawn phase: once the spawn accumulator has passed the interval, the
/// given circle joins the field and the accumulator starts over.
pub open spec fn spawn_phase(m: SessionModel, c: FallingCircle) -> SessionModel {
    if m.spawn_timer > SPAWN_INTERVAL_MS {
        SessionModel { circles: m.circles.push(c), spawn_timer: 0, ..m }
    } else {
        m
    }
}

/// Player-versus-circle resolution from circle index `i` on: each live
/// circle overlapping the player's square costs one life and is marked dead;
/// when the last life is lost the round ends on the spot and the remaining
/// circles are not examined.  Returns the circles, the lives, the number of
/// hits taken and whether the round ended.
pub open spec fn player_hits(cs: Seq<FallingCircle>, p: Player, lives: int, i: int) -> (Seq<
    FallingCircle,
>, int, nat, bool)
    decreases cs.len() - i,
{
    if i < 0 || i >= cs.len() {
        (cs, lives, 0, false)
    } else if cs[i].health > 0 && circle_rect_overlap_spec(
        cs[i].x as int,
        cs[i].y as int,
        cs[i].radius as int,
        p.x as int,
        p.y as int,
        PLAYER_SIZE_SPX as int,
        PLAYER_SIZE_SPX as int,
    ) {
        let cs2 = cs.update(i, FallingCircle { health: 0, ..cs[i] });
        if lives - 1 <= 0 {
            (cs2, 0, 1, true)
        } else {
            let rest = player_hits(cs2, p, lives - 1, i + 1);
            (rest.0, rest.1, rest.2 + 1, rest.3)
        }
    } else {
        player_hits(cs, p, lives, i + 1)
    }
}

/// Player-hit phase: the resolution pass over all circles; any hit arms the
/// blink window, and losing the last life moves the round to game over.
pub open spec fn with_player_hits(m: SessionModel) -> SessionModel {
    let r = player_hits(m.circles, m.player, m.lives, 0);
    SessionModel {
        circles: r.0,
        lives: r.1,
        hit_timer: if r.2 > 0 {
            HIT_INVINCIBILITY_MS as int
        } else {
            m.hit_timer
        },
        state: if r.3 {
            GameState::GameOver
        } else {
            m.state
        },
        ..m
    }
}

/// Compaction phase: dead circles leave the field in one stable pass.
pub open spec fn with_compaction(m: SessionModel) -> SessionModel {
    SessionModel { circles: m.circles.filter(|c: FallingCircle| c.health > 0), ..m }
}

/// Survival-score phase: ten points per second survived, truncated.
pub open spec fn with_time_score(m: SessionModel, dt: int) -> SessionModel {
    SessionModel { score: sat_add(m.score, dt / TIME_SCORE_UNIT_MS as int), ..m }
}

/// One whole frame, given the circle `c` the spawner would add: movement,
/// firing, timers, bullet motion, bullet hits, spawning, circle motion,
/// player hits; then, unless the round just ended, compaction of dead
/// circles and the survival score.  The second component is the number of
/// circles destroyed by bullets this frame.
pub open spec fn step_spec(
    m: SessionModel,
    input: FrameInput,
    dt: int,
    w: int,
    h: int,
    c: FallingCircle,
) -> (SessionModel, nat) {
    let m1 = with_movement(m, input.left, input.right, dt, w, h);
    let m2 = with_fire(m1, input.fire);
    let m3 = with_timers(m2, dt);
    let m4 = with_bullets_advanced(m3, dt);
    let hits = with_bullet_hits(m4);
    let m6 = spawn_phase(hits.0, c);
    let m7 = with_circles_advanced(m6, dt, h);
    let m8 = with_player_hits(m7);
    if m8.state is GameOver {
        (m8, hits.1)
    } else {
        (with_time_score(with_compaction(m8), dt), hits.1)
    }
}

/// Saturating addition of non-negative amounts composes: adding two gains
/// one after the other saturates exactly like adding their sum at once.
pub proof fn lemma_sat_add_assoc(a: int, b: int, c: int)
    requires
        0 <= a,
        0 <= b,
        0 <= c,
    ensures
        sat_add(sat_add(a, b), c) == sat_add(a, b + c),
{
}

/// A damage pass only clears bullets' active flags and only lowers the
/// circle's health: positions, speeds and the circle's identity are
/// untouched, and no bullet is reactivated.
pub proof fn lemma_bullet_damage_props(c: FallingCircle, bs: Seq<Bullet>, j: int)
    ensures
        ({
            let r = bullet_damage(c, bs, j);
            &&& r.0.len() == bs.len()
            &&& forall|k: int|
                0 <= k < bs.len() ==> ((#[trigger] r.0[k]).x == bs[k].x && r.0[k].y == bs[k].y
                    && r.0[k].speed == bs[k].speed && (r.0[k].active ==> bs[k].active))
            &&& r.1.x == c.x
            &&& r.1.y == c.y
            &&& r.1.radius == c.radius
            &&& r.1.speed == c.speed
            &&& r.1.kind == c.kind
            &&& r.1.color == c.color
            &&& r.1.health <= c.health
        }),
    decreases bs.len() - j,
{
    if j < 0 || j >= bs.len() {
    } else if bs[j].active && c.health > 0 && crate::geom::point_in_circle_spec(
        bs[j].x as int,
        bs[j].y as int,
        c.x as int,
        c.y as int,
        c.radius as int,
    ) {
        let c2 = FallingCircle { health: (c.health - 1) as u32, ..c };
        let bs2 = bs.update(j, Bullet { active: false, ..bs[j] });
        lemma_bullet_damage_props(c2, bs2, j + 1);
    } else {
        lemma_bullet_damage_props(c, bs, j + 1);
    }
}

/// Health is monotone under bullet resolution: the pass never raises any
/// circle's health, never moves, resizes or retypes a circle, and keeps both
/// collections' lengths; bullets can only lose their active flag.
pub proof fn lemma_resolve_hits_props(cs: Seq<FallingCircle>, bs: Seq<Bullet>, i: int)
    ensures
        ({
            let r = resolve_hits(cs, bs, i);
            &&& r.0.len() == cs.len()
            &&& r.1.len() == bs.len()
            &&& forall|k: int|
                0 <= k < cs.len() ==> ((#[trigger] r.0[k]).health <= cs[k].health && r.0[k].x
                    == cs[k].x && r.0[k].y == cs[k].y && r.0[k].radius == cs[k].radius && r.0[k].speed
                    == cs[k].speed && r.0[k].kind == cs[k].kind && r.0[k].color == cs[k].color)
            &&& forall|k: int|
                0 <= k < bs.len() ==> ((#[trigger] r.1[k]).x == bs[k].x && r.1[k].y == bs[k].y
                    && r.1[k].speed == bs[k].speed && (r.1[k].active ==> bs[k].active))
            &&& r.2 >= 0
        }),
    decreases cs.len() - i,
{
    if i < 0 || i >= cs.len() {
    } else {
        let r = bullet_damage(cs[i], bs, 0);
        lemma_bullet_damage_props(cs[i], bs, 0);
        lemma_resolve_hits_props(cs.update(i, r.1), r.0, i + 1);
    }
}

/// Health and lives are monotone under player-hit resolution: no circle's
/// health rises (a hit circle drops straight to zero), no circle moves,
/// resizes or changes type, and lives never increase.
pub proof fn lemma_player_hits_props(cs: Seq<FallingCircle>, p: Player, lives: int, i: int)
    requires
        0 <= lives,
    ensures
        ({
            let r = player_hits(cs, p, lives, i);
            &&& r.0.len() == cs.len()
            &&& forall|k: int|
                0 <= k < cs.len() ==> ((#[trigger] r.0[k]).health <= cs[k].health && r.0[k].x
                    == cs[k].x && r.0[k].y == cs[k].y && r.0[k].radius == cs[k].radius && r.0[k].speed
                    == cs[k].speed && r.0[k].kind == cs[k].kind && r.0[k].color == cs[k].color)
            &&& 0 <= r.1 <= lives
        }),
    decreases cs.len() - i,
{
    if i < 0 || i >= cs.len() {
    } else if cs[i].health > 0 && circle_rect_overlap_spec(
        cs[i].x as int,
        cs[i].y as int,
        cs[i].radius as int,
        p.x as int,
        p.y as int,
        PLAYER_SIZE_SPX as int,
        PLAYER_SIZE_SPX as int,
    ) {
        let cs2 = cs.update(i, FallingCircle { health: 0, ..cs[i] });
        if lives - 1 <= 0 {
        } else {
            lemma_player_hits_props(cs2, p, lives - 1, i + 1);
        }
    } else {
        lemma_player_hits_props(cs, p, lives, i + 1);
    }
}

/// Whether the player sprite is drawn this frame: steady outside the blink
/// window, toggling with tenth-of-second parity while the window is armed.
/// The window is cosmetic only; it never protects against hits.
pub fn blink_visible(hit_timer: i64, time_tenths: i64) -> (visible: bool)
    ensures
        visible == (hit_timer <= 0 || time_tenths % 2 == 0),
{
    hit_timer <= 0 || time_tenths % 2 == 0
}

/// One round of the game.
pub struct Session {
    pub player: Player,
    pub circles: Vec<FallingCircle>,
    pub bullets: Vec<Bullet>,
    /// Time accumulated towards the next spawn, in milliseconds.
    pub spawn_timer: i64,
    /// Ammunition left.
    pub ammo: u32,
    /// Ceiling the recharge never exceeds.
    pub max_ammo: u32,
    /// Time accumulated towards the next recharge, in milliseconds.
    pub recharge_timer: i64,
    /// Remaining cosmetic blink window, in milliseconds.
    pub hit_timer: i64,
    pub score: i64,
    pub lives: u32,
    pub state: GameState,
}

impl View for Session {
    type V = SessionModel;

    open spec fn view(&self) -> SessionModel {
        SessionModel {
            player: self.player,
            circles: self.circles@,
            bullets: self.bullets@,
            spawn_timer: self.spawn_timer as int,
            ammo: self.ammo as int,
            max_ammo: self.max_ammo as int,
            recharge_timer: self.recharge_timer as int,
            hit_timer: self.hit_timer as int,
            score: self.score as int,
            lives: self.lives as int,
            state: self.state,
        }
    }
}

impl Session {
    /// A fresh round on a screen of the given size: full ammunition, all
    /// lives, score zero, no entities, timers at zero, playing.
    pub fn new(screen_w: i64, screen_h: i64) -> (s: Session)
        requires
            PLAYER_SIZE_SPX <= screen_w <= MAX_DIM_SPX,
            PLAYER_SIZE_SPX <= screen_h <= MAX_DIM_SPX,
        ensures
            s@ == initial_model(screen_w as int, screen_h as int),
            s@.wf(),
    {
        let s = Session {
            player: Player::new(screen_w, screen_h),
            circles: Vec::new(),
            bullets: Vec::new(),
            spawn_timer: 0,
            ammo: MAX_AMMO,
            max_ammo: MAX_AMMO,
            recharge_timer: 0,
            hit_timer: 0,
            score: 0,
            lives: INITIAL_LIVES,
            state: GameState::Playing,
        };
        proof {
            assert(s@ =~= initial_model(screen_w as int, screen_h as int));
        }
        s
    }

    /// Starts the round over: every field returns to its initial value and
    /// both entity collections are cleared; nothing of the previous round
    /// survives.
    pub fn restart(&mut self, screen_w: i64, screen_h: i64)
        requires
            PLAYER_SIZE_SPX <= screen_w <= MAX_DIM_SPX,
            PLAYER_SIZE_SPX <= screen_h <= MAX_DIM_SPX,
        ensures
            final(self)@ =~= initial_model(screen_w as int, screen_h as int),
            final(self)@.wf(),
    {
        *self = Session::new(screen_w, screen_h);
    }

    /// Movement phase of a frame.
    pub fn apply_movement(&mut self, left: bool, right: bool, dt: i64, screen_w: i64, screen_h: i64)
        requires
            old(self)@.wf(),
            0 <= dt <= MAX_DT_MS,
            PLAYER_SIZE_SPX <= screen_w <= MAX_DIM_SPX,
            PLAYER_SIZE_SPX <= screen_h <= MAX_DIM_SPX,
        ensures
            final(self)@ == with_movement(
                old(self)@,
                left,
                right,
                dt as int,
                screen_w as int,
                screen_h as int,
            ),
            final(self)@.wf(),
    {
        self.player.slide(left, right, dt, screen_w, screen_h);
        proof {
            assert(self@ =~= with_movement(
                old(self)@,
                left,
                right,
                dt as int,
                screen_w as int,
                screen_h as int,
            ));
        }
    }

    /// Fire phase of a frame: with ammunition and a fire press, exactly one
    /// bullet appears at the muzzle and ammunition drops by exactly one;
    /// without ammunition (or without a press) nothing changes.
    pub fn fire(&mut self, fire_pressed: bool)
        requires
            old(self)@.wf(),
        ensures
            final(self)@ == with_fire(old(self)@, fire_pressed),
            final(self)@.wf(),
    {
        if fire_pressed && self.ammo > 0 {
            let b = Bullet::new(self.player.x + PLAYER_SIZE_SPX / 2, self.player.y);
            self.bullets.push(b);
            self.ammo = self.ammo - 1;
            proof {
                assert(self@ =~= with_fire(old(self)@, fire_pressed));
                assert(forall|i: int|
                    0 <= i < self@.bullets.len() ==> (#[trigger] self@.bullets[i]).wf());
            }
        } else {
            proof {
                assert(self@ =~= with_fire(old(self)@, fire_pressed));
            }
        }
    }

    /// Timer phase of a frame: accumulators grow, the blink window shrinks,
    /// and a full recharge interval below the maximum restores exactly one
    /// ammunition unit, never past the maximum.
    pub fn advance_timers(&mut self, dt: i64)
        requires
            old(self)@.wf(),
            0 <= dt <= MAX_DT_MS,
        ensures
            final(self)@ == with_timers(old(self)@, dt as int),
            final(self)@.wf(),
    {
        self.spawn_timer = self.spawn_timer + dt;
        if self.spawn_timer > SPAWN_INTERVAL_MS + 1 {
            self.spawn_timer = SPAWN_INTERVAL_MS + 1;
        }
        self.hit_timer = self.hit_timer - dt;
        if self.hit_timer < 0 {
            self.hit_timer = 0;
        }
        let mut rt = self.recharge_timer + dt;
        if rt > RECHARGE_INTERVAL_MS {
            rt = RECHARGE_INTERVAL_MS;
        }
        if self.ammo < self.max_ammo && rt >= RECHARGE_INTERVAL_MS {
            self.ammo = self.ammo + 1;
            self.recharge_timer = 0;
        } else {
            self.recharge_timer = rt;
        }
        proof {
            assert(self@ =~= with_timers(old(self)@, dt as int));
        }
    }

    /// Bullet motion phase of a frame: every bullet rises by its speed times
    /// `dt`, and bullets that were deactivated by an earlier hit or have
    /// left the top of the screen are pruned in one stable pass.
    pub fn advance_bullets(&mut self, dt: i64)
        requires
            old(self)@.wf(),
            0 <= dt <= MAX_DT_MS,
        ensures
            final(self)@ == with_bullets_advanced(old(self)@, dt as int),
            final(self)@.wf(),
    {
        let ghost f = |b: Bullet| risen(b, dt as int);
        let ghost pred = |b: Bullet| b.active && !bullet_off_screen_spec(b);
        let ghost src = self.bullets@;
        let mut kept: Vec<Bullet> = Vec::new();
        let mut j: usize = 0;
        while j < self.bullets.len()
            invariant
                old(self)@.wf(),
                *self == *old(self),
                src == self.bullets@,
                f == (|b: Bullet| risen(b, dt as int)),
                pred == (|b: Bullet| b.active && !bullet_off_screen_spec(b)),
                0 <= dt <= MAX_DT_MS,
                j <= src.len(),
                forall|k: int| 0 <= k < src.len() ==> (#[trigger] src[k]).wf(),
                kept@ == src.subrange(0, j as int).map_values(f).filter(pred),
                forall|k: int| 0 <= k < kept@.len() ==> (#[trigger] kept@[k]).wf(),
            decreases src.len() - j,
        {
            let mut b = self.bullets[j];
            proof {
                assert(b == src[j as int]);
                assert(src[j as int].wf());
            }
            b.update(dt);
            proof {
                let s = src[j as int].speed;
                assert(0 <= s * dt <= BULLET_SPEED_PPS * MAX_DT_MS) by (nonlinear_arith)
                    requires
                        0 <= s <= BULLET_SPEED_PPS,
                        0 <= dt <= MAX_DT_MS,
                ;
            }
            let keep = b.active && !b.is_off_screen();
            if keep {
                kept.push(b);
            }
            proof {
                let prev = src.subrange(0, j as int);
                let cur = src.subrange(0, j + 1 as int);
                assert(cur.drop_last() =~= prev);
                assert(cur.last() == src[j as int]);
                let mp = prev.map_values(f);
                let mc = cur.map_values(f);
                assert(mc.drop_last() =~= mp);
                assert(mc =~= mp.push(b));
                reveal(Seq::filter);
                assert(mc.filter(pred) == if pred(b) {
                    mp.filter(pred).push(b)
                } else {
                    mp.filter(pred)
                });
                assert(keep == pred(b));
            }
            j = j + 1;
        }
        proof {
            assert(src.subrange(0, src.len() as int) =~= src);
        }
        self.bullets = kept;
        proof {
            assert(self@ =~= with_bullets_advanced(old(self)@, dt as int));
        }
    }

    /// Circle motion phase of a frame: every circle falls by its speed times
    /// `dt`, and circles past the bottom of a screen `screen_h` tall are
    /// pruned in one stable pass.
    pub fn advance_circles(&mut self, dt: i64, screen_h: i64)
        requires
            old(self)@.wf(),
            0 <= dt <= MAX_DT_MS,
            PLAYER_SIZE_SPX <= screen_h <= MAX_DIM_SPX,
        ensures
            final(self)@ == with_circles_advanced(old(self)@, dt as int, screen_h as int),
            final(self)@.wf(),
    {
        let ghost f = |c: FallingCircle| fallen(c, dt as int);
        let ghost pred = |c: FallingCircle| !off_screen_spec(c, screen_h as int);
        let ghost src = self.circles@;
        let mut kept: Vec<FallingCircle> = Vec::new();
        let mut j: usize = 0;
        while j < self.circles.len()
            invariant
                old(self)@.wf(),
                *self == *old(self),
                src == self.circles@,
                f == (|c: FallingCircle| fallen(c, dt as int)),
                pred == (|c: FallingCircle| !off_screen_spec(c, screen_h as int)),
                0 <= dt <= MAX_DT_MS,
                PLAYER_SIZE_SPX <= screen_h <= MAX_DIM_SPX,
                j <= src.len(),
                forall|k: int| 0 <= k < src.len() ==> (#[trigger] src[k]).wf(),
                kept@ == src.subrange(0, j as int).map_values(f).filter(pred),
                forall|k: int| 0 <= k < kept@.len() ==> (#[trigger] kept@[k]).wf(),
            decreases src.len() - j,
        {
            let mut c = self.circles[j];
            proof {
                assert(c == src[j as int]);
                assert(src[j as int].wf());
            }
            c.update(dt);
            proof {
                let s = src[j as int].speed;
                assert(s <= MAX_CIRCLE_SPEED_PPS);
                assert(0 <= s * dt <= MAX_CIRCLE_SPEED_PPS * MAX_DT_MS) by (nonlinear_arith)
                    requires
                        0 <= s <= MAX_CIRCLE_SPEED_PPS,
                        0 <= dt <= MAX_DT_MS,
                ;
            }
            let keep = !c.is_off_screen(screen_h);
            if keep {
                kept.push(c);
            }
            proof {
                let prev = src.subrange(0, j as int);
                let cur = src.subrange(0, j + 1 as int);
                assert(cur.drop_last() =~= prev);
                assert(cur.last() == src[j as int]);
                let mp = prev.map_values(f);
                let mc = cur.map_values(f);
                assert(mc.drop_last() =~= mp);
                assert(mc =~= mp.push(c));
                reveal(Seq::filter);
                assert(mc.filter(pred) == if pred(c) {
                    mp.filter(pred).push(c)
                } else {
                    mp.filter(pred)
                });
                assert(keep == pred(c));
            }
            j = j + 1;
        }
        proof {
            assert(src.subrange(0, src.len() as int) =~= src);
        }
        self.circles = kept;
        proof {
            assert(self@ =~= with_circles_advanced(old(self)@, dt as int, screen_h as int));
        }
    }

    /// Compaction phase of a frame: circles whose health reached zero leave
    /// the field in one stable pass; live circles keep their order.
    pub fn compact_circles(&mut self)
        requires
            old(self)@.wf(),
        ensures
            final(self)@ == with_compaction(old(self)@),
            final(self)@.wf(),
    {
        let ghost pred = |c: FallingCircle| c.health > 0;
        let ghost src = self.circles@;
        let mut kept: Vec<FallingCircle> = Vec::new();
        let mut j: usize = 0;
        while j < self.circles.len()
            invariant
                old(self)@.wf(),
                *self == *old(self),
                src == self.circles@,
                pred == (|c: FallingCircle| c.health > 0),
                j <= src.len(),
                forall|k: int| 0 <= k < src.len() ==> (#[trigger] src[k]).wf(),
                kept@ == src.subrange(0, j as int).filter(pred),
                forall|k: int| 0 <= k < kept@.len() ==> (#[trigger] kept@[k]).wf(),
            decreases src.len() - j,
        {
            let c = self.circles[j];
            proof {
                assert(c == src[j as int]);
                assert(src[j as int].wf());
            }
            if c.health > 0 {
                kept.push(c);
            }
            proof {
                let prev = src.subrange(0, j as int);
                let cur = src.subrange(0, j + 1 as int);
                assert(cur.drop_last() =~= prev);
                assert(cur.last() == c);
                reveal(Seq::filter);
                assert(cur.filter(pred) == if pred(c) {
                    prev.filter(pred).push(c)
                } else {
                    prev.filter(pred)
                });
            }
            j = j + 1;
        }
        proof {
            assert(src.subrange(0, src.len() as int) =~= src);
        }
        self.circles = kept;
        proof {
            assert(self@ =~= with_compaction(old(self)@));
        }
    }

    /// Spawn phase of a frame: once enough time has accumulated, one freshly
    /// drawn circle joins the field and the accumulator starts over.  The
    /// circle's content is random; only what holds of every draw is stated.
    pub fn maybe_spawn(&mut self, screen_w: i64)
        requires
            old(self)@.wf(),
            PLAYER_SIZE_SPX <= screen_w <= MAX_DIM_SPX,
        ensures
            final(self)@.wf(),
            exists|c: FallingCircle|
                c.spawned(screen_w as int) && final(self)@ == spawn_phase(old(self)@, c),
    {
        if self.spawn_timer > SPAWN_INTERVAL_MS {
            let c = FallingCircle::new(screen_w);
            self.circles.push(c);
            self.spawn_timer = 0;
            proof {
                assert(self@ =~= spawn_phase(old(self)@, c));
                assert(c.spawned(screen_w as int) && self@ == spawn_phase(old(self)@, c));
            }
        } else {
            proof {
                let c = FallingCircle {
                    x: 0,
                    y: SPAWN_Y_SPX,
                    radius: 20_000,
                    speed: 100,
                    color: 0,
                    kind: CircleType::Normal,
                    health: 1,
                };
                assert(c.spawned(screen_w as int) && self@ == spawn_phase(old(self)@, c));
            }
        }
    }

    /// One circle absorbing every bullet in order: each active bullet inside
    /// the circle while the circle is still alive is deactivated and costs
    /// the circle one hit point.
    fn circle_absorb(bullets: &mut Vec<Bullet>, c: &mut FallingCircle)
        requires
            forall|k: int| 0 <= k < old(bullets)@.len() ==> (#[trigger] old(bullets)@[k]).wf(),
            old(c).wf(),
        ensures
            final(bullets)@ == bullet_damage(*old(c), old(bullets)@, 0).0,
            *final(c) == bullet_damage(*old(c), old(bullets)@, 0).1,
    {
        let ghost bs0 = bullets@;
        let ghost c0 = *c;
        let mut j: usize = 0;
        while j < bullets.len()
            invariant
                j <= bullets@.len(),
                bullets@.len() == bs0.len(),
                forall|k: int| 0 <= k < bullets@.len() ==> (#[trigger] bullets@[k]).wf(),
                c.x == c0.x && c.y == c0.y && c.radius == c0.radius,
                c.kind == c0.kind && c.color == c0.color,
                c.health <= c0.health,
                c0.wf(),
                bullet_damage(*c, bullets@, j as int) == bullet_damage(c0, bs0, 0),
            decreases bullets@.len() - j,
        {
            let ghost c_pre = *c;
            let ghost bs_pre = bullets@;
            let mut hit = false;
            if bullets[j].active && c.health > 0 {
                let cc = *c;
                hit = bullets[j].collides_with_circle(&cc);
            }
            if hit {
                let b = bullets[j];
                bullets[j] = Bullet { active: false, ..b };
                c.take_damage();
                proof {
                    assert(bullet_damage(c_pre, bs_pre, j as int) == bullet_damage(
                        *c,
                        bullets@,
                        j + 1,
                    ));
                }
            } else {
                proof {
                    assert(bullet_damage(c_pre, bs_pre, j as int) == bullet_damage(
                        c_pre,
                        bs_pre,
                        j + 1,
                    ));
                }
            }
            j = j + 1;
        }
    }

    /// Bullet-hit phase of a frame: every circle in order absorbs the active
    /// bullets inside it while it is alive; each circle destroyed this frame
    /// scores its type's points.  Returns how many circles were destroyed.
    pub fn resolve_bullet_hits(&mut self) -> (kills: usize)
        requires
            old(self)@.wf(),
        ensures
            final(self)@ == with_bullet_hits(old(self)@).0,
            kills as nat == with_bullet_hits(old(self)@).1,
            final(self)@.wf(),
    {
        let ghost m0 = old(self)@;
        let ghost r0 = resolve_hits(m0.circles, m0.bullets, 0);
        let mut kills: usize = 0;
        let mut i: usize = 0;
        while i < self.circles.len()
            invariant
                m0 == old(self)@,
                m0.wf(),
                r0 == resolve_hits(m0.circles, m0.bullets, 0),
                i <= self.circles@.len(),
                kills <= i,
                self.circles@.len() == m0.circles.len(),
                self.bullets@.len() == m0.bullets.len(),
                self.player == m0.player,
                self.spawn_timer as int == m0.spawn_timer,
                self.ammo as int == m0.ammo,
                self.max_ammo as int == m0.max_ammo,
                self.recharge_timer as int == m0.recharge_timer,
                self.hit_timer as int == m0.hit_timer,
                self.lives as int == m0.lives,
                self.state == m0.state,
                forall|k: int| 0 <= k < self.circles@.len() ==> (#[trigger] self.circles@[k]).wf(),
                forall|k: int| 0 <= k < self.bullets@.len() ==> (#[trigger] self.bullets@[k]).wf(),
                ({
                    let rest = resolve_hits(self.circles@, self.bullets@, i as int);
                    &&& rest.0 == r0.0
                    &&& rest.1 == r0.1
                    &&& 0 <= r0.2 - rest.2
                    &&& self.score as int == sat_add(m0.score, r0.2 - rest.2)
                    &&& kills as nat + rest.3 == r0.3
                }),
            decreases self.circles@.len() - i,
        {
            let ghost cs_pre = self.circles@;
            let ghost bs_pre = self.bullets@;
            let ghost rest_pre = resolve_hits(cs_pre, bs_pre, i as int);
            let mut c = self.circles[i];
            let was_alive = c.health > 0;
            Self::circle_absorb(&mut self.bullets, &mut c);
            proof {
                lemma_bullet_damage_props(cs_pre[i as int], bs_pre, 0);
            }
            let killed = was_alive && c.health == 0;
            self.circles[i] = c;
            proof {
                let r = bullet_damage(cs_pre[i as int], bs_pre, 0);
                assert(self.bullets@ == r.0 && c == r.1);
                assert(self.circles@ == cs_pre.update(i as int, r.1));
            }
            if killed {
                let pts = c.kind.get_points();
                proof {
                    lemma_sat_add_assoc(m0.score, r0.2 - rest_pre.2, pts as int);
                }
                if self.score <= i64::MAX - pts {
                    self.score = self.score + pts;
                } else {
                    self.score = i64::MAX;
                }
                kills = kills + 1;
            }
            proof {
                let r = bullet_damage(cs_pre[i as int], bs_pre, 0);
                let rest_next = resolve_hits(self.circles@, self.bullets@, i + 1);
                assert(rest_pre == (
                    rest_next.0,
                    rest_next.1,
                    rest_next.2 + if killed {
                        cs_pre[i as int].kind.spec_points() as int
                    } else {
                        0int
                    },
                    rest_next.3 + if killed {
                        1nat
                    } else {
                        0nat
                    },
                ));
            }
            i = i + 1;
        }
        proof {
            assert(resolve_hits(self.circles@, self.bullets@, i as int) == (
                self.circles@,
                self.bullets@,
                0int,
                0nat,
            ));
            assert(self@ =~= with_bullet_hits(m0).0);
        }
        kills
    }

    /// Player-hit phase of a frame: every live circle overlapping the
    /// player's square costs one life, is marked dead and arms the blink
    /// window; losing the last life ends the round on the spot, leaving the
    /// remaining circles unexamined.
    pub fn resolve_player_hits(&mut self)
        requires
            old(self)@.wf(),
            old(self)@.state is Playing,
        ensures
            final(self)@ == with_player_hits(old(self)@),
            final(self)@.wf(),
    {
        let ghost m0 = old(self)@;
        let ghost r0 = player_hits(m0.circles, m0.player, m0.lives, 0);
        let ghost mut hits_done: nat = 0nat;
        let mut any_hit = false;
        let mut i: usize = 0;
        while i < self.circles.len()
            invariant_except_break
                m0 == old(self)@,
                m0.wf(),
                r0 == player_hits(m0.circles, m0.player, m0.lives, 0),
                i <= self.circles@.len(),
                self.circles@.len() == m0.circles.len(),
                self.bullets@ == m0.bullets,
                self.player == m0.player,
                self.spawn_timer as int == m0.spawn_timer,
                self.ammo as int == m0.ammo,
                self.max_ammo as int == m0.max_ammo,
                self.recharge_timer as int == m0.recharge_timer,
                self.hit_timer as int == m0.hit_timer,
                self.score as int == m0.score,
                self.state is Playing,
                1 <= self.lives as int <= m0.lives,
                forall|k: int| 0 <= k < self.circles@.len() ==> (#[trigger] self.circles@[k]).wf(),
                any_hit == (hits_done > 0),
                ({
                    let rest = player_hits(self.circles@, m0.player, self.lives as int, i as int);
                    &&& rest.0 == r0.0
                    &&& rest.1 == r0.1
                    &&& hits_done + rest.2 == r0.2
                    &&& rest.3 == r0.3
                }),
            ensures
                m0 == old(self)@,
                self.circles@.len() == m0.circles.len(),
                self.bullets@ == m0.bullets,
                self.player == m0.player,
                self.spawn_timer as int == m0.spawn_timer,
                self.ammo as int == m0.ammo,
                self.max_ammo as int == m0.max_ammo,
                self.recharge_timer as int == m0.recharge_timer,
                self.hit_timer as int == m0.hit_timer,
                self.score as int == m0.score,
                forall|k: int| 0 <= k < self.circles@.len() ==> (#[trigger] self.circles@[k]).wf(),
                self.circles@ == r0.0,
                self.lives as int == r0.1,
                any_hit == (r0.2 > 0),
                (self.state is GameOver) == r0.3,
                (self.state is Playing) == !r0.3,
                r0.3 ==> self.lives == 0,
                !r0.3 ==> 1 <= self.lives as int <= m0.lives,
            decreases self.circles@.len() - i,
        {
            let ghost cs_pre = self.circles@;
            let ghost lives_pre = self.lives as int;
            let ghost hits_pre = hits_done;
            let c = self.circles[i];
            let mut hit = false;
            if c.health > 0 {
                hit = c.collides_with(
                    self.player.x,
                    self.player.y,
                    PLAYER_SIZE_SPX,
                    PLAYER_SIZE_SPX,
                );
            }
            if hit {
                self.circles[i] = FallingCircle { health: 0, ..c };
                any_hit = true;
                proof {
                    hits_done = hits_done + 1;
                }
                if self.lives == 1 {
                    self.lives = 0;
                    self.state = GameState::GameOver;
                    proof {
                        assert(player_hits(cs_pre, m0.player, lives_pre, i as int) == (
                            self.circles@,
                            0int,
                            1nat,
                            true,
                        ));
                    }
                    break ;
                } else {
                    self.lives = self.lives - 1;
                    proof {
                        let rest_next = player_hits(
                            self.circles@,
                            m0.player,
                            self.lives as int,
                            i + 1,
                        );
                        assert(player_hits(cs_pre, m0.player, lives_pre, i as int) == (
                            rest_next.0,
                            rest_next.1,
                            rest_next.2 + 1nat,
                            rest_next.3,
                        ));
                    }
                }
            } else {
                proof {
                    assert(player_hits(cs_pre, m0.player, lives_pre, i as int) == player_hits(
                        cs_pre,
                        m0.player,
                        lives_pre,
                        i + 1,
                    ));
                }
            }
            i = i + 1;
        }
        if any_hit {
            self.hit_timer = HIT_INVINCIBILITY_MS;
        }
        proof {
            assert(self@ =~= with_player_hits(m0));
        }
    }

    /// One whole frame while playing: movement, firing, timers, bullet
    /// motion, bullet hits, spawning, circle motion, player hits; then,
    /// unless the round just ended, compaction of dead circles and the
    /// survival score.  The spawned circle's content is random, so the frame
    /// is pinned down for some spawn candidate: everything else is the exact
    /// composition of the phase transformations.
    pub fn step(&mut self, input: FrameInput, dt: i64, screen_w: i64, screen_h: i64) -> (ev:
        StepEvents)
        requires
            old(self)@.wf(),
            old(self)@.state is Playing,
            0 <= dt <= MAX_DT_MS,
            PLAYER_SIZE_SPX <= screen_w <= MAX_DIM_SPX,
            PLAYER_SIZE_SPX <= screen_h <= MAX_DIM_SPX,
        ensures
            final(self)@.wf(),
            exists|c: FallingCircle|
                c.spawned(screen_w as int) && ({
                    let r = step_spec(
                        old(self)@,
                        input,
                        dt as int,
                        screen_w as int,
                        screen_h as int,
                        c,
                    );
                    &&& final(self)@ == r.0
                    &&& ev.kills as nat == r.1
                    &&& ev.game_over == (r.0.state is GameOver)
                }),
    {
        let ghost m0 = old(self)@;
        self.apply_movement(input.left, input.right, dt, screen_w, screen_h);
        self.fire(input.fire);
        self.advance_timers(dt);
        self.advance_bullets(dt);
        let ghost m4 = self@;
        let kills = self.resolve_bullet_hits();
        let ghost m5 = self@;
        self.maybe_spawn(screen_w);
        let ghost cw = choose|c: FallingCircle|
            c.spawned(screen_w as int) && self@ == spawn_phase(m5, c);
        self.advance_circles(dt, screen_h);
        self.resolve_player_hits();
        let over = matches!(self.state, GameState::GameOver);
        if !over {
            self.compact_circles();
            self.add_time_score(dt);
        }
        proof {
            let r = step_spec(m0, input, dt as int, screen_w as int, screen_h as int, cw);
            assert(self@ == r.0 && kills as nat == r.1);
        }
        StepEvents { kills, game_over: over }
    }

    /// Survival-score phase of a frame: ten points per second survived,
    /// truncated, saturating at the top of `i64`.
    pub fn add_time_score(&mut self, dt: i64)
        requires
            old(self)@.wf(),
            0 <= dt <= MAX_DT_MS,
        ensures
            final(self)@ == with_time_score(old(self)@, dt as int),
            final(self)@.wf(),
    {
        let gain = dt / TIME_SCORE_UNIT_MS;
        if self.score <= i64::MAX - gain {
            self.score = self.score + gain;
        } else {
            self.score = i64::MAX;
        }
        proof {
            assert(self@ =~= with_time_score(old(self)@, dt as int));
        }
    }
}

} // verus!
