//! Falling circles: the enemies of the game.  A circle's type fixes its
//! radius, health and point value and the range its speed is drawn from;
//! position falls straight down.  All lengths are subpixels, all times
//! milliseconds, speeds are pixels per second (equal to subpixels per
//! millisecond).
use vstd::prelude::*;

verus! {

use crate::geom::circle_rect_overlap;
use crate::geom::circle_rect_overlap_spec;
use crate::geom::MAX_COORD_SPX;
use crate::rng::gen_range_u32;
use crate::MAX_DIM_SPX;
use crate::MAX_DT_MS;
use crate::SUBPIX;

/// Vertical spawn position: 50 pixels above the visible area.
pub const SPAWN_Y_SPX: i64 = -50 * SUBPIX;

/// Number of colours a circle can be drawn in.
pub const COLOR_COUNT: u32 = 15;

/// Largest radius any circle type has: the big variant's 35 pixels.
pub const MAX_RADIUS_SPX: i64 = 35 * SUBPIX;

/// Fastest speed any circle type can be drawn with, in pixels per second.
pub const MAX_CIRCLE_SPEED_PPS: i64 = 1000;

/// Furthest a circle can fall during one frame, in subpixels.
pub const MAX_FALL_SPX: i64 = MAX_CIRCLE_SPEED_PPS * MAX_DT_MS;

/// Ceiling on the vertical position of a circle that survived the off-screen
/// prune of a frame, for any accepted screen height.
pub const MAX_CIRCLE_Y_SPX: i64 = MAX_DIM_SPX + MAX_RADIUS_SPX;

/// The three enemy variants; the variant fixes radius, health, point value
/// and the range the falling speed is drawn from.
#[derive(Clone, Copy, PartialEq, Eq, Debug)]
pub enum CircleType {
    Normal,
    Fast,
    Big,
}

impl CircleType {
    /// Points awarded for destroying a circle of this type.
    pub open spec fn spec_points(self) -> i64 {
        match self {
            CircleType::Normal => 100,
            CircleType::Fast => 150,
            CircleType::Big => 200,
        }
    }

    /// Fixed radius of this type, in subpixels.
    pub open spec fn spec_radius(self) -> i64 {
        match self {
            CircleType::Normal => 20_000,
            CircleType::Fast => 15_000,
            CircleType::Big => 35_000,
        }
    }

    /// Hit points a circle of this type is created with.
    pub open spec fn spec_health(self) -> u32 {
        match self {
            CircleType::Normal => 1,
            CircleType::Fast => 1,
            CircleType::Big => 2,
        }
    }

    /// Lower end of the speed range of this type, in pixels per second.
    pub open spec fn spec_speed_min(self) -> i64 {
        match self {
            CircleType::Normal => 100,
            CircleType::Fast => 250,
            CircleType::Big => 80,
        }
    }

    /// Upper end of the speed range of this type, in pixels per second.
    pub open spec fn spec_speed_max(self) -> i64 {
        match self {
            CircleType::Normal => 250,
            CircleType::Fast => 1000,
            CircleType::Big => 150,
        }
    }

    /// Points awarded for destroying a circle of this type.
    pub fn get_points(&self) -> (p: i64)
        ensures
            p == self.spec_points(),
    {
        match self {
            CircleType::Normal => 100,
            CircleType::Fast => 150,
            CircleType::Big => 200,
        }
    }
}

/// An enemy circle falling down the screen.
#[derive(Clone, Copy, PartialEq, Eq, Debug)]
pub struct FallingCircle {
    /// Centre, horizontal, in subpixels.
    pub x: i64,
    /// Centre, vertical, in subpixels.
    pub y: i64,
    /// Radius in subpixels; fixed by the type at creation.
    pub radius: i64,
    /// Falling speed in pixels per second; drawn at creation, never changes.
    pub speed: i64,
    /// Index into the palette the renderer owns.
    pub color: u32,
    /// The variant the weighted draw selected.
    pub kind: CircleType,
    /// Remaining hit points; only ever decreases, and a circle with zero is
    /// dead and about to be removed.
    pub health: u32,
}

/// A circle is off-screen once the top of its disc has passed the bottom of
/// the screen; sitting exactly at the boundary does not count.
pub open spec fn off_screen_spec(c: FallingCircle, screen_h: int) -> bool {
    c.y - c.radius > screen_h
}

/// The circle after falling for `dt` milliseconds.
pub open spec fn fallen(c: FallingCircle, dt: int) -> FallingCircle {
    FallingCircle { y: (c.y + c.speed * dt) as i64, ..c }
}

impl FallingCircle {
    /// Every field agrees with the circle's type, and the position lies in
    /// the band a live circle can occupy between frames.
    pub open spec fn wf(self) -> bool {
        &&& self.radius == self.kind.spec_radius()
        &&& self.kind.spec_speed_min() <= self.speed <= self.kind.spec_speed_max()
        &&& self.health <= self.kind.spec_health()
        &&& self.color < COLOR_COUNT
        &&& 0 <= self.x <= MAX_DIM_SPX
        &&& SPAWN_Y_SPX <= self.y <= MAX_CIRCLE_Y_SPX
    }

    /// What holds of a freshly spawned circle on a screen `screen_w` wide,
    /// whatever the random draws returned: it is well-formed, sits just above
    /// the screen somewhere across its width, and has the full health of its
    /// type.
    pub open spec fn spawned(self, screen_w: int) -> bool {
        &&& self.wf()
        &&& self.y == SPAWN_Y_SPX
        &&& 0 <= self.x <= screen_w
        &&& self.health == self.kind.spec_health()
    }

    /// Creates a circle just above the top of the screen: the type comes
    /// from a weighted percentage roll, speed and horizontal position are
    /// drawn uniformly, radius and health are fixed by the type.
    pub fn new(screen_w: i64) -> (c: FallingCircle)
        requires
            1 <= screen_w <= MAX_DIM_SPX,
        ensures
            c.spawned(screen_w as int),
    {
        let roll = gen_range_u32(0, 100);
        let kind = if roll < 70 {
            CircleType::Normal
        } else if roll < 85 {
            CircleType::Fast
        } else {
            CircleType::Big
        };
        let radius: i64 = match kind {
            CircleType::Normal => 20_000,
            CircleType::Fast => 15_000,
            CircleType::Big => 35_000,
        };
        let speed: i64 = match kind {
            CircleType::Normal => gen_range_u32(100, 250) as i64,
            CircleType::Fast => gen_range_u32(250, 1000) as i64,
            CircleType::Big => gen_range_u32(80, 150) as i64,
        };
        let health: u32 = match kind {
            CircleType::Normal => 1,
            CircleType::Fast => 1,
            CircleType::Big => 2,
        };
        let color_roll = gen_range_u32(0, COLOR_COUNT);
        let color = if color_roll >= COLOR_COUNT {
            COLOR_COUNT - 1
        } else {
            color_roll
        };
        let x = gen_range_u32(0, screen_w as u32) as i64;
        FallingCircle { x, y: SPAWN_Y_SPX, radius, speed, color, kind, health }
    }

    /// Advances the fall by `dt` milliseconds: the centre moves down by
    /// `speed * dt` subpixels and nothing else changes.
    pub fn update(&mut self, dt: i64)
        requires
            0 <= dt <= MAX_DT_MS,
            0 <= old(self).speed <= MAX_CIRCLE_SPEED_PPS,
            old(self).y <= MAX_CIRCLE_Y_SPX,
        ensures
            *final(self) == fallen(*old(self), dt as int),
    {
        proof {
            let s = self.speed;
            assert(0 <= s * dt <= MAX_CIRCLE_SPEED_PPS * MAX_DT_MS) by (nonlinear_arith)
                requires
                    0 <= s <= MAX_CIRCLE_SPEED_PPS,
                    0 <= dt <= MAX_DT_MS,
            ;
        }
        self.y = self.y + self.speed * dt;
    }

    /// Takes one hit: health drops by exactly one, and the circle reports
    /// whether that destroyed it.
    pub fn take_damage(&mut self) -> (destroyed: bool)
        requires
            old(self).health > 0,
        ensures
            *final(self) == (FallingCircle {
                health: (old(self).health - 1) as u32,
                ..*old(self)
            }),
            destroyed == (final(self).health == 0),
    {
        self.health = self.health - 1;
        self.health == 0
    }

    /// Whether the circle has fallen past the bottom of a screen
    /// `screen_h` subpixels tall.
    pub fn is_off_screen(&self, screen_h: i64) -> (off: bool)
        requires
            SPAWN_Y_SPX <= self.y,
            0 <= self.radius <= MAX_RADIUS_SPX,
        ensures
            off == off_screen_spec(*self, screen_h as int),
    {
        self.y - self.radius > screen_h
    }

    /// Closest-point test of this circle against an axis-aligned rectangle.
    pub fn collides_with(&self, rx: i64, ry: i64, rw: i64, rh: i64) -> (hit: bool)
        requires
            -MAX_COORD_SPX <= self.x <= MAX_COORD_SPX,
            -MAX_COORD_SPX <= self.y <= MAX_COORD_SPX,
            0 <= self.radius <= MAX_COORD_SPX,
            -MAX_COORD_SPX <= rx,
            -MAX_COORD_SPX <= ry,
            0 <= rw,
            0 <= rh,
            rx + rw <= MAX_COORD_SPX,
            ry + rh <= MAX_COORD_SPX,
        ensures
            hit == circle_rect_overlap_spec(
                self.x as int,
                self.y as int,
                self.radius as int,
                rx as int,
                ry as int,
                rw as int,
                rh as int,
            ),
    {
        circle_rect_overlap(self.x, self.y, self.radius, rx, ry, rw, rh)
    }
}

/// Creation never produces a dead circle: every type's full health is at
/// least one.
pub proof fn lemma_spawned_health_positive(c: FallingCircle, screen_w: int)
    requires
        c.spawned(screen_w),
    ensures
        c.health >= 1,
{
}

/// Falling only moves a circle downward, so a circle that is off-screen
/// stays off-screen under any further downward motion.
pub proof fn lemma_off_screen_monotone(c1: FallingCircle, c2: FallingCircle, screen_h: int)
    requires
        off_screen_spec(c1, screen_h),
        c2.y >= c1.y,
        c2.radius == c1.radius,
    ensures
        off_screen_spec(c2, screen_h),
{
}

} // verus!
