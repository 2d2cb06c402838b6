//! Bullets: points fired upward from the player's muzzle at a fixed speed.
//! A bullet deactivates on its first hit and is pruned once inactive or past
//! the top of the screen.
use vstd::prelude::*;

verus! {

use crate::circle::FallingCircle;
use crate::geom::point_in_circle;
use crate::geom::point_in_circle_spec;
use crate::geom::MAX_COORD_SPX;
use crate::MAX_DIM_SPX;
use crate::MAX_DT_MS;

/// Fixed upward speed of every bullet, in pixels per second.
pub const BULLET_SPEED_PPS: i64 = 800;

/// A bullet in flight, treated as a point.
#[derive(Clone, Copy, PartialEq, Eq, Debug)]
pub struct Bullet {
    /// Horizontal position in subpixels; never changes after firing.
    pub x: i64,
    /// Vertical position in subpixels; decreases as the bullet rises.
    pub y: i64,
    /// Upward speed in pixels per second; always `BULLET_SPEED_PPS`.
    pub speed: i64,
    /// Cleared on the bullet's first hit; an inactive bullet hits nothing
    /// and is pruned at the start of the next frame.
    pub active: bool,
}

/// A bullet is off-screen once it has risen past the top edge.
pub open spec fn bullet_off_screen_spec(b: Bullet) -> bool {
    b.y < 0
}

/// The bullet after rising for `dt` milliseconds.
pub open spec fn risen(b: Bullet, dt: int) -> Bullet {
    Bullet { y: (b.y - b.speed * dt) as i64, ..b }
}

impl Bullet {
    /// The speed is the fixed one and the position lies within the band a
    /// stored bullet can occupy between frames.
    pub open spec fn wf(self) -> bool {
        &&& self.speed == BULLET_SPEED_PPS
        &&& 0 <= self.x <= MAX_DIM_SPX
        &&& 0 <= self.y <= MAX_DIM_SPX
    }

    /// A freshly fired, active bullet at the given muzzle position.
    pub fn new(x: i64, y: i64) -> (b: Bullet)
        ensures
            b == (Bullet { x, y, speed: BULLET_SPEED_PPS, active: true }),
    {
        Bullet { x, y, speed: BULLET_SPEED_PPS, active: true }
    }

    /// Advances the flight by `dt` milliseconds: the bullet moves up by
    /// `speed * dt` subpixels and nothing else changes.
    pub fn update(&mut self, dt: i64)
        requires
            0 <= dt <= MAX_DT_MS,
            0 <= old(self).speed <= BULLET_SPEED_PPS,
            0 <= old(self).y,
        ensures
            *final(self) == risen(*old(self), dt as int),
    {
        proof {
            let s = self.speed;
            assert(0 <= s * dt <= BULLET_SPEED_PPS * MAX_DT_MS) by (nonlinear_arith)
                requires
                    0 <= s <= BULLET_SPEED_PPS,
                    0 <= dt <= MAX_DT_MS,
            ;
        }
        self.y = self.y - self.speed * dt;
    }

    /// Whether the bullet has risen past the top of the screen.
    pub fn is_off_screen(&self) -> (off: bool)
        ensures
            off == bullet_off_screen_spec(*self),
    {
        self.y < 0
    }

    /// Whether the bullet's point lies strictly inside the circle's disc.
    pub fn collides_with_circle(&self, circle: &FallingCircle) -> (hit: bool)
        requires
            -MAX_COORD_SPX <= self.x <= MAX_COORD_SPX,
            -MAX_COORD_SPX <= self.y <= MAX_COORD_SPX,
            -MAX_COORD_SPX <= circle.x <= MAX_COORD_SPX,
            -MAX_COORD_SPX <= circle.y <= MAX_COORD_SPX,
            0 <= circle.radius <= MAX_COORD_SPX,
        ensures
            hit == point_in_circle_spec(
                self.x as int,
                self.y as int,
                circle.x as int,
                circle.y as int,
                circle.radius as int,
            ),
    {
        point_in_circle(self.x, self.y, circle.x, circle.y, circle.radius)
    }
}

} // verus!
