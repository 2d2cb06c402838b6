//! The player's ship: a square hitbox steered horizontally and clamped to
//! the screen every frame.
use vstd::prelude::*;

verus! {

use crate::geom::clamp_i64;
use crate::geom::clamp_spec;
use crate::MAX_DIM_SPX;
use crate::MAX_DT_MS;
use crate::SUBPIX;

/// Side of the player's square hitbox: 50 pixels.
pub const PLAYER_SIZE_SPX: i64 = 50 * SUBPIX;

/// Horizontal steering speed, in pixels per second.
pub const PLAYER_SPEED_PPS: i64 = 300;

/// The player's ship; `x`/`y` is the top-left corner of its square hitbox.
#[derive(Clone, Copy, PartialEq, Eq, Debug)]
pub struct Player {
    /// Left edge, in subpixels.
    pub x: i64,
    /// Top edge, in subpixels.
    pub y: i64,
}

/// The player after steering for `dt` milliseconds and being clamped back
/// into a screen of the given size.  Holding both directions cancels out.
pub open spec fn moved(p: Player, left: bool, right: bool, dt: int, w: int, h: int) -> Player {
    let dx = (if left {
        -PLAYER_SPEED_PPS * dt
    } else {
        0
    }) + (if right {
        PLAYER_SPEED_PPS * dt
    } else {
        0
    });
    Player {
        x: clamp_spec(p.x + dx, 0, w - PLAYER_SIZE_SPX) as i64,
        y: clamp_spec(p.y as int, 0, h - PLAYER_SIZE_SPX) as i64,
    }
}

impl Player {
    /// The ship sits somewhere a clamped ship can sit on an accepted screen.
    pub open spec fn wf(self) -> bool {
        &&& 0 <= self.x <= MAX_DIM_SPX - PLAYER_SIZE_SPX
        &&& 0 <= self.y <= MAX_DIM_SPX - PLAYER_SIZE_SPX
    }

    /// The new player of a round: horizontally centred (clamped into the
    /// screen should the screen be barely wider than the ship) and 50 pixels
    /// above the bottom edge.
    pub fn new(screen_w: i64, screen_h: i64) -> (p: Player)
        requires
            PLAYER_SIZE_SPX <= screen_w <= MAX_DIM_SPX,
            PLAYER_SIZE_SPX <= screen_h <= MAX_DIM_SPX,
        ensures
            p.x == clamp_spec(screen_w as int / 2, 0, screen_w - PLAYER_SIZE_SPX),
            p.y == screen_h - PLAYER_SIZE_SPX,
            p.wf(),
    {
        Player {
            x: clamp_i64(screen_w / 2, 0, screen_w - PLAYER_SIZE_SPX),
            y: screen_h - PLAYER_SIZE_SPX,
        }
    }

    /// Steers the ship for one frame: moves by `PLAYER_SPEED_PPS` times `dt`
    /// in each held direction, then clamps both coordinates to the screen.
    pub fn slide(&mut self, left: bool, right: bool, dt: i64, screen_w: i64, screen_h: i64)
        requires
            old(self).wf(),
            0 <= dt <= MAX_DT_MS,
            PLAYER_SIZE_SPX <= screen_w <= MAX_DIM_SPX,
            PLAYER_SIZE_SPX <= screen_h <= MAX_DIM_SPX,
        ensures
            *final(self) == moved(*old(self), left, right, dt as int, screen_w as int,
            screen_h as int),
            final(self).wf(),
    {
        let mut x = self.x;
        if left {
            x = x - PLAYER_SPEED_PPS * dt;
        }
        if right {
            x = x + PLAYER_SPEED_PPS * dt;
        }
        self.x = clamp_i64(x, 0, screen_w - PLAYER_SIZE_SPX);
        self.y = clamp_i64(self.y, 0, screen_h - PLAYER_SIZE_SPX);
    }
}

} // verus!
