//! Simulation core of a single-screen arcade game: a player ship dodges and
//! shoots falling circles.  Positions are held in subpixels (1/1000 of a
//! pixel) and times in milliseconds, so every per-frame rule — motion,
//! collision, ammo and life management, scoring, and the playing/game-over
//! state machine — is exact integer arithmetic with a proved contract.
//! Rendering, audio and input stay outside; the core exposes a pure
//! `step`-style interface that a frame loop drives.
use vstd::prelude::*;

pub mod bullet;
pub mod circle;
pub mod geom;
pub mod player;
pub mod rng;
pub mod session;

verus! {

/// Subpixels per pixel: every coordinate in the library is a pixel value
/// scaled by this factor, so that speeds in pixels per second moved over a
/// time in milliseconds stay integral (1 px/s equals 1 subpixel/ms).
pub const SUBPIX: i64 = 1000;

/// Largest screen dimension the core accepts, in subpixels (100 000 px).
/// Keeping every coordinate within this bound keeps all squared-distance
/// computations inside `i64`.
pub const MAX_DIM_SPX: i64 = 100_000_000;

/// Largest frame delta the core accepts, in milliseconds.
pub const MAX_DT_MS: i64 = 60_000;

} // verus!
