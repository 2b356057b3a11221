//! The constants of the animation, and the limits that 64-bit arithmetic sets.

use vstd::prelude::*;

verus! {

/// Width of the surface the animation is made for, in pixels.
pub const DEFAULT_WIDTH: u32 = 800;

/// Height of the surface the animation is made for, in pixels.
pub const DEFAULT_HEIGHT: u32 = 600;

/// How many worms a world holds.
pub const NUM_WORMS: usize = 12;

/// How many points a worm's trail holds.
pub const WORM_SEGMENTS: usize = 20;

/// Radius of the disc drawn at a worm's head: 6 pixels.
pub const SEGMENT_RADIUS: i64 = 6_000_000;

/// Distance between neighbouring points of a newly made trail: 10 pixels.
pub const SEGMENT_SPACING: i64 = 10_000_000;

/// How far a worm may leave the surface before it re-enters on the other side: 20 pixels.
pub const MARGIN: i64 = 20_000_000;

/// A full turn, two pi: 6.283185 radians.
pub const FULL_TURN: i64 = 6_283_185;

/// A quarter of a turn: 1.570796 radians.
pub const QUARTER_TURN: i64 = 1_570_796;

/// The largest magnitude of a head coordinate that the arithmetic is proved for.
pub const MAX_COORDINATE: i64 = 1_000_000_000_000_000_000;

/// The largest magnitude of a heading that the arithmetic is proved for.
pub const MAX_ANGLE: i64 = 1_000_000_000_000_000_000;

/// The last tick that the arithmetic is proved for.
pub const MAX_TIME: u64 = 1_000_000_000_000;

} // verus!
