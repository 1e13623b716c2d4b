use vstd::prelude::*;

verus! {

/// Downward acceleration, in micropixels per square millisecond (200 px/s²).
pub const GRAVITY: i64 = 200;

/// Velocity the bird takes when it flaps, in micropixels per millisecond (100 px/s).
pub const FLAP_FORCE: i64 = 100_000;

/// Uniform scale applied to every sprite-space length.
pub const PIXEL_RATIO: i64 = 4;

/// Velocity that tilts the bird by one degree, in micropixels per millisecond (7.5 px/s).
pub const VELOCITY_TO_ROTATION: i64 = 7_500;

/// Largest tilt of the bird either way, in millidegrees (90°).
pub const MAX_TILT: i64 = 90_000;

/// Number of pipe pairs on screen.
pub const OBSTACLE_AMOUNT: usize = 5;

/// Most pairs that one layout accepts.
pub const MAX_PAIRS: usize = 1_000;

/// Width of a pipe sprite before scaling, in micropixels.
pub const OBSTACLE_WIDTH: i64 = 32_000_000;

/// Height of a pipe sprite before scaling, in micropixels.
pub const OBSTACLE_HEIGHT: i64 = 144_000_000;

/// Horizontal distance between two pairs before scaling, in micropixels.
pub const OBSTACLE_SPACING: i64 = 60_000_000;

/// Extra vertical room that each pipe of a pair leaves to the gap, before scaling.
pub const OBSTACLE_GAP_SIZE: i64 = 15_000_000;

/// Leftward scroll speed of the pipes, in micropixels per millisecond (150 px/s).
pub const OBSTACLE_SCROLL_SPEED: i64 = 150_000;

/// Bound of the random vertical offset of a pair before scaling, in micropixels.
pub const OBSTACLE_VERTICAL_OFFSET: i64 = 30_000_000;

/// Micropixels in one pixel.
pub const MICROPIXELS_PER_PIXEL: i64 = 1_000_000;

/// Largest window side that the simulation accepts, in micropixels (a million pixels).
pub const MAX_WINDOW_SIZE: i64 = 1_000_000_000_000;

/// Longest frame that one update accepts, in milliseconds (8 s): the time a
/// pipe takes to scroll the band width that `OBSTACLE_AMOUNT` pairs span
/// (1200 px at 150 px/s). Within it a pipe that wraps never lands left of
/// where it started, so pipes within `COORD_LIMIT` stay within it from frame
/// to frame.
pub const MAX_FRAME_TIME: i64 = 8_000;

/// Largest bird speed that one update accepts, in micropixels per millisecond.
pub const MAX_SPEED: i64 = 0x100_0000_0000;

/// Largest coordinate magnitude that one update accepts, in micropixels.
pub const COORD_LIMIT: i64 = 0x1000_0000_0000_0000;

} // verus!
