use vstd::prelude::*;

use rand::rngs::StdRng;
use rand::Rng;

use crate::constants::{
    MAX_TILT, OBSTACLE_GAP_SIZE, OBSTACLE_HEIGHT, OBSTACLE_VERTICAL_OFFSET, PIXEL_RATIO,
    VELOCITY_TO_ROTATION,
};

verus! {

#[verifier::external_type_specification]
#[verifier::external_body]
pub struct ExStdRng(StdRng);

/// Relies on rand's `Rng::random_range` over a half-open `i64` range: the
/// value lies in `lo..hi`. It panics only on an empty range.
#[verifier::external_body]
fn random_in_range(rng: &mut StdRng, lo: i64, hi: i64) -> (r: i64)
    requires
        lo < hi,
    ensures
        lo <= r < hi,
{
    rng.random_range(lo..hi)
}

/// Distance from a pair's axis to the resting centre of each of its pipes.
pub open spec fn centered_gap_offset() -> int {
    (OBSTACLE_HEIGHT / 2 + OBSTACLE_GAP_SIZE) * PIXEL_RATIO
}

/// A vertical offset that a pair may take: a whole number of scaled units
/// within `[-OBSTACLE_VERTICAL_OFFSET, OBSTACLE_VERTICAL_OFFSET)`, scaled.
pub open spec fn valid_offset(o: int) -> bool {
    &&& -OBSTACLE_VERTICAL_OFFSET * PIXEL_RATIO <= o < OBSTACLE_VERTICAL_OFFSET * PIXEL_RATIO
    &&& o % (PIXEL_RATIO as int) == 0
}

/// The bird's tilt for a velocity: one degree per `VELOCITY_TO_ROTATION`,
/// rounded down to a millidegree and clamped to `[-MAX_TILT, MAX_TILT]`.
pub open spec fn tilt_of(velocity: int) -> int {
    let t = velocity * 1000 / (VELOCITY_TO_ROTATION as int);
    if t > MAX_TILT {
        MAX_TILT as int
    } else if t < -MAX_TILT {
        -MAX_TILT
    } else {
        t
    }
}

/// The vertical offset of a pair for a draw `k` of
/// `[-OBSTACLE_VERTICAL_OFFSET, OBSTACLE_VERTICAL_OFFSET)`: the draw, scaled.
pub fn scale_offset(k: i64) -> (r: i64)
    requires
        -OBSTACLE_VERTICAL_OFFSET <= k < OBSTACLE_VERTICAL_OFFSET,
    ensures
        r == k * PIXEL_RATIO,
        valid_offset(r as int),
{
    k * PIXEL_RATIO
}

/// Draws the vertical offset of a pair: a uniform draw of
/// `[-OBSTACLE_VERTICAL_OFFSET, OBSTACLE_VERTICAL_OFFSET)` from `rng`,
/// scaled by `scale_offset`.
pub fn generate_offset(rng: &mut StdRng) -> (r: i64)
    ensures
        valid_offset(r as int),
{
    let k = random_in_range(rng, -OBSTACLE_VERTICAL_OFFSET, OBSTACLE_VERTICAL_OFFSET);
    scale_offset(k)
}

/// The distance from a pair's axis to the centre of each of its pipes:
/// half a pipe plus the gap size, scaled.
pub fn get_centered_pipe_position() -> (r: i64)
    ensures
        r == centered_gap_offset(),
{
    (OBSTACLE_HEIGHT / 2 + OBSTACLE_GAP_SIZE) * PIXEL_RATIO
}

/// The bird's tilt, in millidegrees, for its velocity.
pub fn tilt_for(velocity: i64) -> (r: i64)
    ensures
        r == tilt_of(velocity as int),
        -MAX_TILT <= r <= MAX_TILT,
{
    // The speed from which the tilt stays at its bound.
    let saturation: i64 = MAX_TILT * VELOCITY_TO_ROTATION / 1000;
    if velocity >= saturation {
        MAX_TILT
    } else if velocity <= -saturation {
        -MAX_TILT
    } else {
        let shifted: u64 = (velocity + saturation) as u64;
        let t: u64 = shifted * 1000 / (VELOCITY_TO_ROTATION as u64);
        assert(t == velocity * 1000 / (VELOCITY_TO_ROTATION as int) + MAX_TILT);
        t as i64 - MAX_TILT
    }
}

} // verus!
