use vstd::prelude::*;

use vstd::arithmetic::div_mod::{lemma_div_is_ordered, lemma_mod_multiples_vanish};

use crate::components::{GameManager, Pipe, World};
use crate::constants::{
    FLAP_FORCE, GRAVITY, MAX_TILT, OBSTACLE_AMOUNT, OBSTACLE_SCROLL_SPEED, OBSTACLE_SPACING,
    PIXEL_RATIO, VELOCITY_TO_ROTATION,
};
use crate::systems::{
    band_width, below_floor, bird_frame, height_after, hits_any, is_pair_layout, pair_at,
    scrolled_all, scrolled_to, spawned,
};
use crate::utils::{centered_gap_offset, tilt_of};

verus! {

/// Without a flap, a bird that survives the frame loses `GRAVITY * dt` of
/// velocity and then moves by its new velocity for `dt`.
pub proof fn lemma_fall_without_flap(gm: GameManager, before: World, after: World, dt: int, dead: bool)
    requires
        dt > 0,
        bird_frame(gm, before, after, dt, false, dead),
        !dead,
    ensures
        after.bird.velocity == before.bird.velocity - GRAVITY * dt,
        after.bird_position.y == before.bird_position.y + after.bird.velocity * dt,
{
}

/// A flap sets the velocity to `FLAP_FORCE` whatever it was, and gravity
/// then acts on that value within the same frame.
pub proof fn lemma_flap_sets_velocity(gm: GameManager, before: World, after: World, dt: int, dead: bool)
    requires
        dt > 0,
        bird_frame(gm, before, after, dt, true, dead),
        !dead,
    ensures
        after.bird.velocity == FLAP_FORCE - GRAVITY * dt,
        after.bird_position.y == before.bird_position.y + (FLAP_FORCE - GRAVITY * dt) * dt,
{
}

/// The tilt never decreases as the velocity grows, and stays within
/// `[-MAX_TILT, MAX_TILT]` millidegrees.
pub proof fn lemma_tilt_monotone(v1: int, v2: int)
    requires
        v1 <= v2,
    ensures
        tilt_of(v1) <= tilt_of(v2),
        -MAX_TILT <= tilt_of(v1) <= MAX_TILT,
        -MAX_TILT <= tilt_of(v2) <= MAX_TILT,
{
    lemma_div_is_ordered(v1 * 1000, v2 * 1000, VELOCITY_TO_ROTATION as int);
}

/// A frame kills the bird exactly when it ends at or below the floor or
/// inside a pipe. A dead bird is back at the origin at rest, and the pipes
/// are a fresh spawn of `OBSTACLE_AMOUNT` pairs.
pub proof fn lemma_death_resets(
    gm: GameManager,
    before: World,
    after: World,
    dt: int,
    flap: bool,
    dead: bool,
)
    requires
        bird_frame(gm, before, after, dt, flap, dead),
        dead ==> spawned(gm, after.obstacles@),
    ensures
        dead <==> ({
            let y = height_after(
                before.bird_position.y as int,
                before.bird.velocity as int,
                dt,
                flap,
            );
            below_floor(gm, y) || hits_any(before.bird_position.x as int, y, before.obstacles@)
        }),
        dead ==> after.bird.velocity == 0,
        dead ==> after.bird_position.x == 0 && after.bird_position.y == 0,
        dead ==> after.obstacles@.len() == 2 * OBSTACLE_AMOUNT,
{
}

/// One frame of scrolling keeps the horizontal distance between any two
/// pipes, counted modulo the band width.
pub proof fn lemma_scroll_keeps_spacing(
    gm: GameManager,
    dt: int,
    offset: int,
    before: Seq<Pipe>,
    after: Seq<Pipe>,
    i: int,
    j: int,
)
    requires
        scrolled_all(gm, dt, offset, before, after),
        0 <= i < before.len(),
        0 <= j < before.len(),
    ensures
        (after[i].position.x - after[j].position.x) % band_width()
            == (before[i].position.x - before[j].position.x) % band_width(),
{
    let d = before[i].position.x - before[j].position.x;
    let b = band_width();
    let wi: int = after[i].position.x - (before[i].position.x - OBSTACLE_SCROLL_SPEED * dt);
    let wj: int = after[j].position.x - (before[j].position.x - OBSTACLE_SCROLL_SPEED * dt);
    assert(scrolled_to(gm, dt, offset, before[i], after[i]));
    assert(scrolled_to(gm, dt, offset, before[j], after[j]));
    assert(wi == 0 || wi == b);
    assert(wj == 0 || wj == b);
    assert(after[i].position.x - after[j].position.x == d + wi - wj);
    if wi == wj {
        assert(after[i].position.x - after[j].position.x == d);
    } else if wi == 0 {
        assert(after[i].position.x - after[j].position.x == b * -1 + d);
        lemma_mod_multiples_vanish(-1, d, b);
    } else {
        assert(after[i].position.x - after[j].position.x == b * 1 + d);
        lemma_mod_multiples_vanish(1, d, b);
    }
}

/// `states` is a run of frames of the pipes: each state is the one before
/// it scrolled by `dts[k]` with offset `offsets[k]`.
pub open spec fn scroll_run(gm: GameManager, dts: Seq<int>, offsets: Seq<int>, states: Seq<Seq<Pipe>>) -> bool {
    &&& states.len() == dts.len() + 1
    &&& offsets.len() == dts.len()
    &&& forall|k: int|
        0 < k < states.len() ==> scrolled_all(gm, dts[k - 1], offsets[k - 1], states[k - 1], #[trigger] states[k])
}

/// A run of frames keeps the number of pipes.
pub proof fn lemma_run_keeps_length(gm: GameManager, dts: Seq<int>, offsets: Seq<int>, states: Seq<Seq<Pipe>>, n: int)
    requires
        scroll_run(gm, dts, offsets, states),
        0 <= n < states.len(),
    ensures
        states[n].len() == states[0].len(),
    decreases n,
{
    if n > 0 {
        lemma_run_keeps_length(gm, dts, offsets, states, n - 1);
        assert(scrolled_all(gm, dts[n - 1], offsets[n - 1], states[n - 1], states[n]));
    }
}

/// Over any number of frames, and so of wraps, the horizontal distance
/// between any two pipes, counted modulo the band width, stays what it was.
pub proof fn lemma_run_keeps_spacing(
    gm: GameManager,
    dts: Seq<int>,
    offsets: Seq<int>,
    states: Seq<Seq<Pipe>>,
    n: int,
    i: int,
    j: int,
)
    requires
        scroll_run(gm, dts, offsets, states),
        0 <= n < states.len(),
        0 <= i < states[0].len(),
        0 <= j < states[0].len(),
    ensures
        states[n].len() == states[0].len(),
        (states[n][i].position.x - states[n][j].position.x) % band_width()
            == (states[0][i].position.x - states[0][j].position.x) % band_width(),
    decreases n,
{
    if n > 0 {
        lemma_run_keeps_spacing(gm, dts, offsets, states, n - 1, i, j);
        assert(scrolled_all(gm, dts[n - 1], offsets[n - 1], states[n - 1], states[n]));
        lemma_scroll_keeps_spacing(gm, dts[n - 1], offsets[n - 1], states[n - 1], states[n], i, j);
    }
}

/// Two spawns give the same pipes exactly when they drew the same offsets:
/// a spawn is determined by its draws, and its draws can be read back from it.
pub proof fn lemma_layout_determined_by_offsets(
    gm: GameManager,
    offsets1: Seq<i64>,
    pipes1: Seq<Pipe>,
    offsets2: Seq<i64>,
    pipes2: Seq<Pipe>,
)
    requires
        is_pair_layout(gm, offsets1, pipes1),
        is_pair_layout(gm, offsets2, pipes2),
    ensures
        (pipes1 == pipes2) <==> (offsets1 == offsets2),
{
    if offsets1 == offsets2 {
        assert forall|k: int| 0 <= k < pipes1.len() implies pipes1[k] == pipes2[k] by {
            let i = k / 2;
            assert(offsets1[i] == offsets2[i]);
            assert(pair_at(gm, i, offsets1[i] as int, pipes1[2 * i], pipes1[2 * i + 1]));
            assert(pair_at(gm, i, offsets2[i] as int, pipes2[2 * i], pipes2[2 * i + 1]));
        }
        assert(pipes1 =~= pipes2);
    }
    if pipes1 == pipes2 {
        assert forall|i: int| 0 <= i < offsets1.len() implies offsets1[i] == offsets2[i] by {
            assert(pair_at(gm, i, offsets1[i] as int, pipes1[2 * i], pipes1[2 * i + 1]));
            assert(pair_at(gm, i, offsets2[i] as int, pipes2[2 * i], pipes2[2 * i + 1]));
            assert(pipes1[2 * i].position.y == centered_gap_offset() + offsets1[i]);
        }
        assert(offsets1 =~= offsets2);
    }
}

/// The pairs of `pipes` are evenly spaced by `OBSTACLE_SPACING * PIXEL_RATIO`
/// modulo the band width: pipe `j` lies that far times the number of pairs
/// between them to the right of pipe `i`.
pub open spec fn evenly_spaced(pipes: Seq<Pipe>) -> bool {
    forall|i: int, j: int|
        0 <= i < pipes.len() && 0 <= j < pipes.len() ==> (#[trigger] pipes[j].position.x
            - #[trigger] pipes[i].position.x) % band_width() == ((j / 2 - i / 2) * OBSTACLE_SPACING
            * PIXEL_RATIO) % band_width()
}

/// Pipes that start evenly spaced stay evenly spaced over any number of frames.
pub proof fn lemma_run_stays_evenly_spaced(
    gm: GameManager,
    dts: Seq<int>,
    offsets: Seq<int>,
    states: Seq<Seq<Pipe>>,
    n: int,
)
    requires
        scroll_run(gm, dts, offsets, states),
        evenly_spaced(states[0]),
        0 <= n < states.len(),
    ensures
        evenly_spaced(states[n]),
{
    lemma_run_keeps_length(gm, dts, offsets, states, n);
    assert forall|i: int, j: int|
        0 <= i < states[n].len() && 0 <= j < states[n].len() implies (#[trigger] states[n][j].position.x
            - #[trigger] states[n][i].position.x) % band_width() == ((j / 2 - i / 2) * OBSTACLE_SPACING
            * PIXEL_RATIO) % band_width() by {
        lemma_run_keeps_spacing(gm, dts, offsets, states, n, j, i);
        assert((states[0][j].position.x - states[0][i].position.x) % band_width() == ((j / 2 - i
            / 2) * OBSTACLE_SPACING * PIXEL_RATIO) % band_width());
    }
}

/// Pair `i` of `pipes` is whole: its top and bottom pipes share one `x` and
/// sit `centered_gap_offset()` above and below a common offset.
pub open spec fn pair_intact(pipes: Seq<Pipe>, i: int) -> bool {
    let top = pipes[2 * i];
    let bottom = pipes[2 * i + 1];
    &&& top.obstacle.pipe_direction == 1
    &&& bottom.obstacle.pipe_direction == -1
    &&& top.position.x == bottom.position.x
    &&& top.position.y - centered_gap_offset() == bottom.position.y + centered_gap_offset()
}

/// Scrolling keeps every pair whole: both pipes of a pair wrap in the same
/// frame and take the same offset.
pub proof fn lemma_scroll_keeps_pairs(
    gm: GameManager,
    dt: int,
    offset: int,
    before: Seq<Pipe>,
    after: Seq<Pipe>,
    i: int,
)
    requires
        scrolled_all(gm, dt, offset, before, after),
        0 <= i,
        2 * i + 1 < before.len(),
        pair_intact(before, i),
    ensures
        pair_intact(after, i),
{
    assert(scrolled_to(gm, dt, offset, before[2 * i], after[2 * i]));
    assert(scrolled_to(gm, dt, offset, before[2 * i + 1], after[2 * i + 1]));
}

/// Every pair of a spawn is whole.
pub proof fn lemma_spawn_pairs_intact(gm: GameManager, offsets: Seq<i64>, pipes: Seq<Pipe>, i: int)
    requires
        is_pair_layout(gm, offsets, pipes),
        0 <= i < offsets.len(),
    ensures
        pair_intact(pipes, i),
{
    assert(pair_at(gm, i, offsets[i] as int, pipes[2 * i], pipes[2 * i + 1]));
}

} // verus!
