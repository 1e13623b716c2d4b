use vstd::prelude::*;

use rand::rngs::StdRng;

use crate::components::{pipes_in_range, Bird, GameManager, Obstacle, Pipe, Position, World};
use crate::constants::{
    COORD_LIMIT, FLAP_FORCE, GRAVITY, MAX_FRAME_TIME, MAX_PAIRS, MICROPIXELS_PER_PIXEL,
    OBSTACLE_AMOUNT, OBSTACLE_HEIGHT, OBSTACLE_SCROLL_SPEED, OBSTACLE_SPACING, OBSTACLE_WIDTH,
    PIXEL_RATIO,
};
use crate::utils::{
    centered_gap_offset, generate_offset, get_centered_pipe_position, tilt_for, tilt_of,
    valid_offset,
};

verus! {

/// `|a - b|`.
pub open spec fn distance(a: int, b: int) -> int {
    if a >= b {
        a - b
    } else {
        b - a
    }
}

/// The bird's velocity after one frame of `dt` milliseconds: a flap sets it
/// to `FLAP_FORCE`, then gravity takes `GRAVITY * dt` from it.
pub open spec fn velocity_after(velocity: int, dt: int, flap: bool) -> int {
    (if flap {
        FLAP_FORCE as int
    } else {
        velocity
    }) - GRAVITY * dt
}

/// The bird's height after one frame: it moves by its new velocity for `dt`.
pub open spec fn height_after(y: int, velocity: int, dt: int, flap: bool) -> int {
    y + velocity_after(velocity, dt, flap) * dt
}

/// The point `(x, y)` lies strictly inside the scaled box of a pipe centred at `pipe`.
pub open spec fn overlaps(x: int, y: int, pipe: Position) -> bool {
    &&& 2 * distance(pipe.y as int, y) < OBSTACLE_HEIGHT * PIXEL_RATIO
    &&& 2 * distance(pipe.x as int, x) < OBSTACLE_WIDTH * PIXEL_RATIO
}

/// The point `(x, y)` lies inside some pipe of `pipes`.
pub open spec fn hits_any(x: int, y: int, pipes: Seq<Pipe>) -> bool {
    exists|i: int| 0 <= i < pipes.len() && overlaps(x, y, #[trigger] pipes[i].position)
}

/// The height `y` is at or below the bottom edge of the window.
pub open spec fn below_floor(gm: GameManager, y: int) -> bool {
    2 * y <= -gm.window_height
}

/// A bird at `(x, y)` dies: it fell to the floor or it touches a pipe.
pub open spec fn dies(gm: GameManager, x: int, y: int, pipes: Seq<Pipe>) -> bool {
    below_floor(gm, y) || hits_any(x, y, pipes)
}

/// Coordinates that the collision test accepts: those of a bird after one frame.
pub open spec fn near_range(v: int) -> bool {
    -4 * COORD_LIMIT <= v <= 4 * COORD_LIMIT
}

/// Whether the bird, taken as a point at `(x, y)`, is inside the pipe centred at `pipe`.
pub fn point_in_pipe(x: i64, y: i64, pipe: Position) -> (r: bool)
    requires
        near_range(x as int),
        near_range(y as int),
        pipe.in_range(),
    ensures
        r == overlaps(x as int, y as int, pipe),
{
    let half_height: i64 = OBSTACLE_HEIGHT * PIXEL_RATIO / 2;
    let half_width: i64 = OBSTACLE_WIDTH * PIXEL_RATIO / 2;
    let dy: i64 = pipe.y - y;
    let dx: i64 = pipe.x - x;
    dy < half_height && -dy < half_height && dx < half_width && -dx < half_width
}

/// Whether a bird at `(x, y)` dies against the window and the pipes.
pub fn is_dead(gm: &GameManager, x: i64, y: i64, pipes: &Vec<Pipe>) -> (r: bool)
    requires
        near_range(x as int),
        near_range(y as int),
        pipes_in_range(pipes@),
    ensures
        r == dies(*gm, x as int, y as int, pipes@),
{
    if 2 * (y as i128) <= -(gm.window_height as i128) {
        return true;
    }
    let mut i: usize = 0;
    while i < pipes.len()
        invariant
            i <= pipes.len(),
            near_range(x as int),
            near_range(y as int),
            pipes_in_range(pipes@),
            forall|j: int| 0 <= j < i ==> !overlaps(x as int, y as int, #[trigger] pipes@[j].position),
        decreases pipes.len() - i,
    {
        assert(pipes@[i as int].in_range());
        if point_in_pipe(x, y, pipes[i].position) {
            return true;
        }
        i = i + 1;
    }
    false
}

/// One frame of the bird, from `before` to `after`, with `dead` its outcome.
/// The new velocity and height follow `velocity_after` and `height_after`,
/// and the tilt follows the new velocity. The bird dies exactly when its new
/// position is at or below the floor or inside one of `before`'s pipes; a
/// dead bird is back at the origin at rest, a live one keeps its `x`.
pub open spec fn bird_frame(
    gm: GameManager,
    before: World,
    after: World,
    dt: int,
    flap: bool,
    dead: bool,
) -> bool {
    let velocity = velocity_after(before.bird.velocity as int, dt, flap);
    let y = height_after(before.bird_position.y as int, before.bird.velocity as int, dt, flap);
    &&& dead == dies(gm, before.bird_position.x as int, y, before.obstacles@)
    &&& after.bird_tilt == tilt_of(velocity)
    &&& dead ==> after.bird.velocity == 0 && after.bird_position == (Position { x: 0, y: 0 })
    &&& !dead ==> {
        &&& after.bird.velocity == velocity
        &&& after.bird_position.x == before.bird_position.x
        &&& after.bird_position.y == y
    }
}

/// One frame of the bird, without the pipes' respawn: see `bird_frame`.
/// Returns whether the bird died.
pub fn step_bird(world: &mut World, gm: &GameManager, dt: i64, flap: bool) -> (dead: bool)
    requires
        gm.wf(),
        0 < dt <= MAX_FRAME_TIME,
        old(world).in_range(),
    ensures
        bird_frame(*gm, *old(world), *final(world), dt as int, flap, dead),
        final(world).obstacles == old(world).obstacles,
{
    if flap {
        world.bird.velocity = FLAP_FORCE;
    }
    let v0 = world.bird.velocity;
    assert(-COORD_LIMIT <= v0 * dt <= COORD_LIMIT) by (nonlinear_arith)
        requires
            -0x100_0000_0000 <= v0 <= 0x100_0000_0000,
            0 < dt <= 8000,
    ;
    let velocity: i64 = v0 - dt * GRAVITY;
    assert(velocity * dt == v0 * dt - GRAVITY * dt * dt) by (nonlinear_arith)
        requires
            velocity == v0 - dt * GRAVITY,
    ;
    assert(0 <= GRAVITY * dt * dt <= 12_800_000_000) by (nonlinear_arith)
        requires
            0 < dt <= 8000,
    ;
    world.bird.velocity = velocity;
    let y: i64 = world.bird_position.y + velocity * dt;
    world.bird_position.y = y;
    world.bird_tilt = tilt_for(velocity);
    let dead = is_dead(gm, world.bird_position.x, y, &world.obstacles);
    if dead {
        world.bird_position = Position { x: 0, y: 0 };
        world.bird = Bird { velocity: 0 };
    }
    dead
}

/// Horizontal position of pair `i` at spawn: half the window width times the
/// pair spacing and the scale, the latter two read in whole pixels, times `i`.
pub open spec fn spawn_x(gm: GameManager, i: int) -> int {
    gm.window_width / 2 * (OBSTACLE_SPACING * PIXEL_RATIO / (MICROPIXELS_PER_PIXEL as int)) * i
}

/// `top` and `bottom` are pair `i` of a spawn with vertical offset `offset`:
/// both at `spawn_x(gm, i)`, the top pipe `centered_gap_offset()` above the
/// offset and the bottom pipe as far below it.
pub open spec fn pair_at(gm: GameManager, i: int, offset: int, top: Pipe, bottom: Pipe) -> bool {
    &&& top.obstacle.pipe_direction == 1
    &&& top.position.x == spawn_x(gm, i)
    &&& top.position.y == centered_gap_offset() + offset
    &&& bottom.obstacle.pipe_direction == -1
    &&& bottom.position.x == spawn_x(gm, i)
    &&& bottom.position.y == -centered_gap_offset() + offset
}

/// `pipes` holds one pair for each offset, in order, top pipe first.
pub open spec fn is_pair_layout(gm: GameManager, offsets: Seq<i64>, pipes: Seq<Pipe>) -> bool {
    &&& pipes.len() == 2 * offsets.len()
    &&& forall|i: int|
        #![trigger offsets[i]]
        0 <= i < offsets.len() ==> pair_at(gm, i, offsets[i] as int, pipes[2 * i], pipes[2 * i + 1])
}

/// Every offset is one that `generate_offset` may draw.
pub open spec fn valid_offsets(offsets: Seq<i64>) -> bool {
    forall|i: int| 0 <= i < offsets.len() ==> valid_offset(#[trigger] offsets[i] as int)
}

/// `pipes` is a spawn of `OBSTACLE_AMOUNT` pairs for some drawn offsets.
pub open spec fn spawned(gm: GameManager, pipes: Seq<Pipe>) -> bool {
    exists|offsets: Seq<i64>|
        {
            &&& offsets.len() == OBSTACLE_AMOUNT
            &&& valid_offsets(offsets)
            &&& #[trigger] is_pair_layout(gm, offsets, pipes)
        }
}

/// A pipe of the given direction centred at `translation`.
pub fn spawn_obstacle(translation: Position, pipe_direction: i64) -> (r: Pipe)
    ensures
        r == (Pipe { obstacle: Obstacle { pipe_direction }, position: translation }),
{
    Pipe { obstacle: Obstacle { pipe_direction }, position: translation }
}

/// The pipes of one pair per offset, laid out left to right.
pub fn layout_obstacles(gm: &GameManager, offsets: &Vec<i64>) -> (r: Vec<Pipe>)
    requires
        gm.wf(),
        offsets.len() <= MAX_PAIRS,
        valid_offsets(offsets@),
    ensures
        is_pair_layout(*gm, offsets@, r@),
        pipes_in_range(r@),
{
    let centre = get_centered_pipe_position();
    let stride: i64 = gm.window_width / 2 * (OBSTACLE_SPACING * PIXEL_RATIO / MICROPIXELS_PER_PIXEL);
    let mut pipes: Vec<Pipe> = Vec::new();
    let mut i: usize = 0;
    while i < offsets.len()
        invariant
            i <= offsets.len() <= MAX_PAIRS,
            gm.wf(),
            valid_offsets(offsets@),
            centre == centered_gap_offset(),
            stride == gm.window_width / 2 * (OBSTACLE_SPACING * PIXEL_RATIO / (MICROPIXELS_PER_PIXEL as int)),
            pipes.len() == 2 * i,
            pipes_in_range(pipes@),
            forall|k: int|
                #![trigger offsets@[k]]
                0 <= k < i ==> pair_at(*gm, k, offsets@[k] as int, pipes@[2 * k], pipes@[2 * k + 1]),
        decreases offsets.len() - i,
    {
        assert(0 <= stride * (i as int) <= 0x1000_0000_0000_0000) by (nonlinear_arith)
            requires
                0 <= stride <= 500_000_000_000 * 240,
                0 <= i <= 1000,
        ;
        let x: i64 = stride * (i as i64);
        let offset = offsets[i];
        assert(valid_offset(offsets@[i as int] as int));
        let ghost before = pipes@;
        pipes.push(spawn_obstacle(Position { x, y: centre + offset }, 1));
        pipes.push(spawn_obstacle(Position { x, y: -centre + offset }, -1));
        assert(pipes@ == before.push(pipes@[2 * i as int]).push(pipes@[2 * i + 1]));
        i = i + 1;
    }
    assert(offsets@.len() == i);
    pipes
}

/// Draws `OBSTACLE_AMOUNT` offsets, one per pair, and lays the pairs out.
pub fn spawn_obstacles(rng: &mut StdRng, gm: &GameManager) -> (r: Vec<Pipe>)
    requires
        gm.wf(),
    ensures
        spawned(*gm, r@),
        pipes_in_range(r@),
{
    let mut offsets: Vec<i64> = Vec::new();
    let mut i: usize = 0;
    while i < OBSTACLE_AMOUNT
        invariant
            i <= OBSTACLE_AMOUNT,
            offsets.len() == i,
            valid_offsets(offsets@),
        decreases OBSTACLE_AMOUNT - i,
    {
        let offset = generate_offset(rng);
        offsets.push(offset);
        i = i + 1;
    }
    let pipes = layout_obstacles(gm, &offsets);
    assert(is_pair_layout(*gm, offsets@, pipes@));
    pipes
}

/// Width of the band that the pairs span: a pipe that wraps moves right by it.
pub open spec fn band_width() -> int {
    OBSTACLE_AMOUNT * OBSTACLE_SPACING * PIXEL_RATIO
}

/// A pipe centred at `x` has left the screen entirely on the left.
pub open spec fn off_screen(gm: GameManager, x: int) -> bool {
    2 * x + OBSTACLE_WIDTH * PIXEL_RATIO < -gm.window_width
}

/// `after` is `before` one frame of `dt` later: it scrolls left by
/// `OBSTACLE_SCROLL_SPEED * dt`; if it has then left the screen, it moves
/// right by the band width and its height is reset around `offset`.
pub open spec fn scrolled_to(gm: GameManager, dt: int, offset: int, before: Pipe, after: Pipe) -> bool {
    let x = before.position.x - OBSTACLE_SCROLL_SPEED * dt;
    &&& after.obstacle == before.obstacle
    &&& if off_screen(gm, x) {
        &&& after.position.x == x + band_width()
        &&& after.position.y == centered_gap_offset() * before.obstacle.pipe_direction + offset
    } else {
        &&& after.position.x == x
        &&& after.position.y == before.position.y
    }
}

/// Each pipe of `after` is the pipe of `before` at the same index, scrolled.
pub open spec fn scrolled_all(
    gm: GameManager,
    dt: int,
    offset: int,
    before: Seq<Pipe>,
    after: Seq<Pipe>,
) -> bool {
    &&& after.len() == before.len()
    &&& forall|i: int| 0 <= i < before.len() ==> scrolled_to(gm, dt, offset, before[i], #[trigger] after[i])
}

/// Scrolls every pipe by one frame; the pipes that wrap take `offset`.
pub fn scroll_obstacles(obstacles: &mut Vec<Pipe>, gm: &GameManager, dt: i64, offset: i64)
    requires
        gm.wf(),
        0 < dt <= MAX_FRAME_TIME,
        pipes_in_range(old(obstacles)@),
        valid_offset(offset as int),
    ensures
        scrolled_all(*gm, dt as int, offset as int, old(obstacles)@, final(obstacles)@),
        pipes_in_range(final(obstacles)@),
{
    let centre = get_centered_pipe_position();
    let band: i64 = OBSTACLE_AMOUNT as i64 * OBSTACLE_SPACING * PIXEL_RATIO;
    let half_width: i64 = OBSTACLE_WIDTH * PIXEL_RATIO / 2;
    let ghost before = obstacles@;
    let mut i: usize = 0;
    while i < obstacles.len()
        invariant
            gm.wf(),
            0 < dt <= MAX_FRAME_TIME,
            valid_offset(offset as int),
            centre == centered_gap_offset(),
            band == band_width(),
            2 * half_width == OBSTACLE_WIDTH * PIXEL_RATIO,
            obstacles.len() == before.len(),
            i <= before.len(),
            pipes_in_range(before),
            pipes_in_range(obstacles@),
            forall|k: int| 0 <= k < i ==> scrolled_to(*gm, dt as int, offset as int, before[k], #[trigger] obstacles@[k]),
            forall|k: int| i <= k < before.len() ==> #[trigger] obstacles@[k] == before[k],
        decreases before.len() - i,
    {
        let pipe = obstacles[i];
        assert(pipe.in_range());
        let mut x: i64 = pipe.position.x - dt * OBSTACLE_SCROLL_SPEED;
        let mut y: i64 = pipe.position.y;
        if 2 * (x as i128) + 2 * (half_width as i128) < -(gm.window_width as i128) {
            x = x + band;
            y = centre * pipe.obstacle.pipe_direction + offset;
        }
        obstacles.set(i, Pipe { obstacle: pipe.obstacle, position: Position { x, y } });
        assert(obstacles@[i as int].in_range());
        i = i + 1;
    }
}

/// One frame of the pipes: one offset is drawn for the frame and every pipe
/// that wraps during it takes that same offset.
pub fn update_obstacles(obstacles: &mut Vec<Pipe>, gm: &GameManager, rng: &mut StdRng, dt: i64)
    requires
        gm.wf(),
        0 < dt <= MAX_FRAME_TIME,
        pipes_in_range(old(obstacles)@),
    ensures
        exists|offset: int|
            valid_offset(offset) && #[trigger] scrolled_all(
                *gm,
                dt as int,
                offset,
                old(obstacles)@,
                final(obstacles)@,
            ),
        pipes_in_range(final(obstacles)@),
{
    let offset = generate_offset(rng);
    scroll_obstacles(obstacles, gm, dt, offset);
    assert(scrolled_all(*gm, dt as int, offset as int, old(obstacles)@, obstacles@));
}

/// One frame of the bird (see `bird_frame`). When the bird dies, the pipes
/// are replaced by a fresh spawn; otherwise they stay as they were.
pub fn update_bird(world: &mut World, gm: &GameManager, rng: &mut StdRng, dt: i64, flap: bool) -> (dead: bool)
    requires
        gm.wf(),
        0 < dt <= MAX_FRAME_TIME,
        old(world).in_range(),
    ensures
        bird_frame(*gm, *old(world), *final(world), dt as int, flap, dead),
        dead ==> spawned(*gm, final(world).obstacles@),
        !dead ==> final(world).obstacles == old(world).obstacles,
        pipes_in_range(final(world).obstacles@),
{
    let dead = step_bird(world, gm, dt, flap);
    if dead {
        world.obstacles = spawn_obstacles(rng, gm);
    }
    dead
}

/// The world at startup: the bird at rest at the origin, level, and a fresh
/// spawn of pipes.
pub fn setup_level(gm: &GameManager, rng: &mut StdRng) -> (r: World)
    requires
        gm.wf(),
    ensures
        r.bird.velocity == 0,
        r.bird_position == (Position { x: 0, y: 0 }),
        r.bird_tilt == 0,
        spawned(*gm, r.obstacles@),
        r.in_range(),
{
    let obstacles = spawn_obstacles(rng, gm);
    World {
        bird: Bird { velocity: 0 },
        bird_position: Position { x: 0, y: 0 },
        bird_tilt: 0,
        obstacles,
    }
}

} // verus!
