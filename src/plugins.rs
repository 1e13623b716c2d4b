use vstd::prelude::*;

use rand::rngs::StdRng;

use crate::components::{pipes_in_range, GameManager, Pipe, Position, World};
use crate::constants::MAX_FRAME_TIME;
use crate::systems::{bird_frame, scrolled_all, setup_level, spawned, update_bird, update_obstacles};
use crate::utils::valid_offset;

verus! {

/// The game loop's schedule: the level is set up once, then each frame runs
/// the bird's update and then the pipes' update.
#[derive(Clone, Copy, Debug, PartialEq, Eq, Structural)]
pub struct FlappyBirdPlugin;

impl FlappyBirdPlugin {
    /// Sets the level up: see `setup_level`.
    pub fn startup(&self, gm: &GameManager, rng: &mut StdRng) -> (r: World)
        requires
            gm.wf(),
        ensures
            r.bird.velocity == 0,
            r.bird_position == (Position { x: 0, y: 0 }),
            r.bird_tilt == 0,
            spawned(*gm, r.obstacles@),
            r.in_range(),
    {
        setup_level(gm, rng)
    }

    /// Runs one frame: the bird moves and may die (a death respawns the
    /// pipes), then the pipes scroll. Returns whether the bird died.
    pub fn frame(&self, world: &mut World, gm: &GameManager, rng: &mut StdRng, dt: i64, flap: bool) -> (dead: bool)
        requires
            gm.wf(),
            0 < dt <= MAX_FRAME_TIME,
            old(world).in_range(),
        ensures
            bird_frame(*gm, *old(world), *final(world), dt as int, flap, dead),
            exists|pipes: Seq<Pipe>, offset: int|
                {
                    &&& dead ==> spawned(*gm, pipes)
                    &&& !dead ==> pipes == old(world).obstacles@
                    &&& valid_offset(offset)
                    &&& #[trigger] scrolled_all(*gm, dt as int, offset, pipes, final(world).obstacles@)
                },
            pipes_in_range(final(world).obstacles@),
    {
        let dead = update_bird(world, gm, rng, dt, flap);
        let ghost pipes = world.obstacles@;
        update_obstacles(&mut world.obstacles, gm, rng, dt);
        let ghost offset = choose|o: int|
            valid_offset(o) && #[trigger] scrolled_all(*gm, dt as int, o, pipes, world.obstacles@);
        assert(scrolled_all(*gm, dt as int, offset, pipes, world.obstacles@));
        dead
    }
}

} // verus!
