use flappy_bird::components::{Bird, GameManager, Obstacle, Pipe, Position, World};
use flappy_bird::constants::{
    FLAP_FORCE, GRAVITY, MAX_FRAME_TIME, MAX_TILT, OBSTACLE_AMOUNT, OBSTACLE_SCROLL_SPEED,
    OBSTACLE_VERTICAL_OFFSET, PIXEL_RATIO,
};
use flappy_bird::plugins::FlappyBirdPlugin;
use flappy_bird::systems::{
    is_dead, layout_obstacles, point_in_pipe, scroll_obstacles, setup_level, spawn_obstacle,
    spawn_obstacles, step_bird, update_bird, update_obstacles,
};
use flappy_bird::utils::{generate_offset, get_centered_pipe_position, scale_offset, tilt_for};
use rand::rngs::StdRng;
use rand::SeedableRng;

const PX: i64 = 1_000_000;

fn window(width_px: i64, height_px: i64) -> GameManager {
    GameManager { window_width: width_px * PX, window_height: height_px * PX }
}

fn bird_world(velocity: i64, y: i64, obstacles: Vec<Pipe>) -> World {
    World {
        bird: Bird { velocity },
        bird_position: Position { x: 0, y },
        bird_tilt: 0,
        obstacles,
    }
}

fn pipe(direction: i64, x: i64, y: i64) -> Pipe {
    Pipe { obstacle: Obstacle { pipe_direction: direction }, position: Position { x, y } }
}

#[test]
fn centered_gap_offset_is_half_pipe_plus_gap_scaled() {
    assert_eq!(get_centered_pipe_position(), 348 * PX);
    let pipes = layout_obstacles(&window(512, 512), &vec![0]);
    assert_eq!(pipes.len(), 2);
    assert_eq!(pipes[0], pipe(1, 0, 348 * PX));
    assert_eq!(pipes[1], pipe(-1, 0, -348 * PX));
}

#[test]
fn flap_then_gravity_scenario() {
    let gm = window(512, 512);
    let mut world = bird_world(0, 0, vec![]);
    let dead = step_bird(&mut world, &gm, 100, true);
    assert!(!dead);
    assert_eq!(world.bird.velocity, 80 * 1000);
    assert_eq!(world.bird_position.y, 8 * PX);
    assert_eq!(world.bird_tilt, 10_666);
}

#[test]
fn gravity_without_flap() {
    let gm = window(512, 512);
    let mut world = bird_world(50_000, 3 * PX, vec![]);
    let dead = step_bird(&mut world, &gm, 16, false);
    assert!(!dead);
    assert_eq!(world.bird.velocity, 50_000 - GRAVITY * 16);
    assert_eq!(world.bird_position.y, 3 * PX + (50_000 - GRAVITY * 16) * 16);
    assert_eq!(world.bird_position.x, 0);
}

#[test]
fn flap_ignores_previous_velocity() {
    let gm = window(512, 512);
    for start in [-500_000, 0, 30_000, 900_000] {
        let mut world = bird_world(start, 0, vec![]);
        let dead = step_bird(&mut world, &gm, 20, true);
        assert!(!dead);
        assert_eq!(world.bird.velocity, FLAP_FORCE - GRAVITY * 20);
        assert_eq!(world.bird_position.y, (FLAP_FORCE - GRAVITY * 20) * 20);
    }
}

#[test]
fn tilt_follows_velocity_within_bounds() {
    assert_eq!(tilt_for(0), 0);
    assert_eq!(tilt_for(75_000), 10_000);
    assert_eq!(tilt_for(-75_000), -10_000);
    assert_eq!(tilt_for(-1), -1);
    assert_eq!(tilt_for(674_999), 89_999);
    assert_eq!(tilt_for(7_500_000), MAX_TILT);
    assert_eq!(tilt_for(-7_500_000), -MAX_TILT);
    assert_eq!(tilt_for(i64::MAX), MAX_TILT);
    assert_eq!(tilt_for(i64::MIN), -MAX_TILT);
    let mut previous = tilt_for(-1_000_000);
    let mut v: i64 = -1_000_000;
    while v <= 1_000_000 {
        let t = tilt_for(v);
        assert!(t >= previous);
        assert!(-MAX_TILT <= t && t <= MAX_TILT);
        previous = t;
        v += 997;
    }
}

#[test]
fn bird_below_floor_dies() {
    let gm = window(512, 500);
    let far = vec![pipe(1, 100_000 * PX, 0), pipe(-1, 100_000 * PX, 0)];
    assert!(is_dead(&gm, 0, -300 * PX, &far));
    assert!(is_dead(&gm, 0, -250 * PX, &vec![]));
    assert!(!is_dead(&gm, 0, -250 * PX + 1, &vec![]));
    let mut world = bird_world(0, -300 * PX, far.clone());
    let dead = step_bird(&mut world, &gm, 16, false);
    assert!(dead);
    assert_eq!(world.bird.velocity, 0);
    assert_eq!(world.bird_position, Position { x: 0, y: 0 });
    assert_eq!(world.obstacles, far);
}

#[test]
fn point_collision_is_strict() {
    let half_width = 64 * PX;
    let half_height = 288 * PX;
    assert!(point_in_pipe(0, 0, Position { x: 0, y: 0 }));
    assert!(point_in_pipe(0, 0, Position { x: half_width - 1, y: half_height - 1 }));
    assert!(!point_in_pipe(0, 0, Position { x: half_width, y: 0 }));
    assert!(!point_in_pipe(0, 0, Position { x: 0, y: -half_height }));
    assert!(point_in_pipe(5, 7, Position { x: 5 - half_width + 1, y: 7 }));
}

#[test]
fn death_by_pipe_resets_bird_and_respawns_pairs() {
    let gm = window(512, 512);
    let mut rng = StdRng::seed_from_u64(11);
    let mut world = bird_world(0, 0, vec![pipe(1, 10 * PX, 0)]);
    world.bird_position.x = 3;
    let dead = update_bird(&mut world, &gm, &mut rng, 16, false);
    assert!(dead);
    assert_eq!(world.bird.velocity, 0);
    assert_eq!(world.bird_position, Position { x: 0, y: 0 });
    assert_eq!(world.obstacles.len(), 2 * OBSTACLE_AMOUNT);
    let centre = get_centered_pipe_position();
    for i in 0..OBSTACLE_AMOUNT {
        let top = world.obstacles[2 * i];
        let bottom = world.obstacles[2 * i + 1];
        assert_eq!(top.obstacle.pipe_direction, 1);
        assert_eq!(bottom.obstacle.pipe_direction, -1);
        assert_eq!(top.position.x, 256 * 240 * PX * i as i64);
        assert_eq!(bottom.position.x, top.position.x);
        assert_eq!(top.position.y - centre, bottom.position.y + centre);
    }
}

#[test]
fn survival_keeps_pipes() {
    let gm = window(512, 512);
    let mut rng = StdRng::seed_from_u64(3);
    let pipes = vec![pipe(1, 500 * PX, 400 * PX), pipe(-1, 500 * PX, -400 * PX)];
    let mut world = bird_world(0, 0, pipes.clone());
    let dead = update_bird(&mut world, &gm, &mut rng, 16, true);
    assert!(!dead);
    assert_eq!(world.obstacles, pipes);
}

#[test]
fn scroll_moves_left_and_wraps_by_band() {
    let gm = window(512, 512);
    let dt = 16;
    let step = OBSTACLE_SCROLL_SPEED * dt;
    let stays = pipe(1, 0, 5 * PX);
    // Right edge at -256 px after the step: not yet fully off screen.
    let edge = pipe(-1, -320 * PX + step, 9 * PX);
    // Right edge one micropixel left of the screen after the step.
    let leaves = pipe(-1, -320 * PX - 1 + step, 9 * PX);
    let mut pipes = vec![stays, edge, leaves];
    scroll_obstacles(&mut pipes, &gm, dt, 8);
    assert_eq!(pipes[0], pipe(1, -step, 5 * PX));
    assert_eq!(pipes[1], pipe(-1, -320 * PX, 9 * PX));
    assert_eq!(pipes[2], pipe(-1, -320 * PX - 1 + 1200 * PX, -348 * PX + 8));
}

#[test]
fn update_obstacles_shares_one_offset() {
    let gm = window(512, 512);
    let mut rng = StdRng::seed_from_u64(5);
    let mut pipes = vec![pipe(1, -400 * PX, 0), pipe(-1, -400 * PX, 0), pipe(1, 0, 1)];
    update_obstacles(&mut pipes, &gm, &mut rng, 10);
    let step = OBSTACLE_SCROLL_SPEED * 10;
    assert_eq!(pipes[0].position.x, -400 * PX - step + 1200 * PX);
    assert_eq!(pipes[1].position.x, -400 * PX - step + 1200 * PX);
    let offset = pipes[0].position.y - 348 * PX;
    assert_eq!(pipes[1].position.y, -348 * PX + offset);
    assert!(offset % PIXEL_RATIO == 0);
    assert_eq!(pipes[2], pipe(1, -step, 1));
}

#[test]
fn spacing_modulo_band_survives_many_frames() {
    let gm = window(512, 512);
    let band = 1200 * PX;
    let mut rng = StdRng::seed_from_u64(9);
    let mut pipes = spawn_obstacles(&mut rng, &gm);
    let spacing = 240 * PX;
    for frame in 0..20_000 {
        for i in 0..pipes.len() {
            for j in 0..pipes.len() {
                let d = (pipes[j].position.x - pipes[i].position.x).rem_euclid(band);
                let expected = ((j as i64 / 2 - i as i64 / 2) * spacing).rem_euclid(band);
                assert_eq!(d, expected, "frame {frame}");
            }
        }
        update_obstacles(&mut pipes, &gm, &mut rng, 17);
    }
}

#[test]
fn same_seed_gives_same_spawn() {
    let gm = window(512, 512);
    let mut first = StdRng::seed_from_u64(2024);
    let mut second = StdRng::seed_from_u64(2024);
    let a = spawn_obstacles(&mut first, &gm);
    let b = spawn_obstacles(&mut second, &gm);
    assert_eq!(a, b);
    assert_eq!(a.len(), 2 * OBSTACLE_AMOUNT);
}

#[test]
fn offsets_are_scaled_draws_in_range() {
    let mut rng = StdRng::seed_from_u64(1);
    let bound = OBSTACLE_VERTICAL_OFFSET * PIXEL_RATIO;
    let mut distinct = std::collections::BTreeSet::new();
    for _ in 0..1000 {
        let o = generate_offset(&mut rng);
        assert!(-bound <= o && o < bound);
        assert_eq!(o % PIXEL_RATIO, 0);
        distinct.insert(o);
    }
    assert!(distinct.len() > 900);
}

#[test]
fn layout_places_pairs_left_to_right() {
    let gm = window(100, 400);
    let pipes = layout_obstacles(&gm, &vec![-4, 0, 12]);
    assert_eq!(pipes.len(), 6);
    assert_eq!(pipes[2], pipe(1, 50 * 240 * PX, 348 * PX));
    assert_eq!(pipes[5], pipe(-1, 2 * 50 * 240 * PX, -348 * PX + 12));
    assert_eq!(pipes[0], spawn_obstacle(Position { x: 0, y: 348 * PX - 4 }, 1));
}

#[test]
fn setup_and_frames_through_the_plugin() {
    let gm = window(512, 512);
    let plugin = FlappyBirdPlugin;
    let mut rng = StdRng::seed_from_u64(42);
    let mut world = plugin.startup(&gm, &mut rng);
    assert_eq!(world.bird.velocity, 0);
    assert_eq!(world.bird_position, Position { x: 0, y: 0 });
    assert_eq!(world.obstacles.len(), 10);
    let level = setup_level(&gm, &mut StdRng::seed_from_u64(42));
    assert_eq!(level.obstacles, world.obstacles);
    world.obstacles = vec![pipe(1, 1000 * PX, 400 * PX), pipe(-1, 1000 * PX, -400 * PX)];
    let before = world.obstacles.clone();
    let dead = plugin.frame(&mut world, &gm, &mut rng, 16, true);
    assert!(!dead);
    assert_eq!(world.bird.velocity, FLAP_FORCE - GRAVITY * 16);
    for (old, new) in before.iter().zip(world.obstacles.iter()) {
        assert_eq!(new.position.x, old.position.x - OBSTACLE_SCROLL_SPEED * 16);
    }
    // Falling without flapping ends on the floor and resets the bird.
    let mut died = false;
    for _ in 0..400 {
        if plugin.frame(&mut world, &gm, &mut rng, 16, false) {
            died = true;
            break;
        }
    }
    assert!(died);
    assert_eq!(world.bird_position, Position { x: 0, y: 0 });
    assert_eq!(world.obstacles.len(), 10);
}

#[test]
fn offset_is_the_draw_scaled() {
    assert_eq!(scale_offset(0), 0);
    assert_eq!(scale_offset(7), 28);
    assert_eq!(scale_offset(-OBSTACLE_VERTICAL_OFFSET), -120 * PX);
    assert_eq!(scale_offset(OBSTACLE_VERTICAL_OFFSET - 1), 120 * PX - 4);
}

#[test]
fn longest_frame_moves_bird_and_wraps_pipes() {
    let gm = window(512, 512);
    assert_eq!(MAX_FRAME_TIME, 8_000);
    let mut world = bird_world(0, 50_000 * PX, vec![]);
    let dead = step_bird(&mut world, &gm, MAX_FRAME_TIME, true);
    assert!(!dead);
    let v = FLAP_FORCE - GRAVITY * MAX_FRAME_TIME;
    assert_eq!(world.bird.velocity, v);
    assert_eq!(world.bird_position.y, 50_000 * PX + v * MAX_FRAME_TIME);
    // A whole band in one frame: the wrapped pipe lands where it started.
    let mut pipes = vec![pipe(1, 0, 0)];
    scroll_obstacles(&mut pipes, &gm, MAX_FRAME_TIME, -4);
    assert_eq!(pipes[0], pipe(1, 0, 348 * PX - 4));
}
