use flappy::bird::{Bird, FLOOR_Y, THRUST_VELOCITY};
use flappy::game::{score_gate, Game, InputEvent, MAX_POINTS};
use flappy::geometry::SUBPIXELS_PER_PIXEL;
use flappy::pipe::{Pipes, GAP_CENTER_MAX, GAP_CENTER_MIN};

const S: i64 = SUBPIXELS_PER_PIXEL;

/// A game with one pipe whose gap lets a bird at rest at its starting
/// height through, and no spawn due.
fn game_with_pipe_at(x_px: i64) -> Game {
    let mut g = Game::new();
    g.pipes = vec![Pipes::new(x_px * S, 300, 50)];
    g.pipes_spawn_tick = u64::MAX;
    g
}

#[test]
fn fresh_game_spawns_first_pipe_right_of_screen() {
    let mut g = Game::new();
    g.step(0);
    assert_eq!(g.pipes.len(), 1);
    assert_eq!(g.pipes[0].x, 900 * S);
    assert!(g.pipes[0].x > 800 * S);
    assert!(g.pipes[0].hole_y >= GAP_CENTER_MIN && g.pipes[0].hole_y < GAP_CENTER_MAX);
    assert_eq!(g.pipes[0].hole_height, 50);
    assert_eq!(g.pipes_spawn_tick, 30000);
    assert_eq!(g.tick_count, 1);
}

#[test]
fn drawn_gaps_stay_in_range() {
    for _ in 0..200 {
        let mut g = Game::new();
        g.step(0);
        assert!(g.pipes[0].hole_y >= 180 && g.pipes[0].hole_y < 420);
    }
}

#[test]
fn fall_matches_closed_form() {
    // one second of 1 ms frames, gap at the screen's center
    let mut g = Game::new();
    let y0 = g.bird.y;
    for _ in 0..1000 {
        g.step_with_gap(1000, 300);
    }
    assert!(!g.game_is_over);
    // exact discrete sum: 220 * dt^2 * n * (n + 1) / 2 sub-pixels
    assert_eq!(g.bird.y - y0, 220 * 1000 * 1000 * 1000 * 1001 / 2);
    let fallen_px = (g.bird.y - y0) as f64 / S as f64;
    assert!((fallen_px - 0.5 * 220.0 * 1.0 * 1.0).abs() < 0.2);
    assert_eq!(g.bird.velocity, 220 * 1000 * 1000);
}

#[test]
fn long_fall_is_clamped_to_floor() {
    let mut g = Game::new();
    for _ in 0..3000 {
        g.step_with_gap(1000, 300);
    }
    assert!(!g.game_is_over);
    assert_eq!(g.bird.y, FLOOR_Y);
}

#[test]
fn flap_at_first_tick_sets_thrust() {
    let mut g = Game::new();
    for _ in 0..100 {
        g.step_with_gap(10_000, 300);
    }
    assert!(g.bird.velocity > 0);
    assert!(g.handle_event(InputEvent::Flap));
    assert_eq!(g.bird.velocity, THRUST_VELOCITY);

    let mut fresh = Game::new();
    assert!(fresh.handle_event(InputEvent::Flap));
    assert_eq!(fresh.bird.velocity, -200_000_000);
}

#[test]
fn quit_stops_the_loop() {
    let mut g = Game::new();
    assert!(!g.handle_event(InputEvent::Quit));
    assert!(g.handle_event(InputEvent::Other));
}

#[test]
fn hitting_a_pipe_ends_the_game() {
    let mut g = game_with_pipe_at(70);
    g.bird.y = 0;
    g.step_with_gap(0, 300);
    assert!(g.game_is_over);
    let bird = g.bird;
    let pipes = g.pipes.clone();
    g.step_with_gap(1_000_000, 300);
    assert_eq!(g.bird, bird);
    assert_eq!(g.pipes, pipes);
    assert_eq!(g.tick_count, 2);
}

#[test]
fn flying_through_the_gap_scores_once() {
    let mut g = game_with_pipe_at(70);
    g.step_with_gap(0, 300);
    assert!(!g.game_is_over);
    assert!(g.bird_is_in_pipe);
    assert_eq!(g.points, 0);
    g.step_with_gap(0, 300);
    assert_eq!(g.points, 0);
    g.pipes[0].x = -100 * S;
    g.step_with_gap(0, 300);
    assert!(!g.bird_is_in_pipe);
    assert_eq!(g.points, 1);
    g.step_with_gap(0, 300);
    assert_eq!(g.points, 1);
}

#[test]
fn score_saturates_at_ceiling() {
    let mut inside = false;
    let mut points = 0u32;
    for _ in 0..10_000 {
        let (i, p) = score_gate(inside, points, true);
        let (i, p) = score_gate(i, p, false);
        inside = i;
        points = p;
        assert!(points <= MAX_POINTS);
    }
    assert_eq!(points, 999);
    assert_eq!(score_gate(true, 5, false), (false, 6));
    assert_eq!(score_gate(true, 5, true), (true, 5));
    assert_eq!(score_gate(false, 5, false), (false, 5));
}

#[test]
fn restart_after_game_over() {
    let mut g = game_with_pipe_at(70);
    g.points = 7;
    g.bird.y = 0;
    g.step_with_gap(0, 300);
    assert!(g.game_is_over);
    assert!(g.handle_event(InputEvent::Other));
    assert!(g.game_is_over);
    assert!(g.handle_event(InputEvent::Flap));
    assert!(!g.game_is_over);
    assert_eq!(g.points, 0);
    assert!(g.pipes.is_empty());
    assert!(!g.bird_is_in_pipe);
    assert_eq!(g.bird, Bird::new(g.tick_count));
    assert_eq!(g.bird.y, 268 * S);
    assert_eq!(g.bird.velocity, 0);
    assert_eq!(g.bird.angle, 0);
}

#[test]
fn expired_pipes_are_pruned_in_a_frame() {
    let mut g = game_with_pipe_at(-151);
    g.pipes.push(Pipes::new(200 * S, 300, 50));
    g.step_with_gap(0, 300);
    assert_eq!(g.pipes.len(), 1);
    assert_eq!(g.pipes[0].x, 200 * S);
}
