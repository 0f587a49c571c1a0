use pong::geometry::{Aabb, Vector2};
use pong::opponent::move_ai;
use pong::paddle::{constrain_paddle_position, handle_player_input, InputAxis};
use pong::scoring::{detect_goal, reset_ball, update_score, Score, ScoredEvent, Scorer};
use pong::simulation::{
    spawn_ball, spawn_gutters, spawn_paddles, Playfield, Role, Simulation, BALL_SPEED,
    PADDLE_SPEED,
};

fn field() -> Playfield {
    Playfield { half_width: 400, half_height: 300 }
}

#[test]
fn player_input_sets_paddle_velocity() {
    assert_eq!(handle_player_input(InputAxis::Up, 5), 5);
    assert_eq!(handle_player_input(InputAxis::Down, 5), -5);
    assert_eq!(handle_player_input(InputAxis::Neutral, 5), 0);
}

#[test]
fn paddle_against_top_wall_is_set_below_it() {
    let top = Aabb::new(Vector2::new(0, 280), Vector2::new(400, 10));
    let bottom = Aabb::new(Vector2::new(0, -280), Vector2::new(400, 10));
    let walls = vec![top, bottom];
    let paddle = Aabb::new(Vector2::new(-380, 250), Vector2::new(10, 25));
    assert_eq!(constrain_paddle_position(paddle, &walls), 245);
    let paddle = Aabb::new(Vector2::new(-380, -250), Vector2::new(10, 25));
    assert_eq!(constrain_paddle_position(paddle, &walls), -245);
    let paddle = Aabb::new(Vector2::new(-380, 100), Vector2::new(10, 25));
    assert_eq!(constrain_paddle_position(paddle, &walls), 100);
}

#[test]
fn paddle_driven_up_stays_at_wall() {
    let mut sim = Simulation::new(field());
    let top = sim.walls[0];
    let bound = top.position.y - top.half_extent.y - sim.player.half_extent.y;
    assert_eq!(bound, 245);
    for _ in 0..200 {
        sim.tick(InputAxis::Up);
        assert!(sim.player.position.y <= bound);
    }
    assert_eq!(sim.player.position.y, bound);
}

#[test]
fn paddle_driven_down_stays_at_wall() {
    let mut sim = Simulation::new(field());
    for _ in 0..200 {
        sim.tick(InputAxis::Down);
        assert!(sim.player.position.y >= -245);
    }
    assert_eq!(sim.player.position.y, -245);
}

#[test]
fn goal_past_right_edge_scores_for_player() {
    let ball = Aabb::new(Vector2::new(403, 0), Vector2::new(2, 2));
    assert_eq!(detect_goal(ball, 400), Some(ScoredEvent { side: Scorer::Player }));
    let ball = Aabb::new(Vector2::new(402, 0), Vector2::new(2, 2));
    assert_eq!(detect_goal(ball, 400), None);
}

#[test]
fn goal_past_left_edge_scores_for_opponent() {
    let ball = Aabb::new(Vector2::new(-403, 0), Vector2::new(2, 2));
    assert_eq!(detect_goal(ball, 400), Some(ScoredEvent { side: Scorer::Opponent }));
    let ball = Aabb::new(Vector2::new(-402, 5), Vector2::new(2, 2));
    assert_eq!(detect_goal(ball, 400), None);
}

#[test]
fn reset_serves_from_center() {
    let mut position = Vector2::new(410, 3);
    let mut velocity = Vector2::new(2, -2);
    reset_ball(ScoredEvent { side: Scorer::Player }, &mut position, &mut velocity, 2);
    assert_eq!(position, Vector2::new(0, 0));
    assert_eq!(velocity, Vector2::new(-2, 2));
    reset_ball(ScoredEvent { side: Scorer::Opponent }, &mut position, &mut velocity, 3);
    assert_eq!(position, Vector2::new(0, 0));
    assert_eq!(velocity, Vector2::new(3, 3));
}

#[test]
fn update_score_adds_one_to_scorer() {
    let mut score = Score::new();
    update_score(&mut score, ScoredEvent { side: Scorer::Player });
    assert_eq!(score, Score { player: 1, opponent: 0 });
    update_score(&mut score, ScoredEvent { side: Scorer::Opponent });
    update_score(&mut score, ScoredEvent { side: Scorer::Opponent });
    assert_eq!(score, Score { player: 1, opponent: 2 });
}

#[test]
fn tick_with_ball_past_right_edge_scores_once() {
    let mut sim = Simulation::new(field());
    sim.ball.position = Vector2::new(403, 0);
    sim.ball.velocity = Vector2::new(0, 0);
    sim.ball.half_extent = Vector2::new(2, 2);
    let event = sim.tick(InputAxis::Neutral);
    assert_eq!(event, Some(ScoredEvent { side: Scorer::Player }));
    assert_eq!(sim.score, Score { player: 1, opponent: 0 });
    assert_eq!(sim.ball.position, Vector2::new(0, 0));
    assert_eq!(sim.ball.velocity, Vector2::new(-BALL_SPEED, BALL_SPEED));
    let event = sim.tick(InputAxis::Neutral);
    assert_eq!(event, None);
    assert_eq!(sim.score, Score { player: 1, opponent: 0 });
}

#[test]
fn tick_with_ball_past_left_edge_scores_for_opponent() {
    let mut sim = Simulation::new(field());
    sim.ball.position = Vector2::new(-410, 20);
    sim.ball.velocity = Vector2::new(-1, 0);
    let event = sim.tick(InputAxis::Neutral);
    assert_eq!(event, Some(ScoredEvent { side: Scorer::Opponent }));
    assert_eq!(sim.score, Score { player: 0, opponent: 1 });
    assert_eq!(sim.ball.position, Vector2::new(0, 0));
    assert_eq!(sim.ball.velocity, Vector2::new(BALL_SPEED, BALL_SPEED));
}

#[test]
fn score_never_decreases_over_a_long_session() {
    let mut sim = Simulation::new(Playfield { half_width: 120, half_height: 90 });
    let inputs = [InputAxis::Up, InputAxis::Neutral, InputAxis::Down, InputAxis::Down];
    let mut goals: u64 = 0;
    for i in 0..5000usize {
        let before = sim.score;
        let event = sim.tick(inputs[i % inputs.len()]);
        assert!(sim.score.player >= before.player);
        assert!(sim.score.opponent >= before.opponent);
        let gained = (sim.score.player - before.player) + (sim.score.opponent - before.opponent);
        assert_eq!(gained, if event.is_some() { 1 } else { 0 });
        goals += gained;
    }
    assert_eq!(goals, sim.score.player + sim.score.opponent);
}

#[test]
fn opponent_moves_toward_ball() {
    assert_eq!(move_ai(10, 0, PADDLE_SPEED), PADDLE_SPEED);
    assert_eq!(move_ai(-10, 0, PADDLE_SPEED), -PADDLE_SPEED);
    assert_eq!(move_ai(7, 7, PADDLE_SPEED), 0);
}

#[test]
fn opponent_velocity_follows_ball_each_tick() {
    let mut sim = Simulation::new(field());
    for _ in 0..300 {
        sim.tick(InputAxis::Neutral);
        let expected = if sim.ball.position.y > sim.opponent.position.y {
            PADDLE_SPEED
        } else if sim.ball.position.y < sim.opponent.position.y {
            -PADDLE_SPEED
        } else {
            0
        };
        assert_eq!(sim.opponent.velocity.y, expected);
    }
}

#[test]
fn still_ball_and_no_input_move_nothing() {
    let mut sim = Simulation::new(field());
    sim.ball.velocity = Vector2::new(0, 0);
    let ball = sim.ball.position;
    let player = sim.player.position;
    let opponent = sim.opponent.position;
    for _ in 0..100 {
        assert_eq!(sim.tick(InputAxis::Neutral), None);
        assert_eq!(sim.ball.position, ball);
        assert_eq!(sim.player.position, player);
        assert_eq!(sim.opponent.position, opponent);
    }
    assert_eq!(sim.score, Score::new());
}

#[test]
fn new_session_layout() {
    let ball = spawn_ball();
    assert_eq!(ball.role, Role::Ball);
    assert_eq!(ball.position, Vector2::new(0, 0));
    assert_eq!(ball.velocity, Vector2::new(-BALL_SPEED, BALL_SPEED));
    let (player, opponent) = spawn_paddles(field());
    assert_eq!(player.position, Vector2::new(-380, 0));
    assert_eq!(opponent.position, Vector2::new(380, 0));
    assert_eq!(player.role, Role::PlayerPaddle);
    assert_eq!(opponent.role, Role::OpponentPaddle);
    let walls = spawn_gutters(field());
    assert_eq!(walls.len(), 2);
    assert_eq!(walls[0].position, Vector2::new(0, 280));
    assert_eq!(walls[1].position, Vector2::new(0, -280));
    assert_eq!(walls[0].half_extent, Vector2::new(400, 10));
    let sim = Simulation::new(field());
    assert_eq!(sim.score, Score { player: 0, opponent: 0 });
}

#[test]
fn resizing_moves_walls_and_goal_lines() {
    let mut sim = Simulation::new(field());
    sim.set_playfield(Playfield { half_width: 200, half_height: 100 });
    assert_eq!(sim.walls[0].position, Vector2::new(0, 80));
    assert_eq!(sim.walls[1].position, Vector2::new(0, -80));
    sim.ball.position = Vector2::new(205, 0);
    sim.ball.velocity = Vector2::new(0, 0);
    assert_eq!(sim.tick(InputAxis::Neutral), Some(ScoredEvent { side: Scorer::Player }));
}

#[test]
fn ball_bounces_off_top_wall_in_a_tick() {
    let mut sim = Simulation::new(field());
    sim.ball.position = Vector2::new(0, 260);
    sim.ball.velocity = Vector2::new(1, 4);
    sim.tick(InputAxis::Neutral);
    assert_eq!(sim.ball.position, Vector2::new(2, 268));
    assert_eq!(sim.ball.velocity, Vector2::new(1, -4));
}
