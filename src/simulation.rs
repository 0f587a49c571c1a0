//! The simulation state and the fixed-order tick: input, movement, collision,
//! paddle confinement, goal detection with reset and score, opponent policy.
use vstd::prelude::*;
use crate::collision::{handle_collisions, reflected};
use crate::geometry::{Aabb, Rect, Vec2, Vector2};
use crate::motion::{advance_fits, advance_in_range, advanced, integrate};
use crate::opponent::{move_ai, tracking_velocity};
use crate::paddle::{
    axis_velocity, confined_height, constrain_paddle_position, handle_player_input,
    wall_in_range, InputAxis, COORD_LIMIT,
};
use crate::scoring::{
    detect_goal, event_of, goal_of, origin, reset_ball, serve_velocity, update_score, Score,
    ScoredEvent, Scorer, Tally,
};

verus! {

/// Half-extent of the ball on each axis.
pub const BALL_HALF_EXTENT: i64 = 4;

/// Scale applied to the ball's velocity each tick, and the magnitude of each
/// component of its serve.
pub const BALL_SPEED: i64 = 2;

pub const PADDLE_HALF_WIDTH: i64 = 10;

pub const PADDLE_HALF_HEIGHT: i64 = 25;

/// Vertical speed of a paddle under input or the opponent policy.
pub const PADDLE_SPEED: i64 = 5;

/// Distance from the playfield's side edge to a paddle's center.
pub const PADDLE_INSET: i64 = 20;

pub const WALL_HALF_HEIGHT: i64 = 10;

/// Distance from the playfield's top or bottom edge to a wall's center.
pub const WALL_INSET: i64 = 20;

/// What an entity is.
#[derive(Clone, Copy, Debug, PartialEq, Eq, Structural)]
pub enum Role {
    Ball,
    PlayerPaddle,
    OpponentPaddle,
    Wall,
}

/// A body of the simulation: where it is, how it moves and how large it is.
#[derive(Clone, Copy, Debug, PartialEq, Eq, Structural)]
pub struct Entity {
    pub role: Role,
    pub position: Vector2,
    pub velocity: Vector2,
    pub half_extent: Vector2,
}

/// The mathematical value of an [`Entity`], without its role.
pub struct Body {
    pub pos: Vec2,
    pub vel: Vec2,
    pub half: Vec2,
}

impl View for Entity {
    type V = Body;

    open spec fn view(&self) -> Body {
        Body { pos: self.position@, vel: self.velocity@, half: self.half_extent@ }
    }
}

impl Body {
    pub open spec fn rect(self) -> Rect {
        Rect { center: self.pos, half: self.half }
    }
}

impl Entity {
    /// The entity's collision box.
    pub fn aabb(&self) -> (r: Aabb)
        ensures
            r@ == self@.rect(),
    {
        Aabb { center: self.position, half_extent: self.half_extent }
    }
}

/// Half the playfield's width and height, from the window's size.
#[derive(Clone, Copy, Debug, PartialEq, Eq, Structural)]
pub struct Playfield {
    pub half_width: i64,
    pub half_height: i64,
}

/// A playfield that the simulation can use: wider than the ball, and within
/// the coordinate limit.
pub open spec fn playfield_ok(p: Playfield) -> bool {
    &&& BALL_HALF_EXTENT < p.half_width <= COORD_LIMIT
    &&& 0 <= p.half_height <= COORD_LIMIT
}

/// The state of one session.
pub struct Simulation {
    pub ball: Entity,
    pub player: Entity,
    pub opponent: Entity,
    pub walls: Vec<Entity>,
    pub score: Score,
    pub playfield: Playfield,
    pub ball_speed: i64,
    pub paddle_speed: i64,
}

/// The mathematical value of a [`Simulation`].
pub struct World {
    pub ball: Body,
    pub player: Body,
    pub opponent: Body,
    pub walls: Seq<Rect>,
    pub score: Tally,
    pub half_width: int,
    pub ball_speed: int,
    pub paddle_speed: int,
}

impl View for Simulation {
    type V = World;

    open spec fn view(&self) -> World {
        World {
            ball: self.ball@,
            player: self.player@,
            opponent: self.opponent@,
            walls: self.walls@.map_values(|e: Entity| e@.rect()),
            score: self.score@,
            half_width: self.playfield.half_width as int,
            ball_speed: self.ball_speed as int,
            paddle_speed: self.paddle_speed as int,
        }
    }
}

/// A paddle: positive extents, no taller than the coordinate limit.
pub open spec fn paddle_ok(e: Entity) -> bool {
    &&& e.half_extent.x > 0
    &&& 0 < e.half_extent.y <= COORD_LIMIT
}

/// A wall: positive extents within the coordinate limit, never moving.
pub open spec fn wall_ok(e: Entity) -> bool {
    &&& e.role == Role::Wall
    &&& wall_in_range(e@.rect())
    &&& e.half_extent.x > 0
    &&& e.half_extent.y > 0
    &&& e@.vel == origin()
}

impl Simulation {
    /// The session's invariant.
    pub open spec fn wf(&self) -> bool {
        &&& self.ball.role == Role::Ball
        &&& self.player.role == Role::PlayerPaddle
        &&& self.opponent.role == Role::OpponentPaddle
        &&& self.ball.half_extent.x >= 0
        &&& self.ball.half_extent.y >= 0
        &&& self.ball.velocity.x > i64::MIN
        &&& self.ball.velocity.y > i64::MIN
        &&& paddle_ok(self.player)
        &&& paddle_ok(self.opponent)
        &&& forall|i: int| 0 <= i < self.walls@.len() ==> wall_ok(#[trigger] self.walls@[i])
        &&& self.ball.half_extent.x < self.playfield.half_width
        &&& self.ball_speed > i64::MIN
        &&& self.paddle_speed > i64::MIN
    }

    /// The next tick's arithmetic stays within the machine's integers: moved
    /// positions fit, and either counter can take one more goal.
    pub open spec fn can_tick(&self, input: InputAxis) -> bool {
        let w = self@;
        &&& self.wf()
        &&& advance_fits(w.ball.pos, w.ball.vel, w.ball_speed)
        &&& advance_fits(w.player.pos, player_velocity(w, input), 1)
        &&& advance_fits(w.opponent.pos, w.opponent.vel, 1)
        &&& self.score.player < u64::MAX
        &&& self.score.opponent < u64::MAX
    }
}

/// The player paddle's velocity once the input is applied.
pub open spec fn player_velocity(w: World, input: InputAxis) -> Vec2 {
    Vec2 { x: w.player.vel.x, y: axis_velocity(input, w.paddle_speed) }
}

/// Everything the ball can bounce off: both paddles, then the walls.
pub open spec fn obstacles_of(player: Rect, opponent: Rect, walls: Seq<Rect>) -> Seq<Rect> {
    seq![player, opponent] + walls
}

/// One tick of the world under `input`: the world after it and the goal
/// scored in it, if any.
pub open spec fn tick_model(w: World, input: InputAxis) -> (World, Option<Scorer>) {
    let player_vel = player_velocity(w, input);
    let ball_pos = advanced(w.ball.pos, w.ball.vel, w.ball_speed);
    let player_pos = advanced(w.player.pos, player_vel, 1);
    let opponent_pos = advanced(w.opponent.pos, w.opponent.vel, 1);
    let ball_box = Rect { center: ball_pos, half: w.ball.half };
    let player_box = Rect { center: player_pos, half: w.player.half };
    let opponent_box = Rect { center: opponent_pos, half: w.opponent.half };
    let bounced = reflected(ball_box, w.ball.vel, obstacles_of(player_box, opponent_box, w.walls));
    let player_y = confined_height(player_box, w.walls);
    let opponent_y = confined_height(opponent_box, w.walls);
    let goal = goal_of(ball_box, w.half_width);
    let ball_after = match goal {
        Some(side) => Body { pos: origin(), vel: serve_velocity(side, w.ball_speed), half: w.ball.half },
        None => Body { pos: ball_pos, vel: bounced, half: w.ball.half },
    };
    let score = match goal {
        Some(side) => w.score.credited(side),
        None => w.score,
    };
    let opponent_vel = Vec2 {
        x: w.opponent.vel.x,
        y: tracking_velocity(ball_after.pos.y, opponent_y, w.paddle_speed),
    };
    (
        World {
            ball: ball_after,
            player: Body { pos: Vec2 { x: player_pos.x, y: player_y }, vel: player_vel, half: w.player.half },
            opponent: Body {
                pos: Vec2 { x: opponent_pos.x, y: opponent_y },
                vel: opponent_vel,
                half: w.opponent.half,
            },
            score,
            ..w
        },
        goal,
    )
}

impl Simulation {
    /// The walls' collision boxes, in order.
    pub fn wall_boxes(&self) -> (r: Vec<Aabb>)
        requires
            self.wf(),
        ensures
            r@.map_values(|b: Aabb| b@) == self@.walls,
            forall|i: int| 0 <= i < r@.len() ==> wall_in_range((#[trigger] r@[i])@),
    {
        let mut r: Vec<Aabb> = Vec::new();
        let mut i: usize = 0;
        while i < self.walls.len()
            invariant
                self.wf(),
                i <= self.walls@.len(),
                r@.len() == i,
                forall|j: int| 0 <= j < i ==> (#[trigger] r@[j])@ == self.walls@[j]@.rect(),
            decreases self.walls@.len() - i,
        {
            r.push(self.walls[i].aabb());
            i = i + 1;
        }
        assert forall|j: int| 0 <= j < r@.len() implies wall_in_range((#[trigger] r@[j])@) by {
            assert(wall_ok(self.walls@[j]));
        }
        assert(r@.map_values(|b: Aabb| b@) =~= self@.walls);
        r
    }

    /// Whether the next tick under `input` stays within the machine's
    /// integers, so that [`Simulation::tick`] may be called.
    pub fn ready_for(&self, input: InputAxis) -> (r: bool)
        requires
            self.wf(),
        ensures
            r == self.can_tick(input),
    {
        let player_velocity = Vector2 {
            x: self.player.velocity.x,
            y: handle_player_input(input, self.paddle_speed),
        };
        advance_in_range(self.ball.position, self.ball.velocity, self.ball_speed)
            && advance_in_range(self.player.position, player_velocity, 1)
            && advance_in_range(self.opponent.position, self.opponent.velocity, 1)
            && self.score.player < u64::MAX && self.score.opponent < u64::MAX
    }

    /// Advances the session by one tick under the player's `input` and
    /// returns the goal scored in it, if any.
    pub fn tick(&mut self, input: InputAxis) -> (r: Option<ScoredEvent>)
        requires
            old(self).can_tick(input),
        ensures
            final(self).wf(),
            final(self)@ == tick_model(old(self)@, input).0,
            r == event_of(tick_model(old(self)@, input).1),
            final(self).playfield == old(self).playfield,
            final(self).walls@ == old(self).walls@,
            old(self)@.score.le(final(self)@.score),
    {
        let ghost w = self@;
        let mut ball = self.ball;
        let mut player = self.player;
        let mut opponent = self.opponent;

        player.velocity.y = handle_player_input(input, self.paddle_speed);
        ball.position = integrate(ball.position, ball.velocity, self.ball_speed);
        player.position = integrate(player.position, player.velocity, 1);
        opponent.position = integrate(opponent.position, opponent.velocity, 1);

        let walls = self.wall_boxes();
        let mut obstacles: Vec<Aabb> = Vec::new();
        obstacles.push(player.aabb());
        obstacles.push(opponent.aabb());
        let mut i: usize = 0;
        while i < walls.len()
            invariant
                i <= walls@.len(),
                obstacles@.len() == i + 2,
                obstacles@[0]@ == player@.rect(),
                obstacles@[1]@ == opponent@.rect(),
                forall|j: int| 0 <= j < i ==> (#[trigger] obstacles@[j + 2]) == walls@[j],
            decreases walls@.len() - i,
        {
            obstacles.push(walls[i]);
            i = i + 1;
        }
        proof {
            let boxes = walls@.map_values(|b: Aabb| b@);
            assert(obstacles@.map_values(|b: Aabb| b@) =~= obstacles_of(
                player@.rect(),
                opponent@.rect(),
                boxes,
            )) by {
                assert forall|j: int| 2 <= j < obstacles@.len() implies obstacles@[j] == walls@[j - 2] by {
                    assert(obstacles@[(j - 2) + 2] == walls@[j - 2]);
                }
            }
            assert forall|j: int| 0 <= j < obstacles@.len() implies (#[trigger] obstacles@[j])@.wf() by {
                if j >= 2 {
                    assert(obstacles@[(j - 2) + 2] == walls@[j - 2]);
                    assert(wall_in_range(walls@[j - 2]@));
                }
            }
        }
        ball.velocity = handle_collisions(ball.aabb(), ball.velocity, &obstacles);

        player.position.y = constrain_paddle_position(player.aabb(), &walls);
        opponent.position.y = constrain_paddle_position(opponent.aabb(), &walls);

        let event = detect_goal(ball.aabb(), self.playfield.half_width);
        match event {
            Some(e) => {
                reset_ball(e, &mut ball.position, &mut ball.velocity, self.ball_speed);
                update_score(&mut self.score, e);
            },
            None => {},
        }

        opponent.velocity.y = move_ai(ball.position.y, opponent.position.y, self.paddle_speed);

        self.ball = ball;
        self.player = player;
        self.opponent = opponent;
        event
    }
}

/// The ball at the start of a session: at the center, served toward the
/// player and upward.
pub open spec fn initial_ball() -> Body {
    Body {
        pos: origin(),
        vel: Vec2 { x: -BALL_SPEED as int, y: BALL_SPEED as int },
        half: Vec2 { x: BALL_HALF_EXTENT as int, y: BALL_HALF_EXTENT as int },
    }
}

/// A paddle at rest, level with the center, `x` across.
pub open spec fn initial_paddle(x: int) -> Body {
    Body {
        pos: Vec2 { x, y: 0 },
        vel: origin(),
        half: Vec2 { x: PADDLE_HALF_WIDTH as int, y: PADDLE_HALF_HEIGHT as int },
    }
}

/// The two walls of a playfield, top then bottom: full width, inset from the
/// top and bottom edges.
pub open spec fn walls_for(p: Playfield) -> Seq<Rect> {
    let half = Vec2 { x: p.half_width as int, y: WALL_HALF_HEIGHT as int };
    seq![
        Rect { center: Vec2 { x: 0, y: p.half_height - WALL_INSET }, half },
        Rect { center: Vec2 { x: 0, y: -p.half_height + WALL_INSET }, half },
    ]
}

/// The ball as a session starts.
pub fn spawn_ball() -> (r: Entity)
    ensures
        r.role == Role::Ball,
        r@ == initial_ball(),
{
    Entity {
        role: Role::Ball,
        position: Vector2 { x: 0, y: 0 },
        velocity: Vector2 { x: -BALL_SPEED, y: BALL_SPEED },
        half_extent: Vector2 { x: BALL_HALF_EXTENT, y: BALL_HALF_EXTENT },
    }
}

/// The player's paddle near the left edge and the opponent's near the right
/// edge, both at rest and level with the center.
pub fn spawn_paddles(playfield: Playfield) -> (r: (Entity, Entity))
    requires
        playfield_ok(playfield),
    ensures
        r.0.role == Role::PlayerPaddle,
        r.1.role == Role::OpponentPaddle,
        r.0@ == initial_paddle(-playfield.half_width + PADDLE_INSET),
        r.1@ == initial_paddle(playfield.half_width - PADDLE_INSET),
{
    let half_extent = Vector2 { x: PADDLE_HALF_WIDTH, y: PADDLE_HALF_HEIGHT };
    let player = Entity {
        role: Role::PlayerPaddle,
        position: Vector2 { x: -playfield.half_width + PADDLE_INSET, y: 0 },
        velocity: Vector2 { x: 0, y: 0 },
        half_extent,
    };
    let opponent = Entity {
        role: Role::OpponentPaddle,
        position: Vector2 { x: playfield.half_width - PADDLE_INSET, y: 0 },
        velocity: Vector2 { x: 0, y: 0 },
        half_extent,
    };
    (player, opponent)
}

/// The top and bottom walls of a playfield.
pub fn spawn_gutters(playfield: Playfield) -> (r: Vec<Entity>)
    requires
        playfield_ok(playfield),
    ensures
        r@.map_values(|e: Entity| e@.rect()) == walls_for(playfield),
        forall|i: int| 0 <= i < r@.len() ==> wall_ok(#[trigger] r@[i]),
{
    let half_extent = Vector2 { x: playfield.half_width, y: WALL_HALF_HEIGHT };
    let top = Entity {
        role: Role::Wall,
        position: Vector2 { x: 0, y: playfield.half_height - WALL_INSET },
        velocity: Vector2 { x: 0, y: 0 },
        half_extent,
    };
    let bottom = Entity {
        role: Role::Wall,
        position: Vector2 { x: 0, y: -playfield.half_height + WALL_INSET },
        velocity: Vector2 { x: 0, y: 0 },
        half_extent,
    };
    let r = vec![top, bottom];
    assert(r@.map_values(|e: Entity| e@.rect()) =~= walls_for(playfield));
    r
}

impl Simulation {
    /// A new session on `playfield`: ball, paddles and walls in their starting
    /// places, and no goals yet.
    pub fn new(playfield: Playfield) -> (r: Simulation)
        requires
            playfield_ok(playfield),
        ensures
            r.wf(),
            r.playfield == playfield,
            r@.ball == initial_ball(),
            r@.player == initial_paddle(-playfield.half_width + PADDLE_INSET),
            r@.opponent == initial_paddle(playfield.half_width - PADDLE_INSET),
            r@.walls == walls_for(playfield),
            r@.score == (Tally { player: 0, opponent: 0 }),
            r.ball_speed == BALL_SPEED,
            r.paddle_speed == PADDLE_SPEED,
    {
        let (player, opponent) = spawn_paddles(playfield);
        Simulation {
            ball: spawn_ball(),
            player,
            opponent,
            walls: spawn_gutters(playfield),
            score: Score::new(),
            playfield,
            ball_speed: BALL_SPEED,
            paddle_speed: PADDLE_SPEED,
        }
    }

    /// Takes a new playfield size: the walls and the goal lines follow it;
    /// bodies stay where they are.
    pub fn set_playfield(&mut self, playfield: Playfield)
        requires
            old(self).wf(),
            playfield_ok(playfield),
            old(self).ball.half_extent.x < playfield.half_width,
        ensures
            final(self).wf(),
            final(self).playfield == playfield,
            final(self)@ == (World {
                walls: walls_for(playfield),
                half_width: playfield.half_width as int,
                ..old(self)@
            }),
    {
        self.walls = spawn_gutters(playfield);
        self.playfield = playfield;
    }
}

/// The world after one tick for each input in turn.
pub open spec fn ticks(w: World, inputs: Seq<InputAxis>) -> World
    decreases inputs.len(),
{
    if inputs.len() == 0 {
        w
    } else {
        tick_model(ticks(w, inputs.drop_last()), inputs.last()).0
    }
}

/// A ball that has wholly left the playfield past the right edge scores once
/// for the player: one goal more for the player, none for the opponent, and
/// the ball back at the center served toward the player and upward.
pub proof fn lemma_player_goal(w: World, input: InputAxis)
    requires
        advanced(w.ball.pos, w.ball.vel, w.ball_speed).x - w.ball.half.x > w.half_width,
    ensures
        tick_model(w, input).1 == Some(Scorer::Player),
        tick_model(w, input).0.score.player == w.score.player + 1,
        tick_model(w, input).0.score.opponent == w.score.opponent,
        tick_model(w, input).0.ball.pos == origin(),
        tick_model(w, input).0.ball.vel == (Vec2 { x: -w.ball_speed, y: w.ball_speed }),
{
}

/// A ball that has wholly left the playfield past the left edge scores once
/// for the opponent, and is served back toward the opponent and upward.
pub proof fn lemma_opponent_goal(w: World, input: InputAxis)
    requires
        advanced(w.ball.pos, w.ball.vel, w.ball_speed).x + w.ball.half.x < -w.half_width,
        w.ball.half.x >= 0,
        w.half_width >= 0,
    ensures
        tick_model(w, input).1 == Some(Scorer::Opponent),
        tick_model(w, input).0.score.player == w.score.player,
        tick_model(w, input).0.score.opponent == w.score.opponent + 1,
        tick_model(w, input).0.ball.pos == origin(),
        tick_model(w, input).0.ball.vel == (Vec2 { x: w.ball_speed, y: w.ball_speed }),
{
}

/// Neither side's score ever goes down, over any sequence of ticks.
pub proof fn lemma_score_never_decreases(w: World, inputs: Seq<InputAxis>)
    ensures
        w.score.le(ticks(w, inputs).score),
    decreases inputs.len(),
{
    if inputs.len() > 0 {
        lemma_score_never_decreases(w, inputs.drop_last());
    }
}

/// After every tick the opponent's vertical velocity is the paddle speed
/// toward the ball's height: up when the ball is higher, down when lower, and
/// zero when level.
pub proof fn lemma_opponent_tracks_ball(w: World, input: InputAxis)
    ensures
        ({
            let next = tick_model(w, input).0;
            &&& next.ball.pos.y > next.opponent.pos.y ==> next.opponent.vel.y == w.paddle_speed
            &&& next.ball.pos.y < next.opponent.pos.y ==> next.opponent.vel.y == -w.paddle_speed
            &&& next.ball.pos.y == next.opponent.pos.y ==> next.opponent.vel.y == 0
        }),
{
}

/// A world with nothing set to move: the ball still, inside the playfield and
/// level with a still opponent, and both paddles where the walls leave them.
pub open spec fn at_rest(w: World) -> bool {
    &&& w.ball.vel == origin()
    &&& w.player.vel.x == 0
    &&& w.opponent.vel == origin()
    &&& w.ball.pos.y == w.opponent.pos.y
    &&& goal_of(w.ball.rect(), w.half_width) is None
    &&& confined_height(w.player.rect(), w.walls) == w.player.pos.y
    &&& confined_height(w.opponent.rect(), w.walls) == w.opponent.pos.y
}

/// With no input, a world at rest stays at rest and nothing in it moves, for
/// any number of ticks.
pub proof fn lemma_rest_is_kept(w: World, inputs: Seq<InputAxis>)
    requires
        at_rest(w),
        forall|i: int| 0 <= i < inputs.len() ==> inputs[i] == InputAxis::Neutral,
    ensures
        at_rest(ticks(w, inputs)),
        ticks(w, inputs).ball.pos == w.ball.pos,
        ticks(w, inputs).player.pos == w.player.pos,
        ticks(w, inputs).opponent.pos == w.opponent.pos,
    decreases inputs.len(),
{
    if inputs.len() > 0 {
        let before = inputs.drop_last();
        lemma_rest_is_kept(w, before);
        let v = ticks(w, before);
        crate::motion::lemma_rest_stays(v.ball.pos, v.ball_speed);
        crate::motion::lemma_rest_stays(v.player.pos, 1);
        crate::motion::lemma_rest_stays(v.opponent.pos, 1);
        assert(player_velocity(v, InputAxis::Neutral) == origin());
        assert(v.ball.rect() == (Rect { center: v.ball.pos, half: v.ball.half }));
        assert(v.player.rect() == (Rect { center: v.player.pos, half: v.player.half }));
        assert(v.opponent.rect() == (Rect { center: v.opponent.pos, half: v.opponent.half }));
    }
}

} // verus!
