//! The player's paddle control and the confinement of paddles between walls.
use vstd::prelude::*;
use crate::geometry::{classify_side, contact_side, Aabb, Rect, Side, Vec2, Vector2};

verus! {

/// The player's input for one tick.
#[derive(Clone, Copy, Debug, PartialEq, Eq, Structural)]
pub enum InputAxis {
    Up,
    Down,
    Neutral,
}

/// The paddle's vertical velocity for an input: up, down or still.
pub open spec fn axis_velocity(axis: InputAxis, paddle_speed: int) -> int {
    match axis {
        InputAxis::Up => paddle_speed,
        InputAxis::Down => -paddle_speed,
        InputAxis::Neutral => 0,
    }
}

/// Maps the input axis to the player paddle's vertical velocity.
pub fn handle_player_input(axis: InputAxis, paddle_speed: i64) -> (r: i64)
    requires
        paddle_speed > i64::MIN,
    ensures
        r == axis_velocity(axis, paddle_speed as int),
{
    match axis {
        InputAxis::Up => paddle_speed,
        InputAxis::Down => -paddle_speed,
        InputAxis::Neutral => 0,
    }
}

/// The paddle's box with its center moved to height `y`.
pub open spec fn at_height(paddle: Rect, y: int) -> Rect {
    Rect { center: Vec2 { x: paddle.center.x, y }, half: paddle.half }
}

/// The paddle's height after meeting one wall: set against the wall's top face
/// on a Top contact, against its bottom face on a Bottom contact, else kept.
pub open spec fn confined_by(paddle: Rect, wall: Rect) -> int {
    match contact_side(paddle, wall) {
        Some(Side::Top) => wall.center.y + wall.half.y + paddle.half.y,
        Some(Side::Bottom) => wall.center.y - wall.half.y - paddle.half.y,
        _ => paddle.center.y,
    }
}

/// The paddle's height after meeting each wall in turn.
pub open spec fn confined_height(paddle: Rect, walls: Seq<Rect>) -> int
    decreases walls.len(),
{
    if walls.len() == 0 {
        paddle.center.y
    } else {
        confined_by(at_height(paddle, confined_height(paddle, walls.drop_last())), walls.last())
    }
}

/// A limit on wall and paddle coordinates that keeps every height a
/// confinement can produce within `i64`.
pub const COORD_LIMIT: i64 = 0x1000_0000_0000_0000;

pub open spec fn within_limit(v: int) -> bool {
    -COORD_LIMIT <= v <= COORD_LIMIT
}

/// A wall that confinement can work with: non-negative extents, all within
/// the coordinate limit.
pub open spec fn wall_in_range(w: Rect) -> bool {
    &&& w.wf()
    &&& within_limit(w.center.y)
    &&& w.half.x <= COORD_LIMIT
    &&& w.half.y <= COORD_LIMIT
}

/// Sets the paddle's height against each wall it touches, in order, and
/// returns the final height. Contacts on a wall's left or right are ignored.
pub fn constrain_paddle_position(paddle: Aabb, walls: &Vec<Aabb>) -> (r: i64)
    requires
        paddle@.wf(),
        paddle.half_extent.y <= COORD_LIMIT,
        forall|i: int| 0 <= i < walls@.len() ==> wall_in_range((#[trigger] walls@[i])@),
    ensures
        r == confined_height(paddle@, walls@.map_values(|b: Aabb| b@)),
{
    let ghost boxes = walls@.map_values(|b: Aabb| b@);
    let mut y = paddle.center.y;
    let mut i: usize = 0;
    while i < walls.len()
        invariant
            i <= walls@.len(),
            boxes == walls@.map_values(|b: Aabb| b@),
            paddle@.wf(),
            paddle.half_extent.y <= COORD_LIMIT,
            forall|j: int| 0 <= j < walls@.len() ==> wall_in_range((#[trigger] walls@[j])@),
            y == confined_height(paddle@, boxes.take(i as int)),
        decreases walls@.len() - i,
    {
        let wall = walls[i];
        let moved = Aabb { center: Vector2 { x: paddle.center.x, y }, half_extent: paddle.half_extent };
        proof {
            let prefix = boxes.take(i as int + 1);
            assert(prefix.drop_last() =~= boxes.take(i as int));
            assert(prefix.last() == wall@);
            assert(wall_in_range(walls@[i as int]@));
            assert(moved@ == at_height(paddle@, y as int));
        }
        match classify_side(moved, wall) {
            Some(Side::Top) => {
                y = wall.center.y + wall.half_extent.y + paddle.half_extent.y;
            },
            Some(Side::Bottom) => {
                y = wall.center.y - wall.half_extent.y - paddle.half_extent.y;
            },
            _ => {},
        }
        i = i + 1;
    }
    assert(boxes.take(walls@.len() as int) =~= boxes);
    y
}

/// The height a paddle may reach below a wall: touching the wall's bottom face.
pub open spec fn below_bound(paddle: Rect, wall: Rect) -> int {
    wall.center.y - wall.half.y - paddle.half.y
}

/// Height after `n` ticks of upward motion by `speed` from height `y`, each
/// followed by confinement against `wall`.
pub open spec fn driven_up(paddle: Rect, wall: Rect, y: int, speed: int, n: nat) -> int
    decreases n,
{
    if n == 0 {
        y
    } else {
        confined_by(at_height(paddle, driven_up(paddle, wall, y, speed, (n - 1) as nat) + speed), wall)
    }
}

/// A paddle within a wall's horizontal span, at or below the wall, and moved
/// up by no more than its own half-height, ends at or below the wall's bottom
/// face, and exactly against it once it reaches the wall.
pub proof fn lemma_push_against_wall(paddle: Rect, wall: Rect, y: int, speed: int)
    requires
        paddle.wf(),
        wall.wf(),
        wall.center.x - wall.half.x <= paddle.center.x <= wall.center.x + wall.half.x,
        y <= below_bound(paddle, wall),
        0 <= speed <= paddle.half.y,
    ensures
        confined_by(at_height(paddle, y + speed), wall) <= below_bound(paddle, wall),
        y + speed >= below_bound(paddle, wall) ==> confined_by(at_height(paddle, y + speed), wall)
            == below_bound(paddle, wall),
{
}

/// Under any number of ticks of upward input a paddle below a wall never
/// passes the wall's bottom face, and once it has reached it, it stays there.
pub proof fn lemma_driven_up_is_clamped(paddle: Rect, wall: Rect, y: int, speed: int, n: nat)
    requires
        paddle.wf(),
        wall.wf(),
        wall.center.x - wall.half.x <= paddle.center.x <= wall.center.x + wall.half.x,
        y <= below_bound(paddle, wall),
        0 <= speed <= paddle.half.y,
    ensures
        driven_up(paddle, wall, y, speed, n) <= below_bound(paddle, wall),
        y == below_bound(paddle, wall) ==> driven_up(paddle, wall, y, speed, n) == below_bound(paddle, wall),
    decreases n,
{
    if n > 0 {
        let prev = driven_up(paddle, wall, y, speed, (n - 1) as nat);
        lemma_driven_up_is_clamped(paddle, wall, y, speed, (n - 1) as nat);
        lemma_push_against_wall(paddle, wall, prev, speed);
    }
}

} // verus!
