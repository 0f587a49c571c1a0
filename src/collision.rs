//! Ball collision response: each obstacle the ball touches reverses one
//! component of its velocity. Positions are not corrected.
use vstd::prelude::*;
use crate::geometry::{classify_side, contact_side, Aabb, Rect, Side, Vec2, Vector2};

verus! {

/// How many of `obstacles` the ball touches on a side of the given
/// orientation (left/right when `horizontal`, top/bottom otherwise).
pub open spec fn contact_count(ball: Rect, obstacles: Seq<Rect>, horizontal: bool) -> nat
    decreases obstacles.len(),
{
    if obstacles.len() == 0 {
        0
    } else {
        let rest = contact_count(ball, obstacles.drop_last(), horizontal);
        match contact_side(ball, obstacles.last()) {
            Some(side) => if side.is_horizontal() == horizontal {
                rest + 1
            } else {
                rest
            },
            None => rest,
        }
    }
}

/// `v` negated an odd number of times, or kept.
pub open spec fn flipped(v: int, times: nat) -> int {
    if times % 2 == 0 {
        v
    } else {
        -v
    }
}

/// The ball's velocity after it has met every obstacle.
pub open spec fn reflected(ball: Rect, velocity: Vec2, obstacles: Seq<Rect>) -> Vec2 {
    Vec2 {
        x: flipped(velocity.x, contact_count(ball, obstacles, true)),
        y: flipped(velocity.y, contact_count(ball, obstacles, false)),
    }
}

pub open spec fn all_wf(boxes: Seq<Rect>) -> bool {
    forall|i: int| 0 <= i < boxes.len() ==> (#[trigger] boxes[i]).wf()
}

/// Reverses the ball's horizontal velocity for each obstacle it touches on the
/// left or right, and its vertical velocity for each it touches on top or
/// bottom. Two contacts on one axis cancel out.
pub fn handle_collisions(ball: Aabb, velocity: Vector2, obstacles: &Vec<Aabb>) -> (r: Vector2)
    requires
        velocity.x > i64::MIN,
        velocity.y > i64::MIN,
        forall|i: int| 0 <= i < obstacles@.len() ==> (#[trigger] obstacles@[i])@.wf(),
    ensures
        r@ == reflected(ball@, velocity@, obstacles@.map_values(|b: Aabb| b@)),
{
    let ghost boxes = obstacles@.map_values(|b: Aabb| b@);
    let mut v = velocity;
    let mut i: usize = 0;
    while i < obstacles.len()
        invariant
            i <= obstacles@.len(),
            boxes == obstacles@.map_values(|b: Aabb| b@),
            forall|j: int| 0 <= j < obstacles@.len() ==> (#[trigger] obstacles@[j])@.wf(),
            v@ == reflected(ball@, velocity@, boxes.take(i as int)),
            v.x > i64::MIN,
            v.y > i64::MIN,
        decreases obstacles@.len() - i,
    {
        let side = classify_side(ball, obstacles[i]);
        proof {
            let prefix = boxes.take(i as int + 1);
            assert(prefix.drop_last() =~= boxes.take(i as int));
            assert(prefix.last() == obstacles@[i as int]@);
        }
        match side {
            Some(Side::Left) | Some(Side::Right) => {
                v = Vector2 { x: -v.x, y: v.y };
            },
            Some(Side::Top) | Some(Side::Bottom) => {
                v = Vector2 { x: v.x, y: -v.y };
            },
            None => {},
        }
        i = i + 1;
    }
    assert(boxes.take(obstacles@.len() as int) =~= boxes);
    v
}

/// A ball level with an obstacle whose left edge lies beyond the ball's
/// center, and which overlaps it, has its horizontal velocity reversed and its
/// vertical velocity kept.
pub proof fn lemma_head_on_reverses_horizontal(ball: Rect, velocity: Vec2, paddle: Rect)
    requires
        paddle.wf(),
        crate::geometry::rects_intersect(ball, paddle),
        ball.center.y == paddle.center.y,
        ball.center.x < paddle.center.x - paddle.half.x,
    ensures
        reflected(ball, velocity, seq![paddle]) == (Vec2 { x: -velocity.x, y: velocity.y }),
{
    let s = seq![paddle];
    assert(s.drop_last() =~= Seq::<Rect>::empty());
    assert(s.last() == paddle);
    assert(contact_count(ball, s.drop_last(), true) == 0);
    assert(contact_count(ball, s.drop_last(), false) == 0);
    assert(contact_side(ball, paddle) == Some(Side::Left));
}

/// A ball that overlaps a wall from below, within the wall's horizontal span,
/// has its vertical velocity reversed and its horizontal velocity kept.
pub proof fn lemma_wall_from_below_reverses_vertical(ball: Rect, velocity: Vec2, wall: Rect)
    requires
        wall.wf(),
        crate::geometry::rects_intersect(ball, wall),
        wall.center.x - wall.half.x <= ball.center.x <= wall.center.x + wall.half.x,
        ball.center.y < wall.center.y - wall.half.y,
    ensures
        reflected(ball, velocity, seq![wall]) == (Vec2 { x: velocity.x, y: -velocity.y }),
{
    let s = seq![wall];
    assert(s.drop_last() =~= Seq::<Rect>::empty());
    assert(s.last() == wall);
    assert(contact_count(ball, s.drop_last(), true) == 0);
    assert(contact_count(ball, s.drop_last(), false) == 0);
    assert(contact_side(ball, wall) == Some(Side::Bottom));
}

} // verus!
