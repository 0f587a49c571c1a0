//! Axis-aligned boxes on integer coordinates: overlap, closest point and the
//! side on which one box touches another.
use vstd::prelude::*;

verus! {

/// A pair of coordinates: a position, a velocity or a half-extent.
#[derive(Clone, Copy, Debug, PartialEq, Eq, Structural)]
pub struct Vector2 {
    pub x: i64,
    pub y: i64,
}

/// The mathematical value of a [`Vector2`].
pub struct Vec2 {
    pub x: int,
    pub y: int,
}

impl View for Vector2 {
    type V = Vec2;

    open spec fn view(&self) -> Vec2 {
        Vec2 { x: self.x as int, y: self.y as int }
    }
}

impl Vector2 {
    pub fn new(x: i64, y: i64) -> (r: Vector2)
        ensures
            r.x == x,
            r.y == y,
    {
        Vector2 { x, y }
    }
}

/// An axis-aligned bounding box given by its center and its half-extent.
#[derive(Clone, Copy, Debug, PartialEq, Eq, Structural)]
pub struct Aabb {
    pub center: Vector2,
    pub half_extent: Vector2,
}

/// The mathematical value of an [`Aabb`].
pub struct Rect {
    pub center: Vec2,
    pub half: Vec2,
}

impl View for Aabb {
    type V = Rect;

    open spec fn view(&self) -> Rect {
        Rect { center: self.center@, half: self.half_extent@ }
    }
}

impl Rect {
    /// Half-extents are never negative.
    pub open spec fn wf(self) -> bool {
        self.half.x >= 0 && self.half.y >= 0
    }
}

impl Aabb {
    pub fn new(center: Vector2, half_extent: Vector2) -> (r: Aabb)
        ensures
            r.center == center,
            r.half_extent == half_extent,
    {
        Aabb { center, half_extent }
    }
}

/// The side of a fixed box on which a moving box touches it.
#[derive(Clone, Copy, Debug, PartialEq, Eq, Structural)]
pub enum Side {
    Left,
    Right,
    Top,
    Bottom,
}

impl Side {
    /// Left and right contacts reverse horizontal motion.
    pub open spec fn is_horizontal(self) -> bool {
        self is Left || self is Right
    }
}

/// The intervals `[c1 - h1, c1 + h1]` and `[c2 - h2, c2 + h2]` share a point.
pub open spec fn spans_overlap(c1: int, h1: int, c2: int, h2: int) -> bool {
    c1 - h1 <= c2 + h2 && c2 - h2 <= c1 + h1
}

pub open spec fn rects_intersect(a: Rect, b: Rect) -> bool {
    spans_overlap(a.center.x, a.half.x, b.center.x, b.half.x) && spans_overlap(
        a.center.y,
        a.half.y,
        b.center.y,
        b.half.y,
    )
}

/// `p` clamped into `[c - h, c + h]`.
pub open spec fn clamp_into(p: int, c: int, h: int) -> int {
    if p < c - h {
        c - h
    } else if p > c + h {
        c + h
    } else {
        p
    }
}

pub open spec fn closest_on(b: Rect, p: Vec2) -> Vec2 {
    Vec2 { x: clamp_into(p.x, b.center.x, b.half.x), y: clamp_into(p.y, b.center.y, b.half.y) }
}

pub open spec fn abs(v: int) -> int {
    if v < 0 {
        -v
    } else {
        v
    }
}

/// The side named by the offset from the fixed box to the moving box's center:
/// horizontal only where the horizontal offset is strictly larger, and Top only
/// where the moving box lies strictly above.
pub open spec fn side_of_offset(dx: int, dy: int) -> Side {
    if abs(dx) > abs(dy) {
        if dx < 0 {
            Side::Left
        } else {
            Side::Right
        }
    } else if dy > 0 {
        Side::Top
    } else {
        Side::Bottom
    }
}

/// Where `moving` touches `fixed`, if it does.
pub open spec fn contact_side(moving: Rect, fixed: Rect) -> Option<Side> {
    if !rects_intersect(moving, fixed) {
        None
    } else {
        let c = closest_on(fixed, moving.center);
        Some(side_of_offset(moving.center.x - c.x, moving.center.y - c.y))
    }
}

/// True iff the two boxes overlap on both axes; touching edges count.
pub fn intersects(a: Aabb, b: Aabb) -> (r: bool)
    ensures
        r == rects_intersect(a@, b@),
{
    let ax = a.center.x as i128;
    let ay = a.center.y as i128;
    let ahx = a.half_extent.x as i128;
    let ahy = a.half_extent.y as i128;
    let bx = b.center.x as i128;
    let by = b.center.y as i128;
    let bhx = b.half_extent.x as i128;
    let bhy = b.half_extent.y as i128;
    ax - ahx <= bx + bhx && bx - bhx <= ax + ahx && ay - ahy <= by + bhy && by - bhy <= ay + ahy
}

fn clamp_coordinate(p: i64, c: i64, h: i64) -> (r: i64)
    requires
        h >= 0,
    ensures
        r == clamp_into(p as int, c as int, h as int),
{
    let lo = c as i128 - h as i128;
    let hi = c as i128 + h as i128;
    if (p as i128) < lo {
        lo as i64
    } else if (p as i128) > hi {
        hi as i64
    } else {
        p
    }
}

/// The point of `b` nearest to `point`: each coordinate clamped into the box.
pub fn closest_point(b: Aabb, point: Vector2) -> (r: Vector2)
    requires
        b@.wf(),
    ensures
        r@ == closest_on(b@, point@),
{
    Vector2 {
        x: clamp_coordinate(point.x, b.center.x, b.half_extent.x),
        y: clamp_coordinate(point.y, b.center.y, b.half_extent.y),
    }
}

fn abs_wide(v: i128) -> (r: i128)
    requires
        v > i128::MIN,
    ensures
        r == abs(v as int),
{
    if v < 0 {
        -v
    } else {
        v
    }
}

/// The side of `fixed` that `moving` touches, or `None` where they do not
/// overlap.
pub fn classify_side(moving: Aabb, fixed: Aabb) -> (r: Option<Side>)
    requires
        fixed@.wf(),
    ensures
        r == contact_side(moving@, fixed@),
{
    if !intersects(moving, fixed) {
        return None;
    }
    let closest = closest_point(fixed, moving.center);
    let dx = moving.center.x as i128 - closest.x as i128;
    let dy = moving.center.y as i128 - closest.y as i128;
    let side = if abs_wide(dx) > abs_wide(dy) {
        if dx < 0 {
            Side::Left
        } else {
            Side::Right
        }
    } else if dy > 0 {
        Side::Top
    } else {
        Side::Bottom
    };
    Some(side)
}

/// Overlap does not depend on the order of the two boxes.
pub proof fn lemma_intersects_symmetric(a: Rect, b: Rect)
    ensures
        rects_intersect(a, b) == rects_intersect(b, a),
{
}

/// Boxes that do not overlap have no contact side.
pub proof fn lemma_disjoint_no_side(moving: Rect, fixed: Rect)
    requires
        !rects_intersect(moving, fixed),
    ensures
        contact_side(moving, fixed) is None,
{
}

} // verus!
