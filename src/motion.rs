//! Fixed-step motion: a position advances by its velocity times a per-entity
//! speed scale each tick, independent of wall-clock time.
use vstd::prelude::*;
use crate::geometry::{Vec2, Vector2};

verus! {

pub open spec fn fits_i64(v: int) -> bool {
    i64::MIN <= v <= i64::MAX
}

/// `position + velocity * speed_scale`.
pub open spec fn advanced(position: Vec2, velocity: Vec2, speed_scale: int) -> Vec2 {
    Vec2 {
        x: position.x + velocity.x * speed_scale,
        y: position.y + velocity.y * speed_scale,
    }
}

pub open spec fn advance_fits(position: Vec2, velocity: Vec2, speed_scale: int) -> bool {
    let r = advanced(position, velocity, speed_scale);
    fits_i64(r.x) && fits_i64(r.y)
}

fn advance_wide(p: i64, v: i64, s: i64) -> (r: i128)
    ensures
        r == p + v * s,
{
    let vw = v as i128;
    let sw = s as i128;
    assert(-0x4000_0000_0000_0000_0000_0000_0000_0000 <= vw * sw
        <= 0x4000_0000_0000_0000_0000_0000_0000_0000) by (nonlinear_arith)
        requires
            -0x8000_0000_0000_0000 <= vw <= 0x7fff_ffff_ffff_ffff,
            -0x8000_0000_0000_0000 <= sw <= 0x7fff_ffff_ffff_ffff,
    ;
    p as i128 + vw * sw
}

fn advance_coordinate(p: i64, v: i64, s: i64) -> (r: i64)
    requires
        fits_i64(p + v * s),
    ensures
        r == p + v * s,
{
    advance_wide(p, v, s) as i64
}

/// Whether `position + velocity * speed_scale` fits in `i64` on both axes.
pub fn advance_in_range(position: Vector2, velocity: Vector2, speed_scale: i64) -> (r: bool)
    ensures
        r == advance_fits(position@, velocity@, speed_scale as int),
{
    let x = advance_wide(position.x, velocity.x, speed_scale);
    let y = advance_wide(position.y, velocity.y, speed_scale);
    i64::MIN as i128 <= x && x <= i64::MAX as i128 && i64::MIN as i128 <= y && y
        <= i64::MAX as i128
}

/// Advances `position` by `velocity * speed_scale`.
pub fn integrate(position: Vector2, velocity: Vector2, speed_scale: i64) -> (r: Vector2)
    requires
        advance_fits(position@, velocity@, speed_scale as int),
    ensures
        r@ == advanced(position@, velocity@, speed_scale as int),
{
    Vector2 {
        x: advance_coordinate(position.x, velocity.x, speed_scale),
        y: advance_coordinate(position.y, velocity.y, speed_scale),
    }
}

/// A body at rest stays where it is.
pub proof fn lemma_rest_stays(position: Vec2, speed_scale: int)
    ensures
        advanced(position, Vec2 { x: 0, y: 0 }, speed_scale) == position,
{
}

} // verus!
