//! The opponent's reactive policy: move toward the ball's height.
use vstd::prelude::*;

verus! {

/// `sign(ball_y - opponent_y) * paddle_speed`.
pub open spec fn tracking_velocity(ball_y: int, opponent_y: int, paddle_speed: int) -> int {
    if ball_y > opponent_y {
        paddle_speed
    } else if ball_y < opponent_y {
        -paddle_speed
    } else {
        0
    }
}

/// The opponent paddle's vertical velocity: full speed toward the ball's
/// height, or still when level with it.
pub fn move_ai(ball_y: i64, opponent_y: i64, paddle_speed: i64) -> (r: i64)
    requires
        paddle_speed > i64::MIN,
    ensures
        r == tracking_velocity(ball_y as int, opponent_y as int, paddle_speed as int),
{
    if ball_y > opponent_y {
        paddle_speed
    } else if ball_y < opponent_y {
        -paddle_speed
    } else {
        0
    }
}

} // verus!
