use pong::collision::handle_collisions;
use pong::geometry::{classify_side, closest_point, intersects, Aabb, Side, Vector2};
use pong::motion::integrate;

fn boxed(x: i64, y: i64, hx: i64, hy: i64) -> Aabb {
    Aabb::new(Vector2::new(x, y), Vector2::new(hx, hy))
}

#[test]
fn intersects_is_symmetric() {
    let boxes = [
        boxed(0, 0, 2, 2),
        boxed(4, 0, 2, 2),
        boxed(5, 0, 2, 2),
        boxed(-3, 7, 1, 6),
        boxed(0, 0, 0, 0),
        boxed(100, -100, 50, 50),
    ];
    for a in boxes.iter() {
        for b in boxes.iter() {
            assert_eq!(intersects(*a, *b), intersects(*b, *a));
        }
    }
}

#[test]
fn touching_edges_intersect() {
    assert!(intersects(boxed(0, 0, 2, 2), boxed(4, 0, 2, 2)));
    assert!(intersects(boxed(0, 0, 2, 2), boxed(4, 4, 2, 2)));
    assert!(!intersects(boxed(0, 0, 2, 2), boxed(5, 0, 2, 2)));
    assert!(!intersects(boxed(0, 0, 2, 2), boxed(0, -5, 2, 2)));
}

#[test]
fn disjoint_boxes_have_no_side() {
    assert_eq!(classify_side(boxed(0, 0, 2, 2), boxed(5, 0, 2, 2)), None);
    assert_eq!(classify_side(boxed(0, 10, 2, 2), boxed(0, 0, 2, 2)), None);
    assert_eq!(classify_side(boxed(-9, -9, 1, 1), boxed(9, 9, 3, 3)), None);
}

#[test]
fn closest_point_clamps_each_axis() {
    let b = boxed(10, 20, 5, 3);
    assert_eq!(closest_point(b, Vector2::new(0, 0)), Vector2::new(5, 17));
    assert_eq!(closest_point(b, Vector2::new(100, 21)), Vector2::new(15, 21));
    assert_eq!(closest_point(b, Vector2::new(12, 19)), Vector2::new(12, 19));
    assert_eq!(closest_point(b, Vector2::new(i64::MAX, i64::MIN)), Vector2::new(15, 17));
}

#[test]
fn classify_side_names_each_side() {
    let fixed = boxed(0, 0, 10, 10);
    assert_eq!(classify_side(boxed(-12, 0, 3, 3), fixed), Some(Side::Left));
    assert_eq!(classify_side(boxed(12, 1, 3, 3), fixed), Some(Side::Right));
    assert_eq!(classify_side(boxed(1, 12, 3, 3), fixed), Some(Side::Top));
    assert_eq!(classify_side(boxed(-1, -12, 3, 3), fixed), Some(Side::Bottom));
}

#[test]
fn classify_side_breaks_ties_vertically() {
    let fixed = boxed(0, 0, 10, 10);
    assert_eq!(classify_side(boxed(12, 12, 3, 3), fixed), Some(Side::Top));
    assert_eq!(classify_side(boxed(-12, -12, 3, 3), fixed), Some(Side::Bottom));
    assert_eq!(classify_side(boxed(0, 0, 3, 3), fixed), Some(Side::Bottom));
}

#[test]
fn integrate_scales_velocity() {
    assert_eq!(integrate(Vector2::new(1, 2), Vector2::new(-1, 1), 2), Vector2::new(-1, 4));
    assert_eq!(integrate(Vector2::new(7, -7), Vector2::new(0, 0), 5), Vector2::new(7, -7));
    assert_eq!(integrate(Vector2::new(0, 0), Vector2::new(3, -4), 1), Vector2::new(3, -4));
}

#[test]
fn ball_moving_right_into_paddle_reverses() {
    let ball = boxed(0, 0, 2, 2);
    let paddle = boxed(11, 0, 10, 25);
    let v = handle_collisions(ball, Vector2::new(3, 0), &vec![paddle]);
    assert_eq!(v, Vector2::new(-3, 0));
}

#[test]
fn ball_hitting_top_wall_from_below_reverses_vertically() {
    let ball = boxed(5, 278, 4, 4);
    let wall = boxed(0, 290, 400, 10);
    let v = handle_collisions(ball, Vector2::new(2, 7), &vec![wall]);
    assert_eq!(v, Vector2::new(2, -7));
}

#[test]
fn two_contacts_on_one_axis_cancel() {
    let ball = boxed(0, 0, 4, 4);
    let above = boxed(0, 10, 50, 7);
    let below = boxed(0, -10, 50, 7);
    let v = handle_collisions(ball, Vector2::new(2, 2), &vec![above, below]);
    assert_eq!(v, Vector2::new(2, 2));
    let v = handle_collisions(ball, Vector2::new(2, 2), &vec![above]);
    assert_eq!(v, Vector2::new(2, -2));
}

#[test]
fn no_obstacle_keeps_velocity() {
    let v = handle_collisions(boxed(0, 0, 4, 4), Vector2::new(-2, 2), &vec![]);
    assert_eq!(v, Vector2::new(-2, 2));
    let far = boxed(100, 100, 5, 5);
    let v = handle_collisions(boxed(0, 0, 4, 4), Vector2::new(-2, 2), &vec![far]);
    assert_eq!(v, Vector2::new(-2, 2));
}
