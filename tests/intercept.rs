use angle::{Point, Ratio, Rectangle, Vector};

fn rect(x: i32, y: i32, width: i32, height: i32) -> Rectangle {
    Rectangle { x, y, width, height }
}

/// Whether `p` is the point `(x, y)`.
fn at(p: &Point, x: i128, y: i128) -> bool {
    p.denom > 0 && p.x == x * p.denom && p.y == y * p.denom
}

#[test]
fn square_at_angle_zero_meets_left_and_right() {
    let (start, end) = Vector { x: 1, y: 0 }.to_distance(&rect(-1, -1, 2, 2));
    assert!(at(&start, 1, 0));
    assert!(at(&end, -1, 0));
}

#[test]
fn square_at_right_angle_meets_top_and_bottom() {
    let (start, end) = Vector { x: 0, y: 1 }.to_distance(&rect(-1, -1, 2, 2));
    assert!(at(&start, 0, 1));
    assert!(at(&end, 0, -1));
}

#[test]
fn vector_length_does_not_matter() {
    let r = rect(-1, -1, 2, 2);
    let (s1, e1) = Vector { x: 0, y: 1 }.to_distance(&r);
    let (s2, e2) = Vector { x: 0, y: 1000 }.to_distance(&r);
    assert!(at(&s2, 0, 1) && at(&e2, 0, -1));
    assert_eq!(s1.x * s2.denom, s2.x * s1.denom);
    assert_eq!(e1.y * e2.denom, e2.y * e1.denom);
}

#[test]
fn center_of_rectangle() {
    let c = rect(10, 20, 7, 4).center();
    assert_eq!(c, Point { x: 27, y: 44, denom: 2 });
}

#[test]
fn distance_to_nearest_edge() {
    // A wide rectangle: the diagonal direction reaches the top edge first.
    let r = rect(0, 0, 8, 2);
    assert_eq!(Vector { x: 1, y: 1 }.distance_to_rect(&r), Ratio { num: 2, den: 2 });
    // A tall one: the left or right edge comes first.
    let r = rect(0, 0, 2, 8);
    assert_eq!(Vector { x: 1, y: 1 }.distance_to_rect(&r), Ratio { num: 2, den: 2 });
    assert_eq!(Vector { x: 3, y: -1 }.distance_to_rect(&r), Ratio { num: 2, den: 6 });
}

#[test]
fn axis_aligned_directions_never_divide_by_zero() {
    let r = rect(0, 0, 6, 4);
    assert_eq!(Vector { x: -5, y: 0 }.distance_to_rect(&r), Ratio { num: 6, den: 10 });
    assert_eq!(Vector { x: 0, y: -5 }.distance_to_rect(&r), Ratio { num: 4, den: 10 });
    let (start, end) = Vector { x: -5, y: 0 }.to_distance(&r);
    assert!(at(&start, 0, 2));
    assert!(at(&end, 6, 2));
}

#[test]
fn equal_distances_choose_top_and_bottom() {
    let r = rect(0, 0, 4, 4);
    assert_eq!(Vector { x: 1, y: -1 }.distance_to_rect(&r), Ratio { num: 4, den: 2 });
    let (start, end) = Vector { x: 1, y: -1 }.to_distance(&r);
    assert!(at(&start, 4, 0));
    assert!(at(&end, 0, 4));
}

#[test]
fn wide_rectangle_diagonal_hits_top_edge() {
    let (start, end) = Vector { x: 1, y: 1 }.to_distance(&rect(0, 0, 8, 2));
    // Center (4, 1); one unit along the diagonal reaches y = 2 and y = 0.
    assert!(at(&start, 5, 2));
    assert!(at(&end, 3, 0));
}

#[test]
fn intercepts_are_symmetric_and_collinear() {
    let r = rect(3, -7, 10, 6);
    let v = Vector { x: 4, y: 3 };
    let (start, end) = v.to_distance(&r);
    let c = r.center();
    assert_eq!(start.denom, end.denom);
    let (sx, sy) = (start.x * c.denom - c.x * start.denom, start.y * c.denom - c.y * start.denom);
    let (ex, ey) = (end.x * c.denom - c.x * end.denom, end.y * c.denom - c.y * end.denom);
    assert_eq!((sx, sy), (-ex, -ey));
    assert_eq!(sx * v.y as i128, sy * v.x as i128);
    assert!(sx * v.x as i128 + sy * v.y as i128 > 0);
}

#[test]
fn non_square_rectangle_point_lies_on_boundary() {
    let r = rect(3, -7, 10, 6);
    let (start, _) = Vector { x: 4, y: 3 }.to_distance(&r);
    // Center (8, -4); reach 6 / 6 along (4, 3) gives (12, -1), on the bottom edge.
    assert!(at(&start, 12, -1));
    let (start, end) = Vector { x: 1, y: 3 }.to_distance(&r);
    // The same reach along (1, 3) gives (9, -1), also on the bottom edge.
    assert!(at(&start, 9, -1));
    assert!(at(&end, 7, -7));
}

#[test]
fn empty_rectangle_gives_its_center_twice() {
    let r = rect(5, 5, 0, 0);
    let (start, end) = Vector { x: 2, y: 1 }.to_distance(&r);
    assert!(at(&start, 5, 5));
    assert!(at(&end, 5, 5));
}

#[test]
fn negative_size_is_measured_by_magnitude() {
    let (start, end) = Vector { x: 1, y: 0 }.to_distance(&rect(1, 1, -2, -2));
    assert!(at(&start, 1, 0));
    assert!(at(&end, -1, 0));
}

#[test]
fn extreme_values_do_not_overflow() {
    let r = rect(i32::MIN, i32::MIN, i32::MAX, i32::MAX);
    let v = Vector { x: i32::MIN, y: i32::MAX };
    let d = v.distance_to_rect(&r);
    assert_eq!(d, Ratio { num: i32::MAX as i64, den: 2 * (1i64 << 31) });
    let (start, end) = v.to_distance(&r);
    let c = r.center();
    assert_eq!(start.x + end.x, 2 * c.x * (start.denom / 2));
}
