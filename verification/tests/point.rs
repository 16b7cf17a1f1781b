use point_2d::Point;

#[test]
fn test_construct_decompose_round_trip() {
    let p = Point::new(3, -7);
    assert_eq!(p.as_array(), [3, -7]);
    assert_eq!(p.as_tuple(), (3, -7));

    let q = Point::new_from_array(&[3, -7]);
    assert!(p.equals(&q));
    assert_eq!(q.as_array(), [3, -7]);
}

#[test]
fn test_construct_from_slice_and_generator() {
    // A longer slice is allowed: only the first two elements are read.
    let p = Point::new_from_slice(&[9, -4, 77, 5]);
    assert_eq!(p.as_tuple(), (9, -4));

    let q = Point::gen(|i| (i as i64 + 1) * 10);
    assert_eq!(q.as_tuple(), (10, 20));
}

#[test]
fn test_equals_exact() {
    let a = Point::new(10, 150);
    let b = Point::new(10, 150);
    let c = Point::new(10, 151);
    assert!(a.equals(&b));
    assert!(!a.equals(&c));
    assert!(a == b);
    assert!(a != c);
}

#[test]
fn test_equals_within_tolerance() {
    let a = Point::new(100, -50);
    let b = Point::new(101, -51);
    // Raw values differ, but each coordinate difference is within tolerance.
    assert!(a.equals_within(&b, 1));
    assert!(a.equals_within(&b, 5));
    assert!(!a.equals_within(&b, 0));
    let c = Point::new(103, -50);
    assert!(!a.equals_within(&c, 2));
    assert!(a.equals_within(&c, 3));
}

#[test]
fn test_indexing() {
    let mut p = Point::new(53, 280);
    assert_eq!(p.val(0), 53);
    assert_eq!(p.val(1), 280);
    *p.val_mut(0) = 12;
    assert_eq!(p.as_tuple(), (12, 280));
    *p.val_mut(1) = -9;
    assert_eq!(p.as_tuple(), (12, -9));
}

#[test]
fn test_add_sub() {
    let a = Point::new(5, -2);
    let b = Point::new(3, 4);
    assert_eq!(a.add(&b).as_tuple(), (8, 2));
    // a.sub(b) is the vector from b to a.
    assert_eq!(a.sub(&b).as_tuple(), (2, -6));
    assert_eq!(b.sub(&a).as_tuple(), (-2, 6));
}

#[test]
fn test_kproduct_neg() {
    let p = Point::new(7, -3);
    assert_eq!(p.kproduct(4).as_tuple(), (28, -12));
    assert_eq!(p.kproduct(0).as_tuple(), (0, 0));
    assert_eq!(p.neg().as_tuple(), (-7, 3));
}

#[test]
fn test_dot_cross_product() {
    let a = Point::new(2, 3);
    let b = Point::new(4, -1);
    assert_eq!(a.dot_product(b), 5);
    assert_eq!(b.dot_product(a), 5);
    // Counter-clockwise turn from (1, 0) to (0, 1): positive.
    assert_eq!(Point::new(1, 0).cross_product(Point::new(0, 1)), 1);
    // Clockwise turn: negative.
    assert_eq!(Point::new(0, 1).cross_product(Point::new(1, 0)), -1);
    // Collinear vectors: zero.
    assert_eq!(Point::new(2, 3).cross_product(Point::new(4, 6)), 0);
}

#[test]
fn test_square_magnitude() {
    assert_eq!(Point::new(3, 4).square_magnitude(), 25);
    assert_eq!(Point::new(0, 0).square_magnitude(), 0);
    assert_eq!(Point::new(-3, -4).square_magnitude(), 25);
}

#[test]
fn test_square_distance_symmetry() {
    let a = Point::new(16, 10);
    let b = Point::new(28, 15);
    assert_eq!(a.square_distance(&b), 169);
    assert_eq!(b.square_distance(&a), 169);
    assert_eq!(a.square_distance(&a), 0);
}

#[test]
fn test_orientation() {
    let a = Point::new(0, 0);
    let b = Point::new(4, 4);

    // Collinear triple: exactly zero.
    let on_line = Point::new(2, 2);
    assert_eq!(on_line.orientation2d(a, b), 0);

    // Left of the directed line from a to b: counter-clockwise, positive.
    let left = Point::new(0, 4);
    assert_eq!(left.orientation2d(a, b), 16);

    // Right of it: clockwise, negative.
    let right = Point::new(4, 0);
    assert_eq!(right.orientation2d(a, b), -16);

    // Swapping the last two points of the triple flips the sign.
    assert_eq!(b.orientation2d(a, left), -16);
    assert_eq!(b.orientation2d(a, right), 16);
}

#[test]
fn test_orientation_matches_cross_of_differences() {
    let a = Point::new(19, 237);
    let b = Point::new(289, 404);
    let c = Point::new(357, 460);
    let ab = b.sub(&a);
    let ac = c.sub(&a);
    assert_eq!(c.orientation2d(a, b), i128::from(ab.cross_product(ac)));
}

#[test]
fn test_large_coordinates() {
    let big: i64 = 3_000_000_000;
    let p = Point::new(big, big);
    let q = Point::new(big - 3, big - 4);
    assert_eq!(p.square_distance(&q), 25);
    let a = Point::new(-big, -big);
    let b = Point::new(big, big);
    let c = Point::new(big, -big);
    assert_eq!(c.orientation2d(a, b), -4 * i128::from(big) * i128::from(big));
}
