use rocks::fixed::{isqrt, lerp};
use rocks::geometry::{CollisionShape, Pose, Rotation, Shape, Vec2};

fn circle(x: i64, y: i64, r: i64) -> Shape {
    Shape::Circle { center: Vec2::new(x, y), radius: r }
}

fn line(bx: i64, by: i64, dx: i64, dy: i64, w: i64) -> Shape {
    Shape::Line { base: Vec2::new(bx, by), delta: Vec2::new(dx, dy), width: w }
}

#[test]
fn circles_touching_and_apart() {
    let a = circle(0, 0, 1000);
    let b = circle(3000, 4000, 4000);
    let c = circle(3000, 4000, 3999);
    assert!(a.intersects(&b));
    assert!(!a.intersects(&c));
}

#[test]
fn circle_contact_is_symmetric() {
    let pairs = [
        (circle(0, 0, 1000), circle(3000, 4000, 1000)),
        (circle(-500, 20, 70), circle(400, -900, 2000)),
        (circle(7, 7, 0), circle(7, 7, 0)),
    ];
    for (a, b) in pairs.iter() {
        assert_eq!(a.intersects(b), b.intersects(a));
        assert_eq!(a.distance(b), b.distance(a));
    }
    let l = line(0, 0, 0, 10000, 1000);
    let c = circle(1500, 5000, 1000);
    assert_eq!(l.intersects(&c), c.intersects(&l));
    assert_eq!(l.distance(&c), c.distance(&l));
}

#[test]
fn circle_distance_is_gap_between_boundaries() {
    assert_eq!(circle(0, 0, 1000).distance(&circle(3000, 4000, 1000)), 3000);
    assert_eq!(circle(0, 0, 3000).distance(&circle(3000, 4000, 3000)), -1000);
}

#[test]
fn circle_beside_segment() {
    let l = line(0, 0, 0, 10000, 1000);
    assert!(l.intersects(&circle(1500, 5000, 1000)));
    assert!(!l.intersects(&circle(3500, 5000, 1000)));
}

#[test]
fn circle_beyond_segment_end_uses_nearer_end() {
    let l = line(0, 0, 0, 10000, 1000);
    assert!(l.intersects(&circle(0, 11500, 1000)));
    assert!(!l.intersects(&circle(0, 12500, 1000)));
    assert!(l.intersects(&circle(0, -2000, 1000)));
    assert!(!l.intersects(&circle(0, -2001, 1000)));
}

#[test]
fn circle_line_distance_and_point() {
    let l = line(0, 0, 0, 10000, 1000);
    let c = circle(0, 5000, 1000);
    assert_eq!(l.distance(&c), 3000);
    assert_eq!(l.collision_point(&c), Vec2::new(0, 3000));
}

#[test]
fn segment_meets_circle_boundary_by_pythagoras() {
    let l = line(0, 0, 10000, 0, 0);
    let c = circle(5000, 0, 1000);
    assert_eq!(l.distance(&c), 4000);
    assert_eq!(l.collision_point(&c), Vec2::new(4000, 0));
    let off_axis = circle(5000, 600, 1000);
    assert_eq!(l.distance(&off_axis), 4200);
    assert_eq!(l.collision_point(&off_axis), Vec2::new(4200, 0));
    let reversed = line(10000, 0, -10000, 0, 0);
    assert_eq!(reversed.collision_point(&c), Vec2::new(6000, 0));
}

#[test]
fn circle_line_centre_on_base_is_guarded() {
    let l = line(0, 0, 0, 10000, 1000);
    let c = circle(1500, 0, 1000);
    assert_eq!(l.distance(&c), 1322);
    assert_eq!(l.collision_point(&c), Vec2::new(0, 0));
}

#[test]
fn circle_collision_point_on_larger_circle() {
    let big = circle(0, 0, 2000);
    let small = circle(3000, 4000, 1000);
    assert_eq!(big.collision_point(&small), Vec2::new(1200, 1600));
    assert_eq!(small.collision_point(&big), Vec2::new(1200, 1600));
}

#[test]
fn coincident_circles_contact_at_centre() {
    let a = circle(500, 500, 2000);
    let b = circle(500, 500, 1000);
    assert_eq!(a.collision_point(&b), Vec2::new(500, 500));
}

#[test]
fn transformed_moves_turns_and_scales() {
    let pose = Pose {
        translation: Vec2::new(5000, -2000),
        rotation: Rotation { cos: 0, sin: 1000 },
        scale: 2000,
    };
    assert_eq!(circle(100, 0, 1000).transformed(&pose), circle(5100, -2000, 2000));
    assert_eq!(line(0, 0, 0, 10000, 500).transformed(&pose), line(5000, -2000, -10000, 0, 1000));
}

#[test]
fn collision_shapes_compare_in_world_space() {
    let a = CollisionShape::new(circle(0, 0, 1000), Pose::at(Vec2::new(0, 0)));
    let b = CollisionShape::new(circle(0, 0, 1000), Pose::at(Vec2::new(1500, 0)));
    let c = CollisionShape::new(circle(0, 0, 1000), Pose::at(Vec2::new(2500, 0)));
    assert!(a.intersects(&b));
    assert!(!a.intersects(&c));
    assert_eq!(a.distance(&c), 500);
    assert_eq!(a.global_shape(), circle(0, 0, 1000));
    assert_eq!(c.collision_point(&a), Vec2::new(1000, 0));
}

#[test]
fn integer_square_root_rounds_down() {
    assert_eq!(isqrt(0), 0);
    assert_eq!(isqrt(24), 4);
    assert_eq!(isqrt(25), 5);
    assert_eq!(isqrt(1 << 100), 1 << 50);
}

#[test]
fn lerp_clamps_position() {
    assert_eq!(lerp(0, 1000, 500), 500);
    assert_eq!(lerp(0, 1000, 2000), 1000);
    assert_eq!(lerp(0, 1000, -5), 0);
    assert_eq!(lerp(300, 50, 875), 81);
}
