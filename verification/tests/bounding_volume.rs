use collision_core::bounding_volume::AABB;
use collision_core::isometry::{Isometry, Rotation};
use collision_core::shape::{Ball, Segment, Shape};
use collision_core::vec3::vec3;

#[test]
fn loosen_grows_every_side() {
    let mut aabb = AABB::new(vec3(0i64, 1, 2), vec3(10, 11, 12));
    aabb.loosen(3);
    assert_eq!(*aabb.mins(), vec3(-3, -2, -1));
    assert_eq!(*aabb.maxs(), vec3(13, 14, 15));
    aabb.loosen(0);
    assert_eq!(aabb, AABB::new(vec3(-3, -2, -1), vec3(13, 14, 15)));
}

#[test]
fn merge_is_the_smallest_enclosing_box() {
    let mut a = AABB::new(vec3(0i64, 0, 0), vec3(1, 5, 1));
    let b = AABB::new(vec3(-2i64, 1, 0), vec3(0, 2, 9));
    a.merge(&b);
    assert_eq!(a, AABB::new(vec3(-2, 0, 0), vec3(1, 5, 9)));
    let mut c = b;
    c.merge(&AABB::new(vec3(0i64, 0, 0), vec3(1, 5, 1)));
    assert_eq!(c, a);
    let mut d = a;
    d.merge(&b);
    assert_eq!(d, a);
}

#[test]
fn ball_box_is_centered_on_the_translation() {
    let ball = Ball::new(2i64);
    let here = Isometry::from_translation(vec3(10i64, 20, 30));
    assert_eq!(ball.aabb(&here), AABB::new(vec3(8, 18, 28), vec3(12, 22, 32)));
    assert_eq!(
        ball.aabb(&Isometry::identity()),
        AABB::new(vec3(-2, -2, -2), vec3(2, 2, 2))
    );
    assert!(!ball.is_deformable());
}

#[test]
fn segment_box_spans_its_moved_end_points() {
    let segment = Segment::new(vec3(1i64, 0, 0), vec3(0i64, 2, 0));
    assert_eq!(
        segment.aabb(&Isometry::identity()),
        AABB::new(vec3(0, 0, 0), vec3(1, 2, 0))
    );
    let quarter_turn = Rotation {
        row_x: vec3(0i64, -1, 0),
        row_y: vec3(1i64, 0, 0),
        row_z: vec3(0i64, 0, 1),
    };
    let moved = Isometry::new(quarter_turn, vec3(10i64, 10, 10));
    assert_eq!(moved.transform_point(&vec3(1, 0, 0)), vec3(10, 11, 10));
    assert_eq!(moved.transform_point(&vec3(0, 2, 0)), vec3(8, 10, 10));
    assert_eq!(segment.aabb(&moved), AABB::new(vec3(8, 10, 10), vec3(10, 11, 10)));
    assert!(segment.is_deformable());
}

#[test]
fn segment_takes_its_end_points_from_the_coordinates() {
    let mut segment = Segment::new(vec3(1i64, 2, 3), vec3(4i64, 5, 6));
    segment.set_deformations(&[10, 20, 30, 40, 50, 60]);
    assert_eq!(segment, Segment::new(vec3(10, 20, 30), vec3(40, 50, 60)));
    segment.set_deformations(&[7, 8, 9, 1]);
    assert_eq!(segment, Segment::new(vec3(7, 8, 9), vec3(1, 50, 60)));
    segment.set_deformations(&[]);
    assert_eq!(segment, Segment::new(vec3(7, 8, 9), vec3(1, 50, 60)));
    segment.set_deformations(&[0, 0, 0, 0, 0, 0, 99]);
    assert_eq!(segment, Segment::new(vec3(0, 0, 0), vec3(0, 0, 0)));
}

#[test]
fn identity_moves_nothing() {
    let identity = Isometry::<i64>::identity();
    assert_eq!(identity.rotation, Rotation::identity());
    assert_eq!(identity.translation, vec3(0, 0, 0));
    assert_eq!(identity.transform_point(&vec3(3, -4, 5)), vec3(3, -4, 5));
}

#[test]
fn ball_ignores_deformations() {
    let mut ball = Ball::new(3i64);
    ball.set_deformations(&[9, 9, 9]);
    assert_eq!(ball, Ball::new(3));
}
