use collision_core::bounding_volume::AABB;
use collision_core::collision_object::{
    CollisionObject, CollisionObjectRef, CollisionObjectSlabHandle,
};
use collision_core::pipeline::{
    BroadPhaseProxyHandle, CollisionGroups, CollisionObjectGraphIndex, GeometricQueryType,
};
use collision_core::isometry::Isometry;
use collision_core::shape::{Ball, Segment, ShapeHandle};
use collision_core::update_flags::CollisionObjectUpdateFlags;
use collision_core::vec3::vec3;
use std::collections::HashSet;

fn groups() -> CollisionGroups {
    CollisionGroups { membership: 0b01, whitelist: 0b11, blacklist: 0 }
}

fn at(x: i64, y: i64, z: i64) -> Isometry<i64> {
    Isometry::from_translation(vec3(x, y, z))
}

fn ball_object() -> CollisionObject<i64, Ball<i64>, &'static str> {
    CollisionObject::new(
        Some(BroadPhaseProxyHandle(4)),
        Some(CollisionObjectGraphIndex(9)),
        at(10, 20, 30),
        ShapeHandle::new(Ball::new(2)),
        groups(),
        GeometricQueryType::Contacts(1, 5),
        "payload",
    )
}

fn segment_object() -> CollisionObject<i64, Segment<i64>, u8> {
    CollisionObject::new(
        None,
        None,
        at(0, 0, 0),
        ShapeHandle::new(Segment::new(vec3(0, 0, 0), vec3(1, 1, 1))),
        groups(),
        GeometricQueryType::Proximity(0),
        0,
    )
}

fn predicates<R: CollisionObjectRef<i64>>(object: &R) -> (bool, bool, bool, bool) {
    let flags = object.update_flags();
    (
        flags.needs_broad_phase_update(),
        flags.needs_narrow_phase_update(),
        flags.needs_bounding_volume_update(),
        flags.needs_broad_phase_redispatch(),
    )
}

#[test]
fn new_object_holds_what_it_was_given() {
    let object = ball_object();
    assert_eq!(object.proxy_handle(), Some(BroadPhaseProxyHandle(4)));
    assert_eq!(object.graph_index(), Some(CollisionObjectGraphIndex(9)));
    assert_eq!(*object.position(), at(10, 20, 30));
    assert_eq!(object.predicted_position(), None);
    assert_eq!(*object.shape().as_ref(), Ball::new(2));
    assert_eq!(*object.collision_groups(), groups());
    assert_eq!(object.query_type(), GeometricQueryType::Contacts(1, 5));
    assert_eq!(*object.data(), "payload");
}

#[test]
fn new_object_has_all_flags_set() {
    let mut object = ball_object();
    assert_eq!(object.update_flags(), CollisionObjectUpdateFlags::all());
    assert_eq!(predicates(&object), (true, true, true, true));
    object.clear_update_flags();
    assert_eq!(object.update_flags(), CollisionObjectUpdateFlags::empty());
    assert!(object.update_flags().is_empty());
    assert_eq!(predicates(&object), (false, false, false, false));
}

#[test]
fn set_position_drops_the_prediction() {
    let mut object = ball_object();
    object.set_predicted_position(Some(at(1, 1, 1)));
    object.clear_update_flags();
    object.set_position(at(5, 6, 7));
    assert_eq!(*object.position(), at(5, 6, 7));
    assert_eq!(object.predicted_position(), None);
    assert_eq!(
        object.update_flags(),
        CollisionObjectUpdateFlags::position_changed()
            .union(CollisionObjectUpdateFlags::predicted_position_changed())
    );
    assert_eq!(predicates(&object), (true, true, true, false));
}

#[test]
fn set_position_with_prediction_keeps_the_prediction() {
    let mut object = ball_object();
    object.clear_update_flags();
    object.set_position_with_prediction(at(5, 6, 7), at(8, 9, 10));
    assert_eq!(*object.position(), at(5, 6, 7));
    assert_eq!(object.predicted_position(), Some(&at(8, 9, 10)));
    assert_eq!(
        object.update_flags(),
        CollisionObjectUpdateFlags::position_changed()
            .union(CollisionObjectUpdateFlags::predicted_position_changed())
    );
}

#[test]
fn set_collision_groups_alone() {
    let mut object = ball_object();
    object.clear_update_flags();
    let other = CollisionGroups { membership: 0b10, whitelist: 0b01, blacklist: 0b100 };
    object.set_collision_groups(other);
    assert_eq!(*object.collision_groups(), other);
    assert_eq!(object.update_flags(), CollisionObjectUpdateFlags::collision_groups_changed());
    assert_eq!(predicates(&object), (true, true, false, true));
}

#[test]
fn set_predicted_position_alone() {
    let mut object = ball_object();
    object.clear_update_flags();
    object.set_predicted_position(Some(at(8, 9, 10)));
    assert_eq!(object.predicted_position(), Some(&at(8, 9, 10)));
    assert_eq!(*object.position(), at(10, 20, 30));
    assert_eq!(object.update_flags(), CollisionObjectUpdateFlags::predicted_position_changed());
    assert_eq!(predicates(&object), (true, false, false, false));
    object.clear_update_flags();
    object.set_predicted_position(None);
    assert_eq!(object.predicted_position(), None);
    assert_eq!(predicates(&object), (true, false, false, false));
}

#[test]
fn set_shape_alone() {
    let mut object = ball_object();
    object.clear_update_flags();
    object.set_shape(ShapeHandle::new(Ball::new(7)));
    assert_eq!(*object.shape().as_ref(), Ball::new(7));
    assert_eq!(object.update_flags(), CollisionObjectUpdateFlags::shape_changed());
    assert_eq!(predicates(&object), (true, true, true, true));
}

#[test]
fn set_query_type_alone() {
    let mut object = ball_object();
    object.clear_update_flags();
    object.set_query_type(GeometricQueryType::Proximity(3));
    assert_eq!(object.query_type(), GeometricQueryType::Proximity(3));
    assert_eq!(object.update_flags(), CollisionObjectUpdateFlags::query_type_changed());
    assert_eq!(predicates(&object), (true, true, true, true));
}

#[test]
fn handles_are_stored_without_a_flag() {
    let mut object = ball_object();
    object.clear_update_flags();
    object.set_graph_index(None);
    object.set_proxy_handle(Some(BroadPhaseProxyHandle(77)));
    assert_eq!(object.graph_index(), None);
    assert_eq!(object.proxy_handle(), Some(BroadPhaseProxyHandle(77)));
    assert_eq!(BroadPhaseProxyHandle(77).uid(), 77);
    assert_eq!(CollisionObjectGraphIndex(3).index(), 3);
    assert!(object.update_flags().is_empty());
}

#[test]
fn flags_accumulate_until_cleared() {
    let mut object = ball_object();
    object.clear_update_flags();
    object.set_predicted_position(None);
    object.set_collision_groups(groups());
    object.set_collision_groups(groups());
    assert_eq!(
        object.update_flags(),
        CollisionObjectUpdateFlags::predicted_position_changed()
            .union(CollisionObjectUpdateFlags::collision_groups_changed())
    );
    object.update_flags_mut().insert(CollisionObjectUpdateFlags::shape_changed());
    assert_eq!(object.update_flags().bits(), 0b01110);
    object.clear_update_flags();
    assert!(object.update_flags().is_empty());
}

#[test]
fn data_can_be_read_and_written() {
    let mut object = segment_object();
    assert_eq!(*object.data(), 0);
    object.clear_update_flags();
    *object.data_mut() = 200;
    assert_eq!(*object.data(), 200);
    assert!(object.update_flags().is_empty());
}

#[test]
fn query_limit_is_the_first_distance() {
    assert_eq!(GeometricQueryType::Contacts(4i64, 9).query_limit(), 4);
    assert_eq!(GeometricQueryType::Proximity(6i64).query_limit(), 6);
}

#[test]
fn compute_aabb_loosens_by_the_query_limit() {
    let object = ball_object();
    assert_eq!(object.compute_aabb(), AABB::new(vec3(7, 17, 27), vec3(13, 23, 33)));
}

#[test]
fn swept_aabb_without_prediction_is_the_aabb() {
    let object = ball_object();
    assert_eq!(object.compute_swept_aabb(), object.compute_aabb());
}

#[test]
fn swept_aabb_with_prediction_encloses_both_boxes() {
    let mut object = ball_object();
    object.set_predicted_position(Some(at(20, 15, 30)));
    assert_eq!(object.compute_aabb(), AABB::new(vec3(7, 17, 27), vec3(13, 23, 33)));
    assert_eq!(object.compute_swept_aabb(), AABB::new(vec3(7, 12, 27), vec3(23, 23, 33)));
    object.clear_update_flags();
    assert_eq!(object.compute_swept_aabb(), AABB::new(vec3(7, 12, 27), vec3(23, 23, 33)));
}

#[test]
fn set_deformations_deforms_a_deformable_shape() {
    let mut object = segment_object();
    object.clear_update_flags();
    object.set_deformations(&[1, 2, 3, 4, 5, 6]);
    assert_eq!(*object.shape().as_ref(), Segment::new(vec3(1, 2, 3), vec3(4, 5, 6)));
    assert_eq!(object.update_flags(), CollisionObjectUpdateFlags::position_changed());
    assert_eq!(object.compute_aabb(), AABB::new(vec3(1, 2, 3), vec3(4, 5, 6)));
}

#[test]
fn try_set_deformations_says_whether_it_deformed() {
    let mut object = segment_object();
    object.clear_update_flags();
    assert!(object.try_set_deformations(&[9, 9, 9]));
    assert_eq!(*object.shape().as_ref(), Segment::new(vec3(9, 9, 9), vec3(1, 1, 1)));
    assert_eq!(object.update_flags(), CollisionObjectUpdateFlags::position_changed());
}

#[test]
fn try_set_deformations_leaves_a_rigid_shape_alone() {
    let mut object = ball_object();
    object.set_predicted_position(Some(at(1, 2, 3)));
    object.clear_update_flags();
    assert!(!object.try_set_deformations(&[1, 2, 3]));
    assert!(object.update_flags().is_empty());
    assert_eq!(*object.shape().as_ref(), Ball::new(2));
    assert_eq!(*object.position(), at(10, 20, 30));
    assert_eq!(object.predicted_position(), Some(&at(1, 2, 3)));
    assert_eq!(*object.collision_groups(), groups());
    assert_eq!(object.query_type(), GeometricQueryType::Contacts(1, 5));
    assert_eq!(object.proxy_handle(), Some(BroadPhaseProxyHandle(4)));
    assert_eq!(object.graph_index(), Some(CollisionObjectGraphIndex(9)));
    assert_eq!(*object.data(), "payload");
}

#[test]
fn deforming_a_shared_shape_leaves_the_other_owner_alone() {
    let shared = ShapeHandle::new(Segment::new(vec3(0i64, 0, 0), vec3(1, 1, 1)));
    let mut first = segment_object();
    let mut second = segment_object();
    first.set_shape(shared.clone());
    second.set_shape(shared.clone());
    first.set_deformations(&[5, 5, 5, 6, 6, 6]);
    assert_eq!(*first.shape().as_ref(), Segment::new(vec3(5, 5, 5), vec3(6, 6, 6)));
    assert_eq!(*second.shape().as_ref(), Segment::new(vec3(0, 0, 0), vec3(1, 1, 1)));
    assert_eq!(*shared.as_ref(), Segment::new(vec3(0, 0, 0), vec3(1, 1, 1)));
}

#[test]
fn shape_handle_can_be_written_through() {
    let mut handle = ShapeHandle::new(Ball::new(1i64));
    let copy = handle.clone();
    handle.make_mut().radius = 5;
    assert_eq!(*handle.as_ref(), Ball::new(5));
    assert_eq!(*copy.as_ref(), Ball::new(1));
    handle.make_mut().radius = 6;
    assert_eq!(*handle.as_ref(), Ball::new(6));
}

#[test]
fn reference_trait_answers_like_the_object() {
    fn ask<R: CollisionObjectRef<i64, Shape = Ball<i64>>>(
        object: &R,
    ) -> (Option<CollisionObjectGraphIndex>, Option<BroadPhaseProxyHandle>, Isometry<i64>, Ball<i64>)
    {
        (object.graph_index(), object.proxy_handle(), *object.position(), *object.shape())
    }
    let object = ball_object();
    assert_eq!(
        ask(&object),
        (
            Some(CollisionObjectGraphIndex(9)),
            Some(BroadPhaseProxyHandle(4)),
            at(10, 20, 30),
            Ball::new(2)
        )
    );
    assert_eq!(CollisionObjectRef::predicted_position(&object), None);
    assert_eq!(*CollisionObjectRef::collision_groups(&object), groups());
    assert_eq!(CollisionObjectRef::query_type(&object), GeometricQueryType::Contacts(1, 5));
}

#[test]
fn slab_handle_is_its_uid() {
    let handle = CollisionObjectSlabHandle(42);
    assert_eq!(handle.uid(), 42);
    assert_eq!(handle, CollisionObjectSlabHandle(42));
    assert!(CollisionObjectSlabHandle(1) < CollisionObjectSlabHandle(2));
    assert!(CollisionObjectSlabHandle(3) > CollisionObjectSlabHandle(2));
    let mut seen = HashSet::new();
    assert!(seen.insert(handle));
    assert!(!seen.insert(CollisionObjectSlabHandle(42)));
    assert!(seen.insert(CollisionObjectSlabHandle(43)));
}
