use collision_core::update_flags::CollisionObjectUpdateFlags;

fn predicates(flags: &CollisionObjectUpdateFlags) -> (bool, bool, bool, bool) {
    (
        flags.needs_broad_phase_update(),
        flags.needs_narrow_phase_update(),
        flags.needs_bounding_volume_update(),
        flags.needs_broad_phase_redispatch(),
    )
}

#[test]
fn named_flags_have_their_bits() {
    assert_eq!(CollisionObjectUpdateFlags::position_changed().bits(), 0b00001);
    assert_eq!(CollisionObjectUpdateFlags::predicted_position_changed().bits(), 0b00010);
    assert_eq!(CollisionObjectUpdateFlags::shape_changed().bits(), 0b00100);
    assert_eq!(CollisionObjectUpdateFlags::collision_groups_changed().bits(), 0b01000);
    assert_eq!(CollisionObjectUpdateFlags::query_type_changed().bits(), 0b10000);
    assert_eq!(CollisionObjectUpdateFlags::all().bits(), 0b11111);
    assert_eq!(CollisionObjectUpdateFlags::empty().bits(), 0);
    assert_eq!(CollisionObjectUpdateFlags::default(), CollisionObjectUpdateFlags::empty());
}

#[test]
fn all_flags_make_every_predicate_true() {
    assert_eq!(predicates(&CollisionObjectUpdateFlags::all()), (true, true, true, true));
}

#[test]
fn no_flag_makes_every_predicate_false() {
    let none = CollisionObjectUpdateFlags::empty();
    assert!(none.is_empty());
    assert_eq!(predicates(&none), (false, false, false, false));
}

#[test]
fn each_flag_alone() {
    assert_eq!(
        predicates(&CollisionObjectUpdateFlags::position_changed()),
        (true, true, true, false)
    );
    assert_eq!(
        predicates(&CollisionObjectUpdateFlags::predicted_position_changed()),
        (true, false, false, false)
    );
    assert_eq!(predicates(&CollisionObjectUpdateFlags::shape_changed()), (true, true, true, true));
    assert_eq!(
        predicates(&CollisionObjectUpdateFlags::collision_groups_changed()),
        (true, true, false, true)
    );
    assert_eq!(
        predicates(&CollisionObjectUpdateFlags::query_type_changed()),
        (true, true, true, true)
    );
}

#[test]
fn union_insert_contains_intersects() {
    let position = CollisionObjectUpdateFlags::position_changed();
    let shape = CollisionObjectUpdateFlags::shape_changed();
    let both = position.union(shape);
    assert_eq!(both.bits(), 0b00101);
    assert!(both.contains(position));
    assert!(both.contains(shape));
    assert!(!position.contains(both));
    assert!(both.intersects(shape));
    assert!(!position.intersects(shape));
    assert!(!both.is_empty());
    let mut flags = CollisionObjectUpdateFlags::empty();
    flags.insert(shape);
    flags.insert(shape);
    assert_eq!(flags, shape);
    flags.insert(position);
    assert_eq!(flags, both);
}

#[test]
fn bar_operator_is_the_union() {
    let position = CollisionObjectUpdateFlags::position_changed();
    let query = CollisionObjectUpdateFlags::query_type_changed();
    assert_eq!(position | query, position.union(query));
    assert_eq!((position | query).bits(), 0b10001);
    assert_eq!(position | position, position);
}
