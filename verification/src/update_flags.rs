use vstd::prelude::*;

verus! {

/// A reason for which a collision object has to be synchronized again.
#[derive(Clone, Copy, Debug, PartialEq, Eq, Structural)]
pub enum Change {
    Position,
    PredictedPosition,
    Shape,
    CollisionGroups,
    QueryType,
}

impl Change {
    /// The bit that records this reason.
    pub open spec fn mask(self) -> u8 {
        match self {
            Change::Position => 0b00001,
            Change::PredictedPosition => 0b00010,
            Change::Shape => 0b00100,
            Change::CollisionGroups => 0b01000,
            Change::QueryType => 0b10000,
        }
    }
}

/// Whether the broad phase has to look at the object again: after any change.
pub open spec fn spec_needs_broad_phase_update(changes: Set<Change>) -> bool {
    changes != Set::<Change>::empty()
}

/// Whether the narrow phase has to look at the object again: after any change
/// but one of the predicted position.
pub open spec fn spec_needs_narrow_phase_update(changes: Set<Change>) -> bool {
    ||| changes.contains(Change::Position)
    ||| changes.contains(Change::Shape)
    ||| changes.contains(Change::CollisionGroups)
    ||| changes.contains(Change::QueryType)
}

/// Whether the bounding volume is out of date: after a change of position,
/// of shape, or of query type.
pub open spec fn spec_needs_bounding_volume_update(changes: Set<Change>) -> bool {
    ||| changes.contains(Change::Position)
    ||| changes.contains(Change::Shape)
    ||| changes.contains(Change::QueryType)
}

/// Whether the object's pairs have to be dispatched again: after a change of
/// shape, of collision groups, or of query type.
pub open spec fn spec_needs_broad_phase_redispatch(changes: Set<Change>) -> bool {
    ||| changes.contains(Change::Shape)
    ||| changes.contains(Change::CollisionGroups)
    ||| changes.contains(Change::QueryType)
}

/// With every reason recorded all four predicates hold; with none recorded
/// none of them does.
pub proof fn lemma_all_or_nothing()
    ensures
        spec_needs_broad_phase_update(Set::<Change>::full()),
        spec_needs_narrow_phase_update(Set::<Change>::full()),
        spec_needs_bounding_volume_update(Set::<Change>::full()),
        spec_needs_broad_phase_redispatch(Set::<Change>::full()),
        !spec_needs_broad_phase_update(Set::<Change>::empty()),
        !spec_needs_narrow_phase_update(Set::<Change>::empty()),
        !spec_needs_bounding_volume_update(Set::<Change>::empty()),
        !spec_needs_broad_phase_redispatch(Set::<Change>::empty()),
{
    assert(Set::<Change>::full().contains(Change::Position));
}

/// A change that moves nothing but the prediction asks only the broad phase
/// to work; one that changes what the object may meet leaves the bounding
/// volume alone; pure motion never asks for a redispatch.
pub proof fn lemma_predicates_by_reason(changes: Set<Change>)
    ensures
        changes.subset_of(set![Change::PredictedPosition]) ==> !spec_needs_narrow_phase_update(
            changes,
        ) && !spec_needs_bounding_volume_update(changes) && !spec_needs_broad_phase_redispatch(
            changes,
        ),
        changes.subset_of(set![Change::PredictedPosition, Change::CollisionGroups])
            ==> !spec_needs_bounding_volume_update(changes),
        changes.subset_of(set![Change::Position, Change::PredictedPosition])
            ==> !spec_needs_broad_phase_redispatch(changes),
        spec_needs_narrow_phase_update(changes) || spec_needs_bounding_volume_update(changes)
            || spec_needs_broad_phase_redispatch(changes) ==> spec_needs_broad_phase_update(
            changes,
        ),
{
}

/// The set of changes that a collision object has accumulated since it was
/// last synchronized, held as one bit per reason.
#[derive(Clone, Copy, Debug, PartialEq, Eq, Hash)]
pub struct CollisionObjectUpdateFlags {
    bits: u8,
}

impl View for CollisionObjectUpdateFlags {
    type V = Set<Change>;

    /// The reasons whose bit is set.
    closed spec fn view(&self) -> Set<Change> {
        set_of(self.bits)
    }
}

/// The reasons whose bit is set in `b`.
spec fn set_of(b: u8) -> Set<Change> {
    Set::new(|c: Change| b & c.mask() != 0)
}

/// The bitwise or of two bit patterns holds the union of their reasons.
proof fn lemma_set_of_union(a: u8, b: u8)
    ensures
        set_of(a | b) == set_of(a).union(set_of(b)),
{
    assert forall|c: Change| set_of(a | b).contains(c) == set_of(a).union(set_of(b)).contains(
        c,
    ) by {
        let m = c.mask();
        assert(((a | b) & m != 0) == (a & m != 0 || b & m != 0)) by (bit_vector);
    }
    assert(set_of(a | b) =~= set_of(a).union(set_of(b)));
}

/// How the bit tests on two patterns without stray bits read on the sets
/// they hold.
proof fn lemma_set_of_intersects(a: u8, b: u8)
    requires
        a <= 0b11111,
        b <= 0b11111,
    ensures
        (a & b != 0) == !set_of(a).disjoint(set_of(b)),
        (a & b == b) == set_of(b).subset_of(set_of(a)),
        (a == 0) == (set_of(a) == Set::<Change>::empty()),
        (a == b) == (set_of(a) == set_of(b)),
{
    assert(a <= 0b11111 ==> ((a & 1 == 0 && a & 2 == 0 && a & 4 == 0 && a & 8 == 0 && a & 16 == 0)
        == (a == 0))) by (bit_vector);
    assert(a <= 0b11111 && b <= 0b11111 ==> (((a & 1 != 0) == (b & 1 != 0) && (a & 2 != 0) == (b
        & 2 != 0) && (a & 4 != 0) == (b & 4 != 0) && (a & 8 != 0) == (b & 8 != 0) && (a & 16 != 0)
        == (b & 16 != 0)) == (a == b))) by (bit_vector);
    assert(a <= 0b11111 && b <= 0b11111 ==> ((a & b != 0) == ((a & 1 != 0 && b & 1 != 0) || (a & 2
        != 0 && b & 2 != 0) || (a & 4 != 0 && b & 4 != 0) || (a & 8 != 0 && b & 8 != 0) || (a & 16
        != 0 && b & 16 != 0)))) by (bit_vector);
    assert(a <= 0b11111 && b <= 0b11111 ==> ((a & b == b) == ((b & 1 != 0 ==> a & 1 != 0) && (b & 2
        != 0 ==> a & 2 != 0) && (b & 4 != 0 ==> a & 4 != 0) && (b & 8 != 0 ==> a & 8 != 0) && (b
        & 16 != 0 ==> a & 16 != 0)))) by (bit_vector);
    let sa = set_of(a);
    let sb = set_of(b);
    assert(sa.contains(Change::Position) == (a & 1 != 0));
    assert(sa.contains(Change::PredictedPosition) == (a & 2 != 0));
    assert(sa.contains(Change::Shape) == (a & 4 != 0));
    assert(sa.contains(Change::CollisionGroups) == (a & 8 != 0));
    assert(sa.contains(Change::QueryType) == (a & 16 != 0));
    assert(sb.contains(Change::Position) == (b & 1 != 0));
    assert(sb.contains(Change::PredictedPosition) == (b & 2 != 0));
    assert(sb.contains(Change::Shape) == (b & 4 != 0));
    assert(sb.contains(Change::CollisionGroups) == (b & 8 != 0));
    assert(sb.contains(Change::QueryType) == (b & 16 != 0));
    if a == 0 {
        assert(sa =~= Set::<Change>::empty());
    }
    if sa == sb {
        assert(a == b);
    }
    if a & b == b {
        assert forall|c: Change| sb.contains(c) implies sa.contains(c) by {
            match c {
                Change::Position => {},
                Change::PredictedPosition => {},
                Change::Shape => {},
                Change::CollisionGroups => {},
                Change::QueryType => {},
            }
        }
    }
    if a & b == 0 {
        assert forall|c: Change| !(sa.contains(c) && sb.contains(c)) by {
            match c {
                Change::Position => {},
                Change::PredictedPosition => {},
                Change::Shape => {},
                Change::CollisionGroups => {},
                Change::QueryType => {},
            }
        }
    }
}

impl CollisionObjectUpdateFlags {
    /// No bit beyond the five named ones is ever set.
    #[verifier::type_invariant]
    spec fn no_stray_bit(self) -> bool {
        self.bits <= 0b11111
    }

    /// The position was set.
    pub fn position_changed() -> (r: Self)
        ensures
            r@ == set![Change::Position],
    {
        let r = CollisionObjectUpdateFlags { bits: 0b00001 };
        proof {
            assert(1u8 & 1 != 0 && 1u8 & 2 == 0 && 1u8 & 4 == 0 && 1u8 & 8 == 0 && 1u8 & 16 == 0) by (bit_vector);
            assert(r@ =~= set![Change::Position]);
        }
        r
    }

    /// The predicted position was set, or dropped.
    pub fn predicted_position_changed() -> (r: Self)
        ensures
            r@ == set![Change::PredictedPosition],
    {
        let r = CollisionObjectUpdateFlags { bits: 0b00010 };
        proof {
            assert(2u8 & 1 == 0 && 2u8 & 2 != 0 && 2u8 & 4 == 0 && 2u8 & 8 == 0 && 2u8 & 16 == 0) by (bit_vector);
            assert(r@ =~= set![Change::PredictedPosition]);
        }
        r
    }

    /// The shape was replaced.
    pub fn shape_changed() -> (r: Self)
        ensures
            r@ == set![Change::Shape],
    {
        let r = CollisionObjectUpdateFlags { bits: 0b00100 };
        proof {
            assert(4u8 & 1 == 0 && 4u8 & 2 == 0 && 4u8 & 4 != 0 && 4u8 & 8 == 0 && 4u8 & 16 == 0) by (bit_vector);
            assert(r@ =~= set![Change::Shape]);
        }
        r
    }

    /// The collision groups were replaced.
    pub fn collision_groups_changed() -> (r: Self)
        ensures
            r@ == set![Change::CollisionGroups],
    {
        let r = CollisionObjectUpdateFlags { bits: 0b01000 };
        proof {
            assert(8u8 & 1 == 0 && 8u8 & 2 == 0 && 8u8 & 4 == 0 && 8u8 & 8 != 0 && 8u8 & 16 == 0) by (bit_vector);
            assert(r@ =~= set![Change::CollisionGroups]);
        }
        r
    }

    /// The query type was replaced.
    pub fn query_type_changed() -> (r: Self)
        ensures
            r@ == set![Change::QueryType],
    {
        let r = CollisionObjectUpdateFlags { bits: 0b10000 };
        proof {
            assert(16u8 & 1 == 0 && 16u8 & 2 == 0 && 16u8 & 4 == 0 && 16u8 & 8 == 0 && 16u8 & 16 != 0) by (bit_vector);
            assert(r@ =~= set![Change::QueryType]);
        }
        r
    }

    /// The set without any reason.
    pub fn empty() -> (r: Self)
        ensures
            r@ == Set::<Change>::empty(),
    {
        proof {
            lemma_set_of_intersects(0, 0);
        }
        CollisionObjectUpdateFlags { bits: 0 }
    }

    /// The set of all five reasons.
    pub fn all() -> (r: Self)
        ensures
            r@ == Set::<Change>::full(),
    {
        let r = CollisionObjectUpdateFlags { bits: 0b11111 };
        proof {
            assert(31u8 & 1 != 0 && 31u8 & 2 != 0 && 31u8 & 4 != 0 && 31u8 & 8 != 0 && 31u8 & 16
                != 0) by (bit_vector);
            assert(r@ =~= Set::<Change>::full());
        }
        r
    }

    /// The bits of the set: bit `c.mask()` is set exactly when `c` is a member.
    pub fn bits(&self) -> (r: u8)
        ensures
            r <= 0b11111,
            forall|c: Change| (r & #[trigger] c.mask() != 0) == self@.contains(c),
    {
        proof {
            use_type_invariant(self);
        }
        self.bits
    }

    pub fn is_empty(&self) -> (r: bool)
        ensures
            r == (self@ == Set::<Change>::empty()),
    {
        proof {
            use_type_invariant(self);
            lemma_set_of_intersects(self.bits, self.bits);
        }
        self.bits == 0
    }

    /// Whether the two sets share a reason.
    pub fn intersects(&self, other: CollisionObjectUpdateFlags) -> (r: bool)
        ensures
            r == !self@.disjoint(other@),
    {
        proof {
            use_type_invariant(self);
            use_type_invariant(other);
            lemma_set_of_intersects(self.bits, other.bits);
        }
        self.bits & other.bits != 0
    }

    /// Whether every reason of `other` is in this set.
    pub fn contains(&self, other: CollisionObjectUpdateFlags) -> (r: bool)
        ensures
            r == other@.subset_of(self@),
    {
        proof {
            use_type_invariant(self);
            use_type_invariant(other);
            lemma_set_of_intersects(self.bits, other.bits);
        }
        self.bits & other.bits == other.bits
    }

    fn join(self, other: CollisionObjectUpdateFlags) -> (r: CollisionObjectUpdateFlags)
        ensures
            r@ == self@.union(other@),
            r.bits == self.bits | other.bits,
    {
        proof {
            use_type_invariant(self);
            use_type_invariant(other);
            lemma_set_of_union(self.bits, other.bits);
            let a = self.bits;
            let b = other.bits;
            assert(a <= 0b11111 && b <= 0b11111 ==> (a | b) <= 0b11111) by (bit_vector);
        }
        CollisionObjectUpdateFlags { bits: self.bits | other.bits }
    }

    pub fn union(self, other: CollisionObjectUpdateFlags) -> (r: CollisionObjectUpdateFlags)
        ensures
            r@ == self@.union(other@),
    {
        self.join(other)
    }

    /// Adds the reasons of `other` to this set.
    pub fn insert(&mut self, other: CollisionObjectUpdateFlags)
        ensures
            final(self)@ == old(self)@.union(other@),
    {
        *self = self.union(other);
    }

    /// Any change at all, a change of the prediction included, can move the
    /// envelope that the broad phase indexes.
    pub fn needs_broad_phase_update(&self) -> (r: bool)
        ensures
            r == spec_needs_broad_phase_update(self@),
    {
        !self.is_empty()
    }

    /// Every change but one of the prediction alone asks the narrow phase to
    /// work again: it runs on the actual position.
    pub fn needs_narrow_phase_update(&self) -> (r: bool)
        ensures
            r == spec_needs_narrow_phase_update(self@),
    {
        let wanted = Self::position_changed() | Self::shape_changed()
            | Self::collision_groups_changed() | Self::query_type_changed();
        proof {
            lemma_meets(self@, wanted@);
        }
        self.intersects(wanted)
    }

    /// The bounding volume follows the position, the shape, and the query
    /// type, whose margin loosens it.
    pub fn needs_bounding_volume_update(&self) -> (r: bool)
        ensures
            r == spec_needs_bounding_volume_update(self@),
    {
        let wanted = Self::position_changed() | Self::shape_changed() | Self::query_type_changed();
        proof {
            lemma_meets(self@, wanted@);
        }
        self.intersects(wanted)
    }

    /// Which pairs are eligible follows the shape, the groups and the query
    /// type, never the motion.
    pub fn needs_broad_phase_redispatch(&self) -> (r: bool)
        ensures
            r == spec_needs_broad_phase_redispatch(self@),
    {
        let wanted = Self::shape_changed() | Self::collision_groups_changed()
            | Self::query_type_changed();
        proof {
            lemma_meets(self@, wanted@);
        }
        self.intersects(wanted)
    }
}

/// Two sets are not disjoint exactly when they share one of the five reasons.
proof fn lemma_meets(s: Set<Change>, t: Set<Change>)
    ensures
        !s.disjoint(t) == {
            ||| s.contains(Change::Position) && t.contains(Change::Position)
            ||| s.contains(Change::PredictedPosition) && t.contains(Change::PredictedPosition)
            ||| s.contains(Change::Shape) && t.contains(Change::Shape)
            ||| s.contains(Change::CollisionGroups) && t.contains(Change::CollisionGroups)
            ||| s.contains(Change::QueryType) && t.contains(Change::QueryType)
        },
{
    if !s.disjoint(t) {
        let w = choose|w: Change| s.contains(w) && t.contains(w);
        match w {
            Change::Position => {},
            Change::PredictedPosition => {},
            Change::Shape => {},
            Change::CollisionGroups => {},
            Change::QueryType => {},
        }
    }
}

impl core::ops::BitOr for CollisionObjectUpdateFlags {
    type Output = CollisionObjectUpdateFlags;

    fn bitor(self, other: CollisionObjectUpdateFlags) -> (r: CollisionObjectUpdateFlags)
        ensures
            r@ == self@.union(other@),
    {
        self.join(other)
    }
}

impl vstd::std_specs::ops::BitOrSpecImpl for CollisionObjectUpdateFlags {
    open spec fn obeys_bitor_spec() -> bool {
        true
    }

    open spec fn bitor_req(self, other: CollisionObjectUpdateFlags) -> bool {
        true
    }

    closed spec fn bitor_spec(self, other: CollisionObjectUpdateFlags) -> CollisionObjectUpdateFlags {
        CollisionObjectUpdateFlags { bits: self.bits | other.bits }
    }
}

impl Default for CollisionObjectUpdateFlags {
    fn default() -> (r: Self)
        ensures
            r@ == Set::<Change>::empty(),
    {
        CollisionObjectUpdateFlags::empty()
    }
}

} // verus!
