use crate::scalar::Scalar;
use crate::vec3::Vec3;
use vstd::prelude::*;

verus! {

/// An axis-aligned box, given by its smallest and its largest corner.
///
/// With `int` components it is the mathematical box that the contracts speak
/// of. A box whose corners are out of order holds no point.
#[derive(Debug, PartialEq, Eq)]
pub struct AABB<N> {
    pub mins: Vec3<N>,
    pub maxs: Vec3<N>,
}

impl<N: Copy> Clone for AABB<N> {
    fn clone(&self) -> (r: AABB<N>)
        ensures
            r == *self,
    {
        *self
    }
}

impl<N: Copy> Copy for AABB<N> {

}

impl<N: Scalar> View for AABB<N> {
    type V = AABB<int>;

    open spec fn view(&self) -> AABB<int> {
        AABB { mins: self.mins@, maxs: self.maxs@ }
    }
}

impl AABB<int> {
    /// The box grown by `amount` on each of its six sides.
    pub open spec fn spec_loosened(self, amount: int) -> AABB<int> {
        AABB { mins: self.mins.spec_scalar_sub(amount), maxs: self.maxs.spec_scalar_add(amount) }
    }

    /// The corner-wise hull of the two boxes.
    pub open spec fn spec_merged(self, other: AABB<int>) -> AABB<int> {
        AABB { mins: self.mins.spec_inf(other.mins), maxs: self.maxs.spec_sup(other.maxs) }
    }

    /// Whether `other` lies inside this box, corner by corner.
    pub open spec fn spec_encloses(self, other: AABB<int>) -> bool {
        self.mins.spec_le(other.mins) && other.maxs.spec_le(self.maxs)
    }

    /// Whether the point `p` lies in this box.
    pub open spec fn spec_contains_point(self, p: Vec3<int>) -> bool {
        self.mins.spec_le(p) && p.spec_le(self.maxs)
    }
}

/// The merged box encloses both boxes, and every point of either.
pub proof fn lemma_merged_encloses(a: AABB<int>, b: AABB<int>)
    ensures
        a.spec_merged(b).spec_encloses(a),
        a.spec_merged(b).spec_encloses(b),
        forall|p: Vec3<int>|
            a.spec_contains_point(p) || b.spec_contains_point(p) ==> #[trigger] a.spec_merged(
                b,
            ).spec_contains_point(p),
{
}

/// The merged box is the smallest one that encloses both: every box that
/// encloses both encloses it.
pub proof fn lemma_merged_minimal(a: AABB<int>, b: AABB<int>, c: AABB<int>)
    requires
        c.spec_encloses(a),
        c.spec_encloses(b),
    ensures
        c.spec_encloses(a.spec_merged(b)),
{
}

/// Merging does not depend on the order of the two boxes.
pub proof fn lemma_merged_commutative(a: AABB<int>, b: AABB<int>)
    ensures
        a.spec_merged(b) == b.spec_merged(a),
{
}

/// A box loosened by a margin that is not negative encloses the box.
pub proof fn lemma_loosened_encloses(a: AABB<int>, amount: int)
    requires
        amount >= 0,
    ensures
        a.spec_loosened(amount).spec_encloses(a),
{
}

impl<N: Scalar> AABB<N> {
    /// Whether the box can be loosened by `amount` without leaving the
    /// scalar type.
    pub open spec fn loosen_fits(a: AABB<int>, amount: int) -> bool {
        Vec3::<N>::scalar_sub_fits(a.mins, amount) && Vec3::<N>::scalar_add_fits(a.maxs, amount)
    }

    pub fn new(mins: Vec3<N>, maxs: Vec3<N>) -> (r: AABB<N>)
        ensures
            r == (AABB { mins, maxs }),
    {
        AABB { mins, maxs }
    }

    pub fn mins(&self) -> (r: &Vec3<N>)
        ensures
            *r == self.mins,
    {
        &self.mins
    }

    pub fn maxs(&self) -> (r: &Vec3<N>)
        ensures
            *r == self.maxs,
    {
        &self.maxs
    }

    /// Grows the box by `amount` on each of its six sides.
    pub fn loosen(&mut self, amount: N)
        requires
            Self::loosen_fits(old(self)@, amount.val()),
        ensures
            final(self)@ == old(self)@.spec_loosened(amount.val()),
    {
        self.mins = self.mins.scalar_sub(&amount);
        self.maxs = self.maxs.scalar_add(&amount);
    }

    /// Grows the box until it encloses `other` too.
    pub fn merge(&mut self, other: &AABB<N>)
        ensures
            final(self)@ == old(self)@.spec_merged(other@),
    {
        self.mins = self.mins.inf(&other.mins);
        self.maxs = self.maxs.sup(&other.maxs);
    }
}

} // verus!
