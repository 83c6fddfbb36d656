use crate::bounding_volume::AABB;
use crate::isometry::Isometry;
use crate::scalar::Scalar;
use crate::vec3::{vec3, Vec3};
use std::sync::Arc;
use vstd::prelude::*;

verus! {

/// A type whose clones are equal to what they were cloned from.
pub trait ExactClone: Sized + Clone {
    proof fn lemma_clone(&self, copy: &Self)
        requires
            cloned(*self, *copy),
        ensures
            *self == *copy,
    ;
}

/// What a collision object asks of its geometry.
///
/// A shape says which box bounds it at a given position. A shape may be
/// deformable: its degrees of freedom can then be overwritten in place.
pub trait Shape<N: Scalar>: ExactClone {
    /// Whether the bounding box at `m` can be computed without leaving the
    /// scalar type.
    spec fn aabb_fits(&self, m: Isometry<int>) -> bool;

    /// The bounding box of the shape moved by `m`.
    spec fn spec_aabb(&self, m: Isometry<int>) -> AABB<int>;

    spec fn spec_is_deformable(&self) -> bool;

    /// The shape with its degrees of freedom overwritten by `coords`.
    spec fn spec_deformed(&self, coords: Seq<N>) -> Self;

    fn aabb(&self, m: &Isometry<N>) -> (r: AABB<N>)
        requires
            self.aabb_fits(m@),
        ensures
            r@ == self.spec_aabb(m@),
    ;

    fn is_deformable(&self) -> (r: bool)
        ensures
            r == self.spec_is_deformable(),
    ;

    /// Overwrites the degrees of freedom of a deformable shape. A shape that
    /// is not deformable stays as it is.
    fn set_deformations(&mut self, coords: &[N])
        ensures
            *final(self) == old(self).spec_deformed(coords@),
            final(self).spec_is_deformable() == old(self).spec_is_deformable(),
            !old(self).spec_is_deformable() ==> *final(self) == *old(self),
    ;
}

/// A shape that several collision objects may share. Reading goes to the
/// shared shape; the first write through a shared handle gives the handle a
/// shape of its own.
pub struct ShapeHandle<S> {
    shape: Arc<S>,
}

impl<S> View for ShapeHandle<S> {
    type V = S;

    /// The shape that the handle refers to.
    closed spec fn view(&self) -> S {
        *self.shape
    }
}

/// `Arc::clone`: one more pointer to the same value.
#[verifier::external_body]
fn arc_clone<S>(a: &Arc<S>) -> (r: Arc<S>)
    ensures
        *r == **a,
{
    Arc::clone(a)
}

/// `Arc::make_mut`: a mutable reference to the value if no other pointer
/// shares it, and to a clone that replaces it in this pointer otherwise.
/// Afterwards the pointer holds what was written through the reference.
#[verifier::external_body]
fn arc_make_mut<S: Clone>(a: &mut Arc<S>) -> (r: &mut S)
    ensures
        *r == **old(a) || cloned(**old(a), *r),
        **final(a) == *final(r),
{
    Arc::make_mut(a)
}

impl<S> ShapeHandle<S> {
    pub fn new(shape: S) -> (h: ShapeHandle<S>)
        ensures
            h@ == shape,
    {
        ShapeHandle { shape: Arc::new(shape) }
    }

    pub fn as_ref(&self) -> (r: &S)
        ensures
            *r == self@,
    {
        &*self.shape
    }

    /// The shape, for writing. Other handles that shared it keep the shape
    /// as it was.
    pub fn make_mut(&mut self) -> (r: &mut S) where S: ExactClone
        ensures
            *r == old(self)@,
            final(self)@ == *final(r),
    {
        let ghost before = self@;
        let r = arc_make_mut(&mut self.shape);
        proof {
            if cloned(before, *r) {
                before.lemma_clone(&*r);
            }
        }
        r
    }
}

impl<S> Clone for ShapeHandle<S> {
    /// Another handle to the same shape.
    fn clone(&self) -> (r: ShapeHandle<S>)
        ensures
            r@ == self@,
    {
        ShapeHandle { shape: arc_clone(&self.shape) }
    }
}

/// A ball around the origin of its own frame.
#[derive(Debug, PartialEq, Eq)]
pub struct Ball<N> {
    pub radius: N,
}

impl<N: Copy> Clone for Ball<N> {
    fn clone(&self) -> (r: Ball<N>)
        ensures
            r == *self,
    {
        *self
    }
}

impl<N: Copy> Copy for Ball<N> {

}

impl<N: Scalar> ExactClone for Ball<N> {
    proof fn lemma_clone(&self, copy: &Self) {
    }
}

impl<N: Scalar> Ball<N> {
    pub fn new(radius: N) -> (r: Ball<N>)
        ensures
            r.radius == radius,
    {
        Ball { radius }
    }
}

impl<N: Scalar> Shape<N> for Ball<N> {
    open spec fn aabb_fits(&self, m: Isometry<int>) -> bool {
        &&& Vec3::<N>::scalar_sub_fits(m.translation, self.radius.val())
        &&& Vec3::<N>::scalar_add_fits(m.translation, self.radius.val())
    }

    /// A ball looks the same however it is turned: its box is centered on
    /// the translation and reaches one radius to each side.
    open spec fn spec_aabb(&self, m: Isometry<int>) -> AABB<int> {
        AABB {
            mins: m.translation.spec_scalar_sub(self.radius.val()),
            maxs: m.translation.spec_scalar_add(self.radius.val()),
        }
    }

    open spec fn spec_is_deformable(&self) -> bool {
        false
    }

    open spec fn spec_deformed(&self, coords: Seq<N>) -> Ball<N> {
        *self
    }

    fn aabb(&self, m: &Isometry<N>) -> (r: AABB<N>) {
        AABB::new(m.translation.scalar_sub(&self.radius), m.translation.scalar_add(&self.radius))
    }

    fn is_deformable(&self) -> (r: bool) {
        false
    }

    fn set_deformations(&mut self, coords: &[N]) {
    }
}

/// A line segment between two points, which are its degrees of freedom.
#[derive(Debug, PartialEq, Eq)]
pub struct Segment<N> {
    pub a: Vec3<N>,
    pub b: Vec3<N>,
}

impl<N: Copy> Clone for Segment<N> {
    fn clone(&self) -> (r: Segment<N>)
        ensures
            r == *self,
    {
        *self
    }
}

impl<N: Copy> Copy for Segment<N> {

}

impl<N: Scalar> ExactClone for Segment<N> {
    proof fn lemma_clone(&self, copy: &Self) {
    }
}

/// Entry `i` of `coords` where there is one, and `keep` otherwise.
pub open spec fn coord_or<N>(coords: Seq<N>, i: int, keep: N) -> N {
    if i < coords.len() {
        coords[i]
    } else {
        keep
    }
}

fn pick<N: Scalar>(coords: &[N], i: usize, keep: N) -> (r: N)
    ensures
        r == coord_or(coords@, i as int, keep),
{
    if i < coords.len() {
        coords[i]
    } else {
        keep
    }
}

impl<N: Scalar> Segment<N> {
    pub fn new(a: Vec3<N>, b: Vec3<N>) -> (r: Segment<N>)
        ensures
            r == (Segment { a, b }),
    {
        Segment { a, b }
    }
}

impl<N: Scalar> Shape<N> for Segment<N> {
    open spec fn aabb_fits(&self, m: Isometry<int>) -> bool {
        &&& Isometry::<N>::transform_point_fits(m, self.a@)
        &&& Isometry::<N>::transform_point_fits(m, self.b@)
    }

    /// The box spanned by the images of the two end points.
    open spec fn spec_aabb(&self, m: Isometry<int>) -> AABB<int> {
        AABB {
            mins: m.spec_transform_point(self.a@).spec_inf(m.spec_transform_point(self.b@)),
            maxs: m.spec_transform_point(self.a@).spec_sup(m.spec_transform_point(self.b@)),
        }
    }

    open spec fn spec_is_deformable(&self) -> bool {
        true
    }

    /// The coordinates of the first point, then those of the second, are
    /// taken from `coords` as far as it reaches.
    open spec fn spec_deformed(&self, coords: Seq<N>) -> Segment<N> {
        Segment {
            a: Vec3 {
                x: coord_or(coords, 0, self.a.x),
                y: coord_or(coords, 1, self.a.y),
                z: coord_or(coords, 2, self.a.z),
            },
            b: Vec3 {
                x: coord_or(coords, 3, self.b.x),
                y: coord_or(coords, 4, self.b.y),
                z: coord_or(coords, 5, self.b.z),
            },
        }
    }

    fn aabb(&self, m: &Isometry<N>) -> (r: AABB<N>) {
        let a = m.transform_point(&self.a);
        let b = m.transform_point(&self.b);
        AABB::new(a.inf(&b), a.sup(&b))
    }

    fn is_deformable(&self) -> (r: bool) {
        true
    }

    fn set_deformations(&mut self, coords: &[N]) {
        self.a = vec3(pick(coords, 0, self.a.x), pick(coords, 1, self.a.y), pick(coords, 2, self.a.z));
        self.b = vec3(pick(coords, 3, self.b.x), pick(coords, 4, self.b.y), pick(coords, 5, self.b.z));
    }
}

} // verus!
