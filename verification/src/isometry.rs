use crate::scalar::Scalar;
use crate::vec3::{vec3, Vec3};
use vstd::prelude::*;

verus! {

/// A rotation, given by the three rows of its matrix.
#[derive(Debug, PartialEq, Eq)]
pub struct Rotation<N> {
    pub row_x: Vec3<N>,
    pub row_y: Vec3<N>,
    pub row_z: Vec3<N>,
}

impl<N: Copy> Clone for Rotation<N> {
    fn clone(&self) -> (r: Rotation<N>)
        ensures
            r == *self,
    {
        *self
    }
}

impl<N: Copy> Copy for Rotation<N> {

}

impl<N: Scalar> View for Rotation<N> {
    type V = Rotation<int>;

    open spec fn view(&self) -> Rotation<int> {
        Rotation { row_x: self.row_x@, row_y: self.row_y@, row_z: self.row_z@ }
    }
}

impl Rotation<int> {
    /// The rotation that turns nothing.
    pub open spec fn spec_identity() -> Rotation<int> {
        Rotation {
            row_x: Vec3 { x: 1, y: 0, z: 0 },
            row_y: Vec3 { x: 0, y: 1, z: 0 },
            row_z: Vec3 { x: 0, y: 0, z: 1 },
        }
    }

    /// The image of the point `p`.
    pub open spec fn spec_rotate(self, p: Vec3<int>) -> Vec3<int> {
        Vec3 { x: self.row_x.spec_dot(p), y: self.row_y.spec_dot(p), z: self.row_z.spec_dot(p) }
    }
}

impl<N: Scalar> Rotation<N> {
    /// The rotation that turns nothing.
    pub fn identity() -> (r: Rotation<N>)
        ensures
            r@ == Rotation::<int>::spec_identity(),
    {
        Rotation {
            row_x: vec3(N::one(), N::zero(), N::zero()),
            row_y: vec3(N::zero(), N::one(), N::zero()),
            row_z: vec3(N::zero(), N::zero(), N::one()),
        }
    }
}

/// A rigid transform: a rotation followed by a translation.
///
/// Collision objects store isometries and hand them on to their shapes; they
/// never look inside one.
#[derive(Debug, PartialEq, Eq)]
pub struct Isometry<N> {
    pub rotation: Rotation<N>,
    pub translation: Vec3<N>,
}

impl<N: Copy> Clone for Isometry<N> {
    fn clone(&self) -> (r: Isometry<N>)
        ensures
            r == *self,
    {
        *self
    }
}

impl<N: Copy> Copy for Isometry<N> {

}

impl<N: Scalar> View for Isometry<N> {
    type V = Isometry<int>;

    open spec fn view(&self) -> Isometry<int> {
        Isometry { rotation: self.rotation@, translation: self.translation@ }
    }
}

impl Isometry<int> {
    /// The image of the point `p`.
    pub open spec fn spec_transform_point(self, p: Vec3<int>) -> Vec3<int> {
        self.rotation.spec_rotate(p).spec_add(self.translation)
    }
}

impl<N: Scalar> Isometry<N> {
    pub open spec fn transform_point_fits(m: Isometry<int>, p: Vec3<int>) -> bool {
        &&& Vec3::<N>::dot_fits(m.rotation.row_x, p)
        &&& Vec3::<N>::dot_fits(m.rotation.row_y, p)
        &&& Vec3::<N>::dot_fits(m.rotation.row_z, p)
        &&& Vec3::<N>::add_fits(m.rotation.spec_rotate(p), m.translation)
    }

    pub fn new(rotation: Rotation<N>, translation: Vec3<N>) -> (m: Isometry<N>)
        ensures
            m == (Isometry { rotation, translation }),
    {
        Isometry { rotation, translation }
    }

    /// The transform that moves nothing.
    pub fn identity() -> (m: Isometry<N>)
        ensures
            m@ == Self::spec_from_translation(Vec3::<int>::spec_zero()),
    {
        Self::from_translation(Vec3::zero())
    }

    /// The transform that only moves by `translation`.
    pub fn from_translation(translation: Vec3<N>) -> (m: Isometry<N>)
        ensures
            m@ == Self::spec_from_translation(translation@),
    {
        Isometry { rotation: Rotation::identity(), translation }
    }

    pub open spec fn spec_from_translation(translation: Vec3<int>) -> Isometry<int> {
        Isometry { rotation: Rotation::<int>::spec_identity(), translation }
    }

    /// The image of the point `p`.
    pub fn transform_point(&self, p: &Vec3<N>) -> (r: Vec3<N>)
        requires
            Self::transform_point_fits(self@, p@),
        ensures
            r@ == self@.spec_transform_point(p@),
    {
        vec3(
            self.rotation.row_x.dot(p),
            self.rotation.row_y.dot(p),
            self.rotation.row_z.dot(p),
        ) + self.translation
    }
}

} // verus!
