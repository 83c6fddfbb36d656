use crate::scalar::{
    decimal_text, floor_sqrt, is_floor_sqrt, lemma_floor_sqrt_exists, lemma_trunc_div_between,
    lemma_trunc_div_small, trunc_div, Scalar,
};
use vstd::prelude::*;
use vstd::string::StringExecFns;

verus! {

/// A vector with three components.
///
/// With machine scalars it is an executable value; with `int` components it is
/// the mathematical vector that the contracts speak of.
#[derive(Debug, PartialEq, Eq)]
pub struct Vec3<T> {
    pub x: T,
    pub y: T,
    pub z: T,
}

impl<T: Copy> Clone for Vec3<T> {
    fn clone(&self) -> (r: Vec3<T>)
        ensures
            r == *self,
    {
        *self
    }
}

impl<T: Copy> Copy for Vec3<T> {

}

/// Builds a vector from its three components.
pub fn vec3<T: Copy>(x: T, y: T, z: T) -> (v: Vec3<T>)
    ensures
        v == (Vec3 { x, y, z }),
{
    Vec3 { x, y, z }
}

impl<T: Scalar> View for Vec3<T> {
    type V = Vec3<int>;

    open spec fn view(&self) -> Vec3<int> {
        Vec3 { x: self.x.val(), y: self.y.val(), z: self.z.val() }
    }
}

pub open spec fn spec_min(a: int, b: int) -> int {
    if a <= b {
        a
    } else {
        b
    }
}

pub open spec fn spec_max(a: int, b: int) -> int {
    if a >= b {
        a
    } else {
        b
    }
}

impl Vec3<int> {
    pub open spec fn spec_zero() -> Vec3<int> {
        Vec3 { x: 0, y: 0, z: 0 }
    }

    pub open spec fn spec_add(self, other: Vec3<int>) -> Vec3<int> {
        Vec3 { x: self.x + other.x, y: self.y + other.y, z: self.z + other.z }
    }

    pub open spec fn spec_sub(self, other: Vec3<int>) -> Vec3<int> {
        Vec3 { x: self.x - other.x, y: self.y - other.y, z: self.z - other.z }
    }

    pub open spec fn spec_neg(self) -> Vec3<int> {
        Vec3 { x: -self.x, y: -self.y, z: -self.z }
    }

    pub open spec fn spec_scalar_mul(self, s: int) -> Vec3<int> {
        Vec3 { x: self.x * s, y: self.y * s, z: self.z * s }
    }

    /// Each component divided by `s`, rounded toward zero.
    pub open spec fn spec_scalar_div(self, s: int) -> Vec3<int> {
        Vec3 { x: trunc_div(self.x, s), y: trunc_div(self.y, s), z: trunc_div(self.z, s) }
    }

    pub open spec fn spec_scalar_add(self, s: int) -> Vec3<int> {
        Vec3 { x: self.x + s, y: self.y + s, z: self.z + s }
    }

    pub open spec fn spec_scalar_sub(self, s: int) -> Vec3<int> {
        Vec3 { x: self.x - s, y: self.y - s, z: self.z - s }
    }

    pub open spec fn spec_dot(self, other: Vec3<int>) -> int {
        self.x * other.x + self.y * other.y + self.z * other.z
    }

    pub open spec fn spec_sqnorm(self) -> int {
        self.spec_dot(self)
    }

    /// The length, rounded down to an integer.
    pub open spec fn spec_norm(self) -> int {
        floor_sqrt(self.spec_sqnorm())
    }

    /// The vector divided by its rounded-down length.
    pub open spec fn spec_normalized(self) -> Vec3<int> {
        self.spec_scalar_div(self.spec_norm())
    }

    pub open spec fn spec_cross(self, other: Vec3<int>) -> Vec3<int> {
        Vec3 {
            x: self.y * other.z - self.z * other.y,
            y: self.z * other.x - self.x * other.z,
            z: self.x * other.y - self.y * other.x,
        }
    }

    /// The vector perpendicular to `self` from which the basis of its
    /// orthogonal plane is built: it borrows from the x axis when `|x| > |y|`
    /// and from the y axis otherwise.
    pub open spec fn spec_orthogonal_seed(self) -> Vec3<int> {
        if vstd::math::abs(self.x) > vstd::math::abs(self.y) {
            Vec3 { x: self.z, y: 0, z: -self.x }
        } else {
            Vec3 { x: 0, y: -self.z, z: self.y }
        }
    }

    /// The text `Vec3 { x : .., y : .., z : .. }` with the components in
    /// decimal digits.
    pub open spec fn spec_to_str(self) -> Seq<char> {
        "Vec3 { x : "@ + decimal_text(self.x) + ", y : "@ + decimal_text(self.y) + ", z : "@
            + decimal_text(self.z) + " }"@
    }

    /// Whether every component of the difference is smaller than `eps` in
    /// absolute value.
    pub open spec fn spec_approx_eq_eps(self, other: Vec3<int>, eps: int) -> bool {
        &&& vstd::math::abs(self.x - other.x) < eps
        &&& vstd::math::abs(self.y - other.y) < eps
        &&& vstd::math::abs(self.z - other.z) < eps
    }

    /// The component-wise minimum.
    pub open spec fn spec_inf(self, other: Vec3<int>) -> Vec3<int> {
        Vec3 {
            x: spec_min(self.x, other.x),
            y: spec_min(self.y, other.y),
            z: spec_min(self.z, other.z),
        }
    }

    /// The component-wise maximum.
    pub open spec fn spec_sup(self, other: Vec3<int>) -> Vec3<int> {
        Vec3 {
            x: spec_max(self.x, other.x),
            y: spec_max(self.y, other.y),
            z: spec_max(self.z, other.z),
        }
    }

    /// Whether no component is larger than that of `other`.
    pub open spec fn spec_le(self, other: Vec3<int>) -> bool {
        self.x <= other.x && self.y <= other.y && self.z <= other.z
    }
}

impl<T: Scalar> Vec3<T> {
    /// The vector that stands for the mathematical vector `m`, where the
    /// scalar type can hold its components.
    pub open spec fn spec_from(m: Vec3<int>) -> Vec3<T> {
        choose|r: Vec3<T>| r@ == m
    }
}

/// Two vectors that stand for the same mathematical vector are the same.
pub proof fn lemma_view_injective<T: Scalar>(a: Vec3<T>, b: Vec3<T>)
    requires
        a@ == b@,
    ensures
        a == b,
{
    a.x.lemma_val_injective(b.x);
    a.y.lemma_val_injective(b.y);
    a.z.lemma_val_injective(b.z);
}

/// What each operation asks of its operands: that every intermediate result
/// is an integer that the scalar type `T` can hold.
impl<T: Scalar> Vec3<T> {
    pub open spec fn add_fits(a: Vec3<int>, b: Vec3<int>) -> bool {
        T::fits(a.x + b.x) && T::fits(a.y + b.y) && T::fits(a.z + b.z)
    }

    pub open spec fn sub_fits(a: Vec3<int>, b: Vec3<int>) -> bool {
        T::fits(a.x - b.x) && T::fits(a.y - b.y) && T::fits(a.z - b.z)
    }

    pub open spec fn neg_fits(a: Vec3<int>) -> bool {
        T::fits(-a.x) && T::fits(-a.y) && T::fits(-a.z)
    }

    pub open spec fn scalar_mul_fits(a: Vec3<int>, s: int) -> bool {
        T::fits(a.x * s) && T::fits(a.y * s) && T::fits(a.z * s)
    }

    pub open spec fn scalar_div_fits(a: Vec3<int>, s: int) -> bool {
        &&& s != 0
        &&& T::fits(trunc_div(a.x, s))
        &&& T::fits(trunc_div(a.y, s))
        &&& T::fits(trunc_div(a.z, s))
    }

    pub open spec fn scalar_add_fits(a: Vec3<int>, s: int) -> bool {
        T::fits(a.x + s) && T::fits(a.y + s) && T::fits(a.z + s)
    }

    pub open spec fn scalar_sub_fits(a: Vec3<int>, s: int) -> bool {
        T::fits(a.x - s) && T::fits(a.y - s) && T::fits(a.z - s)
    }

    pub open spec fn dot_fits(a: Vec3<int>, b: Vec3<int>) -> bool {
        &&& T::fits(a.x * b.x)
        &&& T::fits(a.y * b.y)
        &&& T::fits(a.z * b.z)
        &&& T::fits(a.x * b.x + a.y * b.y)
        &&& T::fits(a.x * b.x + a.y * b.y + a.z * b.z)
    }

    /// The squared length fits and the rounded-down length is not zero.
    pub open spec fn normalized_fits(a: Vec3<int>) -> bool {
        Self::dot_fits(a, a) && a.spec_norm() != 0
    }

    pub open spec fn cross_fits(a: Vec3<int>, b: Vec3<int>) -> bool {
        &&& T::fits(a.y * b.z) && T::fits(a.z * b.y) && T::fits(a.y * b.z - a.z * b.y)
        &&& T::fits(a.z * b.x) && T::fits(a.x * b.z) && T::fits(a.z * b.x - a.x * b.z)
        &&& T::fits(a.x * b.y) && T::fits(a.y * b.x) && T::fits(a.x * b.y - a.y * b.x)
    }

    pub open spec fn orthogonal_subspace_basis_fits(a: Vec3<int>) -> bool {
        &&& T::fits(vstd::math::abs(a.x) as int)
        &&& T::fits(vstd::math::abs(a.y) as int)
        &&& if vstd::math::abs(a.x) > vstd::math::abs(a.y) {
            T::fits(-a.x)
        } else {
            T::fits(-a.z)
        }
        &&& Self::normalized_fits(a.spec_orthogonal_seed())
        &&& Self::cross_fits(a.spec_orthogonal_seed().spec_normalized(), a)
    }
}

impl<T: Scalar> Vec3<T> {
    /// The number of components.
    pub fn dim() -> (r: usize)
        ensures
            r == 3,
    {
        3
    }

    pub fn scalar_mul(&self, s: &T) -> (r: Vec3<T>)
        requires
            Self::scalar_mul_fits(self@, s.val()),
        ensures
            r@ == self@.spec_scalar_mul(s.val()),
    {
        Vec3 { x: self.x.mul(*s), y: self.y.mul(*s), z: self.z.mul(*s) }
    }

    pub fn scalar_mul_inplace(&mut self, s: &T)
        requires
            Self::scalar_mul_fits(old(self)@, s.val()),
        ensures
            final(self)@ == old(self)@.spec_scalar_mul(s.val()),
    {
        self.x = self.x.mul(*s);
        self.y = self.y.mul(*s);
        self.z = self.z.mul(*s);
    }

    pub fn scalar_div(&self, s: &T) -> (r: Vec3<T>)
        requires
            Self::scalar_div_fits(self@, s.val()),
        ensures
            r@ == self@.spec_scalar_div(s.val()),
    {
        Vec3 { x: self.x.div(*s), y: self.y.div(*s), z: self.z.div(*s) }
    }

    pub fn scalar_div_inplace(&mut self, s: &T)
        requires
            Self::scalar_div_fits(old(self)@, s.val()),
        ensures
            final(self)@ == old(self)@.spec_scalar_div(s.val()),
    {
        self.x = self.x.div(*s);
        self.y = self.y.div(*s);
        self.z = self.z.div(*s);
    }

    pub fn scalar_add(&self, s: &T) -> (r: Vec3<T>)
        requires
            Self::scalar_add_fits(self@, s.val()),
        ensures
            r@ == self@.spec_scalar_add(s.val()),
    {
        Vec3 { x: self.x.add(*s), y: self.y.add(*s), z: self.z.add(*s) }
    }

    pub fn scalar_add_inplace(&mut self, s: &T)
        requires
            Self::scalar_add_fits(old(self)@, s.val()),
        ensures
            final(self)@ == old(self)@.spec_scalar_add(s.val()),
    {
        self.x = self.x.add(*s);
        self.y = self.y.add(*s);
        self.z = self.z.add(*s);
    }

    pub fn scalar_sub(&self, s: &T) -> (r: Vec3<T>)
        requires
            Self::scalar_sub_fits(self@, s.val()),
        ensures
            r@ == self@.spec_scalar_sub(s.val()),
    {
        Vec3 { x: self.x.sub(*s), y: self.y.sub(*s), z: self.z.sub(*s) }
    }

    pub fn scalar_sub_inplace(&mut self, s: &T)
        requires
            Self::scalar_sub_fits(old(self)@, s.val()),
        ensures
            final(self)@ == old(self)@.spec_scalar_sub(s.val()),
    {
        self.x = self.x.sub(*s);
        self.y = self.y.sub(*s);
        self.z = self.z.sub(*s);
    }

    /// The displacement that this vector stands for: itself.
    pub fn translation(&self) -> (r: Vec3<T>)
        ensures
            r == *self,
    {
        *self
    }

    pub fn translated(&self, t: &Vec3<T>) -> (r: Vec3<T>)
        requires
            Self::add_fits(self@, t@),
        ensures
            r@ == self@.spec_add(t@),
    {
        *self + *t
    }

    pub fn translate(&mut self, t: &Vec3<T>)
        requires
            Self::add_fits(old(self)@, t@),
        ensures
            final(self)@ == old(self)@.spec_add(t@),
    {
        *self = *self + *t;
    }

    pub fn dot(&self, other: &Vec3<T>) -> (r: T)
        requires
            Self::dot_fits(self@, other@),
        ensures
            r.val() == self@.spec_dot(other@),
    {
        self.x.mul(other.x).add(self.y.mul(other.y)).add(self.z.mul(other.z))
    }

    pub fn sqnorm(&self) -> (r: T)
        requires
            Self::dot_fits(self@, self@),
        ensures
            r.val() == self@.spec_sqnorm(),
    {
        self.dot(self)
    }

    pub fn norm(&self) -> (r: T)
        requires
            Self::dot_fits(self@, self@),
        ensures
            r.val() == self@.spec_norm(),
    {
        proof {
            lemma_sqnorm_nonnegative(self@);
        }
        self.sqnorm().sqrt()
    }

    pub fn normalized(&self) -> (r: Vec3<T>)
        requires
            Self::normalized_fits(self@),
        ensures
            r@ == self@.spec_normalized(),
    {
        let l = self.norm();
        proof {
            lemma_norm_is_floor_sqrt(self@);
            lemma_trunc_div_between(self.x.val(), l.val());
            lemma_trunc_div_between(self.y.val(), l.val());
            lemma_trunc_div_between(self.z.val(), l.val());
            self.x.lemma_fits(trunc_div(self.x.val(), l.val()));
            self.y.lemma_fits(trunc_div(self.y.val(), l.val()));
            self.z.lemma_fits(trunc_div(self.z.val(), l.val()));
        }
        vec3(self.x.div(l), self.y.div(l), self.z.div(l))
    }

    /// Divides the vector by its length and returns the length it had.
    pub fn normalize(&mut self) -> (l: T)
        requires
            Self::normalized_fits(old(self)@),
        ensures
            l.val() == old(self)@.spec_norm(),
            final(self)@ == old(self)@.spec_normalized(),
    {
        let l = self.norm();
        proof {
            lemma_norm_is_floor_sqrt(self@);
            lemma_trunc_div_between(self.x.val(), l.val());
            lemma_trunc_div_between(self.y.val(), l.val());
            lemma_trunc_div_between(self.z.val(), l.val());
            self.x.lemma_fits(trunc_div(self.x.val(), l.val()));
            self.y.lemma_fits(trunc_div(self.y.val(), l.val()));
            self.z.lemma_fits(trunc_div(self.z.val(), l.val()));
        }
        self.x = self.x.div(l);
        self.y = self.y.div(l);
        self.z = self.z.div(l);
        l
    }

    pub fn cross(&self, other: &Vec3<T>) -> (r: Vec3<T>)
        requires
            Self::cross_fits(self@, other@),
        ensures
            r@ == self@.spec_cross(other@),
    {
        vec3(
            self.y.mul(other.z).sub(self.z.mul(other.y)),
            self.z.mul(other.x).sub(self.x.mul(other.z)),
            self.x.mul(other.y).sub(self.y.mul(other.x)),
        )
    }

    pub fn zero() -> (r: Vec3<T>)
        ensures
            r@ == Vec3::<int>::spec_zero(),
    {
        let z = T::zero();
        vec3(z, z, z)
    }

    pub fn is_zero(&self) -> (r: bool)
        ensures
            r == (self@ == Vec3::<int>::spec_zero()),
    {
        self.x.is_zero() && self.y.is_zero() && self.z.is_zero()
    }

    /// The three unit vectors, along x, then y, then z.
    pub fn canonical_basis() -> (r: Vec<Vec3<T>>)
        ensures
            r@.len() == 3,
            r@[0]@ == (Vec3::<int> { x: 1, y: 0, z: 0 }),
            r@[1]@ == (Vec3::<int> { x: 0, y: 1, z: 0 }),
            r@[2]@ == (Vec3::<int> { x: 0, y: 0, z: 1 }),
    {
        let mut basis: Vec<Vec3<T>> = Vec::new();
        basis.push(vec3(T::one(), T::zero(), T::zero()));
        basis.push(vec3(T::zero(), T::one(), T::zero()));
        basis.push(vec3(T::zero(), T::zero(), T::one()));
        basis
    }

    /// Two vectors that span the plane perpendicular to `self`: the
    /// normalized seed, then its cross product with `self`.
    pub fn orthogonal_subspace_basis(&self) -> (r: Vec<Vec3<T>>)
        requires
            Self::orthogonal_subspace_basis_fits(self@),
        ensures
            r@.len() == 2,
            r@[0]@ == self@.spec_orthogonal_seed().spec_normalized(),
            r@[1]@ == r@[0]@.spec_cross(self@),
            r@[1]@.spec_dot(r@[0]@) == 0,
            r@[1]@.spec_dot(self@) == 0,
    {
        let a = if self.y.abs().lt(self.x.abs()) {
            vec3(self.z, T::zero(), self.x.neg()).normalized()
        } else {
            vec3(T::zero(), self.z.neg(), self.y).normalized()
        };
        let b = a.cross(self);
        proof {
            lemma_cross_orthogonal(a@, self@);
        }
        let mut basis: Vec<Vec3<T>> = Vec::new();
        basis.push(a);
        basis.push(b);
        basis
    }

    pub fn approx_epsilon() -> (r: T)
        ensures
            r.val() == T::epsilon(),
    {
        T::approx_epsilon()
    }

    /// Approximate equality within the scalar type's own tolerance.
    pub fn approx_eq(&self, other: &Vec3<T>) -> (r: bool)
        ensures
            r == self@.spec_approx_eq_eps(other@, T::epsilon()),
    {
        let eps = T::approx_epsilon();
        self.approx_eq_eps(other, &eps)
    }

    /// Approximate equality within the tolerance `epsilon`.
    pub fn approx_eq_eps(&self, other: &Vec3<T>, epsilon: &T) -> (r: bool)
        ensures
            r == self@.spec_approx_eq_eps(other@, epsilon.val()),
    {
        self.x.approx_eq_eps(other.x, *epsilon) && self.y.approx_eq_eps(other.y, *epsilon)
            && self.z.approx_eq_eps(other.z, *epsilon)
    }

    /// The component-wise minimum.
    pub fn inf(&self, other: &Vec3<T>) -> (r: Vec3<T>)
        ensures
            r@ == self@.spec_inf(other@),
    {
        vec3(
            if other.x.lt(self.x) {
                other.x
            } else {
                self.x
            },
            if other.y.lt(self.y) {
                other.y
            } else {
                self.y
            },
            if other.z.lt(self.z) {
                other.z
            } else {
                self.z
            },
        )
    }

    /// The component-wise maximum.
    pub fn sup(&self, other: &Vec3<T>) -> (r: Vec3<T>)
        ensures
            r@ == self@.spec_sup(other@),
    {
        vec3(
            if self.x.lt(other.x) {
                other.x
            } else {
                self.x
            },
            if self.y.lt(other.y) {
                other.y
            } else {
                self.y
            },
            if self.z.lt(other.z) {
                other.z
            } else {
                self.z
            },
        )
    }

    /// A vector whose components are three results of `draw`, drawn in the
    /// order x, y, z.
    pub fn rand<F: Fn() -> T>(draw: &F) -> (r: Vec3<T>)
        requires
            draw.requires(()),
        ensures
            draw.ensures((), r.x),
            draw.ensures((), r.y),
            draw.ensures((), r.z),
    {
        let x = draw();
        let y = draw();
        let z = draw();
        vec3(x, y, z)
    }

    pub fn to_str(&self) -> (r: String)
        ensures
            r@ == self@.spec_to_str(),
    {
        let mut s = String::from_str("Vec3 { x : ");
        s.append(self.x.to_str().as_str());
        s.append(", y : ");
        s.append(self.y.to_str().as_str());
        s.append(", z : ");
        s.append(self.z.to_str().as_str());
        s.append(" }");
        s
    }
}

impl<T: Scalar> core::ops::Add for Vec3<T> {
    type Output = Vec3<T>;

    fn add(self, other: Vec3<T>) -> (r: Vec3<T>)
        ensures
            r@ == self@.spec_add(other@),
    {
        let r = vec3(self.x.add(other.x), self.y.add(other.y), self.z.add(other.z));
        proof {
            lemma_view_injective(r, Self::spec_from(self@.spec_add(other@)));
        }
        r
    }
}

impl<T: Scalar> vstd::std_specs::ops::AddSpecImpl for Vec3<T> {
    open spec fn obeys_add_spec() -> bool {
        true
    }

    open spec fn add_req(self, other: Vec3<T>) -> bool {
        Self::add_fits(self@, other@)
    }

    /// The vector that stands for `self@.spec_add(other@)`.
    open spec fn add_spec(self, other: Vec3<T>) -> Vec3<T> {
        Self::spec_from(self@.spec_add(other@))
    }
}

impl<T: Scalar> core::ops::Sub for Vec3<T> {
    type Output = Vec3<T>;

    fn sub(self, other: Vec3<T>) -> (r: Vec3<T>)
        ensures
            r@ == self@.spec_sub(other@),
    {
        let r = vec3(self.x.sub(other.x), self.y.sub(other.y), self.z.sub(other.z));
        proof {
            lemma_view_injective(r, Self::spec_from(self@.spec_sub(other@)));
        }
        r
    }
}

impl<T: Scalar> vstd::std_specs::ops::SubSpecImpl for Vec3<T> {
    open spec fn obeys_sub_spec() -> bool {
        true
    }

    open spec fn sub_req(self, other: Vec3<T>) -> bool {
        Self::sub_fits(self@, other@)
    }

    /// The vector that stands for `self@.spec_sub(other@)`.
    open spec fn sub_spec(self, other: Vec3<T>) -> Vec3<T> {
        Self::spec_from(self@.spec_sub(other@))
    }
}

impl<T: Scalar> core::ops::Neg for Vec3<T> {
    type Output = Vec3<T>;

    fn neg(self) -> (r: Vec3<T>)
        ensures
            r@ == self@.spec_neg(),
    {
        let r = vec3(self.x.neg(), self.y.neg(), self.z.neg());
        proof {
            lemma_view_injective(r, Self::spec_from(self@.spec_neg()));
        }
        r
    }
}

impl<T: Scalar> vstd::std_specs::ops::NegSpecImpl for Vec3<T> {
    open spec fn obeys_neg_spec() -> bool {
        true
    }

    open spec fn neg_req(self) -> bool {
        Self::neg_fits(self@)
    }

    /// The vector that stands for `self@.spec_neg()`.
    open spec fn neg_spec(self) -> Vec3<T> {
        Self::spec_from(self@.spec_neg())
    }
}

/// A squared length is never negative.
pub proof fn lemma_sqnorm_nonnegative(a: Vec3<int>)
    ensures
        a.spec_sqnorm() >= 0,
{
    assert(a.x * a.x >= 0) by (nonlinear_arith);
    assert(a.y * a.y >= 0) by (nonlinear_arith);
    assert(a.z * a.z >= 0) by (nonlinear_arith);
}

/// The rounded-down length is the one integer `l >= 0` with
/// `l * l <= |a|^2 < (l + 1) * (l + 1)`.
pub proof fn lemma_norm_is_floor_sqrt(a: Vec3<int>)
    ensures
        is_floor_sqrt(a.spec_norm(), a.spec_sqnorm()),
{
    lemma_sqnorm_nonnegative(a);
    lemma_floor_sqrt_exists(a.spec_sqnorm());
}

/// Vector addition is commutative.
pub proof fn lemma_add_commutative(a: Vec3<int>, b: Vec3<int>)
    ensures
        a.spec_add(b) == b.spec_add(a),
{
}

/// Vector addition is associative.
pub proof fn lemma_add_associative(a: Vec3<int>, b: Vec3<int>, c: Vec3<int>)
    ensures
        a.spec_add(b).spec_add(c) == a.spec_add(b.spec_add(c)),
{
}

/// A vector minus itself is the zero vector.
pub proof fn lemma_sub_self_is_zero(a: Vec3<int>)
    ensures
        a.spec_sub(a) == Vec3::<int>::spec_zero(),
{
}

/// The cross product of a vector with itself is the zero vector.
pub proof fn lemma_cross_self_is_zero(a: Vec3<int>)
    ensures
        a.spec_cross(a) == Vec3::<int>::spec_zero(),
{
    assert(a.y * a.z - a.z * a.y == 0) by (nonlinear_arith);
    assert(a.z * a.x - a.x * a.z == 0) by (nonlinear_arith);
    assert(a.x * a.y - a.y * a.x == 0) by (nonlinear_arith);
}

/// The dot product is commutative.
pub proof fn lemma_dot_commutative(a: Vec3<int>, b: Vec3<int>)
    ensures
        a.spec_dot(b) == b.spec_dot(a),
{
    assert(a.x * b.x == b.x * a.x) by (nonlinear_arith);
    assert(a.y * b.y == b.y * a.y) by (nonlinear_arith);
    assert(a.z * b.z == b.z * a.z) by (nonlinear_arith);
}

/// Swapping the operands of the cross product negates it.
pub proof fn lemma_cross_anticommutative(a: Vec3<int>, b: Vec3<int>)
    ensures
        a.spec_cross(b) == b.spec_cross(a).spec_neg(),
{
    assert(a.y * b.z - a.z * b.y == -(b.y * a.z - b.z * a.y)) by (nonlinear_arith);
    assert(a.z * b.x - a.x * b.z == -(b.z * a.x - b.x * a.z)) by (nonlinear_arith);
    assert(a.x * b.y - a.y * b.x == -(b.x * a.y - b.y * a.x)) by (nonlinear_arith);
}

/// A length that is not zero is at least as large as each component.
proof fn lemma_component_within_norm(c: int, rest: int, l: int)
    requires
        rest >= 0,
        is_floor_sqrt(l, c * c + rest),
    ensures
        -l <= c <= l,
{
    assert(-l <= c <= l) by (nonlinear_arith)
        requires
            0 <= l,
            c * c + rest < (l + 1) * (l + 1),
            rest >= 0,
    ;
}

/// What is left of "a normalized vector has length one and keeps its
/// direction" when lengths and quotients are rounded: a vector whose
/// rounded-down length is not zero is normalized to one whose components are
/// -1, 0 or 1, none of them pointing against the component it came from, and
/// whose rounded-down length is at most 1.
pub proof fn lemma_normalized_bounds(a: Vec3<int>)
    requires
        a.spec_norm() != 0,
    ensures
        -1 <= a.spec_normalized().x <= 1,
        -1 <= a.spec_normalized().y <= 1,
        -1 <= a.spec_normalized().z <= 1,
        a.spec_normalized().x * a.x >= 0,
        a.spec_normalized().y * a.y >= 0,
        a.spec_normalized().z * a.z >= 0,
        a.spec_normalized().spec_norm() <= 1,
{
    let l = a.spec_norm();
    let n = a.spec_normalized();
    lemma_norm_is_floor_sqrt(a);
    assert(a.x * a.x >= 0 && a.y * a.y >= 0 && a.z * a.z >= 0) by (nonlinear_arith);
    lemma_component_within_norm(a.x, a.y * a.y + a.z * a.z, l);
    lemma_component_within_norm(a.y, a.x * a.x + a.z * a.z, l);
    lemma_component_within_norm(a.z, a.x * a.x + a.y * a.y, l);
    lemma_trunc_div_small(a.x, l);
    lemma_trunc_div_small(a.y, l);
    lemma_trunc_div_small(a.z, l);
    lemma_trunc_div_between(a.x, l);
    lemma_trunc_div_between(a.y, l);
    lemma_trunc_div_between(a.z, l);
    assert(n.x * a.x >= 0) by (nonlinear_arith)
        requires
            0 <= n.x <= a.x || a.x <= n.x <= 0,
    ;
    assert(n.y * a.y >= 0) by (nonlinear_arith)
        requires
            0 <= n.y <= a.y || a.y <= n.y <= 0,
    ;
    assert(n.z * a.z >= 0) by (nonlinear_arith)
        requires
            0 <= n.z <= a.z || a.z <= n.z <= 0,
    ;
    assert(n.spec_sqnorm() <= 3) by (nonlinear_arith)
        requires
            -1 <= n.x <= 1,
            -1 <= n.y <= 1,
            -1 <= n.z <= 1,
            n.spec_sqnorm() == n.x * n.x + n.y * n.y + n.z * n.z,
    ;
    lemma_norm_is_floor_sqrt(n);
    let m = n.spec_norm();
    if m >= 2 {
        assert(m * m >= 4) by (nonlinear_arith)
            requires
                m >= 2,
        ;
    }
}

/// The cross product is perpendicular to both of its operands.
pub proof fn lemma_cross_orthogonal(a: Vec3<int>, b: Vec3<int>)
    ensures
        a.spec_cross(b).spec_dot(a) == 0,
        a.spec_cross(b).spec_dot(b) == 0,
{
    assert((a.y * b.z - a.z * b.y) * a.x + (a.z * b.x - a.x * b.z) * a.y + (a.x * b.y - a.y * b.x)
        * a.z == 0) by (nonlinear_arith);
    assert((a.y * b.z - a.z * b.y) * b.x + (a.z * b.x - a.x * b.z) * b.y + (a.x * b.y - a.y * b.x)
        * b.z == 0) by (nonlinear_arith);
}

/// The seed of the orthogonal basis is perpendicular to the vector.
pub proof fn lemma_orthogonal_seed(a: Vec3<int>)
    ensures
        a.spec_orthogonal_seed().spec_dot(a) == 0,
{
    assert(a.z * a.x + 0 * a.y + (-a.x) * a.z == 0) by (nonlinear_arith);
    assert(0 * a.x + (-a.z) * a.y + a.y * a.z == 0) by (nonlinear_arith);
}

} // verus!
