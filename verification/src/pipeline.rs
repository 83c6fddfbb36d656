use crate::scalar::Scalar;
use vstd::prelude::*;

verus! {

/// The key of a collision object's proxy in the broad phase, which hands it
/// out and takes it back.
#[derive(Clone, Copy, Debug, PartialEq, Eq, Structural, Hash)]
pub struct BroadPhaseProxyHandle(pub usize);

impl BroadPhaseProxyHandle {
    pub fn uid(&self) -> (r: usize)
        ensures
            r == self.0,
    {
        self.0
    }
}

/// The index of a collision object's node in the narrow phase's graph. The
/// narrow phase assigns it and may change it when another object leaves.
#[derive(Clone, Copy, Debug, PartialEq, Eq, Structural, Hash)]
pub struct CollisionObjectGraphIndex(pub usize);

impl CollisionObjectGraphIndex {
    pub fn index(&self) -> (r: usize)
        ensures
            r == self.0,
    {
        self.0
    }
}

/// The groups an object belongs to and those it may or may not meet, one bit
/// per group.
#[derive(Clone, Copy, Debug, PartialEq, Eq, Structural, Hash)]
pub struct CollisionGroups {
    pub membership: u32,
    pub whitelist: u32,
    pub blacklist: u32,
}

/// The queries that an object takes part in, with the distance up to which
/// they matter.
#[derive(Debug, PartialEq, Eq)]
pub enum GeometricQueryType<N> {
    /// Contact points, predicted up to a linear and an angular distance.
    Contacts(N, N),
    /// Proximity, up to a margin.
    Proximity(N),
}

impl<N: Copy> Clone for GeometricQueryType<N> {
    fn clone(&self) -> (r: GeometricQueryType<N>)
        ensures
            r == *self,
    {
        *self
    }
}

impl<N: Copy> Copy for GeometricQueryType<N> {

}

impl<N: Scalar> GeometricQueryType<N> {
    /// The distance by which bounding volumes are loosened.
    pub open spec fn spec_query_limit(&self) -> N {
        match self {
            GeometricQueryType::Contacts(linear, _) => *linear,
            GeometricQueryType::Proximity(margin) => *margin,
        }
    }

    pub fn query_limit(&self) -> (r: N)
        ensures
            r == self.spec_query_limit(),
    {
        match self {
            GeometricQueryType::Contacts(linear, _) => *linear,
            GeometricQueryType::Proximity(margin) => *margin,
        }
    }
}

} // verus!
