use crate::bounding_volume::{lemma_merged_encloses, lemma_merged_minimal, AABB};
use crate::isometry::Isometry;
use crate::pipeline::{
    BroadPhaseProxyHandle, CollisionGroups, CollisionObjectGraphIndex, GeometricQueryType,
};
use crate::scalar::Scalar;
use crate::shape::{Shape, ShapeHandle};
use crate::update_flags::{Change, CollisionObjectUpdateFlags};
use vstd::prelude::*;

verus! {

/// What a collision object holds besides its user data.
pub struct CollisionObjectState<N, S> {
    pub proxy_handle: Option<BroadPhaseProxyHandle>,
    pub graph_index: Option<CollisionObjectGraphIndex>,
    pub position: Isometry<N>,
    pub predicted_position: Option<Isometry<N>>,
    pub shape: S,
    pub collision_groups: CollisionGroups,
    pub query_type: GeometricQueryType<N>,
    pub update_flags: Set<Change>,
}

impl<N: Scalar, S: Shape<N>> CollisionObjectState<N, S> {
    /// The box of the shape at `position`, loosened by the query limit.
    pub open spec fn spec_aabb_at(self, position: Isometry<N>) -> AABB<int> {
        self.shape.spec_aabb(position@).spec_loosened(self.query_type.spec_query_limit().val())
    }

    /// Whether that box can be computed without leaving the scalar type.
    pub open spec fn aabb_fits_at(self, position: Isometry<N>) -> bool {
        &&& self.shape.aabb_fits(position@)
        &&& AABB::<N>::loosen_fits(
            self.shape.spec_aabb(position@),
            self.query_type.spec_query_limit().val(),
        )
    }

    /// The loosened box at the current position.
    pub open spec fn spec_aabb(self) -> AABB<int> {
        self.spec_aabb_at(self.position)
    }

    pub open spec fn aabb_fits(self) -> bool {
        self.aabb_fits_at(self.position)
    }

    /// The loosened box at the current position, merged with the loosened box
    /// at the predicted position where there is one.
    pub open spec fn spec_swept_aabb(self) -> AABB<int> {
        match self.predicted_position {
            Some(predicted) => self.spec_aabb_at(self.position).spec_merged(
                self.spec_aabb_at(predicted),
            ),
            None => self.spec_aabb(),
        }
    }

    pub open spec fn swept_aabb_fits(self) -> bool {
        &&& self.aabb_fits()
        &&& self.predicted_position matches Some(predicted) ==> self.aabb_fits_at(predicted)
    }
}

/// Without a prediction the swept box is the box at the current position.
pub proof fn lemma_swept_aabb_without_prediction<N: Scalar, S: Shape<N>>(
    state: CollisionObjectState<N, S>,
)
    requires
        state.predicted_position is None,
    ensures
        state.spec_swept_aabb() == state.spec_aabb(),
{
}

/// With a prediction the swept box is the smallest box that encloses the two
/// loosened boxes: it encloses both, and every box `other` that encloses both
/// encloses it.
pub proof fn lemma_swept_aabb_with_prediction<N: Scalar, S: Shape<N>>(
    state: CollisionObjectState<N, S>,
    other: AABB<int>,
)
    requires
        state.predicted_position is Some,
    ensures
        state.spec_swept_aabb().spec_encloses(state.spec_aabb_at(state.position)),
        state.spec_swept_aabb().spec_encloses(
            state.spec_aabb_at(state.predicted_position->Some_0),
        ),
        other.spec_encloses(state.spec_aabb_at(state.position)) && other.spec_encloses(
            state.spec_aabb_at(state.predicted_position->Some_0),
        ) ==> other.spec_encloses(state.spec_swept_aabb()),
{
    let here = state.spec_aabb_at(state.position);
    let there = state.spec_aabb_at(state.predicted_position->Some_0);
    lemma_merged_encloses(here, there);
    if other.spec_encloses(here) && other.spec_encloses(there) {
        lemma_merged_minimal(here, there, other);
    }
}

/// Read access to a collision object, whatever stores it. Who answers the
/// eight questions gets the two bounding boxes computed.
pub trait CollisionObjectRef<N: Scalar> {
    type Shape: Shape<N>;

    /// What the eight accessors answer.
    spec fn state(&self) -> CollisionObjectState<N, Self::Shape>;

    fn graph_index(&self) -> (r: Option<CollisionObjectGraphIndex>)
        ensures
            r == self.state().graph_index,
    ;

    fn proxy_handle(&self) -> (r: Option<BroadPhaseProxyHandle>)
        ensures
            r == self.state().proxy_handle,
    ;

    fn position(&self) -> (r: &Isometry<N>)
        ensures
            *r == self.state().position,
    ;

    fn predicted_position(&self) -> (r: Option<&Isometry<N>>)
        ensures
            r == match self.state().predicted_position {
                Some(p) => Some(&p),
                None => None,
            },
    ;

    fn shape(&self) -> (r: &Self::Shape)
        ensures
            *r == self.state().shape,
    ;

    fn collision_groups(&self) -> (r: &CollisionGroups)
        ensures
            *r == self.state().collision_groups,
    ;

    fn query_type(&self) -> (r: GeometricQueryType<N>)
        ensures
            r == self.state().query_type,
    ;

    fn update_flags(&self) -> (r: CollisionObjectUpdateFlags)
        ensures
            r@ == self.state().update_flags,
    ;

    /// The bounding box of the shape at the current position, loosened by
    /// the query limit.
    fn compute_aabb(&self) -> (r: AABB<N>)
        requires
            self.state().aabb_fits(),
        ensures
            r@ == self.state().spec_aabb(),
    {
        let mut aabb = self.shape().aabb(self.position());
        aabb.loosen(self.query_type().query_limit());
        aabb
    }

    /// The box that bounds the shape both where it is and where it is
    /// predicted to be.
    fn compute_swept_aabb(&self) -> (r: AABB<N>)
        requires
            self.state().swept_aabb_fits(),
        ensures
            r@ == self.state().spec_swept_aabb(),
    {
        if let Some(predicted_pos) = self.predicted_position() {
            let shape = self.shape();
            let mut aabb1 = shape.aabb(self.position());
            let mut aabb2 = shape.aabb(predicted_pos);
            let margin = self.query_type().query_limit();
            aabb1.loosen(margin);
            aabb2.loosen(margin);
            aabb1.merge(&aabb2);
            aabb1
        } else {
            self.compute_aabb()
        }
    }
}

/// The key under which a collision object is kept by the store that owns it.
#[derive(Copy, Clone, Debug, Hash, PartialEq, Eq, Structural, PartialOrd, Ord)]
pub struct CollisionObjectSlabHandle(pub usize);

impl CollisionObjectSlabHandle {
    /// The integer that identifies the object.
    pub fn uid(&self) -> (r: usize)
        ensures
            r == self.0,
    {
        self.0
    }
}

/// A stand-alone object that has a position and a shape.
///
/// Whatever changes it also records the reason in its update flags, which
/// only `clear_update_flags` empties.
pub struct CollisionObject<N, S, T> {
    proxy_handle: Option<BroadPhaseProxyHandle>,
    graph_index: Option<CollisionObjectGraphIndex>,
    position: Isometry<N>,
    predicted_position: Option<Isometry<N>>,
    shape: ShapeHandle<S>,
    collision_groups: CollisionGroups,
    query_type: GeometricQueryType<N>,
    update_flags: CollisionObjectUpdateFlags,
    data: T,
}

impl<N: Scalar, S: Shape<N>, T> View for CollisionObject<N, S, T> {
    type V = CollisionObjectState<N, S>;

    closed spec fn view(&self) -> CollisionObjectState<N, S> {
        CollisionObjectState {
            proxy_handle: self.proxy_handle,
            graph_index: self.graph_index,
            position: self.position,
            predicted_position: self.predicted_position,
            shape: self.shape@,
            collision_groups: self.collision_groups,
            query_type: self.query_type,
            update_flags: self.update_flags@,
        }
    }
}

impl<N: Scalar, S: Shape<N>, T> CollisionObject<N, S, T> {
    /// The user data that the object carries.
    pub closed spec fn spec_data(&self) -> T {
        self.data
    }

    /// Creates a collision object without a predicted position. All its
    /// update flags are set, so that it is synchronized in full once.
    pub fn new(
        proxy_handle: Option<BroadPhaseProxyHandle>,
        graph_index: Option<CollisionObjectGraphIndex>,
        position: Isometry<N>,
        shape: ShapeHandle<S>,
        groups: CollisionGroups,
        query_type: GeometricQueryType<N>,
        data: T,
    ) -> (r: CollisionObject<N, S, T>)
        ensures
            r@ == (CollisionObjectState {
                proxy_handle,
                graph_index,
                position,
                predicted_position: None,
                shape: shape@,
                collision_groups: groups,
                query_type,
                update_flags: Set::<Change>::full(),
            }),
            r.spec_data() == data,
    {
        CollisionObject {
            proxy_handle,
            graph_index,
            position,
            predicted_position: None,
            shape,
            collision_groups: groups,
            data,
            query_type,
            update_flags: CollisionObjectUpdateFlags::all(),
        }
    }

    /// The index of the object in the narrow phase's graph.
    pub fn graph_index(&self) -> (r: Option<CollisionObjectGraphIndex>)
        ensures
            r == self@.graph_index,
    {
        self.graph_index
    }

    pub fn set_graph_index(&mut self, index: Option<CollisionObjectGraphIndex>)
        ensures
            final(self)@ == (CollisionObjectState { graph_index: index, ..old(self)@ }),
            final(self).spec_data() == old(self).spec_data(),
    {
        self.graph_index = index
    }

    /// The update flags, for writing.
    pub fn update_flags_mut(&mut self) -> (r: &mut CollisionObjectUpdateFlags)
        ensures
            r@ == old(self)@.update_flags,
            final(self)@ == (CollisionObjectState { update_flags: final(r)@, ..old(self)@ }),
            final(self).spec_data() == old(self).spec_data(),
    {
        &mut self.update_flags
    }

    /// Empties the update flags.
    pub fn clear_update_flags(&mut self)
        ensures
            final(self)@ == (CollisionObjectState {
                update_flags: Set::<Change>::empty(),
                ..old(self)@
            }),
            final(self).spec_data() == old(self).spec_data(),
    {
        self.update_flags = CollisionObjectUpdateFlags::empty()
    }

    /// The key of the object's proxy in the broad phase.
    pub fn proxy_handle(&self) -> (r: Option<BroadPhaseProxyHandle>)
        ensures
            r == self@.proxy_handle,
    {
        self.proxy_handle
    }

    pub fn set_proxy_handle(&mut self, handle: Option<BroadPhaseProxyHandle>)
        ensures
            final(self)@ == (CollisionObjectState { proxy_handle: handle, ..old(self)@ }),
            final(self).spec_data() == old(self).spec_data(),
    {
        self.proxy_handle = handle
    }

    pub fn position(&self) -> (r: &Isometry<N>)
        ensures
            *r == self@.position,
    {
        &self.position
    }

    pub fn predicted_position(&self) -> (r: Option<&Isometry<N>>)
        ensures
            r == match self@.predicted_position {
                Some(p) => Some(&p),
                None => None,
            },
    {
        self.predicted_position.as_ref()
    }

    /// Sets the position and drops the predicted position.
    pub fn set_position(&mut self, pos: Isometry<N>)
        ensures
            final(self)@ == (CollisionObjectState {
                position: pos,
                predicted_position: None,
                update_flags: old(self)@.update_flags.insert(Change::Position).insert(
                    Change::PredictedPosition,
                ),
                ..old(self)@
            }),
            final(self).spec_data() == old(self).spec_data(),
    {
        self.update_flags.insert(CollisionObjectUpdateFlags::position_changed());
        self.update_flags.insert(CollisionObjectUpdateFlags::predicted_position_changed());
        self.position = pos;
        self.predicted_position = None;
        proof {
            assert(self@.update_flags =~= old(self)@.update_flags.insert(
                Change::Position,
            ).insert(Change::PredictedPosition));
        }
    }

    /// Sets the position together with the predicted position.
    pub fn set_position_with_prediction(&mut self, pos: Isometry<N>, prediction: Isometry<N>)
        ensures
            final(self)@ == (CollisionObjectState {
                position: pos,
                predicted_position: Some(prediction),
                update_flags: old(self)@.update_flags.insert(Change::Position).insert(
                    Change::PredictedPosition,
                ),
                ..old(self)@
            }),
            final(self).spec_data() == old(self).spec_data(),
    {
        self.update_flags.insert(CollisionObjectUpdateFlags::position_changed());
        self.update_flags.insert(CollisionObjectUpdateFlags::predicted_position_changed());
        self.position = pos;
        self.predicted_position = Some(prediction);
        proof {
            assert(self@.update_flags =~= old(self)@.update_flags.insert(
                Change::Position,
            ).insert(Change::PredictedPosition));
        }
    }

    /// Sets or drops the predicted position.
    pub fn set_predicted_position(&mut self, pos: Option<Isometry<N>>)
        ensures
            final(self)@ == (CollisionObjectState {
                predicted_position: pos,
                update_flags: old(self)@.update_flags.insert(Change::PredictedPosition),
                ..old(self)@
            }),
            final(self).spec_data() == old(self).spec_data(),
    {
        self.update_flags.insert(CollisionObjectUpdateFlags::predicted_position_changed());
        self.predicted_position = pos;
        proof {
            assert(self@.update_flags =~= old(self)@.update_flags.insert(
                Change::PredictedPosition,
            ));
        }
    }

    /// Deforms the shape, which has to be deformable. The shape becomes the
    /// object's own if it was shared.
    pub fn set_deformations(&mut self, coords: &[N])
        requires
            old(self)@.shape.spec_is_deformable(),
        ensures
            final(self)@ == (CollisionObjectState {
                shape: old(self)@.shape.spec_deformed(coords@),
                update_flags: old(self)@.update_flags.insert(Change::Position),
                ..old(self)@
            }),
            final(self).spec_data() == old(self).spec_data(),
    {
        self.update_flags.insert(CollisionObjectUpdateFlags::position_changed());
        self.shape.make_mut().set_deformations(coords);
        proof {
            assert(self@.update_flags =~= old(self)@.update_flags.insert(Change::Position));
        }
    }

    /// Deforms the shape if it is deformable, and says whether it was. An
    /// object whose shape is not deformable is left as it is.
    pub fn try_set_deformations(&mut self, coords: &[N]) -> (deformed: bool)
        ensures
            deformed == old(self)@.shape.spec_is_deformable(),
            deformed ==> final(self)@ == (CollisionObjectState {
                shape: old(self)@.shape.spec_deformed(coords@),
                update_flags: old(self)@.update_flags.insert(Change::Position),
                ..old(self)@
            }),
            !deformed ==> final(self)@ == old(self)@,
            final(self).spec_data() == old(self).spec_data(),
    {
        if self.shape.as_ref().is_deformable() {
            self.set_deformations(coords);
            true
        } else {
            false
        }
    }

    pub fn shape(&self) -> (r: &ShapeHandle<S>)
        ensures
            r@ == self@.shape,
    {
        &self.shape
    }

    pub fn set_shape(&mut self, shape: ShapeHandle<S>)
        ensures
            final(self)@ == (CollisionObjectState {
                shape: shape@,
                update_flags: old(self)@.update_flags.insert(Change::Shape),
                ..old(self)@
            }),
            final(self).spec_data() == old(self).spec_data(),
    {
        self.update_flags.insert(CollisionObjectUpdateFlags::shape_changed());
        self.shape = shape;
        proof {
            assert(self@.update_flags =~= old(self)@.update_flags.insert(Change::Shape));
        }
    }

    pub fn collision_groups(&self) -> (r: &CollisionGroups)
        ensures
            *r == self@.collision_groups,
    {
        &self.collision_groups
    }

    pub fn set_collision_groups(&mut self, groups: CollisionGroups)
        ensures
            final(self)@ == (CollisionObjectState {
                collision_groups: groups,
                update_flags: old(self)@.update_flags.insert(Change::CollisionGroups),
                ..old(self)@
            }),
            final(self).spec_data() == old(self).spec_data(),
    {
        self.update_flags.insert(CollisionObjectUpdateFlags::collision_groups_changed());
        self.collision_groups = groups;
        proof {
            assert(self@.update_flags =~= old(self)@.update_flags.insert(Change::CollisionGroups));
        }
    }

    pub fn query_type(&self) -> (r: GeometricQueryType<N>)
        ensures
            r == self@.query_type,
    {
        self.query_type
    }

    pub fn set_query_type(&mut self, query_type: GeometricQueryType<N>)
        ensures
            final(self)@ == (CollisionObjectState {
                query_type,
                update_flags: old(self)@.update_flags.insert(Change::QueryType),
                ..old(self)@
            }),
            final(self).spec_data() == old(self).spec_data(),
    {
        self.update_flags.insert(CollisionObjectUpdateFlags::query_type_changed());
        self.query_type = query_type;
        proof {
            assert(self@.update_flags =~= old(self)@.update_flags.insert(Change::QueryType));
        }
    }

    pub fn data(&self) -> (r: &T)
        ensures
            *r == self.spec_data(),
    {
        &self.data
    }

    pub fn data_mut(&mut self) -> (r: &mut T)
        ensures
            *r == old(self).spec_data(),
            final(self).spec_data() == *final(r),
            final(self)@ == old(self)@,
    {
        &mut self.data
    }
}

impl<N: Scalar, S: Shape<N>, T> CollisionObjectRef<N> for CollisionObject<N, S, T> {
    type Shape = S;

    open spec fn state(&self) -> CollisionObjectState<N, S> {
        self@
    }

    fn graph_index(&self) -> (r: Option<CollisionObjectGraphIndex>) {
        self.graph_index
    }

    fn proxy_handle(&self) -> (r: Option<BroadPhaseProxyHandle>) {
        self.proxy_handle
    }

    fn position(&self) -> (r: &Isometry<N>) {
        &self.position
    }

    fn predicted_position(&self) -> (r: Option<&Isometry<N>>) {
        self.predicted_position.as_ref()
    }

    fn shape(&self) -> (r: &S) {
        self.shape.as_ref()
    }

    fn collision_groups(&self) -> (r: &CollisionGroups) {
        &self.collision_groups
    }

    fn query_type(&self) -> (r: GeometricQueryType<N>) {
        self.query_type
    }

    fn update_flags(&self) -> (r: CollisionObjectUpdateFlags) {
        self.update_flags
    }
}

} // verus!
