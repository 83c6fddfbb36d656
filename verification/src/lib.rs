//! The object layer of a 3D collision-detection pipeline: integer vector
//! algebra, bounding boxes, and collision objects that record what changed
//! since they were last synchronized.

pub mod bounding_volume;
pub mod collision_object;
pub mod isometry;
pub mod pipeline;
pub mod scalar;
pub mod shape;
pub mod update_flags;
pub mod vec3;
