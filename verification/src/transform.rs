//! Placement of an entity in space.
use vstd::prelude::*;

verus! {

/// A four by four matrix of `glam`. The library stores and hands on such
/// matrices and never reads their entries.
#[verifier::external_type_specification]
#[verifier::external_body]
pub struct ExMat4(glam::Mat4);

/// A component that describes an entity's transformation in space.
pub struct Transform3D {
    pub model_matrix: glam::Mat4,
}

} // verus!
