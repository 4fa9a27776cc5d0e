//! The camera component.
use crate::handle::Handle;
use vstd::prelude::*;

verus! {

/// A camera: a projection and the surface that it is rendered to.
pub struct Camera {
    projection_matrix: glam::Mat4,
    render_target: Handle,
}

impl Camera {
    /// The projection of this camera.
    pub closed spec fn projection(&self) -> glam::Mat4 {
        self.projection_matrix
    }

    /// The surface that this camera is rendered to.
    pub closed spec fn target(&self) -> Handle {
        self.render_target
    }

    /// Creates a camera that renders to `render_target` with the given projection.
    pub fn new(render_target: Handle, projection_matrix: glam::Mat4) -> (camera: Self)
        ensures
            camera.target() == render_target,
            camera.projection() == projection_matrix,
    {
        Camera { projection_matrix, render_target }
    }

    /// The surface that this camera is rendered to.
    pub fn get_render_target(&self) -> (target: Handle)
        ensures
            target == self.target(),
    {
        self.render_target
    }

    /// The projection of this camera.
    pub fn get_projection_matrix(&self) -> (matrix: &glam::Mat4)
        ensures
            *matrix == self.projection(),
    {
        &self.projection_matrix
    }
}

} // verus!
