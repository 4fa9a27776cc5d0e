//! The components that the library itself defines, as one stored form, so
//! that a world can be made of them without further ado.
//!
//! A world with components of its own defines its own stored form, with a
//! variant for each of its component types and for each of these.
use crate::camera::Camera;
use crate::ecs::Component;
use crate::mesh::RenderMesh;
use crate::transform::Transform3D;
use vstd::prelude::*;

verus! {

/// The kind of [`Transform3D`] in a [`SceneComponent`].
pub const TRANSFORM_KIND: u64 = 1;

/// The kind of [`Camera`] in a [`SceneComponent`].
pub const CAMERA_KIND: u64 = 2;

/// The kind of [`RenderMesh`] in a [`SceneComponent`].
pub const RENDER_MESH_KIND: u64 = 3;

/// The stored form of the library's own components.
pub enum SceneComponent {
    Transform3D(Transform3D),
    Camera(Camera),
    RenderMesh(RenderMesh),
}

impl Component<SceneComponent> for Transform3D {
    open spec fn kind() -> u64 {
        TRANSFORM_KIND
    }

    open spec fn restored(stored: SceneComponent) -> Option<Self> {
        match stored {
            SceneComponent::Transform3D(value) => Some(value),
            _ => None,
        }
    }

    fn kind_of() -> (k: u64) {
        TRANSFORM_KIND
    }

    fn erase(self) -> (stored: SceneComponent) {
        SceneComponent::Transform3D(self)
    }

    fn downcast_ref(stored: &SceneComponent) -> (r: Option<&Self>) {
        match stored {
            SceneComponent::Transform3D(value) => Some(value),
            _ => None,
        }
    }

    fn downcast_mut(stored: &mut SceneComponent) -> (r: Option<&mut Self>) {
        match stored {
            SceneComponent::Transform3D(value) => Some(value),
            _ => None,
        }
    }
}

impl Component<SceneComponent> for Camera {
    open spec fn kind() -> u64 {
        CAMERA_KIND
    }

    open spec fn restored(stored: SceneComponent) -> Option<Self> {
        match stored {
            SceneComponent::Camera(value) => Some(value),
            _ => None,
        }
    }

    fn kind_of() -> (k: u64) {
        CAMERA_KIND
    }

    fn erase(self) -> (stored: SceneComponent) {
        SceneComponent::Camera(self)
    }

    fn downcast_ref(stored: &SceneComponent) -> (r: Option<&Self>) {
        match stored {
            SceneComponent::Camera(value) => Some(value),
            _ => None,
        }
    }

    fn downcast_mut(stored: &mut SceneComponent) -> (r: Option<&mut Self>) {
        match stored {
            SceneComponent::Camera(value) => Some(value),
            _ => None,
        }
    }
}

impl Component<SceneComponent> for RenderMesh {
    open spec fn kind() -> u64 {
        RENDER_MESH_KIND
    }

    open spec fn restored(stored: SceneComponent) -> Option<Self> {
        match stored {
            SceneComponent::RenderMesh(value) => Some(value),
            _ => None,
        }
    }

    fn kind_of() -> (k: u64) {
        RENDER_MESH_KIND
    }

    fn erase(self) -> (stored: SceneComponent) {
        SceneComponent::RenderMesh(self)
    }

    fn downcast_ref(stored: &SceneComponent) -> (r: Option<&Self>) {
        match stored {
            SceneComponent::RenderMesh(value) => Some(value),
            _ => None,
        }
    }

    fn downcast_mut(stored: &mut SceneComponent) -> (r: Option<&mut Self>) {
        match stored {
            SceneComponent::RenderMesh(value) => Some(value),
            _ => None,
        }
    }
}

} // verus!
