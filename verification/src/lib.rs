//! A small real-time rendering engine core: an entity-component-system and the
//! ownership model of the GPU resources that its render system draws with.
//!
//! The library decides and the application acts. Nothing in here opens a
//! window, touches a file or talks to a GPU; what the library needs to know of
//! those comes in as plain values, and what has to be done to them goes out as
//! plain values.
//!
//! - [`ecs`]: entities with at most one component per kind, queries for the
//!   entities that hold given components, and a world that runs its systems
//!   in the order of their registration.
//! - [`scene`], [`transform`], [`camera`], [`mesh`]: the components that the
//!   library itself defines.
//! - [`handle`]: the names under which the application keeps the objects that
//!   it made on the device.
//! - [`instance`], [`surface`], [`window`]: the surface's configuration within
//!   the limits of the device, the one texture per frame, and what the events
//!   of the window's loop call for.
//! - [`rendering`], [`texture`]: pipelines and textures, the recording of a
//!   frame as passes of commands, and the steps that carry a frame out.
use vstd::prelude::*;

pub mod camera;
pub mod ecs;
pub mod engine;
pub mod handle;
pub mod instance;
pub mod mesh;
pub mod rendering;
pub mod scene;
pub mod surface;
mod text;
pub mod texture;
pub mod transform;
pub mod window;

verus! {

pub type Instance = instance::Instance;

pub type Window = window::Window;

pub type Engine<U> = engine::Engine<U>;

/// Prepares the library for use. Nothing needs preparing at present.
pub fn setup() {
}

} // verus!
