//! Names for the objects that live with the GPU device.
use vstd::prelude::*;

verus! {

/// The name of an object that the GPU device holds: a buffer, a texture, a
/// pipeline, a bind group, a surface. The application gets it when it creates
/// the object and finds the object again through it; the library never looks
/// inside.
#[derive(Clone, Copy, Debug, PartialEq, Eq, Hash, Structural)]
pub struct Handle(pub u64);

} // verus!
