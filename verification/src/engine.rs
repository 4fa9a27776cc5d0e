//! The state of an application in one place.
use crate::ecs::{Entity, Registered, World};
use crate::instance::Instance;
use crate::window::Window;
use vstd::prelude::*;

verus! {

/// The state of an application: its window, its world and its instance.
#[verifier::reject_recursive_types(U)]
pub struct Engine<U> {
    pub window: Window,
    pub world: World<U>,
    pub instance: Instance,
}

impl<U> Engine<U> {
    /// Creates the engine of an application from its window and the instance
    /// that was made for the window, with a world that holds nothing yet.
    pub fn new(window: Window, instance: Instance) -> (engine: Self)
        ensures
            engine.window == window,
            engine.instance == instance,
            engine.world.entities() == Seq::<Entity<U>>::empty(),
            engine.world.systems() == Seq::<Registered<U>>::empty(),
    {
        Engine { window, world: World::new(), instance }
    }
}

} // verus!
