//! The extraction entry point.

use vstd::prelude::*;
use crate::resolve::FromWorld;

verus! {

/// Holds one world and builds targets from it on request. Nothing built is
/// kept: every extraction resolves its whole chain again.
pub struct DIContainer<World> {
    world: World,
}

impl<World> DIContainer<World> {
    /// The world that this container holds.
    pub closed spec fn world_spec(&self) -> World {
        self.world
    }

    pub fn new(world: World) -> (c: Self)
        ensures
            c.world_spec() == world,
    {
        Self { world }
    }

    /// The world that this container holds.
    pub fn world(&self) -> (w: &World)
        ensures
            *w == self.world_spec(),
    {
        &self.world
    }

    /// Builds a `T` from the held world, resolving its dependencies first.
    pub fn extract<T: for<'a> FromWorld<World<'a> = World>>(&self) -> (r: Result<
        T,
        <T as FromWorld>::Error,
    >)
        ensures
            T::built(&self.world_spec(), r),
    {
        T::from_world(&self.world)
    }
}

/// Carries an extracted target to the code that asked for it.
pub struct Dependency<T>(pub T);

} // verus!
