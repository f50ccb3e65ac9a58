//! The two ways a target is built, and the rule that turns the second into the
//! first.

use vstd::prelude::*;

verus! {

/// A target that is built from a reference to its world alone.
pub trait FromWorld: Sized {
    type World<'a>;
    type Error;

    /// The outcomes that building `Self` from `world` may produce. A target
    /// that states nothing of its construction admits every outcome.
    open spec fn built(world: &Self::World<'_>, r: Result<Self, Self::Error>) -> bool {
        true
    }

    fn from_world(world: &Self::World<'_>) -> (r: Result<Self, Self::Error>)
        ensures
            Self::built(world, r),
    ;
}

/// A target that is built from its world and one dependency, which is itself
/// built from the same world with the same error type.
pub trait FromDependency: Sized {
    type Error;
    type World<'a>;
    type Dependency: for<'a> FromWorld<World<'a> = Self::World<'a>, Error = Self::Error>;

    /// The outcomes that deriving `Self` from `world` and `dependency` may
    /// produce. A target that states nothing of its derivation admits every
    /// outcome.
    open spec fn derived(
        world: &Self::World<'_>,
        dependency: &Self::Dependency,
        r: Result<Self, Self::Error>,
    ) -> bool {
        true
    }

    fn from_dependency(
        world: &Self::World<'_>,
        dependency: &Self::Dependency,
    ) -> (r: Result<Self, Self::Error>)
        ensures
            Self::derived(world, dependency, r),
    ;
}

/// What a derived target comes to once its dependency has been resolved to
/// `dependency`: that dependency's error unchanged, or one of the outcomes of
/// the target's own derivation from the dependency's value.
pub open spec fn derived_outcome<T: FromDependency>(
    world: &T::World<'_>,
    dependency: Result<T::Dependency, T::Error>,
    r: Result<T, T::Error>,
) -> bool {
    match dependency {
        Ok(d) => T::derived(world, &d, r),
        Err(e) => r == Err::<T, T::Error>(e),
    }
}

/// Finishes a derived construction from the outcome of its dependency: an
/// error is handed back unchanged and the derivation is not run; a value is
/// handed to the derivation.
pub fn derive_from<T: FromDependency>(
    world: &T::World<'_>,
    dependency: Result<T::Dependency, T::Error>,
) -> (r: Result<T, T::Error>)
    ensures
        derived_outcome::<T>(world, dependency, r),
{
    match dependency {
        Ok(d) => T::from_dependency(world, &d),
        Err(e) => Err(e),
    }
}

impl<T> FromWorld for T where T: FromDependency, T::Dependency: FromWorld {
    type Error = T::Error;
    type World<'a> = T::World<'a>;

    /// Some outcome of the dependency, followed by what the derivation makes
    /// of it.
    open spec fn built(world: &Self::World<'_>, r: Result<Self, Self::Error>) -> bool {
        exists|d: Result<T::Dependency, T::Error>|
            #[trigger] <T::Dependency as FromWorld>::built(world, d) && derived_outcome::<T>(
                world,
                d,
                r,
            )
    }

    fn from_world(world: &Self::World<'_>) -> (r: Result<Self, Self::Error>) {
        let dependency = <T::Dependency as FromWorld>::from_world(world);
        derive_from::<T>(world, dependency)
    }
}

} // verus!
