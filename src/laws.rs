//! Properties of resolution that hold for every target.

use vstd::prelude::*;
use crate::resolve::{FromWorld, FromDependency};

verus! {

/// When every construction of a derived target's dependency from `world`
/// fails with `e`, every construction of the target from `world` fails with
/// that same `e`, whatever the target's own derivation would have made.
pub proof fn lemma_dependency_failure_propagates<T: FromDependency>(
    world: &T::World<'_>,
    e: T::Error,
    r: Result<T, T::Error>,
)
    requires
        forall|d: Result<T::Dependency, T::Error>|
            #[trigger] <T::Dependency as FromWorld>::built(world, d) ==> d == Err::<
                T::Dependency,
                T::Error,
            >(e),
        <T as FromWorld>::built(world, r),
    ensures
        r == Err::<T, T::Error>(e),
{
}

/// A derived target is only ever produced from a dependency value that was
/// itself built from the same world, and that the target's derivation turned
/// into that very value: the dependency comes first, the derivation after.
pub proof fn lemma_success_composes<T: FromDependency>(world: &T::World<'_>, t: T)
    requires
        <T as FromWorld>::built(world, Ok(t)),
    ensures
        exists|d: T::Dependency|
            <T::Dependency as FromWorld>::built(world, Ok(d)) && #[trigger] T::derived(
                world,
                &d,
                Ok(t),
            ),
{
    let dr = choose|dr: Result<T::Dependency, T::Error>|
        #[trigger] <T::Dependency as FromWorld>::built(world, dr)
            && crate::resolve::derived_outcome::<T>(world, dr, Ok(t));
    let d = dr->Ok_0;
    assert(T::derived(world, &d, Ok(t)));
}

/// In a group of three members, when every construction of the first member
/// from `world` succeeds and every construction of the second fails with `e`,
/// the group fails with `e`, whatever the third member would have made.
pub proof fn lemma_group_stops_at_first_failure<M1, M2, M3>(
    world: &M1::World<'_>,
    e: M1::Error,
    r: Result<(M1, M2, M3), M1::Error>,
) where
    M1: FromWorld,
    M2: for<'a> FromWorld<World<'a> = M1::World<'a>, Error = M1::Error>,
    M3: for<'a> FromWorld<World<'a> = M1::World<'a>, Error = M1::Error>,

    requires
        forall|r1: Result<M1, M1::Error>| #[trigger] M1::built(world, r1) ==> r1 is Ok,
        forall|r2: Result<M2, M1::Error>|
            #[trigger] M2::built(world, r2) ==> r2 == Err::<M2, M1::Error>(e),
        <(M1, M2, M3) as FromWorld>::built(world, r),
    ensures
        r == Err::<(M1, M2, M3), M1::Error>(e),
{
}

} // verus!
