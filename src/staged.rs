//! The decision that an asynchronous resolution takes between two
//! construction steps.
//!
//! An asynchronous driver awaits each construction step itself, and after each
//! one asks [`next_step`] whether to go on with the value it got or to stop
//! with the error.

use vstd::prelude::*;

verus! {

/// What to do once a construction step has an outcome.
pub enum Step<V, E> {
    /// Go on to the next step with this value.
    Proceed(V),
    /// End the whole resolution with this error.
    Stop(E),
}

/// Decides what follows a construction step: its value is passed on, and its
/// error, unchanged, ends the resolution.
pub fn next_step<V, E>(outcome: Result<V, E>) -> (s: Step<V, E>)
    ensures
        match outcome {
            Ok(v) => s == Step::<V, E>::Proceed(v),
            Err(e) => s == Step::<V, E>::Stop(e),
        },
{
    match outcome {
        Ok(v) => Step::Proceed(v),
        Err(e) => Step::Stop(e),
    }
}

} // verus!
