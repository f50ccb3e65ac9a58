//! Compile-time hierarchical dependency injection.
//!
//! A target type states either how it is built from a shared context (the
//! "world") alone, through [`FromWorld`], or how it is built from the world and
//! one dependency that is itself resolvable from that world, through
//! [`FromDependency`]. Every derived target is a direct target as well: its
//! dependency is resolved first, and its own derivation runs only when that
//! succeeds. Tuples of targets that share a world and an error type resolve
//! member by member, left to right, and stop at the first failure.
//!
//! Each trait carries a spec relation between a world and the outcomes that a
//! construction may produce, and the resolution rules are proved against those
//! relations.

pub mod resolve;
pub mod group;
pub mod container;
pub mod staged;
pub mod laws;

pub use resolve::{FromWorld, FromDependency, derive_from};
pub use container::{DIContainer, Dependency};
