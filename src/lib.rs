//! Deterministic, type-driven sample values for combinatorial crash testing.
//!
//! Each type that implements [`EveryVariant`] lists a small, fixed, ordered
//! set of representative values of itself. Scalars and strings have fixed
//! tables; optional values, results and sequences lift the samples of their
//! contents; composite types derive theirs from their [`derive::Shape`]: a
//! product of fields gives every combination, a sum of variants gives the
//! samples of each variant in turn.

pub mod combinators;
pub mod demo;
pub mod derive;
pub mod fixed;
pub mod fixtures;
pub mod laws;
pub mod leaves;
pub mod parsing;
pub mod sampling;

pub use sampling::EveryVariant;
