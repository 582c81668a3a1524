//! Differential equivalence checking between two versions of a program unit.
//!
//! The crate pairs the functions of two source versions by signature, aligns
//! generic owning types with their concrete aliases, classifies the pairs,
//! plans the comparison harness for a pluggable backend and drives the check
//! components over the set of pairs that still lack a verdict.

pub mod align;
pub mod check;
pub mod classify;
pub mod collect;
pub mod components;
pub mod defs;
pub mod generate;
pub mod matching;
pub mod model;
pub mod pattern;
pub mod text;

pub use check::{CheckResult, Checker, Component, InfrastructureError, RunReport, Source};
pub use defs::function::{CommonFunction, Function, FunctionMetadata, Param, Receiver, Signature,
    TypedParam};
pub use defs::path::Path;
pub use defs::precond::Precondition;
pub use defs::types::{GenericType, InstantiatedType, PreciseType, Type};
