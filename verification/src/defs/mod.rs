//! The shared data model: qualified names, type references, function records.

pub mod function;
pub mod path;
pub mod precond;
pub mod types;
