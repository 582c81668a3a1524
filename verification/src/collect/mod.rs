//! Collecting what a source unit declares.

pub mod path;
pub mod symbol;

pub use path::resolve_path;
pub use symbol::TraitCollector;
