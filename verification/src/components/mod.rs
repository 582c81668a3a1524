//! The check components: what each one is, and the part of its work that
//! is computation.

pub mod alive2;
pub mod df;
pub mod identical;
pub mod kani;
pub mod pbt;
pub mod scan;

pub use alive2::Alive2;
pub use df::DifferentialFuzzing;
pub use identical::Identical;
pub use kani::Kani;
pub use pbt::PropertyBasedTesting;
