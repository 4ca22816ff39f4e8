//! Random access by value over sequence-like containers.
//!
//! A container that implements [`Get`] hands out its elements by position.
//! Two adapters build on that one capability: [`Chain`] presents two
//! containers as one, and [`Iter`] walks a container from both ends.

pub mod chain;
pub mod containers;
pub mod get;
pub mod iter;
pub mod laws;

pub use chain::{chain, Chain};
pub use get::{Get, GetExt};
pub use iter::Iter;
