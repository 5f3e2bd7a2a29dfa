//! Verified core of a worker that prepares parachain validation functions:
//! the decisions taken around one compilation job, stated as contracts.

pub mod artifact;
pub mod child;
pub mod compile;
pub mod cpu;
pub mod frame;
pub mod model;
pub mod parent;
pub mod sys;
pub mod tracker;
pub mod worker;

pub use artifact::CompiledArtifact;
