//! Build-configuration resolver for an embedded native allocator.
//!
//! Given platform signals and a feature selection, the resolver decides which
//! definitions, compiler flags and system libraries a native build needs,
//! records them through a backend-neutral builder interface, and emits the
//! ordered linker directives for the finished artifact.

pub mod allocator;
pub mod bench;
pub mod builder;
pub mod call;
pub mod direct;
pub mod error;
pub mod features;
pub mod generator;
pub mod info;
pub mod link;
pub mod link_laws;
pub mod meaning;
pub mod plan;
pub mod platform;
pub mod resolver;
pub mod rule_laws;
pub mod rules;
pub mod signals;
pub mod text;
