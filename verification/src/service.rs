//! The services that carry out the engine's operations: drivers for the
//! repo, working copy and ecosystem, the facet engine, the output driver,
//! and the project orchestrator that composes them.

pub mod ecosystem;
pub mod facet;
pub mod output;
pub mod project;
pub mod repo;
pub mod source;
