//! Skootrs: a project-bootstrapping and security-posture engine.
//!
//! The library models projects created at a forge, the catalogue of security
//! facets applied to them, the `.skootrs` manifest format, and the
//! orchestration pipeline that composes the repo, source, ecosystem, facet,
//! output and state collaborators.

use vstd::prelude::*;

pub mod facet;
pub mod hash;
pub mod manifest;
pub mod model;
pub mod ports;
pub mod service;
pub mod statestore;
pub mod strutil;
pub mod time;

verus! {

} // verus!
