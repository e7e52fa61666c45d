//! Verified core of an organisation-wide code knowledge graph: manifest
//! parsing, configuration, graph query planning, ingestion decisions and
//! token bookkeeping.
use vstd::prelude::*;

pub mod auth;
pub mod config;
pub mod doc;
pub mod github;
pub mod graph;
pub mod numparse;
pub mod server;
pub mod text;
pub mod tools;

verus! {

} // verus!
