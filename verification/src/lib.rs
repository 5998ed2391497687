//! Verified core of a chess study and game-database server: study-tree edits,
//! repertoire metadata, danger-map annotations, OAuth request decisions,
//! user settings and the MCP tool gate.

use vstd::prelude::*;

pub mod analysis;
pub mod danger;
pub mod generation;
pub mod identity;
pub mod json;
pub mod mcp;
pub mod oauth;
pub mod providers;
pub mod repertoire;
pub mod service_tokens;
pub mod settings;
pub mod study;
pub mod symmetry;
pub mod text;
pub mod tool_args;
pub mod tool_errors;
pub mod tree;
pub mod views;

verus! {
} // verus!
