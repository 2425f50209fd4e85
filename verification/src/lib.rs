//! Rumble Canvas: product-conception workspaces turned into immutable spec
//! packages and planning-only implementation handoffs.
use vstd::prelude::*;

pub mod digest;
pub mod cli;
pub mod domain;
pub mod handoff;
pub mod role_assignment;
pub mod sample;
pub mod schema;
pub mod store;
pub mod workspace_membership;
pub mod wrench;
pub mod json;
pub mod package;
pub mod text;
pub mod token_sealer;

verus! {

/// The fixed timestamp that the local MVP stamps on everything it creates.
pub const SAMPLE_TS: &'static str = "2026-06-30T00:00:00Z";

} // verus!
