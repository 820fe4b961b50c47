//! Agentbox sessions: the containers agentbox runs for workspaces, what their labels say,
//! and how they are found, grouped, selected and checked before use.

use vstd::prelude::*;

pub mod collection;
pub mod conflict;
pub mod discovery;
pub mod endpoint;
pub mod git_root;
pub mod labels;
pub mod readiness;
pub mod record;
pub mod selection;
pub mod status;
pub mod target;
pub mod target_candidate;

verus! {

} // verus!
