//! Planning and bookkeeping for agentbox: container sessions that run an agent runtime
//! (OpenCode or Codex) next to a Git workspace.

use vstd::prelude::*;

pub mod container_paths;
pub mod container;
pub mod environment;
pub mod error;
pub mod metadata;
pub mod order;
pub mod path_order;
pub mod paths;
pub mod runtime;
pub mod session;
pub mod state;
pub mod ssh_signing;
pub mod string_map;
pub mod text;
pub mod wayland;
pub mod workspace;

verus! {

} // verus!
