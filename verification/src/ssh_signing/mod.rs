//! Git and SSH state of the host that agentbox passes into runtime containers: remote
//! hosts and their known_hosts entries, commit signing keys, Git configuration, and the
//! Git excludes file.

use vstd::prelude::*;

pub mod commit_signing;
pub mod config;
pub mod git_config;
pub mod git_excludes;
pub mod known_hosts;
pub mod lookup;
pub mod passthrough;
pub mod remote;
pub mod signing_key;

verus! {

} // verus!
