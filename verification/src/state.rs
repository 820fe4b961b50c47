//! Where agentbox keeps its state on the host: `agentbox` under the XDG state directory.

use vstd::prelude::*;

use crate::error::AgentboxError;
use crate::paths::{join, join_spec};

verus! {

/// The directory under the XDG state directory that holds agentbox's state.
pub const AGENTBOX_STATE_DIR: &'static str = "agentbox";

/// The root of agentbox's state on the host.
#[derive(Debug, Clone, PartialEq, Eq)]
pub struct AgentboxStateRoot {
    root: String,
}

impl View for AgentboxStateRoot {
    type V = Seq<char>;

    closed spec fn view(&self) -> Seq<char> {
        self.root@
    }
}

impl AgentboxStateRoot {
    /// The state root under an XDG state directory.
    pub fn from_state_home(state_home: &str) -> (r: Self)
        ensures
            r@ == join_spec(state_home@, AGENTBOX_STATE_DIR@),
    {
        AgentboxStateRoot { root: join(state_home, AGENTBOX_STATE_DIR) }
    }

    /// The state root under the XDG state directory the host reports, or the error when it
    /// reports none.
    pub fn from_state_dir(state_dir: Option<&str>) -> (r: Result<Self, AgentboxError>)
        ensures
            match state_dir {
                Some(d) => r matches Ok(s) && s@ == join_spec(d@, AGENTBOX_STATE_DIR@),
                None => r == Err::<Self, AgentboxError>(AgentboxError::StateDirUnavailable),
            },
    {
        match state_dir {
            Some(d) => Ok(Self::from_state_home(d)),
            None => Err(AgentboxError::StateDirUnavailable),
        }
    }

    /// A path below the state root.
    pub fn join(&self, path: &str) -> (r: String)
        ensures
            r@ == join_spec(self@, path@),
    {
        join(self.root.as_str(), path)
    }
}

} // verus!
