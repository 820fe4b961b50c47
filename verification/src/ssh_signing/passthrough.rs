//! Everything Git and SSH pass into a runtime container, applied to its run specification.

use vstd::prelude::*;

use crate::runtime::spec::{CreateSpecView, RuntimeMount, RuntimeRunSpec};
use crate::ssh_signing::commit_signing::{SshCommitSigningDetection, SshCommitSigningPassthrough};
use crate::string_map::StringMap;

verus! {

/// The known_hosts file mount and the environment that points Git's SSH at it, if a file
/// was prepared.
#[derive(Debug)]
pub struct SshKnownHostsPassthrough {
    pub prepared: Option<(RuntimeMount, StringMap)>,
}

impl SshKnownHostsPassthrough {
    /// Adds the mount and environment, if any, to the container to run.
    pub fn apply_to(self, run_spec: &mut RuntimeRunSpec)
        ensures
            match self.prepared {
                Some((m, env)) => final(run_spec).create_view() == (CreateSpecView {
                    mounts: old(run_spec).create_view().mounts.push(m@),
                    default_env: old(run_spec).create_view().default_env.union_prefer_right(env@),
                    ..old(run_spec).create_view()
                }),
                None => final(run_spec).create_view() == old(run_spec).create_view(),
            },
            final(run_spec).workdir_view() == old(run_spec).workdir_view(),
    {
        match self.prepared {
            Some((m, env)) => {
                run_spec.add_create_mount(m);
                run_spec.extend_create_default_env(&env);
            },
            None => {},
        }
    }
}

/// SSH commit signing and known_hosts passthrough together.
#[derive(Debug)]
pub struct SshPassthrough {
    pub commit_signing: SshCommitSigningPassthrough,
    pub known_hosts: SshKnownHostsPassthrough,
}

/// The passthrough from what SSH commit signing found and the known_hosts file prepared:
/// known_hosts passthrough only goes with the host's SSH agent.
pub fn ssh_passthrough(detection: SshCommitSigningDetection, known_hosts: Option<(RuntimeMount, StringMap)>) -> (r: SshPassthrough)
    ensures
        r.commit_signing == detection.passthrough,
        detection.host_agent_available ==> r.known_hosts.prepared == known_hosts,
        !detection.host_agent_available ==> r.known_hosts.prepared is None,
{
    let prepared = if detection.host_agent_available {
        known_hosts
    } else {
        None
    };
    SshPassthrough { commit_signing: detection.passthrough, known_hosts: SshKnownHostsPassthrough { prepared } }
}

impl SshPassthrough {
    /// Applies commit signing, then known_hosts passthrough, to the container to run.
    pub fn apply_to(self, run_spec: &mut RuntimeRunSpec)
        ensures
            ({
                let c = self.commit_signing;
                let after_signing = CreateSpecView {
                    mounts: match c.agent_socket_mount {
                        Some(m) => old(run_spec).create_view().mounts.push(m@),
                        None => old(run_spec).create_view().mounts,
                    },
                    default_env: old(run_spec).create_view().default_env.union_prefer_right(c.env@),
                    ..old(run_spec).create_view()
                };
                match self.known_hosts.prepared {
                    Some((m, env)) => final(run_spec).create_view() == (CreateSpecView {
                        mounts: after_signing.mounts.push(m@),
                        default_env: after_signing.default_env.union_prefer_right(env@),
                        ..after_signing
                    }),
                    None => final(run_spec).create_view() == after_signing,
                }
            }),
            final(run_spec).workdir_view() == old(run_spec).workdir_view(),
    {
        self.commit_signing.apply_to(run_spec);
        self.known_hosts.apply_to(run_spec);
    }
}

} // verus!
