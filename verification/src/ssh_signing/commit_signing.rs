//! SSH commit signing in runtime containers: the host's SSH agent socket is mounted in,
//! and Git gets the host's identity and signing settings through its environment.

use vstd::prelude::*;

use crate::container_paths::CONTAINER_SSH_AUTH_SOCK;
use crate::environment::{EnvValue, Environment};
use crate::order::strings_view;
use crate::runtime::spec::{CreateSpecView, MountView, RuntimeMount, RuntimeMountKind, RuntimeRunSpec};
use crate::ssh_signing::git_config::{
    append_git_config_env, codex_exec_identity_entries, config_values_spec, config_warnings_spec,
    entries_view, git_config_env_spec, git_identity_keys, git_identity_keys_spec, read_git_identity_entries,
};
use crate::string_map::StringMap;
use crate::text::{concat3, owned};

verus! {

/// The host variable that names the SSH agent's socket.
pub const HOST_SSH_AUTH_SOCK_ENV: &'static str = "SSH_AUTH_SOCK";

/// Whose Git identity a container's commits carry.
#[derive(Debug, Clone, Copy, PartialEq, Eq, Structural)]
pub enum GitIdentityPassthrough {
    /// The host user's, from the host's Git configuration.
    Host,
    /// Codex's own.
    CodexExec,
}

/// The keys read from the host's Git configuration for an identity: those of a Git
/// identity for the host's, none for Codex's.
pub fn git_identity_keys_for(identity: GitIdentityPassthrough) -> (r: Vec<&'static str>)
    ensures
        identity == GitIdentityPassthrough::Host ==> r@.map_values(|k: &str| k@) == git_identity_keys_spec(),
        identity == GitIdentityPassthrough::CodexExec ==> r@.len() == 0,
{
    match identity {
        GitIdentityPassthrough::Host => git_identity_keys(),
        GitIdentityPassthrough::CodexExec => Vec::new(),
    }
}

/// The Git identity entries: for the host's identity, what `git config` answered for the
/// keys of [`git_identity_keys_for`], with a warning for each failure; for Codex's, its
/// fixed identity.
pub fn git_identity_entries(identity: GitIdentityPassthrough, answers: Vec<Result<Option<String>, String>>) -> (r: (Vec<(String, String)>, Vec<String>))
    requires
        identity == GitIdentityPassthrough::Host ==> answers@.len() == 2,
    ensures
        identity == GitIdentityPassthrough::Host ==> entries_view(r.0@) == config_values_spec(git_identity_keys_spec(), answers@)
            && strings_view(r.1@) == config_warnings_spec(git_identity_keys_spec(), answers@, "host Git identity passthrough"@),
        identity == GitIdentityPassthrough::CodexExec ==> entries_view(r.0@) == seq![("user.name"@, "Codex"@), ("user.email"@, "noreply@openai.com"@)]
            && r.1@.len() == 0,
{
    match identity {
        GitIdentityPassthrough::Host => read_git_identity_entries(answers),
        GitIdentityPassthrough::CodexExec => (codex_exec_identity_entries(), Vec::new()),
    }
}

/// What the host's `SSH_AUTH_SOCK` offers.
#[derive(Debug, PartialEq, Eq)]
pub enum HostSocketCandidate {
    /// Unset or empty: no passthrough, silently.
    Unset,
    /// Unusable: no passthrough, with this warning.
    Rejected(String),
    /// A path to check for a connectable Unix socket.
    Path(String),
}

/// The warning when `SSH_AUTH_SOCK` is not Unicode.
pub open spec fn agent_not_utf8_warning() -> Seq<char> {
    "SSH_AUTH_SOCK is not UTF-8; SSH commit signing passthrough disabled"@
}

/// The host's SSH agent socket, from `SSH_AUTH_SOCK`: none when it is unset or empty; a
/// warning when it is not Unicode; otherwise its path, still to be checked.
pub fn host_agent_socket_candidate(env: &Environment) -> (r: HostSocketCandidate)
    ensures
        match env.get_spec(HOST_SSH_AUTH_SOCK_ENV@) {
            None => r == HostSocketCandidate::Unset,
            Some(EnvValue::Text(s)) => if s@.len() == 0 {
                r == HostSocketCandidate::Unset
            } else {
                r matches HostSocketCandidate::Path(p) && p@ == s@
            },
            Some(EnvValue::NotUnicode(_)) => r matches HostSocketCandidate::Rejected(w) && w@ == agent_not_utf8_warning(),
        },
{
    match env.get(HOST_SSH_AUTH_SOCK_ENV) {
        None => HostSocketCandidate::Unset,
        Some(EnvValue::Text(s)) => if crate::text::chars_of(s.as_str()).len() == 0 {
            HostSocketCandidate::Unset
        } else {
            HostSocketCandidate::Path(s.clone())
        },
        Some(EnvValue::NotUnicode(_)) => HostSocketCandidate::Rejected(
            owned("SSH_AUTH_SOCK is not UTF-8; SSH commit signing passthrough disabled"),
        ),
    }
}

/// The warning when `SSH_AUTH_SOCK` names no connectable Unix socket.
pub open spec fn agent_unusable_warning_spec(reason: Seq<char>) -> Seq<char> {
    "SSH_AUTH_SOCK does not reference a usable Unix socket ("@ + reason + "); SSH commit signing passthrough disabled"@
}

/// The warning when `SSH_AUTH_SOCK` names no connectable Unix socket.
pub fn agent_unusable_warning(reason: &str) -> (r: String)
    ensures
        r@ == agent_unusable_warning_spec(reason@),
{
    concat3(
        "SSH_AUTH_SOCK does not reference a usable Unix socket (",
        reason,
        "); SSH commit signing passthrough disabled",
    )
}

/// The home directory a `~` in `user.signingkey` stands for: `HOME` when it is Unicode.
pub fn signing_home(env: &Environment) -> (r: Option<String>)
    ensures
        match env.get_spec("HOME"@) {
            Some(EnvValue::Text(s)) => r matches Some(h) && h@ == s@,
            _ => r is None,
        },
{
    match env.get("HOME") {
        Some(EnvValue::Text(s)) => Some(s.clone()),
        _ => None,
    }
}

/// What SSH commit signing adds to a container: the agent socket mount, if any, and
/// environment variables.
#[derive(Debug, PartialEq, Eq)]
pub struct SshCommitSigningPassthrough {
    pub agent_socket_mount: Option<RuntimeMount>,
    pub env: StringMap,
}

impl SshCommitSigningPassthrough {
    /// Adds the mount, if any, and the environment variables to the container to run.
    pub fn apply_to(self, run_spec: &mut RuntimeRunSpec)
        ensures
            final(run_spec).create_view() == (CreateSpecView {
                mounts: match self.agent_socket_mount {
                    Some(m) => old(run_spec).create_view().mounts.push(m@),
                    None => old(run_spec).create_view().mounts,
                },
                default_env: old(run_spec).create_view().default_env.union_prefer_right(self.env@),
                ..old(run_spec).create_view()
            }),
            final(run_spec).workdir_view() == old(run_spec).workdir_view(),
    {
        let env = self.env;
        match self.agent_socket_mount {
            Some(m) => run_spec.add_create_mount(m),
            None => {},
        }
        run_spec.extend_create_default_env(&env);
    }
}

/// What was found for SSH commit signing, and whether the host's agent is available.
#[derive(Debug, PartialEq, Eq)]
pub struct SshCommitSigningDetection {
    pub passthrough: SshCommitSigningPassthrough,
    pub host_agent_available: bool,
}

/// SSH commit signing from the Git identity entries, the host's agent socket once checked
/// to be usable, and the signing entries. Without a socket only the identity is passed;
/// with one, the socket is mounted, `SSH_AUTH_SOCK` points at it, and the identity and
/// signing entries are passed.
pub fn commit_signing_detection(
    git_entries: &Vec<(String, String)>,
    host_socket: Option<String>,
    signing_entries: &Vec<(String, String)>,
) -> (r: SshCommitSigningDetection)
    ensures
        match host_socket {
            None => {
                &&& !r.host_agent_available
                &&& r.passthrough.agent_socket_mount is None
                &&& r.passthrough.env@ == git_config_env_spec(Map::empty(), entries_view(git_entries@))
            },
            Some(s) => {
                &&& r.host_agent_available
                &&& r.passthrough.agent_socket_mount matches Some(m) && m@ == (MountView {
                    kind: RuntimeMountKind::Bind,
                    source: s@,
                    destination: CONTAINER_SSH_AUTH_SOCK@,
                    read_only: false,
                })
                &&& r.passthrough.env@ == git_config_env_spec(
                    Map::empty().insert(HOST_SSH_AUTH_SOCK_ENV@, CONTAINER_SSH_AUTH_SOCK@),
                    entries_view(git_entries@) + entries_view(signing_entries@),
                )
            },
        },
{
    let mut env = StringMap::new();
    match host_socket {
        None => {
            append_git_config_env(&mut env, git_entries);
            SshCommitSigningDetection {
                passthrough: SshCommitSigningPassthrough { agent_socket_mount: None, env },
                host_agent_available: false,
            }
        },
        Some(s) => {
            env.insert(owned(HOST_SSH_AUTH_SOCK_ENV), owned(CONTAINER_SSH_AUTH_SOCK));
            let mut entries: Vec<(String, String)> = Vec::new();
            let mut i: usize = 0;
            while i < git_entries.len()
                invariant
                    i <= git_entries@.len(),
                    entries_view(entries@) == entries_view(git_entries@).take(i as int),
                decreases git_entries.len() - i,
            {
                let ghost prev = entries@;
                let k = git_entries[i].0.clone();
                let v = git_entries[i].1.clone();
                entries.push((k, v));
                assert(entries@ == prev.push((k, v)));
                assert(entries_view(git_entries@)[i as int] == (k@, v@));
                assert(entries_view(entries@) =~= entries_view(prev).push((k@, v@)));
                assert(entries_view(git_entries@).take(i + 1) =~= entries_view(git_entries@).take(i as int).push((k@, v@)));
                assert(entries_view(entries@) =~= entries_view(git_entries@).take(i + 1));
                i = i + 1;
            }
            let mut j: usize = 0;
            while j < signing_entries.len()
                invariant
                    j <= signing_entries@.len(),
                    entries_view(entries@) == entries_view(git_entries@) + entries_view(signing_entries@).take(j as int),
                decreases signing_entries.len() - j,
            {
                let ghost prev = entries@;
                let k = signing_entries[j].0.clone();
                let v = signing_entries[j].1.clone();
                entries.push((k, v));
                assert(entries@ == prev.push((k, v)));
                assert(entries_view(signing_entries@)[j as int] == (k@, v@));
                assert(entries_view(entries@) =~= entries_view(prev).push((k@, v@)));
                assert(entries_view(signing_entries@).take(j + 1) =~= entries_view(signing_entries@).take(j as int).push((k@, v@)));
                assert(entries_view(entries@) =~= entries_view(git_entries@) + entries_view(signing_entries@).take(j + 1));
                j = j + 1;
            }
            assert(entries_view(git_entries@).take(git_entries@.len() as int) =~= entries_view(git_entries@));
            assert(entries_view(signing_entries@).take(signing_entries@.len() as int) =~= entries_view(signing_entries@));
            append_git_config_env(&mut env, &entries);
            SshCommitSigningDetection {
                passthrough: SshCommitSigningPassthrough {
                    agent_socket_mount: Some(RuntimeMount::bind(s, owned(CONTAINER_SSH_AUTH_SOCK))),
                    env,
                },
                host_agent_available: true,
            }
        },
    }
}

} // verus!
