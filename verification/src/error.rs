//! The errors of the library, with the message each one is reported with.

use vstd::prelude::*;

use crate::metadata::AgentboxContainerKind;
use crate::runtime::kind::{kind_name, supported_names_text, supported_runtime_names, RuntimeKind};
use crate::text::{decimal, decimal_chars, push_chars, push_str, string_of};

verus! {

/// Why an operation of the library was refused.
#[derive(Debug, Clone, PartialEq, Eq)]
#[allow(inconsistent_fields)]
pub enum AgentboxError {
    /// The runtime label holds only whitespace.
    EmptyRuntimeLabel,
    /// A runtime name that no profile has.
    UnsupportedRuntime { value: String },
    /// A host-state source given by an environment variable is not an absolute path.
    HostStateNotAbsolute { variable: String, source: String },
    /// A host-state source given by an environment variable is not UTF-8.
    HostStateNotUtf8 { variable: String, display: String },
    /// The requested directory resolves outside its Git root.
    EscapedGitTarget { target: String, git_root: String },
    /// An agentbox container is in a state that needs the user's action.
    SessionRequiresAction { kind: AgentboxContainerKind, git_root: String, container_name: String, detail: String, next_step: String },
    /// A managed session whose Git root no longer resolves to itself.
    OrphanedSession { git_root: String, container_name: String },
    /// More than one managed session for one Git root.
    DuplicateSessions { git_root: String },
    /// A managed session that failed for a reason not recorded.
    FailedSession { git_root: String, container_name: String },
    /// A label the operation needs is not set.
    MissingLabel { label: String },
    /// The container port label is not a port number.
    MalformedContainerPort { detail: String },
    /// The attach scheme label differs from the runtime's.
    AttachSchemeMismatch { runtime: RuntimeKind, actual: String, expected: String },
    /// The container port label differs from the runtime's.
    ContainerPortMismatch { runtime: RuntimeKind, actual: u16, expected: u16 },
    /// The container listen address label differs from the runtime's.
    ContainerListenIpMismatch { runtime: RuntimeKind, actual: String, expected: String },
    /// The container does not publish its server's port.
    NoPublishedAttachPort { port_key: String },
    /// The container engine reports a host port that is not a port number.
    MalformedPublishedPort { port_key: String, host_port: String },
    /// A stable id prefix that is empty.
    EmptyStableIdPrefix,
    /// No stable id starts with the prefix.
    NoStableIdMatch { noun: String, prefix: String },
    /// More than one stable id starts with the prefix.
    AmbiguousStableIdPrefix { prefix: String, ids: String },
    /// A transient run container cannot be restarted.
    TransientRunNotRestartable { container_name: String, stop_target: String },
    /// A restart target that is not a managed session.
    NotManagedSession { target: String },
    /// A managed session without a Git root label cannot be restarted.
    NoRecoverableGitRoot { container_name: String },
    /// A managed session whose runtime label is not a runtime cannot be restarted.
    RestartUnsupportedRuntime { container_name: String },
    /// A managed session without a launch directory cannot be restarted.
    RestartMissingLaunchDirectory { container_name: String },
    /// A managed session whose container stopped.
    NotRunningSession { container_name: String, git_root: String, run_hint: String, requested_target: String },
    /// A managed session is already running for the workspace.
    RunningSession { container_name: String, git_root: String, requested_target: String },
    /// Another Git root has the workspace's stable id.
    HashCollision { container_name: String, hash: String, stored_root: String, workspace_root: String },
    /// The workspace's container name belongs to another workspace's session.
    NameUsedBySession { workspace_container_name: String, container_name: String, stored_root: String, workspace_root: String },
    /// The workspace's container name belongs to a container agentbox does not manage.
    NameUsedByOther { container_name: String, workspace_root: String },
    /// The XDG state directory cannot be determined.
    StateDirUnavailable,
    /// A stable id whose containers have more than one Git root.
    MultipleGitRootsForId { id: String, verb: String },
    /// Some containers of a stable id have no Git root label.
    UnrootedStableIdMatches { id: String, verb: String },
    /// No container of a stable id has a Git root label.
    NoRecoverableRootForId { id: String, safety_verb: String },
    /// No session matches a health target.
    HealthNoMatch { target: String },
    /// More than one session matches a workspace health target.
    HealthWorkspaceAmbiguous { git_root: String },
    /// More than one session has the stable id of a health target.
    HealthIdAmbiguous { id: String },
    /// The session of a health target is not running.
    HealthNotRunning { id: String, status: String },
    /// The restart target resolved to another Git root after the lock was taken.
    RestartTargetChanged { locked: String, current: String },
    /// The restart target's stable id no longer matches the locked Git root.
    RestartTargetMovedAway { locked: String },
    /// No session matches a restart target.
    RestartNoMatch { target: String },
    /// More than one container matches a restart target.
    RestartAmbiguous { target: String, count: usize },
    /// No container matches a stop target.
    StopNoMatch { target_ref: String },
    /// Several containers match a stop target given without force.
    StopNeedsForce { target_ref: String, target: String },
    /// Sessions with the workspace's stable id belong to other Git roots.
    IdentityCollision { git_root: String, roots: String },
}

/// How a kind of agentbox container is called in messages.
pub open spec fn container_noun(kind: AgentboxContainerKind) -> Seq<char> {
    match kind {
        AgentboxContainerKind::Managed => "managed session"@,
        AgentboxContainerKind::Run => "transient run container"@,
    }
}

fn push_container_noun(out: &mut Vec<char>, kind: AgentboxContainerKind)
    ensures
        final(out)@ == old(out)@ + container_noun(kind),
{
    match kind {
        AgentboxContainerKind::Managed => push_str(out, "managed session"),
        AgentboxContainerKind::Run => push_str(out, "transient run container"),
    }
}

impl AgentboxError {
    /// The text the error is reported with.
    pub open spec fn message_text(&self) -> Seq<char> {
        match self {
            AgentboxError::EmptyRuntimeLabel => "malformed runtime label: `io.agentbox.runtime` is empty"@,
            AgentboxError::UnsupportedRuntime { value } => "unsupported runtime `"@ + value@ + "`; supported runtimes are "@ + supported_names_text(),
            AgentboxError::HostStateNotAbsolute { variable, source } => "`"@ + variable@ + "` must be an absolute path for Codex server passthrough: "@ + source@,
            AgentboxError::HostStateNotUtf8 { variable, display } => "`"@ + variable@ + "` must be a UTF-8 path for Codex server passthrough: "@ + display@,
            AgentboxError::EscapedGitTarget { target, git_root } => "`"@ + target@ + "` resolves outside its Git root `"@ + git_root@ + "`"@,
            AgentboxError::SessionRequiresAction { kind, git_root, container_name, detail, next_step } => container_noun(*kind) + " `"@ + container_name@ + "` for `"@ + git_root@ + "` "@ + detail@ + "; "@ + next_step@,
            AgentboxError::OrphanedSession { git_root, container_name } => "managed session `"@ + container_name@ + "` for `"@ + git_root@ + "` is orphaned: its git root no longer resolves to the same repository; stop it before retrying"@,
            AgentboxError::DuplicateSessions { git_root } => "multiple managed sessions exist for `"@ + git_root@ + "`; stop the duplicates before retrying"@,
            AgentboxError::FailedSession { git_root, container_name } => "managed session `"@ + container_name@ + "` for `"@ + git_root@ + "` is in a failed state; clean up or recreate it before retrying"@,
            AgentboxError::MissingLabel { label } => "missing required label `"@ + label@ + "`"@,
            AgentboxError::MalformedContainerPort { detail } => "malformed `io.agentbox.container_port` label: "@ + detail@,
            AgentboxError::AttachSchemeMismatch { runtime, actual, expected } => "managed session has attach scheme `"@ + actual@ + "` but runtime `"@ + kind_name(*runtime) + "` requires `"@ + expected@ + "`"@,
            AgentboxError::ContainerPortMismatch { runtime, actual, expected } => "managed session publishes container port `"@ + decimal(actual as nat) + "` but runtime `"@ + kind_name(*runtime) + "` requires `"@ + decimal(expected as nat) + "`"@,
            AgentboxError::ContainerListenIpMismatch { runtime, actual, expected } => "managed session has container listen IP `"@ + actual@ + "` but runtime `"@ + kind_name(*runtime) + "` requires `"@ + expected@ + "`"@,
            AgentboxError::NoPublishedAttachPort { port_key } => "managed session has no published attach port for `"@ + port_key@ + "`"@,
            AgentboxError::MalformedPublishedPort { port_key, host_port } => "container publishes `"@ + port_key@ + "` on malformed host port `"@ + host_port@ + "`"@,
            AgentboxError::EmptyStableIdPrefix => "stable id prefix must not be empty"@,
            AgentboxError::NoStableIdMatch { noun, prefix } => "no "@ + noun@ + " id matches prefix `"@ + prefix@ + "`"@,
            AgentboxError::AmbiguousStableIdPrefix { prefix, ids } => "stable id prefix `"@ + prefix@ + "` matches multiple ids ("@ + ids@ + "); use a longer prefix"@,
            AgentboxError::TransientRunNotRestartable { container_name, stop_target } => "transient run container `"@ + container_name@ + "` cannot be restarted; stop it with `agentbox stop "@ + stop_target@ + "`"@,
            AgentboxError::NotManagedSession { target } => "restart target `"@ + target@ + "` is not a managed session"@,
            AgentboxError::NoRecoverableGitRoot { container_name } => "managed session `"@ + container_name@ + "` cannot be restarted safely because it has no recoverable git-root label"@,
            AgentboxError::RestartUnsupportedRuntime { container_name } => "managed session `"@ + container_name@ + "` cannot be restarted because it has an unsupported or malformed `io.agentbox.runtime` label"@,
            AgentboxError::RestartMissingLaunchDirectory { container_name } => "managed session `"@ + container_name@ + "` cannot be restarted because it has a missing or malformed `io.agentbox.launch_directory` label"@,
            AgentboxError::NotRunningSession { container_name, git_root, run_hint, requested_target } => "managed session `"@ + container_name@ + "` for `"@ + git_root@ + "` is not running; rerun `"@ + run_hint@ + "` to start a new session or `agentbox stop "@ + requested_target@ + "` to remove the leftover container"@,
            AgentboxError::RunningSession { container_name, git_root, requested_target } => "managed session `"@ + container_name@ + "` is already running for `"@ + git_root@ + "`; use `agentbox attach "@ + requested_target@ + "` to join it or `agentbox stop "@ + requested_target@ + "` to stop it first"@,
            AgentboxError::HashCollision { container_name, hash, stored_root, workspace_root } => "managed container `"@ + container_name@ + "` collides on git-root hash `"@ + hash@ + "`: stored root `"@ + stored_root@ + "` does not match `"@ + workspace_root@ + "`; remove or recreate the conflicting container before retrying"@,
            AgentboxError::NameUsedBySession { workspace_container_name, container_name, stored_root, workspace_root } => "container name `"@ + workspace_container_name@ + "` is already used by managed session `"@ + container_name@ + "` for `"@ + stored_root@ + "`; remove or rename the conflicting container before retrying `"@ + workspace_root@ + "`"@,
            AgentboxError::NameUsedByOther { container_name, workspace_root } => "container name `"@ + container_name@ + "` is already in use by a different container; remove or rename that container before retrying `"@ + workspace_root@ + "`"@,
            AgentboxError::StateDirUnavailable => "failed to resolve XDG state directory"@,
            AgentboxError::MultipleGitRootsForId { id, verb } => "agentbox container id `"@ + id@ + "` matches containers with multiple git roots; cannot "@ + verb@ + " safely"@,
            AgentboxError::UnrootedStableIdMatches { id, verb } => "agentbox container id `"@ + id@ + "` includes matched containers without a recoverable git-root label; cannot "@ + verb@ + " them safely"@,
            AgentboxError::NoRecoverableRootForId { id, safety_verb } => "agentbox container id `"@ + id@ + "` cannot be "@ + safety_verb@ + " safely because no matched container has a recoverable git-root label"@,
            AgentboxError::HealthNoMatch { target } => "no running managed session matches target `"@ + target@ + "`"@,
            AgentboxError::HealthWorkspaceAmbiguous { git_root } => "workspace target `"@ + git_root@ + "` matches multiple managed sessions; health requires a single running session"@,
            AgentboxError::HealthIdAmbiguous { id } => "stable id `"@ + id@ + "` matches multiple managed sessions; health requires a single running session"@,
            AgentboxError::HealthNotRunning { id, status } => "managed session `"@ + id@ + "` is `"@ + status@ + "`; health only probes running sessions"@,
            AgentboxError::RestartTargetChanged { locked, current } => "restart target changed from `"@ + locked@ + "` to `"@ + current@ + "` while waiting for the workspace lock; retry the command"@,
            AgentboxError::RestartTargetMovedAway { locked } => "restart target changed away from `"@ + locked@ + "` while waiting for the workspace lock; retry the command"@,
            AgentboxError::RestartNoMatch { target } => "no running managed session matches restart target `"@ + target@ + "`"@,
            AgentboxError::RestartAmbiguous { target, count } => "restart target `"@ + target@ + "` matches "@ + decimal(count as nat) + " agentbox containers; restart requires exactly one running managed session. Clean up duplicates with `agentbox stop --force "@ + target@ + "` before retrying."@,
            AgentboxError::StopNoMatch { target_ref } => "no agentbox container exists for "@ + target_ref@,
            AgentboxError::StopNeedsForce { target_ref, target } => "duplicate agentbox containers exist for "@ + target_ref@ + "; rerun `agentbox stop --force "@ + target@ + "` to remove all exact matches"@,
            AgentboxError::IdentityCollision { git_root, roots } => "managed identity collision for `"@ + git_root@ + "` matched different full git roots: "@ + roots@,
        }
    }

    /// The text the error is reported with.
    pub fn message(&self) -> (r: String)
        ensures
            r@ == self.message_text(),
    {
        let mut out: Vec<char> = Vec::new();
        match self {
            AgentboxError::EmptyRuntimeLabel => {
                push_str(&mut out, "malformed runtime label: `io.agentbox.runtime` is empty");
            },
            AgentboxError::UnsupportedRuntime { value } => {
                push_str(&mut out, "unsupported runtime `");
                push_str(&mut out, value.as_str());
                push_str(&mut out, "`; supported runtimes are ");
                let names = supported_runtime_names();
                push_str(&mut out, names.as_str());
            },
            AgentboxError::HostStateNotAbsolute { variable, source } => {
                push_str(&mut out, "`");
                push_str(&mut out, variable.as_str());
                push_str(&mut out, "` must be an absolute path for Codex server passthrough: ");
                push_str(&mut out, source.as_str());
            },
            AgentboxError::HostStateNotUtf8 { variable, display } => {
                push_str(&mut out, "`");
                push_str(&mut out, variable.as_str());
                push_str(&mut out, "` must be a UTF-8 path for Codex server passthrough: ");
                push_str(&mut out, display.as_str());
            },
            AgentboxError::EscapedGitTarget { target, git_root } => {
                push_str(&mut out, "`");
                push_str(&mut out, target.as_str());
                push_str(&mut out, "` resolves outside its Git root `");
                push_str(&mut out, git_root.as_str());
                push_str(&mut out, "`");
            },
            AgentboxError::SessionRequiresAction { kind, git_root, container_name, detail, next_step } => {
                push_container_noun(&mut out, *kind);
                push_str(&mut out, " `");
                push_str(&mut out, container_name.as_str());
                push_str(&mut out, "` for `");
                push_str(&mut out, git_root.as_str());
                push_str(&mut out, "` ");
                push_str(&mut out, detail.as_str());
                push_str(&mut out, "; ");
                push_str(&mut out, next_step.as_str());
            },
            AgentboxError::OrphanedSession { git_root, container_name } => {
                push_str(&mut out, "managed session `");
                push_str(&mut out, container_name.as_str());
                push_str(&mut out, "` for `");
                push_str(&mut out, git_root.as_str());
                push_str(&mut out, "` is orphaned: its git root no longer resolves to the same repository; stop it before retrying");
            },
            AgentboxError::DuplicateSessions { git_root } => {
                push_str(&mut out, "multiple managed sessions exist for `");
                push_str(&mut out, git_root.as_str());
                push_str(&mut out, "`; stop the duplicates before retrying");
            },
            AgentboxError::FailedSession { git_root, container_name } => {
                push_str(&mut out, "managed session `");
                push_str(&mut out, container_name.as_str());
                push_str(&mut out, "` for `");
                push_str(&mut out, git_root.as_str());
                push_str(&mut out, "` is in a failed state; clean up or recreate it before retrying");
            },
            AgentboxError::MissingLabel { label } => {
                push_str(&mut out, "missing required label `");
                push_str(&mut out, label.as_str());
                push_str(&mut out, "`");
            },
            AgentboxError::MalformedContainerPort { detail } => {
                push_str(&mut out, "malformed `io.agentbox.container_port` label: ");
                push_str(&mut out, detail.as_str());
            },
            AgentboxError::AttachSchemeMismatch { runtime, actual, expected } => {
                push_str(&mut out, "managed session has attach scheme `");
                push_str(&mut out, actual.as_str());
                push_str(&mut out, "` but runtime `");
                push_str(&mut out, runtime.as_str());
                push_str(&mut out, "` requires `");
                push_str(&mut out, expected.as_str());
                push_str(&mut out, "`");
            },
            AgentboxError::ContainerPortMismatch { runtime, actual, expected } => {
                push_str(&mut out, "managed session publishes container port `");
                let d = decimal_chars(*actual as u64);
                push_chars(&mut out, &d);
                push_str(&mut out, "` but runtime `");
                push_str(&mut out, runtime.as_str());
                push_str(&mut out, "` requires `");
                let d = decimal_chars(*expected as u64);
                push_chars(&mut out, &d);
                push_str(&mut out, "`");
            },
            AgentboxError::ContainerListenIpMismatch { runtime, actual, expected } => {
                push_str(&mut out, "managed session has container listen IP `");
                push_str(&mut out, actual.as_str());
                push_str(&mut out, "` but runtime `");
                push_str(&mut out, runtime.as_str());
                push_str(&mut out, "` requires `");
                push_str(&mut out, expected.as_str());
                push_str(&mut out, "`");
            },
            AgentboxError::NoPublishedAttachPort { port_key } => {
                push_str(&mut out, "managed session has no published attach port for `");
                push_str(&mut out, port_key.as_str());
                push_str(&mut out, "`");
            },
            AgentboxError::MalformedPublishedPort { port_key, host_port } => {
                push_str(&mut out, "container publishes `");
                push_str(&mut out, port_key.as_str());
                push_str(&mut out, "` on malformed host port `");
                push_str(&mut out, host_port.as_str());
                push_str(&mut out, "`");
            },
            AgentboxError::EmptyStableIdPrefix => {
                push_str(&mut out, "stable id prefix must not be empty");
            },
            AgentboxError::NoStableIdMatch { noun, prefix } => {
                push_str(&mut out, "no ");
                push_str(&mut out, noun.as_str());
                push_str(&mut out, " id matches prefix `");
                push_str(&mut out, prefix.as_str());
                push_str(&mut out, "`");
            },
            AgentboxError::AmbiguousStableIdPrefix { prefix, ids } => {
                push_str(&mut out, "stable id prefix `");
                push_str(&mut out, prefix.as_str());
                push_str(&mut out, "` matches multiple ids (");
                push_str(&mut out, ids.as_str());
                push_str(&mut out, "); use a longer prefix");
            },
            AgentboxError::TransientRunNotRestartable { container_name, stop_target } => {
                push_str(&mut out, "transient run container `");
                push_str(&mut out, container_name.as_str());
                push_str(&mut out, "` cannot be restarted; stop it with `agentbox stop ");
                push_str(&mut out, stop_target.as_str());
                push_str(&mut out, "`");
            },
            AgentboxError::NotManagedSession { target } => {
                push_str(&mut out, "restart target `");
                push_str(&mut out, target.as_str());
                push_str(&mut out, "` is not a managed session");
            },
            AgentboxError::NoRecoverableGitRoot { container_name } => {
                push_str(&mut out, "managed session `");
                push_str(&mut out, container_name.as_str());
                push_str(&mut out, "` cannot be restarted safely because it has no recoverable git-root label");
            },
            AgentboxError::RestartUnsupportedRuntime { container_name } => {
                push_str(&mut out, "managed session `");
                push_str(&mut out, container_name.as_str());
                push_str(&mut out, "` cannot be restarted because it has an unsupported or malformed `io.agentbox.runtime` label");
            },
            AgentboxError::RestartMissingLaunchDirectory { container_name } => {
                push_str(&mut out, "managed session `");
                push_str(&mut out, container_name.as_str());
                push_str(&mut out, "` cannot be restarted because it has a missing or malformed `io.agentbox.launch_directory` label");
            },
            AgentboxError::NotRunningSession { container_name, git_root, run_hint, requested_target } => {
                push_str(&mut out, "managed session `");
                push_str(&mut out, container_name.as_str());
                push_str(&mut out, "` for `");
                push_str(&mut out, git_root.as_str());
                push_str(&mut out, "` is not running; rerun `");
                push_str(&mut out, run_hint.as_str());
                push_str(&mut out, "` to start a new session or `agentbox stop ");
                push_str(&mut out, requested_target.as_str());
                push_str(&mut out, "` to remove the leftover container");
            },
            AgentboxError::RunningSession { container_name, git_root, requested_target } => {
                push_str(&mut out, "managed session `");
                push_str(&mut out, container_name.as_str());
                push_str(&mut out, "` is already running for `");
                push_str(&mut out, git_root.as_str());
                push_str(&mut out, "`; use `agentbox attach ");
                push_str(&mut out, requested_target.as_str());
                push_str(&mut out, "` to join it or `agentbox stop ");
                push_str(&mut out, requested_target.as_str());
                push_str(&mut out, "` to stop it first");
            },
            AgentboxError::HashCollision { container_name, hash, stored_root, workspace_root } => {
                push_str(&mut out, "managed container `");
                push_str(&mut out, container_name.as_str());
                push_str(&mut out, "` collides on git-root hash `");
                push_str(&mut out, hash.as_str());
                push_str(&mut out, "`: stored root `");
                push_str(&mut out, stored_root.as_str());
                push_str(&mut out, "` does not match `");
                push_str(&mut out, workspace_root.as_str());
                push_str(&mut out, "`; remove or recreate the conflicting container before retrying");
            },
            AgentboxError::NameUsedBySession { workspace_container_name, container_name, stored_root, workspace_root } => {
                push_str(&mut out, "container name `");
                push_str(&mut out, workspace_container_name.as_str());
                push_str(&mut out, "` is already used by managed session `");
                push_str(&mut out, container_name.as_str());
                push_str(&mut out, "` for `");
                push_str(&mut out, stored_root.as_str());
                push_str(&mut out, "`; remove or rename the conflicting container before retrying `");
                push_str(&mut out, workspace_root.as_str());
                push_str(&mut out, "`");
            },
            AgentboxError::NameUsedByOther { container_name, workspace_root } => {
                push_str(&mut out, "container name `");
                push_str(&mut out, container_name.as_str());
                push_str(&mut out, "` is already in use by a different container; remove or rename that container before retrying `");
                push_str(&mut out, workspace_root.as_str());
                push_str(&mut out, "`");
            },
            AgentboxError::StateDirUnavailable => {
                push_str(&mut out, "failed to resolve XDG state directory");
            },
            AgentboxError::MultipleGitRootsForId { id, verb } => {
                push_str(&mut out, "agentbox container id `");
                push_str(&mut out, id.as_str());
                push_str(&mut out, "` matches containers with multiple git roots; cannot ");
                push_str(&mut out, verb.as_str());
                push_str(&mut out, " safely");
            },
            AgentboxError::UnrootedStableIdMatches { id, verb } => {
                push_str(&mut out, "agentbox container id `");
                push_str(&mut out, id.as_str());
                push_str(&mut out, "` includes matched containers without a recoverable git-root label; cannot ");
                push_str(&mut out, verb.as_str());
                push_str(&mut out, " them safely");
            },
            AgentboxError::NoRecoverableRootForId { id, safety_verb } => {
                push_str(&mut out, "agentbox container id `");
                push_str(&mut out, id.as_str());
                push_str(&mut out, "` cannot be ");
                push_str(&mut out, safety_verb.as_str());
                push_str(&mut out, " safely because no matched container has a recoverable git-root label");
            },
            AgentboxError::HealthNoMatch { target } => {
                push_str(&mut out, "no running managed session matches target `");
                push_str(&mut out, target.as_str());
                push_str(&mut out, "`");
            },
            AgentboxError::HealthWorkspaceAmbiguous { git_root } => {
                push_str(&mut out, "workspace target `");
                push_str(&mut out, git_root.as_str());
                push_str(&mut out, "` matches multiple managed sessions; health requires a single running session");
            },
            AgentboxError::HealthIdAmbiguous { id } => {
                push_str(&mut out, "stable id `");
                push_str(&mut out, id.as_str());
                push_str(&mut out, "` matches multiple managed sessions; health requires a single running session");
            },
            AgentboxError::HealthNotRunning { id, status } => {
                push_str(&mut out, "managed session `");
                push_str(&mut out, id.as_str());
                push_str(&mut out, "` is `");
                push_str(&mut out, status.as_str());
                push_str(&mut out, "`; health only probes running sessions");
            },
            AgentboxError::RestartTargetChanged { locked, current } => {
                push_str(&mut out, "restart target changed from `");
                push_str(&mut out, locked.as_str());
                push_str(&mut out, "` to `");
                push_str(&mut out, current.as_str());
                push_str(&mut out, "` while waiting for the workspace lock; retry the command");
            },
            AgentboxError::RestartTargetMovedAway { locked } => {
                push_str(&mut out, "restart target changed away from `");
                push_str(&mut out, locked.as_str());
                push_str(&mut out, "` while waiting for the workspace lock; retry the command");
            },
            AgentboxError::RestartNoMatch { target } => {
                push_str(&mut out, "no running managed session matches restart target `");
                push_str(&mut out, target.as_str());
                push_str(&mut out, "`");
            },
            AgentboxError::RestartAmbiguous { target, count } => {
                push_str(&mut out, "restart target `");
                push_str(&mut out, target.as_str());
                push_str(&mut out, "` matches ");
                let d = decimal_chars(*count as u64);
                push_chars(&mut out, &d);
                push_str(&mut out, " agentbox containers; restart requires exactly one running managed session. Clean up duplicates with `agentbox stop --force ");
                push_str(&mut out, target.as_str());
                push_str(&mut out, "` before retrying.");
            },
            AgentboxError::StopNoMatch { target_ref } => {
                push_str(&mut out, "no agentbox container exists for ");
                push_str(&mut out, target_ref.as_str());
            },
            AgentboxError::StopNeedsForce { target_ref, target } => {
                push_str(&mut out, "duplicate agentbox containers exist for ");
                push_str(&mut out, target_ref.as_str());
                push_str(&mut out, "; rerun `agentbox stop --force ");
                push_str(&mut out, target.as_str());
                push_str(&mut out, "` to remove all exact matches");
            },
            AgentboxError::IdentityCollision { git_root, roots } => {
                push_str(&mut out, "managed identity collision for `");
                push_str(&mut out, git_root.as_str());
                push_str(&mut out, "` matched different full git roots: ");
                push_str(&mut out, roots.as_str());
            },
        }
        assert(out@ =~= self.message_text());
        string_of(&out)
    }
}

} // verus!
