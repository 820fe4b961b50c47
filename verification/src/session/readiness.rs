//! Whether a session can be connected to or restarted, and the error when it cannot.

use vstd::prelude::*;

use crate::error::AgentboxError;
use crate::metadata::{label_value, AgentboxContainerKind, LABEL_LAUNCH_DIRECTORY, LABEL_RUNTIME};
use crate::runtime::kind::RuntimeKind;
use crate::runtime::spec::AttachEndpoint;
use crate::text::owned;
use crate::workspace::WorkspaceIdentity;

use super::record::{record_root, record_stable_id, runtime_kind_of, SessionRecord};
use super::selection::{hint_runtime, run_command_hint};
use super::status::{requires_action, resource_failure_requires_action_error, session_failure_requires_action_error, SessionFailure, SessionStatus};

verus! {

// ---------------------------------------------------------------------------
// Connecting
// ---------------------------------------------------------------------------

/// A session that can be connected to, with what connecting needs.
#[derive(Debug)]
pub struct ConnectableSession<'a> {
    pub session: &'a SessionRecord,
    pub runtime: RuntimeKind,
    pub endpoint: &'a AttachEndpoint,
    pub launch_directory: String,
}

/// Whether `e` is the error for connecting to `session` of `workspace` in its status, if
/// its status refuses it.
pub open spec fn connect_status_error(e: AgentboxError, workspace: &WorkspaceIdentity, session: &SessionRecord) -> bool {
    match session.status {
        SessionStatus::Running => false,
        SessionStatus::Orphaned => e matches AgentboxError::OrphanedSession { git_root, container_name }
            && git_root@ == workspace.canonical_git_root@ && container_name@ == session.container_name@,
        SessionStatus::Failed(Some(SessionFailure::NotRunning)) => e matches AgentboxError::NotRunningSession { container_name, git_root, run_hint, requested_target }
            && container_name@ == session.container_name@ && git_root@ == workspace.canonical_git_root@
            && run_hint@ == "agentbox start --runtime "@ + hint_runtime(label_value(session.metadata.labels@, LABEL_RUNTIME@)) + " "@ + workspace.requested_target@
            && requested_target@ == workspace.requested_target@,
        SessionStatus::Failed(Some(f)) => requires_action(e, AgentboxContainerKind::Managed, workspace.canonical_git_root@, session.container_name@, f),
        SessionStatus::Failed(None) => e matches AgentboxError::FailedSession { git_root, container_name }
            && git_root@ == workspace.canonical_git_root@ && container_name@ == session.container_name@,
        SessionStatus::Duplicate => e matches AgentboxError::DuplicateSessions { git_root } && git_root@ == workspace.canonical_git_root@,
    }
}

/// Checks that a session is running.
pub fn validate_connectable_status(workspace: &WorkspaceIdentity, session: &SessionRecord) -> (r: Result<(), AgentboxError>)
    ensures
        session.status is Running ==> r is Ok,
        !(session.status is Running) ==> (r matches Err(e) && connect_status_error(e, workspace, session)),
{
    let root = workspace.canonical_git_root.as_str();
    match session.status() {
        SessionStatus::Running => Ok(()),
        SessionStatus::Orphaned => Err(AgentboxError::OrphanedSession {
            git_root: owned(root),
            container_name: owned(session.container_name()),
        }),
        SessionStatus::Failed(Some(SessionFailure::NotRunning)) => {
            let runtime = session.runtime();
            let hint = match &runtime {
                Some(r) => run_command_hint(Some(r.as_str()), workspace),
                None => run_command_hint(None, workspace),
            };
            Err(AgentboxError::NotRunningSession {
                container_name: owned(session.container_name()),
                git_root: owned(root),
                run_hint: hint,
                requested_target: workspace.requested_target.clone(),
            })
        },
        SessionStatus::Failed(Some(failure)) => Err(session_failure_requires_action_error(root, session.container_name(), failure)),
        SessionStatus::Failed(None) => Err(AgentboxError::FailedSession {
            git_root: owned(root),
            container_name: owned(session.container_name()),
        }),
        SessionStatus::Duplicate => Err(AgentboxError::DuplicateSessions { git_root: owned(root) }),
    }
}

/// What connecting to a session needs, checked: it is running, its runtime label names a
/// runtime, it has an endpoint and a launch directory. Each missing part is reported as
/// the session failure it amounts to.
pub fn prepare_connect_session<'a>(workspace: &WorkspaceIdentity, session: &'a SessionRecord) -> (r: Result<ConnectableSession<'a>, AgentboxError>)
    ensures
        !(session.status is Running) ==> (r matches Err(e) && connect_status_error(e, workspace, session)),
        session.status is Running && runtime_kind_of(session.metadata.labels@) is None ==> (r matches Err(e)
            && requires_action(e, AgentboxContainerKind::Managed, workspace.canonical_git_root@, session.container_name@, SessionFailure::UnsupportedRuntimeLabel)),
        session.status is Running && runtime_kind_of(session.metadata.labels@) is Some && session.attach_endpoint is None ==> (r matches Err(e)
            && requires_action(e, AgentboxContainerKind::Managed, workspace.canonical_git_root@, session.container_name@, SessionFailure::MalformedEndpointLabels)),
        session.status is Running && runtime_kind_of(session.metadata.labels@) is Some && session.attach_endpoint is Some
            && label_value(session.metadata.labels@, LABEL_LAUNCH_DIRECTORY@) is None ==> (r matches Err(e)
            && requires_action(e, AgentboxContainerKind::Managed, workspace.canonical_git_root@, session.container_name@, SessionFailure::MalformedLaunchDirectory)),
        session.status is Running && runtime_kind_of(session.metadata.labels@) is Some && session.attach_endpoint is Some
            && label_value(session.metadata.labels@, LABEL_LAUNCH_DIRECTORY@) is Some ==> (r matches Ok(c)
            && c.session == session && Some(c.runtime) == runtime_kind_of(session.metadata.labels@)
            && session.attach_endpoint == Some(*c.endpoint)
            && Some(c.launch_directory@) == label_value(session.metadata.labels@, LABEL_LAUNCH_DIRECTORY@)),
{
    validate_connectable_status(workspace, session)?;
    let root = workspace.canonical_git_root.as_str();
    let runtime = match session.runtime_kind() {
        Some(k) => k,
        None => {
            return Err(session_failure_requires_action_error(root, session.container_name(), SessionFailure::UnsupportedRuntimeLabel));
        },
    };
    let endpoint = match session.attach_endpoint() {
        Some(e) => e,
        None => {
            return Err(session_failure_requires_action_error(root, session.container_name(), SessionFailure::MalformedEndpointLabels));
        },
    };
    let launch_directory = match session.launch_directory() {
        Some(d) => d,
        None => {
            return Err(session_failure_requires_action_error(root, session.container_name(), SessionFailure::MalformedLaunchDirectory));
        },
    };
    Ok(ConnectableSession { session, runtime, endpoint, launch_directory })
}

// ---------------------------------------------------------------------------
// Restarting
// ---------------------------------------------------------------------------

/// A session that can be restarted, with what restarting needs.
#[derive(Debug)]
pub struct RestartableSession<'a> {
    pub session: &'a SessionRecord,
    pub runtime: RuntimeKind,
    pub launch_directory: String,
}

/// Whether `e` is the error for restarting `session` in its status, if it refuses it.
pub open spec fn restart_status_error(e: AgentboxError, target_display: Seq<char>, session: &SessionRecord) -> bool {
    if session.container_kind == AgentboxContainerKind::Run {
        e matches AgentboxError::TransientRunNotRestartable { container_name, stop_target } && container_name@ == session.container_name@
            && stop_target@ == match record_stable_id(session@) {
                Some(id) => id,
                None => session.container_name@,
            }
    } else {
        match session.status {
            SessionStatus::Running => false,
            _ => match record_root(session@) {
                None => e matches AgentboxError::NoRecoverableGitRoot { container_name } && container_name@ == session.container_name@,
                Some(root) => match session.status {
                    SessionStatus::Orphaned => e matches AgentboxError::OrphanedSession { git_root, container_name } && git_root@ == root && container_name@ == session.container_name@,
                    SessionStatus::Duplicate => e matches AgentboxError::DuplicateSessions { git_root } && git_root@ == root,
                    SessionStatus::Failed(Some(f)) => requires_action(e, AgentboxContainerKind::Managed, root, session.container_name@, f),
                    _ => e matches AgentboxError::FailedSession { git_root, container_name } && git_root@ == root && container_name@ == session.container_name@,
                },
            },
        }
    }
}

fn restart_session_git_root(session: &SessionRecord) -> (r: Result<String, AgentboxError>)
    ensures
        match record_root(session@) {
            Some(root) => r matches Ok(x) && x@ == root,
            None => r matches Err(AgentboxError::NoRecoverableGitRoot { container_name }) && container_name@ == session.container_name@,
        },
{
    match session.canonical_git_root() {
        Some(root) => Ok(root),
        None => Err(AgentboxError::NoRecoverableGitRoot { container_name: session.container_name.clone() }),
    }
}

/// Checks that a session is a running managed session.
pub fn validate_restartable_status(target_display: &str, session: &SessionRecord) -> (r: Result<(), AgentboxError>)
    ensures
        session.container_kind == AgentboxContainerKind::Managed && session.status is Running ==> r is Ok,
        !(session.container_kind == AgentboxContainerKind::Managed && session.status is Running) ==> (r matches Err(e) && restart_status_error(e, target_display@, session)),
{
    if session.is_transient_run() {
        let stop_target = match session.stable_id() {
            Some(id) => id,
            None => session.container_name.clone(),
        };
        return Err(AgentboxError::TransientRunNotRestartable { container_name: session.container_name.clone(), stop_target });
    }
    if !session.is_managed_session() {
        return Err(AgentboxError::NotManagedSession { target: owned(target_display) });
    }
    match session.status() {
        SessionStatus::Running => Ok(()),
        SessionStatus::Orphaned => {
            let root = restart_session_git_root(session)?;
            Err(AgentboxError::OrphanedSession { git_root: root, container_name: session.container_name.clone() })
        },
        SessionStatus::Duplicate => {
            let root = restart_session_git_root(session)?;
            Err(AgentboxError::DuplicateSessions { git_root: root })
        },
        SessionStatus::Failed(Some(failure)) => {
            let root = restart_session_git_root(session)?;
            Err(resource_failure_requires_action_error(AgentboxContainerKind::Managed, root.as_str(), session.container_name(), failure))
        },
        SessionStatus::Failed(None) => {
            let root = restart_session_git_root(session)?;
            Err(AgentboxError::FailedSession { git_root: root, container_name: session.container_name.clone() })
        },
    }
}

/// What restarting a session needs, checked: it is a running managed session, its runtime
/// label names a runtime and its launch directory is set.
pub fn prepare_restart_session<'a>(target_display: &str, session: &'a SessionRecord) -> (r: Result<RestartableSession<'a>, AgentboxError>)
    ensures
        !(session.container_kind == AgentboxContainerKind::Managed && session.status is Running) ==> (r matches Err(e) && restart_status_error(e, target_display@, session)),
        session.container_kind == AgentboxContainerKind::Managed && session.status is Running && runtime_kind_of(session.metadata.labels@) is None ==> (r matches Err(
            AgentboxError::RestartUnsupportedRuntime { container_name },
        ) && container_name@ == session.container_name@),
        session.container_kind == AgentboxContainerKind::Managed && session.status is Running && runtime_kind_of(session.metadata.labels@) is Some
            && label_value(session.metadata.labels@, LABEL_LAUNCH_DIRECTORY@) is None ==> (r matches Err(
            AgentboxError::RestartMissingLaunchDirectory { container_name },
        ) && container_name@ == session.container_name@),
        session.container_kind == AgentboxContainerKind::Managed && session.status is Running && runtime_kind_of(session.metadata.labels@) is Some
            && label_value(session.metadata.labels@, LABEL_LAUNCH_DIRECTORY@) is Some ==> (r matches Ok(x) && x.session == session
            && Some(x.runtime) == runtime_kind_of(session.metadata.labels@)
            && Some(x.launch_directory@) == label_value(session.metadata.labels@, LABEL_LAUNCH_DIRECTORY@)),
{
    validate_restartable_status(target_display, session)?;
    let runtime = match session.runtime_kind() {
        Some(k) => k,
        None => {
            return Err(AgentboxError::RestartUnsupportedRuntime { container_name: session.container_name.clone() });
        },
    };
    let launch_directory = match session.launch_directory() {
        Some(d) => d,
        None => {
            return Err(AgentboxError::RestartMissingLaunchDirectory { container_name: session.container_name.clone() });
        },
    };
    Ok(RestartableSession { session, runtime, launch_directory })
}

} // verus!
