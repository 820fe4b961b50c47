//! The status of a session, why a session failed, and what the user is told to do about it.

use vstd::prelude::*;

use crate::container_paths::NIX_CACHE_DESTINATION;
use crate::error::AgentboxError;
use crate::metadata::AgentboxContainerKind;
use crate::text::{owned, push_str, string_of};

verus! {

/// Why a session is unusable.
#[derive(Debug, Clone, Copy, PartialEq, Eq, Structural)]
pub enum SessionFailure {
    MissingRequiredLabels,
    DriftedGitRootHash,
    MissingCacheMount,
    NotRunning,
    UnsupportedRuntimeLabel,
    MalformedLaunchDirectory,
    MalformedEndpointLabels,
    MissingPublishedAttachPort,
}

/// The status of a session.
#[derive(Debug, Clone, Copy, PartialEq, Eq, Structural)]
pub enum SessionStatus {
    /// Running, with its Git root in place.
    Running,
    /// Running, but its Git root no longer resolves to itself.
    Orphaned,
    /// One of several sessions for the same Git root.
    Duplicate,
    /// Unusable, for a known reason or not.
    Failed(Option<SessionFailure>),
}

/// The name of a status.
pub open spec fn status_name(s: SessionStatus) -> Seq<char> {
    match s {
        SessionStatus::Running => "running"@,
        SessionStatus::Orphaned => "orphaned"@,
        SessionStatus::Duplicate => "duplicate"@,
        SessionStatus::Failed(_) => "failed"@,
    }
}

impl SessionStatus {
    /// Failed for `failure`.
    pub fn failed(failure: SessionFailure) -> (r: Self)
        ensures
            r == SessionStatus::Failed(Some(failure)),
    {
        SessionStatus::Failed(Some(failure))
    }

    /// Failed for a reason not known.
    pub fn failed_unknown() -> (r: Self)
        ensures
            r == SessionStatus::Failed(None),
    {
        SessionStatus::Failed(None)
    }

    /// Why the session failed, when it failed for a known reason.
    pub fn failure(self) -> (r: Option<SessionFailure>)
        ensures
            r == match self {
                SessionStatus::Failed(f) => f,
                _ => None,
            },
    {
        match self {
            SessionStatus::Failed(f) => f,
            _ => None,
        }
    }

    /// Whether the session failed.
    pub fn is_failed(self) -> (r: bool)
        ensures
            r == (self is Failed),
    {
        match self {
            SessionStatus::Failed(_) => true,
            _ => false,
        }
    }

    /// Whether the session is running with its Git root in place.
    pub fn is_running(self) -> (r: bool)
        ensures
            r == (self is Running),
    {
        match self {
            SessionStatus::Running => true,
            _ => false,
        }
    }

    /// The status's name: `running`, `orphaned`, `duplicate` or `failed`.
    pub fn as_str(self) -> (r: &'static str)
        ensures
            r@ == status_name(self),
    {
        match self {
            SessionStatus::Running => "running",
            SessionStatus::Orphaned => "orphaned",
            SessionStatus::Duplicate => "duplicate",
            SessionStatus::Failed(_) => "failed",
        }
    }
}

/// A status built from a failure gives that failure back, and counts as failed.
pub proof fn lemma_failed_status_roundtrip(failure: SessionFailure)
    ensures
        (SessionStatus::Failed(Some(failure))).is_failed_spec(),
        (match SessionStatus::Failed(Some(failure)) {
            SessionStatus::Failed(f) => f,
            _ => None,
        }) == Some(failure),
{
}

impl SessionStatus {
    /// Whether the status is a failure.
    pub open spec fn is_failed_spec(self) -> bool {
        self is Failed
    }
}

/// What a failed session's user is told: what is wrong, and the next step.
pub open spec fn failure_detail(f: SessionFailure) -> Seq<char> {
    match f {
        SessionFailure::MissingRequiredLabels => "is missing required session labels"@,
        SessionFailure::DriftedGitRootHash => "has a drifted `io.agentbox.git_root_hash`"@,
        SessionFailure::MissingCacheMount => "is missing required cache mount `"@ + NIX_CACHE_DESTINATION@ + "`"@,
        SessionFailure::NotRunning => "is not running"@,
        SessionFailure::UnsupportedRuntimeLabel => "has an unsupported or malformed `io.agentbox.runtime` label"@,
        SessionFailure::MalformedLaunchDirectory => "has a missing or malformed `io.agentbox.launch_directory` label"@,
        SessionFailure::MalformedEndpointLabels => "has missing or inconsistent attach endpoint labels"@,
        SessionFailure::MissingPublishedAttachPort => "has no published attach endpoint port"@,
    }
}

/// The next step a failed session's user is told to take.
pub open spec fn failure_next_step(f: SessionFailure) -> Seq<char> {
    match f {
        SessionFailure::MissingCacheMount => "recreate the container before retrying"@,
        SessionFailure::NotRunning => "stop it or recreate it before retrying"@,
        _ => "clean up or recreate it before retrying"@,
    }
}

/// What is wrong with a failed session, and the next step.
#[derive(Debug, Clone, PartialEq, Eq)]
pub struct FailureAction {
    pub detail: String,
    pub next_step: &'static str,
}

impl SessionFailure {
    /// What the user is told about the failure.
    pub fn action(self) -> (r: FailureAction)
        ensures
            r.detail@ == failure_detail(self),
            r.next_step@ == failure_next_step(self),
    {
        match self {
            SessionFailure::MissingRequiredLabels => FailureAction {
                detail: owned("is missing required session labels"),
                next_step: "clean up or recreate it before retrying",
            },
            SessionFailure::DriftedGitRootHash => FailureAction {
                detail: owned("has a drifted `io.agentbox.git_root_hash`"),
                next_step: "clean up or recreate it before retrying",
            },
            SessionFailure::MissingCacheMount => {
                let mut d: Vec<char> = Vec::new();
                push_str(&mut d, "is missing required cache mount `");
                push_str(&mut d, NIX_CACHE_DESTINATION);
                push_str(&mut d, "`");
                FailureAction { detail: string_of(&d), next_step: "recreate the container before retrying" }
            },
            SessionFailure::NotRunning => FailureAction {
                detail: owned("is not running"),
                next_step: "stop it or recreate it before retrying",
            },
            SessionFailure::UnsupportedRuntimeLabel => FailureAction {
                detail: owned("has an unsupported or malformed `io.agentbox.runtime` label"),
                next_step: "clean up or recreate it before retrying",
            },
            SessionFailure::MalformedLaunchDirectory => FailureAction {
                detail: owned("has a missing or malformed `io.agentbox.launch_directory` label"),
                next_step: "clean up or recreate it before retrying",
            },
            SessionFailure::MalformedEndpointLabels => FailureAction {
                detail: owned("has missing or inconsistent attach endpoint labels"),
                next_step: "clean up or recreate it before retrying",
            },
            SessionFailure::MissingPublishedAttachPort => FailureAction {
                detail: owned("has no published attach endpoint port"),
                next_step: "clean up or recreate it before retrying",
            },
        }
    }

    /// The error for a managed session `container_name` of `git_root` that failed so.
    pub fn requires_action_error(self, git_root: &str, container_name: &str) -> (r: AgentboxError)
        ensures
            requires_action(r, AgentboxContainerKind::Managed, git_root@, container_name@, self),
    {
        resource_failure_requires_action_error(AgentboxContainerKind::Managed, git_root, container_name, self)
    }
}

/// Whether `e` tells the user that the container `name` of kind `kind` and root `git_root`
/// failed for `failure`, and what to do.
pub open spec fn requires_action(e: AgentboxError, kind: AgentboxContainerKind, git_root: Seq<char>, name: Seq<char>, failure: SessionFailure) -> bool {
    e matches AgentboxError::SessionRequiresAction { kind: k, git_root: g, container_name: n, detail: d, next_step: s }
        && k == kind && g@ == git_root && n@ == name && d@ == failure_detail(failure) && s@ == failure_next_step(failure)
}

/// The error for a container of kind `container_kind` that failed for `failure`.
pub fn resource_failure_requires_action_error(
    container_kind: AgentboxContainerKind,
    git_root: &str,
    container_name: &str,
    failure: SessionFailure,
) -> (r: AgentboxError)
    ensures
        requires_action(r, container_kind, git_root@, container_name@, failure),
{
    let action = failure.action();
    AgentboxError::SessionRequiresAction {
        kind: container_kind,
        git_root: owned(git_root),
        container_name: owned(container_name),
        detail: action.detail,
        next_step: owned(action.next_step),
    }
}

/// The error for a managed session that failed for `failure`.
pub fn session_failure_requires_action_error(git_root: &str, container_name: &str, failure: SessionFailure) -> (r: AgentboxError)
    ensures
        requires_action(r, AgentboxContainerKind::Managed, git_root@, container_name@, failure),
{
    resource_failure_requires_action_error(AgentboxContainerKind::Managed, git_root, container_name, failure)
}

} // verus!
