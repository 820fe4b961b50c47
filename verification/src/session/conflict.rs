//! The error for starting a session where one exists, or where the workspace's container
//! name is taken.

use vstd::prelude::*;

use crate::container::{has_mount_at, has_mount_destination, ContainerInspection};
use crate::container_paths::NIX_CACHE_DESTINATION;
use crate::error::AgentboxError;
use crate::metadata::{container_kind_spec, label_value, AgentboxContainerKind, LABEL_LOGICAL_NAME};
use crate::runtime::spec::RuntimeCreateSpec;
use crate::text::{owned, str_eq};
use crate::workspace::WorkspaceIdentity;

use super::labels::{attach_failure_spec, identity_spec, report_of, required_spec, SessionIdentityLabels, SessionLabelReport};
use super::record::{failed_session_requires_action_error, SessionMetadata, SessionRecord};
use super::status::{requires_action, session_failure_requires_action_error, SessionFailure, SessionStatus};

verus! {

/// The failure of a same-root container that is not usable: a label failure first, then a
/// drifted stable id, then a missing cache mount; none when only its state is unknown.
pub open spec fn same_root_failure_spec(labels: Map<Seq<char>, Seq<char>>, workspace_hash: Seq<char>, mounts: Seq<crate::container::ContainerMountInfo>) -> Option<SessionFailure> {
    match required_spec(labels) {
        Err(f) => Some(f),
        Ok(_) => match attach_failure_spec(labels) {
            Some(f) => Some(f),
            None => match identity_spec(labels) {
                Ok((_, hash)) => if hash != workspace_hash {
                    Some(SessionFailure::DriftedGitRootHash)
                } else if !has_mount_at(mounts, NIX_CACHE_DESTINATION@) {
                    Some(SessionFailure::MissingCacheMount)
                } else {
                    None
                },
                Err(f) => Some(f),
            },
        },
    }
}

/// Whether `e` is the error for a container named `name` (as its labels call it) that the
/// workspace's container name or stable id runs into.
pub open spec fn conflict_error(e: AgentboxError, workspace: &WorkspaceIdentity, expected_name: Seq<char>, inspect: &ContainerInspection) -> bool {
    let labels = inspect.labels@;
    let name = match label_value(labels, LABEL_LOGICAL_NAME@) {
        Some(v) => v,
        None => expected_name,
    };
    if container_kind_spec(labels) != Some(AgentboxContainerKind::Managed) {
        e matches AgentboxError::NameUsedByOther { container_name, workspace_root }
            && container_name@ == workspace.container_name@ && workspace_root@ == workspace.canonical_git_root@
    } else {
        match identity_spec(labels) {
            Err(f) => requires_action(e, AgentboxContainerKind::Managed, workspace.canonical_git_root@, name, f),
            Ok((root, hash)) => if hash == workspace.hash12@ && root != workspace.canonical_git_root@ {
                e matches AgentboxError::HashCollision { container_name, hash: h, stored_root, workspace_root }
                    && container_name@ == name && h@ == workspace.hash12@ && stored_root@ == root && workspace_root@ == workspace.canonical_git_root@
            } else if root == workspace.canonical_git_root@ {
                match same_root_failure_spec(labels, workspace.hash12@, inspect.mounts@) {
                    Some(f) => requires_action(e, AgentboxContainerKind::Managed, workspace.canonical_git_root@, name, f),
                    None => e matches AgentboxError::FailedSession { git_root, container_name }
                        && git_root@ == workspace.canonical_git_root@ && container_name@ == name,
                }
            } else {
                e matches AgentboxError::NameUsedBySession { workspace_container_name, container_name, stored_root, workspace_root }
                    && workspace_container_name@ == workspace.container_name@ && container_name@ == name
                    && stored_root@ == root && workspace_root@ == workspace.canonical_git_root@
            },
        }
    }
}

/// The error for a container that the workspace's container name is taken by.
pub fn classify_named_container_conflict(workspace: &WorkspaceIdentity, expected_name: &str, inspect: &ContainerInspection) -> (r: AgentboxError)
    ensures
        conflict_error(r, workspace, expected_name@, inspect),
{
    let metadata = SessionMetadata::from_labels(&inspect.labels);
    let container_name = metadata.logical_name_or(expected_name);
    if !metadata.is_managed() {
        return AgentboxError::NameUsedByOther {
            container_name: workspace.container_name.clone(),
            workspace_root: workspace.canonical_git_root.clone(),
        };
    }
    let label_report = SessionLabelReport::from_metadata(&metadata);
    let identity = match &label_report.identity {
        Ok(identity) => identity,
        Err(failure) => {
            return session_failure_requires_action_error(workspace.canonical_git_root.as_str(), container_name.as_str(), *failure);
        },
    };
    let same_root_failure = match label_report.required_failure() {
        Some(f) => Some(f),
        None => label_report.attach_failure(),
    };
    let root_matches = str_eq(identity.canonical_git_root.as_str(), workspace.canonical_git_root.as_str());
    let hash_matches = str_eq(identity.git_root_hash.as_str(), workspace.hash12.as_str());
    if hash_matches && !root_matches {
        return AgentboxError::HashCollision {
            container_name,
            hash: workspace.hash12.clone(),
            stored_root: identity.canonical_git_root.clone(),
            workspace_root: workspace.canonical_git_root.clone(),
        };
    }
    if root_matches {
        let root = workspace.canonical_git_root.as_str();
        if let Some(failure) = same_root_failure {
            return session_failure_requires_action_error(root, container_name.as_str(), failure);
        }
        if !hash_matches {
            return session_failure_requires_action_error(root, container_name.as_str(), SessionFailure::DriftedGitRootHash);
        }
        if !has_mount_destination(&inspect.mounts, NIX_CACHE_DESTINATION) {
            return session_failure_requires_action_error(root, container_name.as_str(), SessionFailure::MissingCacheMount);
        }
        return AgentboxError::FailedSession { git_root: owned(root), container_name };
    }
    AgentboxError::NameUsedBySession {
        workspace_container_name: workspace.container_name.clone(),
        container_name,
        stored_root: identity.canonical_git_root.clone(),
        workspace_root: workspace.canonical_git_root.clone(),
    }
}

/// Whether reporting an existing session needs the inspection of its container: only a
/// session that failed for a reason not recorded does.
pub fn existing_session_needs_inspection(session: &SessionRecord) -> (r: bool)
    ensures
        r == (session.status == SessionStatus::Failed(None)),
{
    match session.status() {
        SessionStatus::Failed(None) => true,
        _ => false,
    }
}

/// The error for starting a session of `workspace` while `session` exists. For a session
/// that failed for a reason not recorded, `inspect` is the inspection of its container, or
/// none when inspecting it failed.
pub fn existing_session_error(workspace: &WorkspaceIdentity, session: &SessionRecord, inspect: Option<&ContainerInspection>) -> (r: AgentboxError)
    ensures
        match session.status {
            SessionStatus::Duplicate => r matches AgentboxError::DuplicateSessions { git_root } && git_root@ == workspace.canonical_git_root@,
            SessionStatus::Running => r matches AgentboxError::RunningSession { container_name, git_root, requested_target }
                && container_name@ == session.container_name@ && git_root@ == workspace.canonical_git_root@ && requested_target@ == workspace.requested_target@,
            SessionStatus::Orphaned => r matches AgentboxError::OrphanedSession { git_root, container_name }
                && git_root@ == workspace.canonical_git_root@ && container_name@ == session.container_name@,
            SessionStatus::Failed(Some(f)) => requires_action(r, session.container_kind, workspace.canonical_git_root@, session.container_name@, f),
            SessionStatus::Failed(None) => match inspect {
                Some(i) => conflict_error(r, workspace, session.container_name@, i),
                None => r matches AgentboxError::FailedSession { git_root, container_name }
                    && git_root@ == workspace.canonical_git_root@ && container_name@ == session.container_name@,
            },
        },
{
    let root = workspace.canonical_git_root.as_str();
    match session.status() {
        SessionStatus::Duplicate => AgentboxError::DuplicateSessions { git_root: owned(root) },
        SessionStatus::Running => AgentboxError::RunningSession {
            container_name: session.container_name.clone(),
            git_root: owned(root),
            requested_target: workspace.requested_target.clone(),
        },
        SessionStatus::Orphaned => AgentboxError::OrphanedSession {
            git_root: owned(root),
            container_name: session.container_name.clone(),
        },
        SessionStatus::Failed(_) => match failed_session_requires_action_error(root, session) {
            Some(e) => e,
            None => match inspect {
                Some(i) => classify_named_container_conflict(workspace, session.container_name(), i),
                None => AgentboxError::FailedSession { git_root: owned(root), container_name: session.container_name.clone() },
            },
        },
    }
}

/// The error for a failed container creation when the workspace's container name is
/// taken: the conflict with the container found under that name, or none when no container
/// could be inspected under it. The create specification must carry the logical-name label.
pub fn classify_create_error(workspace: &WorkspaceIdentity, create_spec: &RuntimeCreateSpec, inspect: Option<&ContainerInspection>) -> (r: Option<AgentboxError>)
    requires
        create_spec@.labels.contains_key(LABEL_LOGICAL_NAME@),
    ensures
        match inspect {
            Some(i) => r matches Some(e) && conflict_error(e, workspace, create_spec@.labels[LABEL_LOGICAL_NAME@], i),
            None => r is None,
        },
{
    match inspect {
        Some(i) => {
            let name = match create_spec.labels().get(LABEL_LOGICAL_NAME) {
                Some(n) => n,
                None => {
                    proof {
                        assert(false);
                    }
                    owned("")
                },
            };
            Some(classify_named_container_conflict(workspace, name.as_str(), i))
        },
        None => None,
    }
}

} // verus!
