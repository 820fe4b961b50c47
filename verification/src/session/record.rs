//! What agentbox knows of one of its containers: its labels, endpoint and status.

use vstd::prelude::*;

use crate::error::AgentboxError;
use crate::metadata::{
    agentbox_container_kind_from_labels, container_kind_spec, label_value, required_label_value,
    AgentboxContainerKind, LABEL_GIT_ROOT, LABEL_GIT_ROOT_HASH, LABEL_LAUNCH_DIRECTORY,
    LABEL_LOGICAL_NAME, LABEL_MANAGED, LABEL_RUNTIME,
};
use crate::runtime::kind::{kind_from_name, lemma_kind_names_roundtrip, runtime_kind_from_name, RuntimeKind};
use crate::runtime::spec::AttachEndpoint;
use crate::string_map::StringMap;
use crate::text::{owned, trim};

use super::status::{requires_action, resource_failure_requires_action_error, SessionStatus};

verus! {

/// The labels of a container, read as session metadata.
#[derive(Debug, Clone, PartialEq, Eq)]
pub struct SessionMetadata {
    pub labels: StringMap,
}

/// The runtime a label set names, when its runtime label names one.
pub open spec fn runtime_kind_of(labels: Map<Seq<char>, Seq<char>>) -> Option<RuntimeKind> {
    match label_value(labels, LABEL_RUNTIME@) {
        Some(v) => kind_from_name(v),
        None => None,
    }
}

/// Whether an optional owned string holds the characters `s`.
pub open spec fn opt_str_is(o: Option<String>, s: Option<Seq<char>>) -> bool {
    match (o, s) {
        (Some(a), Some(b)) => a@ == b,
        (None, None) => true,
        _ => false,
    }
}

impl SessionMetadata {
    /// Metadata with a copy of `labels`.
    pub fn from_labels(labels: &StringMap) -> (r: Self)
        ensures
            r.labels@ == labels@,
    {
        SessionMetadata { labels: labels.clone() }
    }

    /// The value of a label, when it is set and not empty.
    pub fn label(&self, name: &str) -> (r: Option<String>)
        ensures
            opt_str_is(r, label_value(self.labels@, name@)),
    {
        required_label_value(&self.labels, name)
    }

    /// What kind of agentbox container the labels mark.
    pub fn container_kind(&self) -> (r: Option<AgentboxContainerKind>)
        ensures
            r == container_kind_spec(self.labels@),
    {
        agentbox_container_kind_from_labels(&self.labels)
    }

    /// Whether the labels mark a managed session.
    pub fn is_managed(&self) -> (r: bool)
        ensures
            r == (container_kind_spec(self.labels@) == Some(AgentboxContainerKind::Managed)),
    {
        match self.container_kind() {
            Some(AgentboxContainerKind::Managed) => true,
            _ => false,
        }
    }

    /// The canonical Git root label.
    pub fn canonical_git_root(&self) -> (r: Option<String>)
        ensures
            opt_str_is(r, label_value(self.labels@, LABEL_GIT_ROOT@)),
    {
        self.label(LABEL_GIT_ROOT)
    }

    /// The stable id label.
    pub fn git_root_hash(&self) -> (r: Option<String>)
        ensures
            opt_str_is(r, label_value(self.labels@, LABEL_GIT_ROOT_HASH@)),
    {
        self.label(LABEL_GIT_ROOT_HASH)
    }

    /// The runtime label.
    pub fn runtime(&self) -> (r: Option<String>)
        ensures
            opt_str_is(r, label_value(self.labels@, LABEL_RUNTIME@)),
    {
        self.label(LABEL_RUNTIME)
    }

    /// The runtime the runtime label names; no other label matters.
    pub fn runtime_kind(&self) -> (r: Option<RuntimeKind>)
        ensures
            r == runtime_kind_of(self.labels@),
    {
        match self.runtime() {
            Some(v) => runtime_kind_from_name(v.as_str()),
            None => None,
        }
    }

    /// The launch directory label.
    pub fn launch_directory(&self) -> (r: Option<String>)
        ensures
            opt_str_is(r, label_value(self.labels@, LABEL_LAUNCH_DIRECTORY@)),
    {
        self.label(LABEL_LAUNCH_DIRECTORY)
    }

    /// The logical name label, or `fallback`.
    pub fn logical_name_or(&self, fallback: &str) -> (r: String)
        ensures
            r@ == match label_value(self.labels@, LABEL_LOGICAL_NAME@) {
                Some(v) => v,
                None => fallback@,
            },
    {
        match self.label(LABEL_LOGICAL_NAME) {
            Some(v) => v,
            None => owned(fallback),
        }
    }
}

/// An agentbox container and what its labels, inspection and status say.
#[derive(Debug, PartialEq, Eq)]
pub struct SessionRecord {
    pub container_id: String,
    pub container_name: String,
    pub container_kind: AgentboxContainerKind,
    pub metadata: SessionMetadata,
    pub attach_endpoint: Option<AttachEndpoint>,
    pub container_running: bool,
    pub status: SessionStatus,
}

/// The mathematical form of a session record.
pub struct RecordView {
    pub container_id: Seq<char>,
    pub container_name: Seq<char>,
    pub container_kind: AgentboxContainerKind,
    pub labels: Map<Seq<char>, Seq<char>>,
    pub attach_endpoint: Option<(Seq<char>, Seq<char>, u16)>,
    pub container_running: bool,
    pub status: SessionStatus,
}

/// An endpoint as its scheme, host address and port.
pub open spec fn endpoint_view(e: Option<AttachEndpoint>) -> Option<(Seq<char>, Seq<char>, u16)> {
    match e {
        Some(e) => Some((e.scheme@, e.host_ip@, e.host_port)),
        None => None,
    }
}

impl View for SessionRecord {
    type V = RecordView;

    open spec fn view(&self) -> RecordView {
        RecordView {
            container_id: self.container_id@,
            container_name: self.container_name@,
            container_kind: self.container_kind,
            labels: self.metadata.labels@,
            attach_endpoint: endpoint_view(self.attach_endpoint),
            container_running: self.container_running,
            status: self.status,
        }
    }
}

impl Clone for SessionRecord {
    /// The same record.
    fn clone(&self) -> (r: Self)
        ensures
            r@ == self@,
    {
        let attach_endpoint = match &self.attach_endpoint {
            Some(e) => Some(e.clone()),
            None => None,
        };
        SessionRecord {
            container_id: self.container_id.clone(),
            container_name: self.container_name.clone(),
            container_kind: self.container_kind,
            metadata: SessionMetadata { labels: self.metadata.labels.clone() },
            attach_endpoint,
            container_running: self.container_running,
            status: self.status,
        }
    }
}

/// The Git root of a record, when its label is set.
pub open spec fn record_root(r: RecordView) -> Option<Seq<char>> {
    label_value(r.labels, LABEL_GIT_ROOT@)
}

/// The stable id of a record, when its label is set.
pub open spec fn record_stable_id(r: RecordView) -> Option<Seq<char>> {
    label_value(r.labels, LABEL_GIT_ROOT_HASH@)
}

/// A record that can be connected to: a running managed session with an endpoint and a
/// Git root.
pub open spec fn is_connectable_spec(r: RecordView) -> bool {
    r.container_kind == AgentboxContainerKind::Managed && r.status is Running && r.attach_endpoint is Some
        && record_root(r) is Some
}

/// A record that can be restarted: a running managed session whose runtime label names a
/// runtime and whose launch directory is set.
pub open spec fn is_restartable_spec(r: RecordView) -> bool {
    r.container_kind == AgentboxContainerKind::Managed && r.status is Running && runtime_kind_of(r.labels) is Some
        && label_value(r.labels, LABEL_LAUNCH_DIRECTORY@) is Some
}

impl SessionRecord {
    /// A record of the given parts.
    pub fn new(
        container_id: String,
        container_name: String,
        container_kind: AgentboxContainerKind,
        metadata: SessionMetadata,
        attach_endpoint: Option<AttachEndpoint>,
        container_running: bool,
        status: SessionStatus,
    ) -> (r: Self)
        ensures
            r.container_id == container_id,
            r.container_name == container_name,
            r.container_kind == container_kind,
            r.metadata == metadata,
            r.attach_endpoint == attach_endpoint,
            r.container_running == container_running,
            r.status == status,
    {
        SessionRecord { container_id, container_name, container_kind, metadata, attach_endpoint, container_running, status }
    }

    /// The Git root label.
    pub fn canonical_git_root(&self) -> (r: Option<String>)
        ensures
            opt_str_is(r, record_root(self@)),
    {
        self.metadata.canonical_git_root()
    }

    /// The stable id label.
    pub fn git_root_hash(&self) -> (r: Option<String>)
        ensures
            opt_str_is(r, record_stable_id(self@)),
    {
        self.metadata.git_root_hash()
    }

    /// The stable id: the Git root hash label.
    pub fn stable_id(&self) -> (r: Option<String>)
        ensures
            opt_str_is(r, record_stable_id(self@)),
    {
        self.git_root_hash()
    }

    /// The runtime label.
    pub fn runtime(&self) -> (r: Option<String>)
        ensures
            opt_str_is(r, label_value(self@.labels, LABEL_RUNTIME@)),
    {
        self.metadata.runtime()
    }

    /// The launch directory label.
    pub fn launch_directory(&self) -> (r: Option<String>)
        ensures
            opt_str_is(r, label_value(self@.labels, LABEL_LAUNCH_DIRECTORY@)),
    {
        self.metadata.launch_directory()
    }

    /// The runtime the runtime label names.
    pub fn runtime_kind(&self) -> (r: Option<RuntimeKind>)
        ensures
            r == runtime_kind_of(self@.labels),
    {
        self.metadata.runtime_kind()
    }

    /// The kind of container.
    pub fn container_kind(&self) -> (r: AgentboxContainerKind)
        ensures
            r == self.container_kind,
    {
        self.container_kind
    }

    /// The container's name.
    pub fn container_name(&self) -> (r: &str)
        ensures
            r@ == self.container_name@,
    {
        self.container_name.as_str()
    }

    /// The status.
    pub fn status(&self) -> (r: SessionStatus)
        ensures
            r == self.status,
    {
        self.status
    }

    /// The published endpoint of the runtime's server.
    pub fn attach_endpoint(&self) -> (r: Option<&AttachEndpoint>)
        ensures
            match (r, self.attach_endpoint) {
                (Some(a), Some(b)) => *a == b,
                (None, None) => true,
                _ => false,
            },
    {
        match &self.attach_endpoint {
            Some(e) => Some(e),
            None => None,
        }
    }

    /// Whether the container is a managed session.
    pub fn is_managed_session(&self) -> (r: bool)
        ensures
            r == (self.container_kind == AgentboxContainerKind::Managed),
    {
        self.container_kind == AgentboxContainerKind::Managed
    }

    /// Whether the container is a transient run.
    pub fn is_transient_run(&self) -> (r: bool)
        ensures
            r == (self.container_kind == AgentboxContainerKind::Run),
    {
        self.container_kind == AgentboxContainerKind::Run
    }

    /// Whether the container is running, whatever its status.
    pub fn container_running(&self) -> (r: bool)
        ensures
            r == self.container_running,
    {
        self.container_running
    }

    /// Whether the session's status is running.
    pub fn is_running(&self) -> (r: bool)
        ensures
            r == (self.status is Running),
    {
        self.status.is_running()
    }

    /// Whether the record has a stable id.
    pub fn has_stable_id(&self) -> (r: bool)
        ensures
            r == (record_stable_id(self@) is Some),
    {
        self.stable_id().is_some()
    }

    /// Whether the record can be connected to.
    pub fn is_connectable_candidate(&self) -> (r: bool)
        ensures
            r == is_connectable_spec(self@),
    {
        self.is_managed_session() && self.is_running() && self.attach_endpoint.is_some()
            && self.canonical_git_root().is_some()
    }

    /// Whether the record can be restarted.
    pub fn is_restartable_candidate(&self) -> (r: bool)
        ensures
            r == is_restartable_spec(self@),
    {
        self.is_managed_session() && self.is_running() && self.runtime_kind().is_some()
            && self.launch_directory().is_some()
    }

    /// Marks the session as one of several for its Git root.
    pub fn mark_duplicate(&mut self)
        ensures
            final(self)@ == (RecordView { status: SessionStatus::Duplicate, ..old(self)@ }),
    {
        self.status = SessionStatus::Duplicate;
    }
}

/// The error for a failed session, when it failed for a known reason.
pub fn failed_session_requires_action_error(git_root: &str, session: &SessionRecord) -> (r: Option<AgentboxError>)
    ensures
        match session.status {
            SessionStatus::Failed(Some(f)) => r matches Some(e) && requires_action(e, session.container_kind, git_root@, session.container_name@, f),
            _ => r is None,
        },
{
    match session.status().failure() {
        Some(failure) => Some(resource_failure_requires_action_error(
            session.container_kind(),
            git_root,
            session.container_name(),
            failure,
        )),
        None => None,
    }
}

/// A group of sessions sharing a Git root.
#[derive(Debug, PartialEq, Eq)]
pub struct SessionGroup {
    pub canonical_git_root: String,
    pub sessions: Vec<SessionRecord>,
}

} // verus!
