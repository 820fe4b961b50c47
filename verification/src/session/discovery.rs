//! Finding sessions among the engine's containers: which containers to look at, the record
//! each inspected container gives, and what the records found together say.

use vstd::prelude::*;

use crate::container::{has_volume_at, has_volume_mount_destination, ContainerInspection, ContainerMountInfo, ContainerSummary};
use crate::container_paths::NIX_CACHE_DESTINATION;
use crate::error::AgentboxError;
use crate::metadata::{agentbox_container_kind_from_labels, container_kind_spec, label_value, required_label_value, AgentboxContainerKind, LABEL_GIT_ROOT_HASH};
use crate::order::{sorted_unique, strictly_sorted, strings_view};
use crate::path_order::paths_equal;
use crate::text::{join_spec, join_strings, owned, str_eq};
use crate::workspace::{git_root_hash12, root_hash12};

use super::endpoint::AttachEndpointReport;
use super::labels::{report_of, required_spec, SessionLabelReport};
use super::collection::root_matches;
use super::record::{opt_str_is, record_root, record_stable_id, RecordView, SessionMetadata, SessionRecord};
use super::status::{SessionFailure, SessionStatus};

verus! {

// ---------------------------------------------------------------------------
// Status
// ---------------------------------------------------------------------------

/// What deciding a session's status gives: the status, or the Git root whose orphan check
/// decides between running and orphaned.
#[derive(Debug, PartialEq, Eq)]
pub enum StatusDecision {
    Status(SessionStatus),
    CheckGitRoot(String),
}

/// A session's status before its Git root is checked: the first failure among its labels,
/// its endpoint, its cache mount and its container's state; otherwise the root to check.
pub open spec fn status_decision_spec(
    labels: Map<Seq<char>, Seq<char>>,
    endpoint_failure: Option<SessionFailure>,
    running: bool,
    mounts: Seq<ContainerMountInfo>,
) -> Result<Seq<char>, SessionStatus> {
    match required_spec(labels) {
        Err(f) => Err(SessionStatus::Failed(Some(f))),
        Ok((root, _)) => match endpoint_failure {
            Some(f) => Err(SessionStatus::Failed(Some(f))),
            None => if !has_volume_at(mounts, NIX_CACHE_DESTINATION@) {
                Err(SessionStatus::Failed(Some(SessionFailure::MissingCacheMount)))
            } else if !running {
                Err(SessionStatus::Failed(Some(SessionFailure::NotRunning)))
            } else {
                Ok(root)
            },
        },
    }
}

/// A container that is not running is never handed to the Git root check, so it is never
/// reported running or orphaned: once its labels, endpoint and cache mount pass, it has
/// failed as not running. Only a running container whose checks all pass goes to the Git
/// root check, with the root its labels record; a label failure comes first, then an
/// endpoint failure.
pub proof fn lemma_stopped_container_is_not_running(
    labels: Map<Seq<char>, Seq<char>>,
    endpoint_failure: Option<SessionFailure>,
    running: bool,
    mounts: Seq<ContainerMountInfo>,
)
    ensures
        !running ==> status_decision_spec(labels, endpoint_failure, running, mounts) is Err,
        !running && required_spec(labels) is Ok && endpoint_failure is None && has_volume_at(mounts, NIX_CACHE_DESTINATION@)
            ==> status_decision_spec(labels, endpoint_failure, running, mounts) == Err::<Seq<char>, SessionStatus>(SessionStatus::Failed(Some(SessionFailure::NotRunning))),
        running ==> (status_decision_spec(labels, endpoint_failure, running, mounts) is Ok <==> (required_spec(labels) is Ok
            && endpoint_failure is None && has_volume_at(mounts, NIX_CACHE_DESTINATION@))),
        status_decision_spec(labels, endpoint_failure, running, mounts) matches Ok(root) ==> (running
            && (required_spec(labels) matches Ok((r, _)) && r == root)),
        required_spec(labels) matches Err(f) ==> status_decision_spec(labels, endpoint_failure, running, mounts)
            == Err::<Seq<char>, SessionStatus>(SessionStatus::Failed(Some(f))),
        required_spec(labels) is Ok ==> (endpoint_failure matches Some(f) ==> status_decision_spec(labels, endpoint_failure, running, mounts)
            == Err::<Seq<char>, SessionStatus>(SessionStatus::Failed(Some(f)))),
{
}

/// Decides a session's status as far as it can without the host.
pub fn derive_status(
    label_report: &SessionLabelReport,
    attach_endpoint: &AttachEndpointReport,
    running: bool,
    mounts: &Vec<ContainerMountInfo>,
    labels: Ghost<Map<Seq<char>, Seq<char>>>,
) -> (r: StatusDecision)
    requires
        report_of(*label_report, labels@),
    ensures
        match status_decision_spec(labels@, match attach_endpoint.endpoint { Ok(_) => None, Err(f) => Some(f) }, running, mounts@) {
            Err(s) => r == StatusDecision::Status(s),
            Ok(root) => r matches StatusDecision::CheckGitRoot(x) && x@ == root,
        },
        !running ==> r is Status,
        !running && required_spec(labels@) is Ok && attach_endpoint.endpoint is Ok && has_volume_at(mounts@, NIX_CACHE_DESTINATION@)
            ==> r == StatusDecision::Status(SessionStatus::Failed(Some(SessionFailure::NotRunning))),
{
    proof {
        lemma_stopped_container_is_not_running(labels@, match attach_endpoint.endpoint { Ok(_) => None, Err(f) => Some(f) }, running, mounts@);
    }
    let root = match &label_report.required {
        Ok(required) => required.identity.canonical_git_root.clone(),
        Err(f) => {
            return StatusDecision::Status(SessionStatus::failed(*f));
        },
    };
    if let Some(f) = attach_endpoint.failure() {
        return StatusDecision::Status(SessionStatus::failed(f));
    }
    if !has_volume_mount_destination(mounts, NIX_CACHE_DESTINATION) {
        return StatusDecision::Status(SessionStatus::failed(SessionFailure::MissingCacheMount));
    }
    if !running {
        return StatusDecision::Status(SessionStatus::failed(SessionFailure::NotRunning));
    }
    StatusDecision::CheckGitRoot(root)
}

/// The status of a session that passed every other check, by its Git root check.
pub fn status_from_git_root_check(orphaned: bool) -> (r: SessionStatus)
    ensures
        r == if orphaned { SessionStatus::Orphaned } else { SessionStatus::Running },
{
    if orphaned {
        SessionStatus::Orphaned
    } else {
        SessionStatus::Running
    }
}

// ---------------------------------------------------------------------------
// Inspected containers
// ---------------------------------------------------------------------------

/// An agentbox container with what its listing and inspection say.
#[derive(Debug)]
pub struct InspectedAgentboxContainer {
    pub container_id: String,
    pub container_name: String,
    pub container_kind: AgentboxContainerKind,
    pub metadata: SessionMetadata,
    pub label_report: SessionLabelReport,
    pub attach_endpoint: AttachEndpointReport,
    pub running: bool,
    pub mounts: Vec<ContainerMountInfo>,
}

/// The name a listed container goes by: its first name, or its id.
pub open spec fn listed_name(c: ContainerSummary) -> Seq<char> {
    match c.names {
        Some(names) => if names@.len() > 0 { names@[0]@ } else { c.id@ },
        None => c.id@,
    }
}

impl InspectedAgentboxContainer {
    /// What a listed container and its inspection say, its labels checked once.
    pub fn from_inspection(container: ContainerSummary, inspect: ContainerInspection, container_kind: AgentboxContainerKind) -> (r: Self)
        ensures
            r.container_id@ == container.id@,
            r.container_name@ == listed_name(container),
            r.container_kind == container_kind,
            r.metadata.labels@ == inspect.labels@,
            report_of(r.label_report, inspect.labels@),
            super::endpoint::endpoint_report_of(r.attach_endpoint, r.label_report, inspect.ports@),
            r.running == inspect.running,
            r.mounts@ == inspect.mounts@,
    {
        let container_name = match &container.names {
            Some(names) => if names.len() > 0 {
                names[0].clone()
            } else {
                container.id.clone()
            },
            None => container.id.clone(),
        };
        let metadata = SessionMetadata::from_labels(&inspect.labels);
        let label_report = SessionLabelReport::from_metadata(&metadata);
        let attach_endpoint = AttachEndpointReport::from_label_report_and_inspect(&label_report, &inspect);
        InspectedAgentboxContainer {
            container_id: container.id,
            container_name,
            container_kind,
            metadata,
            label_report,
            attach_endpoint,
            running: inspect.running,
            mounts: inspect.mounts,
        }
    }

    /// Decides the container's status as far as it can without the host.
    pub fn status_decision(&self) -> (r: StatusDecision)
        requires
            report_of(self.label_report, self.metadata.labels@),
        ensures
            match status_decision_spec(self.metadata.labels@, match self.attach_endpoint.endpoint { Ok(_) => None, Err(f) => Some(f) }, self.running, self.mounts@) {
                Err(s) => r == StatusDecision::Status(s),
                Ok(root) => r matches StatusDecision::CheckGitRoot(x) && x@ == root,
            },
            !self.running ==> r is Status,
    {
        derive_status(&self.label_report, &self.attach_endpoint, self.running, &self.mounts, Ghost(self.metadata.labels@))
    }

    /// The record of the container with status `status`.
    pub fn into_session_record(self, status: SessionStatus) -> (r: SessionRecord)
        ensures
            r.container_id == self.container_id,
            r.container_name == self.container_name,
            r.container_kind == self.container_kind,
            r.metadata == self.metadata,
            r.attach_endpoint == match self.attach_endpoint.endpoint {
                Ok(e) => Some(e),
                Err(_) => None,
            },
            r.container_running == self.running,
            r.status == status,
    {
        let attach_endpoint = self.attach_endpoint.into_endpoint();
        SessionRecord::new(
            self.container_id,
            self.container_name,
            self.container_kind,
            self.metadata,
            attach_endpoint,
            self.running,
            status,
        )
    }
}

// ---------------------------------------------------------------------------
// Scopes
// ---------------------------------------------------------------------------

/// Which agentbox containers a discovery looks at.
#[derive(Debug, Clone, Copy, PartialEq, Eq, Structural)]
pub enum ContainerDiscoveryScope {
    /// Managed sessions only.
    ManagedSessions,
    /// Every container agentbox owns.
    AgentboxOwned,
}

impl ContainerDiscoveryScope {
    /// Whether containers of `kind` are looked at.
    pub fn includes(self, kind: AgentboxContainerKind) -> (r: bool)
        ensures
            r == (self == ContainerDiscoveryScope::AgentboxOwned || kind == AgentboxContainerKind::Managed),
    {
        match self {
            ContainerDiscoveryScope::ManagedSessions => kind == AgentboxContainerKind::Managed,
            ContainerDiscoveryScope::AgentboxOwned => true,
        }
    }
}

/// A listed container worth inspecting, with its kind: one that its labels mark as an
/// agentbox container of a kind the scope includes.
pub fn ps_candidate(container: ContainerSummary, container_scope: ContainerDiscoveryScope) -> (r: Option<(ContainerSummary, AgentboxContainerKind)>)
    ensures
        match container_kind_spec(container.labels@) {
            Some(k) => if container_scope == ContainerDiscoveryScope::AgentboxOwned || k == AgentboxContainerKind::Managed {
                r matches Some((c, kind)) && c == container && kind == k
            } else {
                r is None
            },
            None => r is None,
        },
{
    match agentbox_container_kind_from_labels(&container.labels) {
        Some(kind) => if container_scope.includes(kind) {
            Some((container, kind))
        } else {
            None
        },
        None => None,
    }
}

/// Sessions of one Git root: found by their full root, or by the root's stable id.
#[derive(Debug)]
pub struct GitRootDiscoveryScope {
    pub git_root: String,
    pub git_root_hash: String,
}

/// How a record relates to the Git root being looked for.
#[derive(Debug)]
pub enum ScopedSessionCandidate {
    /// The record belongs to the root.
    Match(SessionRecord),
    /// The record has the root's stable id but another root.
    Collision(String),
    /// The record belongs to something else.
    Ignore,
}

impl GitRootDiscoveryScope {
    /// The scope of `git_root`.
    pub fn new(git_root: &str) -> (r: Self)
        ensures
            r.git_root@ == git_root@,
            r.git_root_hash@ == root_hash12(git_root@),
    {
        GitRootDiscoveryScope { git_root: owned(git_root), git_root_hash: git_root_hash12(git_root) }
    }

    /// Whether a listed container may belong to the root: its stable id label is unset or
    /// that of the root.
    pub fn should_inspect_ps_candidate(&self, container: &ContainerSummary) -> (r: bool)
        ensures
            r == match label_value(container.labels@, LABEL_GIT_ROOT_HASH@) {
                None => true,
                Some(h) => h == self.git_root_hash@,
            },
    {
        match required_label_value(&container.labels, LABEL_GIT_ROOT_HASH) {
            None => true,
            Some(h) => str_eq(h.as_str(), self.git_root_hash.as_str()),
        }
    }

    /// How a record relates to the root: it matches when its root label is the root, or
    /// when it has the root's stable id and no root label; it collides when it has the
    /// stable id and another root; otherwise it is ignored.
    pub fn classify_session(&self, record: SessionRecord) -> (r: ScopedSessionCandidate)
        ensures
            if root_matches(record_root(record@), Some(self.git_root@)) {
                r matches ScopedSessionCandidate::Match(x) && x == record
            } else if record_stable_id(record@) != Some(self.git_root_hash@) {
                r is Ignore
            } else {
                match record_root(record@) {
                    Some(root) => r matches ScopedSessionCandidate::Collision(x) && x@ == root,
                    None => r matches ScopedSessionCandidate::Match(x) && x == record,
                }
            },
    {
        let hash_matches = match record.git_root_hash() {
            Some(h) => str_eq(h.as_str(), self.git_root_hash.as_str()),
            None => false,
        };
        let root = record.canonical_git_root();
        let root_matches = match &root {
            Some(r) => paths_equal(r.as_str(), self.git_root.as_str()),
            None => false,
        };
        if root_matches {
            return ScopedSessionCandidate::Match(record);
        }
        if !hash_matches {
            return ScopedSessionCandidate::Ignore;
        }
        match root {
            Some(r) => ScopedSessionCandidate::Collision(r),
            None => ScopedSessionCandidate::Match(record),
        }
    }

    /// The error for sessions that share the root's stable id but have other roots.
    pub fn collision_error(&self, mismatched_roots: &Vec<String>) -> (r: AgentboxError)
        ensures
            r matches AgentboxError::IdentityCollision { git_root, roots } && git_root@ == self.git_root@
                && roots@ == join_spec(strings_view(mismatched_roots@), ", "@),
    {
        AgentboxError::IdentityCollision { git_root: self.git_root.clone(), roots: join_strings(mismatched_roots, ", ") }
    }
}

/// All sessions, or those of one Git root.
#[derive(Debug)]
pub enum SessionDiscoveryScope {
    All,
    GitRoot(GitRootDiscoveryScope),
}

impl SessionDiscoveryScope {
    /// The sessions of `git_root`.
    pub fn for_git_root(git_root: &str) -> (r: Self)
        ensures
            r matches SessionDiscoveryScope::GitRoot(s) && s.git_root@ == git_root@ && s.git_root_hash@ == root_hash12(git_root@),
    {
        SessionDiscoveryScope::GitRoot(GitRootDiscoveryScope::new(git_root))
    }

    /// Whether a listed container may be in scope.
    pub fn should_inspect_ps_candidate(&self, container: &ContainerSummary) -> (r: bool)
        ensures
            r == match self {
                SessionDiscoveryScope::All => true,
                SessionDiscoveryScope::GitRoot(s) => match label_value(container.labels@, LABEL_GIT_ROOT_HASH@) {
                    None => true,
                    Some(h) => h == s.git_root_hash@,
                },
            },
    {
        match self {
            SessionDiscoveryScope::All => true,
            SessionDiscoveryScope::GitRoot(s) => s.should_inspect_ps_candidate(container),
        }
    }
}

/// What a discovery looks for.
#[derive(Debug)]
pub struct SessionDiscoveryQuery {
    pub scope: SessionDiscoveryScope,
    pub container_scope: ContainerDiscoveryScope,
}

impl SessionDiscoveryQuery {
    /// Every running managed session.
    pub fn managed_sessions() -> (r: Self)
        ensures
            r.scope is All,
            r.container_scope == ContainerDiscoveryScope::ManagedSessions,
    {
        SessionDiscoveryQuery { scope: SessionDiscoveryScope::All, container_scope: ContainerDiscoveryScope::ManagedSessions }
    }

    /// Every container agentbox owns.
    pub fn agentbox_containers() -> (r: Self)
        ensures
            r.scope is All,
            r.container_scope == ContainerDiscoveryScope::AgentboxOwned,
    {
        SessionDiscoveryQuery { scope: SessionDiscoveryScope::All, container_scope: ContainerDiscoveryScope::AgentboxOwned }
    }

    /// The same query, narrowed to the sessions of `git_root`.
    pub fn for_git_root(self, git_root: &str) -> (r: Self)
        ensures
            r.scope matches SessionDiscoveryScope::GitRoot(s) && s.git_root@ == git_root@ && s.git_root_hash@ == root_hash12(git_root@),
            r.container_scope == self.container_scope,
    {
        SessionDiscoveryQuery { scope: SessionDiscoveryScope::for_git_root(git_root), container_scope: self.container_scope }
    }
}

// ---------------------------------------------------------------------------
// Collecting and marking duplicates
// ---------------------------------------------------------------------------

/// How many sessions that have not failed have a Git root that is the same path as `root`.
pub open spec fn live_root_count(s: Seq<RecordView>, root: Seq<char>) -> nat
    decreases s.len(),
{
    if s.len() == 0 {
        0
    } else {
        live_root_count(s.drop_last(), root) + if !(s.last().status is Failed) && root_matches(record_root(s.last()), Some(root)) { 1nat } else { 0nat }
    }
}

/// A session is a duplicate when it has not failed and another session that has not
/// failed shares its Git root.
pub open spec fn is_duplicate_in(s: Seq<RecordView>, r: RecordView) -> bool {
    !(r.status is Failed) && match record_root(r) {
        Some(root) => live_root_count(s, root) > 1,
        None => false,
    }
}

/// The records of `v`, by their mathematical form.
pub open spec fn records_view(v: Seq<SessionRecord>) -> Seq<RecordView> {
    v.map_values(|r: SessionRecord| r@)
}

fn count_live_root(sessions: &Vec<SessionRecord>, root: &str) -> (n: usize)
    ensures
        n == live_root_count(records_view(sessions@), root@),
{
    let mut n: usize = 0;
    let mut i: usize = 0;
    while i < sessions.len()
        invariant
            i <= sessions@.len(),
            n <= i,
            n == live_root_count(records_view(sessions@).take(i as int), root@),
        decreases sessions.len() - i,
    {
        proof {
            assert(records_view(sessions@).take(i + 1).drop_last() =~= records_view(sessions@).take(i as int));
        }
        if !sessions[i].status().is_failed() {
            match sessions[i].canonical_git_root() {
                Some(r) => if paths_equal(r.as_str(), root) {
                    n = n + 1;
                },
                None => {},
            }
        }
        i = i + 1;
    }
    assert(records_view(sessions@).take(sessions@.len() as int) =~= records_view(sessions@));
    n
}

/// Marks as duplicates the sessions that have not failed and share their Git root with
/// another such session; every other session is left as it was.
pub fn mark_duplicate_sessions(sessions: Vec<SessionRecord>) -> (r: Vec<SessionRecord>)
    ensures
        r@.len() == sessions@.len(),
        forall|i: int| 0 <= i < sessions@.len() ==> #[trigger] r@[i]@ == if is_duplicate_in(records_view(sessions@), sessions@[i]@) {
            RecordView { status: SessionStatus::Duplicate, ..sessions@[i]@ }
        } else {
            sessions@[i]@
        },
{
    let mut flags: Vec<bool> = Vec::new();
    let mut i: usize = 0;
    while i < sessions.len()
        invariant
            i <= sessions@.len(),
            flags@.len() == i,
            forall|k: int| 0 <= k < i ==> #[trigger] flags@[k] == is_duplicate_in(records_view(sessions@), sessions@[k]@),
        decreases sessions.len() - i,
    {
        let dup = if sessions[i].status().is_failed() {
            false
        } else {
            match sessions[i].canonical_git_root() {
                Some(root) => count_live_root(&sessions, root.as_str()) > 1,
                None => false,
            }
        };
        flags.push(dup);
        i = i + 1;
    }
    let mut out: Vec<SessionRecord> = Vec::new();
    let mut rest = sessions;
    let ghost original = rest@;
    let mut j: usize = 0;
    while j < rest.len()
        invariant
            j <= rest@.len(),
            rest@ == original,
            flags@.len() == original.len(),
            out@.len() == j,
            forall|k: int| 0 <= k < original.len() ==> #[trigger] flags@[k] == is_duplicate_in(records_view(original), original[k]@),
            forall|k: int| 0 <= k < j ==> #[trigger] out@[k]@ == if flags@[k] {
                RecordView { status: SessionStatus::Duplicate, ..original[k]@ }
            } else {
                original[k]@
            },
        decreases rest.len() - j,
    {
        let mut record = rest[j].clone();
        if flags[j] {
            record.mark_duplicate();
        }
        out.push(record);
        j = j + 1;
    }
    out
}

/// What a discovery collects as records arrive.
#[derive(Debug)]
pub struct SessionCollector {
    pub scope: SessionDiscoveryScope,
    pub sessions: Vec<SessionRecord>,
    pub mismatched_roots: Vec<String>,
}

impl SessionCollector {
    /// A collector for `scope`, empty.
    pub fn new(scope: SessionDiscoveryScope) -> (r: Self)
        ensures
            r.scope == scope,
            r.sessions@.len() == 0,
            r.mismatched_roots@.len() == 0,
    {
        SessionCollector { scope, sessions: Vec::new(), mismatched_roots: Vec::new() }
    }

    /// Whether a listed container may be in scope.
    pub fn should_inspect_ps_candidate(&self, container: &ContainerSummary) -> (r: bool)
        ensures
            r == match self.scope {
                SessionDiscoveryScope::All => true,
                SessionDiscoveryScope::GitRoot(s) => match label_value(container.labels@, LABEL_GIT_ROOT_HASH@) {
                    None => true,
                    Some(h) => h == s.git_root_hash@,
                },
            },
    {
        self.scope.should_inspect_ps_candidate(container)
    }

    /// Takes a record: kept when in scope, its root noted when it collides with the root
    /// looked for, dropped otherwise.
    pub fn collect(&mut self, record: SessionRecord)
        ensures
            final(self).scope == old(self).scope,
            match old(self).scope {
                SessionDiscoveryScope::All => final(self).sessions@ == old(self).sessions@.push(record)
                    && final(self).mismatched_roots@ == old(self).mismatched_roots@,
                SessionDiscoveryScope::GitRoot(s) => if root_matches(record_root(record@), Some(s.git_root@)) || (record_stable_id(record@) == Some(s.git_root_hash@) && record_root(record@) is None) {
                    final(self).sessions@ == old(self).sessions@.push(record) && final(self).mismatched_roots@ == old(self).mismatched_roots@
                } else if record_stable_id(record@) == Some(s.git_root_hash@) {
                    final(self).sessions@ == old(self).sessions@ && final(self).mismatched_roots@.len() == old(self).mismatched_roots@.len() + 1
                        && final(self).mismatched_roots@.drop_last() == old(self).mismatched_roots@
                        && Some(final(self).mismatched_roots@.last()@) == record_root(record@)
                } else {
                    final(self).sessions@ == old(self).sessions@ && final(self).mismatched_roots@ == old(self).mismatched_roots@
                },
            },
    {
        match &self.scope {
            SessionDiscoveryScope::All => self.sessions.push(record),
            SessionDiscoveryScope::GitRoot(git_root) => match git_root.classify_session(record) {
                ScopedSessionCandidate::Match(r) => self.sessions.push(r),
                ScopedSessionCandidate::Collision(root) => {
                    self.mismatched_roots.push(root);
                    assert(self.mismatched_roots@.drop_last() =~= old(self).mismatched_roots@);
                },
                ScopedSessionCandidate::Ignore => {},
            },
        }
    }

    /// The sessions found, duplicates marked; or, when sessions of other roots had the
    /// stable id looked for, the collision error naming those roots in order, each once.
    pub fn finish(self) -> (r: Result<Vec<SessionRecord>, AgentboxError>)
        ensures
            match self.scope {
                SessionDiscoveryScope::GitRoot(s) if self.mismatched_roots@.len() > 0 => r matches Err(AgentboxError::IdentityCollision { git_root, roots })
                    && git_root@ == s.git_root@
                    && exists|sorted: Seq<Seq<char>>| #[trigger] strictly_sorted(sorted)
                        && (forall|x: Seq<char>| sorted.contains(x) <==> strings_view(self.mismatched_roots@).contains(x))
                        && roots@ == join_spec(sorted, ", "@),
                _ => r matches Ok(v) && v@.len() == self.sessions@.len() && forall|i: int| 0 <= i < v@.len() ==> #[trigger] v@[i]@ == if is_duplicate_in(records_view(self.sessions@), self.sessions@[i]@) {
                    RecordView { status: SessionStatus::Duplicate, ..self.sessions@[i]@ }
                } else {
                    self.sessions@[i]@
                },
            },
    {
        if let SessionDiscoveryScope::GitRoot(git_root) = &self.scope {
            if self.mismatched_roots.len() > 0 {
                let roots = sorted_unique(&self.mismatched_roots);
                return Err(git_root.collision_error(&roots));
            }
        }
        Ok(mark_duplicate_sessions(self.sessions))
    }
}

} // verus!
