//! What a session command targets: the containers of a stable id, the session whose health
//! is probed, the session to restart, and the containers to stop.

use vstd::prelude::*;

use crate::error::AgentboxError;
use crate::order::strings_view;
use crate::path_order::{lemma_path_trichotomy, path_lt, paths_equal, same_path};
use crate::paths::{is_absolute, is_absolute_spec};
use crate::text::owned;

use super::discovery::records_view;
use super::record::{opt_str_is, record_root, record_stable_id, RecordView, SessionRecord};
use super::collection::{exact_git_root_matches, first_at, first_of_its_path, first_roots_by_path, root_matches, roots_covered, with_root};
use super::selection::{matching_ids, select_agentbox_stable_id_prefix, select_stable_id_prefix, with_stable_id};
use super::status::{status_name, SessionStatus};

verus! {

// ---------------------------------------------------------------------------
// Stable id targets
// ---------------------------------------------------------------------------

/// What a stable id target is selected for.
#[derive(Debug, Clone, Copy, PartialEq, Eq, Structural)]
pub enum StableIdTargetAction {
    Stop,
    Restart,
}

/// The verb of an action.
pub open spec fn verb_spec(a: StableIdTargetAction) -> Seq<char> {
    match a {
        StableIdTargetAction::Stop => "stop"@,
        StableIdTargetAction::Restart => "restart"@,
    }
}

/// The participle of an action.
pub open spec fn safety_verb_spec(a: StableIdTargetAction) -> Seq<char> {
    match a {
        StableIdTargetAction::Stop => "stopped"@,
        StableIdTargetAction::Restart => "restarted"@,
    }
}

impl StableIdTargetAction {
    /// `stop` or `restart`.
    pub fn verb(self) -> (r: &'static str)
        ensures
            r@ == verb_spec(self),
    {
        match self {
            StableIdTargetAction::Stop => "stop",
            StableIdTargetAction::Restart => "restart",
        }
    }

    /// `stopped` or `restarted`.
    pub fn safety_verb(self) -> (r: &'static str)
        ensures
            r@ == safety_verb_spec(self),
    {
        match self {
            StableIdTargetAction::Stop => "stopped",
            StableIdTargetAction::Restart => "restarted",
        }
    }
}

/// The Git roots of all records are one path (however each writes it).
pub open spec fn all_roots_same_path(s: Seq<RecordView>) -> bool {
    forall|i: int, j: int| 0 <= i < s.len() && 0 <= j < s.len() ==> match (#[trigger] record_root(s[i]), #[trigger] record_root(s[j])) {
        (Some(a), Some(b)) => same_path(a, b),
        _ => true,
    }
}

/// The outcome of asking for the one Git root of records `s` of stable id `id`: an error
/// when none names a root or their roots are more than one path, otherwise that root as
/// the first record with it wrote it.
pub open spec fn recoverable_root_outcome(r: Result<String, AgentboxError>, s: Seq<RecordView>, id: Seq<char>, action: StableIdTargetAction) -> bool {
    if !any_rooted(s) {
        r matches Err(e) && no_root_error(e, id, action)
    } else if all_roots_same_path(s) {
        r matches Ok(root) && first_of_its_path(s, root@)
    } else {
        r matches Err(AgentboxError::MultipleGitRootsForId { id: i, verb }) && i@ == id && verb@ == verb_spec(action)
    }
}

/// Some record names a Git root.
pub open spec fn any_rooted(s: Seq<RecordView>) -> bool {
    exists|i: int| 0 <= i < s.len() && (#[trigger] record_root(s[i])) is Some
}

/// Every record names a Git root.
pub open spec fn all_rooted(s: Seq<RecordView>) -> bool {
    forall|i: int| 0 <= i < s.len() ==> (#[trigger] record_root(s[i])) is Some
}

/// The containers whose stable id is one id that a prefix selected.
#[derive(Debug)]
pub struct StableIdTargetSelection {
    pub id: String,
    pub sessions: Vec<SessionRecord>,
}

/// The error when no container of a stable id names a Git root.
pub open spec fn no_root_error(e: AgentboxError, id: Seq<char>, action: StableIdTargetAction) -> bool {
    e matches AgentboxError::NoRecoverableRootForId { id: i, safety_verb: v } && i@ == id && v@ == safety_verb_spec(action)
}

impl StableIdTargetSelection {
    /// The selected stable id.
    pub fn id(&self) -> (r: &str)
        ensures
            r@ == self.id@,
    {
        self.id.as_str()
    }

    /// Whether more than one container has the id.
    pub fn has_duplicate_sessions(&self) -> (r: bool)
        ensures
            r == (self.sessions@.len() > 1),
    {
        self.sessions.len() > 1
    }

    /// The one Git root path the containers name: an error when they name none, or more
    /// than one path.
    pub fn single_recoverable_git_root(&self, action: StableIdTargetAction) -> (r: Result<String, AgentboxError>)
        ensures
            recoverable_root_outcome(r, records_view(self.sessions@), self.id@, action),
    {
        let ghost s = records_view(self.sessions@);
        let distinct = first_roots_by_path(&self.sessions);
        let ghost names = strings_view(distinct@);
        if distinct.len() == 0 {
            proof {
                assert forall|i: int| 0 <= i < s.len() implies !(#[trigger] record_root(s[i]) is Some) by {
                    assert(roots_covered(s, s.len() as int, names));
                }
            }
            return Err(AgentboxError::NoRecoverableRootForId { id: self.id.clone(), safety_verb: owned(action.safety_verb()) });
        }
        proof {
            assert(first_of_its_path(s, names[0]));
            let m = choose|m: int| #[trigger] first_at(s, m, names[0]);
            assert(record_root(s[m]) is Some);
        }
        if distinct.len() > 1 {
            proof {
                assert(first_of_its_path(s, names[1]));
                let m0 = choose|m: int| #[trigger] first_at(s, m, names[0]);
                let m1 = choose|m: int| #[trigger] first_at(s, m, names[1]);
                assert(path_lt(names[0], names[1]));
                lemma_path_trichotomy(names[0], names[1]);
                assert(!(match (record_root(s[m0]), record_root(s[m1])) {
                    (Some(a), Some(b)) => same_path(a, b),
                    _ => true,
                }));
            }
            return Err(AgentboxError::MultipleGitRootsForId { id: self.id.clone(), verb: owned(action.verb()) });
        }
        let root = distinct[0].clone();
        proof {
            assert(root@ == names[0]);
            assert forall|i: int, j: int| 0 <= i < s.len() && 0 <= j < s.len() implies match (#[trigger] record_root(s[i]), #[trigger] record_root(s[j])) {
                (Some(a), Some(b)) => same_path(a, b),
                _ => true,
            } by {
                assert(roots_covered(s, s.len() as int, names));
                match (record_root(s[i]), record_root(s[j])) {
                    (Some(a), Some(b)) => {
                        let ka = choose|k: int| 0 <= k < names.len() && same_path(a, #[trigger] names[k]);
                        let kb = choose|k: int| 0 <= k < names.len() && same_path(b, #[trigger] names[k]);
                        assert(ka == 0 && kb == 0);
                    },
                    _ => {},
                }
            }
        }
        Ok(root)
    }

    /// All the containers, when each names a Git root: an error when none does, or only
    /// some do.
    pub fn into_all_rooted_sessions(self, action: StableIdTargetAction) -> (r: Result<Vec<SessionRecord>, AgentboxError>)
        ensures
            !any_rooted(records_view(self.sessions@)) ==> (r matches Err(e) && no_root_error(e, self.id@, action)),
            any_rooted(records_view(self.sessions@)) && !all_rooted(records_view(self.sessions@)) ==> (r matches Err(
                AgentboxError::UnrootedStableIdMatches { id, verb },
            ) && id@ == self.id@ && verb@ == verb_spec(action)),
            any_rooted(records_view(self.sessions@)) && all_rooted(records_view(self.sessions@)) ==> (r matches Ok(v)
                && records_view(v@) == records_view(self.sessions@)),
    {
        let ghost s = records_view(self.sessions@);
        let mut rooted: usize = 0;
        let mut i: usize = 0;
        while i < self.sessions.len()
            invariant
                i <= self.sessions@.len(),
                s == records_view(self.sessions@),
                rooted <= i,
                rooted == 0 <==> !(exists|j: int| 0 <= j < i && (#[trigger] record_root(s[j])) is Some),
                rooted == i <==> (forall|j: int| 0 <= j < i ==> (#[trigger] record_root(s[j])) is Some),
            decreases self.sessions.len() - i,
        {
            if self.sessions[i].canonical_git_root().is_some() {
                rooted = rooted + 1;
            }
            proof {
                if rooted == i + 1 {
                    assert forall|j: int| 0 <= j < i + 1 implies (#[trigger] record_root(s[j])) is Some by {
                        if j == i {
                        }
                    }
                }
                if record_root(s[i as int]) is None {
                    assert(!(forall|j: int| 0 <= j < i + 1 ==> (#[trigger] record_root(s[j])) is Some));
                }
                if rooted > 0 && record_root(s[i as int]) is Some {
                    assert(exists|j: int| 0 <= j < i + 1 && (#[trigger] record_root(s[j])) is Some);
                }
            }
            i = i + 1;
        }
        if rooted == 0 {
            return Err(AgentboxError::NoRecoverableRootForId { id: self.id, safety_verb: owned(action.safety_verb()) });
        }
        if rooted != self.sessions.len() {
            return Err(AgentboxError::UnrootedStableIdMatches { id: self.id, verb: owned(action.verb()) });
        }
        Ok(self.sessions)
    }

    /// The containers.
    pub fn into_sessions(self) -> (r: Vec<SessionRecord>)
        ensures
            records_view(r@) == records_view(self.sessions@),
    {
        self.sessions
    }
}

/// Selects agentbox containers by a prefix of their stable id, as owned records.
pub fn select_agentbox_stable_id_target(sessions: &[SessionRecord], prefix: &str) -> (r: Result<StableIdTargetSelection, AgentboxError>)
    ensures
        prefix@.len() == 0 ==> r matches Err(AgentboxError::EmptyStableIdPrefix),
        prefix@.len() > 0 && matching_ids(records_view(sessions@), prefix@).len() == 0 ==> (r matches Err(
            AgentboxError::NoStableIdMatch { noun: n, prefix: p },
        ) && n@ == "agentbox container"@ && p@ == prefix@),
        prefix@.len() > 0 && matching_ids(records_view(sessions@), prefix@).len() > 1 ==> r matches Err(
            AgentboxError::AmbiguousStableIdPrefix { .. },
        ),
        prefix@.len() > 0 && matching_ids(records_view(sessions@), prefix@).len() == 1 ==> (r matches Ok(sel)
            && matching_ids(records_view(sessions@), prefix@) == set![sel.id@]
            && records_view(sel.sessions@) == with_stable_id(records_view(sessions@), sel.id@)),
{
    let selection = match select_agentbox_stable_id_prefix(sessions, prefix) {
        Ok(selection) => selection,
        Err(e) => return Err(e),
    };
    let id = owned(selection.id());
    let refs = selection.into_sessions();
    let mut owned_sessions: Vec<SessionRecord> = Vec::new();
    let mut i: usize = 0;
    while i < refs.len()
        invariant
            i <= refs@.len(),
            records_view(owned_sessions@) == refs@.map_values(|x: &SessionRecord| x@).take(i as int),
        decreases refs.len() - i,
    {
        let ghost before = owned_sessions@;
        owned_sessions.push(refs[i].clone());
        assert(records_view(owned_sessions@) =~= records_view(before).push(refs@[i as int]@));
        assert(refs@.map_values(|x: &SessionRecord| x@).take(i + 1) =~= refs@.map_values(|x: &SessionRecord| x@).take(
            i as int,
        ).push(refs@[i as int]@));
        i = i + 1;
    }
    assert(refs@.map_values(|x: &SessionRecord| x@).take(refs@.len() as int) =~= refs@.map_values(|x: &SessionRecord| x@));
    Ok(StableIdTargetSelection { id, sessions: owned_sessions })
}

// ---------------------------------------------------------------------------
// Health targets
// ---------------------------------------------------------------------------

/// Which sessions a health check probes.
#[derive(Debug, PartialEq, Eq)]
pub enum HealthSessionTargetPlan {
    /// Every running session.
    RunningSessions,
    /// The one session whose stable id a prefix selects.
    StableIdPrefix(String),
    /// The one session of the workspace with this canonical Git root.
    Workspace(String),
}

/// The running records, in order.
pub open spec fn running_records(s: Seq<RecordView>) -> Seq<RecordView>
    decreases s.len(),
{
    if s.len() == 0 {
        Seq::empty()
    } else if s.last().status is Running {
        running_records(s.drop_last()).push(s.last())
    } else {
        running_records(s.drop_last())
    }
}

/// The error for a health target whose session, known as `id`, is not running.
pub open spec fn not_running_error(e: AgentboxError, id: Seq<char>, status: SessionStatus) -> bool {
    e matches AgentboxError::HealthNotRunning { id: i, status: st } && i@ == id && st@ == status_name(status)
}

/// References as the records they point at.
pub open spec fn refs_view(v: Seq<&SessionRecord>) -> Seq<RecordView> {
    v.map_values(|x: &SessionRecord| x@)
}

/// The one record of `m`, checked to be running: refused, naming it as `id`, otherwise.
pub open spec fn single_running(r: Result<Vec<&SessionRecord>, AgentboxError>, m: Seq<RecordView>, id: Seq<char>) -> bool {
    if m[0].status is Running {
        r matches Ok(v) && refs_view(v@) == m
    } else {
        r matches Err(e) && not_running_error(e, id, m[0].status)
    }
}

fn require_running<'a>(session: &'a SessionRecord, fallback_id: &str) -> (r: Result<Vec<&'a SessionRecord>, AgentboxError>)
    ensures
        single_running(r, seq![session@], match record_stable_id(session@) {
            Some(i) => i,
            None => fallback_id@,
        }),
{
    if session.is_running() {
        let mut v: Vec<&'a SessionRecord> = Vec::new();
        v.push(session);
        assert(refs_view(v@) =~= seq![session@]);
        Ok(v)
    } else {
        let id = match session.stable_id() {
            Some(i) => i,
            None => owned(fallback_id),
        };
        Err(AgentboxError::HealthNotRunning { id, status: owned(session.status().as_str()) })
    }
}

/// What selecting the session of a stable id prefix gives: the selection's errors; an
/// error when the one id has more than one session; otherwise its session, if running.
pub open spec fn health_prefix_outcome(r: Result<Vec<&SessionRecord>, AgentboxError>, s: Seq<RecordView>, p: Seq<char>) -> bool {
    let ids = matching_ids(s, p);
    if p.len() == 0 {
        r matches Err(AgentboxError::EmptyStableIdPrefix)
    } else if ids.len() == 0 {
        r matches Err(AgentboxError::NoStableIdMatch { noun, prefix }) && noun@ == "managed session"@ && prefix@ == p
    } else if ids.len() > 1 {
        r matches Err(AgentboxError::AmbiguousStableIdPrefix { .. })
    } else {
        forall|id: Seq<char>| ids == set![id] ==> {
            let m = with_stable_id(s, id);
            if m.len() != 1 {
                r matches Err(AgentboxError::HealthIdAmbiguous { id: i }) && i@ == id
            } else {
                single_running(r, m, match record_stable_id(m[0]) {
                    Some(i) => i,
                    None => id,
                })
            }
        }
    }
}

/// What selecting the session of a workspace gives: an error when it has none or more
/// than one; otherwise its session, if running.
pub open spec fn health_workspace_outcome(r: Result<Vec<&SessionRecord>, AgentboxError>, s: Seq<RecordView>, root: Seq<char>) -> bool {
    let m = with_root(s, Some(root));
    if m.len() == 0 {
        r matches Err(AgentboxError::HealthNoMatch { target }) && target@ == root
    } else if m.len() > 1 {
        r matches Err(AgentboxError::HealthWorkspaceAmbiguous { git_root }) && git_root@ == root
    } else {
        single_running(r, m, match record_stable_id(m[0]) {
            Some(i) => i,
            None => root,
        })
    }
}

impl HealthSessionTargetPlan {
    /// The plan for a health target: every running session without one; the session of
    /// the workspace when the target is an existing path, given as the outcome of
    /// resolving that workspace's Git root; a stable id prefix otherwise.
    pub fn from_target(target: Option<&str>, workspace_root: Option<Result<String, AgentboxError>>) -> (r: Result<Self, AgentboxError>)
        ensures
            match target {
                None => r matches Ok(HealthSessionTargetPlan::RunningSessions),
                Some(t) => match workspace_root {
                    None => r matches Ok(HealthSessionTargetPlan::StableIdPrefix(p)) && p@ == t@,
                    Some(Ok(root)) => r matches Ok(HealthSessionTargetPlan::Workspace(w)) && w@ == root@,
                    Some(Err(e)) => r == Err::<Self, AgentboxError>(e),
                },
            },
    {
        match target {
            None => Ok(HealthSessionTargetPlan::RunningSessions),
            Some(t) => match workspace_root {
                None => Ok(HealthSessionTargetPlan::StableIdPrefix(owned(t))),
                Some(Ok(root)) => Ok(HealthSessionTargetPlan::Workspace(root)),
                Some(Err(e)) => Err(e),
            },
        }
    }

    /// The sessions to probe: every running one; or the single session the plan names,
    /// which must be running.
    pub fn select_sessions<'a>(&self, sessions: &'a [SessionRecord]) -> (r: Result<Vec<&'a SessionRecord>, AgentboxError>)
        ensures
            match self {
                HealthSessionTargetPlan::RunningSessions => r matches Ok(v) && refs_view(v@) == running_records(records_view(sessions@)),
                HealthSessionTargetPlan::StableIdPrefix(p) => health_prefix_outcome(r, records_view(sessions@), p@),
                HealthSessionTargetPlan::Workspace(root) => health_workspace_outcome(r, records_view(sessions@), root@),
            },
    {
        match self {
            HealthSessionTargetPlan::RunningSessions => {
                let ghost s = records_view(sessions@);
                let mut v: Vec<&'a SessionRecord> = Vec::new();
                let mut i: usize = 0;
                while i < sessions.len()
                    invariant
                        i <= sessions@.len(),
                        s == records_view(sessions@),
                        refs_view(v@) == running_records(s.take(i as int)),
                    decreases sessions.len() - i,
                {
                    assert(s.take(i + 1).drop_last() =~= s.take(i as int));
                    if sessions[i].is_running() {
                        let ghost before = v@;
                        v.push(&sessions[i]);
                        assert(refs_view(v@) =~= refs_view(before).push(s[i as int]));
                    }
                    i = i + 1;
                }
                assert(s.take(sessions@.len() as int) =~= s);
                Ok(v)
            },
            HealthSessionTargetPlan::StableIdPrefix(p) => {
                let selection = match select_stable_id_prefix(sessions, p.as_str()) {
                    Ok(selection) => selection,
                    Err(e) => return Err(e),
                };
                let id = owned(selection.id());
                proof {
                    let ids = matching_ids(records_view(sessions@), p@);
                    assert forall|x: Seq<char>| ids == set![x] implies x == id@ by {
                        assert(set![x].contains(x));
                        assert(set![id@].contains(x));
                    }
                }
                let matched = selection.sessions;
                if matched.len() != 1 {
                    return Err(AgentboxError::HealthIdAmbiguous { id });
                }
                assert(refs_view(matched@) == matched@.map_values(|x: &SessionRecord| x@));
                let r = require_running(matched[0], id.as_str());
                assert(seq![matched@[0]@] =~= refs_view(matched@));
                r
            },
            HealthSessionTargetPlan::Workspace(root) => {
                let ghost s = records_view(sessions@);
                let target = Some(root.clone());
                let mut m: Vec<&'a SessionRecord> = Vec::new();
                let mut i: usize = 0;
                while i < sessions.len()
                    invariant
                        i <= sessions@.len(),
                        s == records_view(sessions@),
                        opt_str_is(target, Some(root@)),
                        refs_view(m@) == with_root(s.take(i as int), Some(root@)),
                    decreases sessions.len() - i,
                {
                    assert(s.take(i + 1).drop_last() =~= s.take(i as int));
                    let session_root = sessions[i].canonical_git_root();
                    let same = match &session_root {
                        Some(a) => paths_equal(a.as_str(), root.as_str()),
                        None => false,
                    };
                    if same {
                        let ghost before = m@;
                        m.push(&sessions[i]);
                        assert(refs_view(m@) =~= refs_view(before).push(s[i as int]));
                    }
                    i = i + 1;
                }
                assert(s.take(sessions@.len() as int) =~= s);
                if m.len() == 0 {
                    return Err(AgentboxError::HealthNoMatch { target: root.clone() });
                }
                if m.len() > 1 {
                    return Err(AgentboxError::HealthWorkspaceAmbiguous { git_root: root.clone() });
                }
                let r = require_running(m[0], root.as_str());
                assert(seq![m@[0]@] =~= refs_view(m@));
                r
            },
        }
    }
}

// ---------------------------------------------------------------------------
// Resolved targets
// ---------------------------------------------------------------------------

/// A session target as the host resolved it.
#[derive(Debug, PartialEq, Eq)]
pub enum ResolvedSessionTarget {
    /// An existing directory, resolved to the canonical Git root of its workspace.
    ResolvedGitRoot(String),
    /// An absolute path that does not exist, taken as a Git root stored in labels.
    ExactStoredGitRootPath(String),
    /// Anything else: a stable id prefix.
    StableId(String),
}

/// How a session target given as `target` resolves: a path that exists names its
/// workspace's canonical Git root `existing_root` (which the host gives for an existing
/// path only); an absolute path that does not exist is a Git root stored in labels;
/// anything else is a stable id prefix.
pub fn resolved_session_target(target: &str, existing_root: Option<String>) -> (r: ResolvedSessionTarget)
    ensures
        match existing_root {
            Some(root) => r matches ResolvedSessionTarget::ResolvedGitRoot(g) && g@ == root@,
            None => if is_absolute_spec(target@) {
                r matches ResolvedSessionTarget::ExactStoredGitRootPath(g) && g@ == target@
            } else {
                r matches ResolvedSessionTarget::StableId(p) && p@ == target@
            },
        },
{
    match existing_root {
        Some(root) => ResolvedSessionTarget::ResolvedGitRoot(root),
        None => if is_absolute(target) {
            ResolvedSessionTarget::ExactStoredGitRootPath(owned(target))
        } else {
            ResolvedSessionTarget::StableId(owned(target))
        },
    }
}

/// The outcome of selecting by stable id prefix `p` among `s`, and then, for the one id
/// selected with its records `m`, what `then` says.
pub open spec fn prefix_selected(
    s: Seq<RecordView>,
    p: Seq<char>,
    err: Option<AgentboxError>,
    then: spec_fn(Seq<char>, Seq<RecordView>) -> bool,
) -> bool {
    let ids = matching_ids(s, p);
    if p.len() == 0 {
        err matches Some(AgentboxError::EmptyStableIdPrefix)
    } else if ids.len() == 0 {
        err matches Some(AgentboxError::NoStableIdMatch { noun, prefix }) && noun@ == "agentbox container"@ && prefix@ == p
    } else if ids.len() > 1 {
        err matches Some(AgentboxError::AmbiguousStableIdPrefix { .. })
    } else {
        forall|id: Seq<char>| ids == set![id] ==> then(id, with_stable_id(s, id))
    }
}

/// The error of a result, if any.
pub open spec fn err_of<T>(r: Result<T, AgentboxError>) -> Option<AgentboxError> {
    match r {
        Ok(_) => None,
        Err(e) => Some(e),
    }
}

/// The outcome of finding the Git root to lock for restarting the containers of a stable
/// id prefix: the selection's errors, then the one Git root the selected containers name.
pub open spec fn restart_lock_outcome(r: Result<String, AgentboxError>, s: Seq<RecordView>, p: Seq<char>) -> bool {
    prefix_selected(s, p, err_of(r), |id: Seq<char>, m: Seq<RecordView>| {
        recoverable_root_outcome(r, m, id, StableIdTargetAction::Restart)
    })
}

/// The Git root to lock for restarting the containers of a stable id prefix.
pub fn restart_lock_git_root_for_stable_id_from_sessions(sessions: &[SessionRecord], prefix: &str) -> (r: Result<String, AgentboxError>)
    ensures
        restart_lock_outcome(r, records_view(sessions@), prefix@),
{
    let selection = match select_agentbox_stable_id_target(sessions, prefix) {
        Ok(selection) => selection,
        Err(e) => return Err(e),
    };
    let r = selection.single_recoverable_git_root(StableIdTargetAction::Restart);
    proof {
        let ids = matching_ids(records_view(sessions@), prefix@);
        assert forall|x: Seq<char>| ids == set![x] implies x == selection.id@ by {
            assert(set![x].contains(x));
        }
    }
    r
}

// ---------------------------------------------------------------------------
// Restart targets
// ---------------------------------------------------------------------------

/// The plan of a restart: how the target is shown, and the Git root whose lock is taken.
#[derive(Debug, PartialEq, Eq)]
pub struct RestartSessionTargetPlan {
    pub target_display: String,
    pub lock_git_root: String,
}

/// The outcome of requiring exactly one candidate among `m`.
pub open spec fn single_match_outcome(r: Result<SessionRecord, AgentboxError>, m: Seq<RecordView>, display: Seq<char>) -> bool {
    if m.len() == 0 {
        r matches Err(AgentboxError::RestartNoMatch { target }) && target@ == display
    } else if m.len() == 1 {
        r matches Ok(x) && x@ == m[0]
    } else {
        r matches Err(AgentboxError::RestartAmbiguous { target, count }) && target@ == display && count == m.len()
    }
}

/// Some record's Git root is the same path as `root`.
pub open spec fn names_root(m: Seq<RecordView>, root: Seq<char>) -> bool {
    exists|i: int| 0 <= i < m.len() && root_matches(#[trigger] record_root(m[i]), Some(root))
}

/// The outcome of choosing the session to restart once the lock on `locked` is held:
/// the target, resolved again, must still name the locked root; the candidates are the
/// discovered sessions of that root, the sessions stored with exactly that root, or those
/// of the stable id (which must still include the locked root); exactly one may remain.
pub open spec fn restart_candidate_outcome(
    r: Result<SessionRecord, AgentboxError>,
    resolved: ResolvedSessionTarget,
    locked: Seq<char>,
    discovered: Seq<RecordView>,
    display: Seq<char>,
) -> bool {
    match resolved {
        ResolvedSessionTarget::ResolvedGitRoot(g) => if !same_path(g@, locked) {
            r matches Err(AgentboxError::RestartTargetChanged { locked: l, current }) && l@ == locked && current@ == g@
        } else {
            single_match_outcome(r, discovered, display)
        },
        ResolvedSessionTarget::ExactStoredGitRootPath(g) => if !same_path(g@, locked) {
            r matches Err(AgentboxError::RestartTargetChanged { locked: l, current }) && l@ == locked && current@ == g@
        } else {
            single_match_outcome(r, with_root(discovered, Some(g@)), display)
        },
        ResolvedSessionTarget::StableId(p) => prefix_selected(discovered, p@, err_of(r), |id: Seq<char>, m: Seq<RecordView>|
            if !names_root(m, locked) {
                r matches Err(AgentboxError::RestartTargetMovedAway { locked: l }) && l@ == locked
            } else {
                single_match_outcome(r, m, display)
            }),
    }
}

/// Exactly one candidate: none and several are refused, naming the target.
pub fn require_single_restart_target_match(sessions: Vec<SessionRecord>, target_display: &str) -> (r: Result<SessionRecord, AgentboxError>)
    ensures
        single_match_outcome(r, records_view(sessions@), target_display@),
{
    let n = sessions.len();
    if n == 0 {
        return Err(AgentboxError::RestartNoMatch { target: owned(target_display) });
    }
    if n > 1 {
        return Err(AgentboxError::RestartAmbiguous { target: owned(target_display), count: n });
    }
    let mut sessions = sessions;
    let ghost v = sessions@;
    let x = sessions.remove(0);
    assert(x@ == records_view(v)[0]);
    Ok(x)
}

fn require_locked_restart_target_unchanged(locked: &str, current: &str) -> (r: Result<(), AgentboxError>)
    ensures
        same_path(locked@, current@) ==> r is Ok,
        !same_path(locked@, current@) ==> (r matches Err(AgentboxError::RestartTargetChanged { locked: l, current: c }) && l@ == locked@
            && c@ == current@),
{
    if paths_equal(locked, current) {
        Ok(())
    } else {
        Err(AgentboxError::RestartTargetChanged { locked: owned(locked), current: owned(current) })
    }
}

fn require_stable_id_still_matches_locked_root(locked: &str, sessions: &Vec<SessionRecord>) -> (r: Result<(), AgentboxError>)
    ensures
        names_root(records_view(sessions@), locked@) ==> r is Ok,
        !names_root(records_view(sessions@), locked@) ==> (r matches Err(AgentboxError::RestartTargetMovedAway { locked: l })
            && l@ == locked@),
{
    let ghost s = records_view(sessions@);
    let mut i: usize = 0;
    while i < sessions.len()
        invariant
            i <= sessions@.len(),
            s == records_view(sessions@),
            forall|j: int| 0 <= j < i ==> !root_matches(#[trigger] record_root(s[j]), Some(locked@)),
        decreases sessions.len() - i,
    {
        match sessions[i].canonical_git_root() {
            Some(root) => if paths_equal(root.as_str(), locked) {
                assert(root_matches(record_root(s[i as int]), Some(locked@)));
                return Ok(());
            },
            None => {},
        }
        i = i + 1;
    }
    Err(AgentboxError::RestartTargetMovedAway { locked: owned(locked) })
}

impl RestartSessionTargetPlan {
    /// The plan for a resolved restart target: a Git root is locked as it is; for a stable
    /// id prefix, the one Git root its containers among `agentbox_sessions` name.
    pub fn resolve(target_display: String, resolved: &ResolvedSessionTarget, agentbox_sessions: &[SessionRecord]) -> (r: Result<Self, AgentboxError>)
        ensures
            match resolved {
                ResolvedSessionTarget::ResolvedGitRoot(g) => r matches Ok(p) && p.lock_git_root@ == g@ && p.target_display@ == target_display@,
                ResolvedSessionTarget::ExactStoredGitRootPath(g) => r matches Ok(p) && p.lock_git_root@ == g@ && p.target_display@ == target_display@,
                ResolvedSessionTarget::StableId(prefix) => (match r {
                    Ok(p) => p.target_display@ == target_display@,
                    Err(_) => true,
                }) && restart_lock_outcome(match r {
                    Ok(p) => Ok(p.lock_git_root),
                    Err(e) => Err(e),
                }, records_view(agentbox_sessions@), prefix@),
            },
    {
        let lock_git_root = match resolved {
            ResolvedSessionTarget::ResolvedGitRoot(g) => g.clone(),
            ResolvedSessionTarget::ExactStoredGitRootPath(g) => g.clone(),
            ResolvedSessionTarget::StableId(prefix) => match restart_lock_git_root_for_stable_id_from_sessions(agentbox_sessions, prefix.as_str()) {
                Ok(root) => root,
                Err(e) => return Err(e),
            },
        };
        Ok(RestartSessionTargetPlan { target_display, lock_git_root })
    }

    /// The Git root whose lock is taken.
    pub fn lock_git_root(&self) -> (r: &str)
        ensures
            r@ == self.lock_git_root@,
    {
        self.lock_git_root.as_str()
    }

    /// Whether the candidates are the sessions discovered under the locked root, rather
    /// than all agentbox containers.
    pub fn discovers_locked_root_sessions(resolved: &ResolvedSessionTarget) -> (r: bool)
        ensures
            r == (resolved is ResolvedGitRoot),
    {
        match resolved {
            ResolvedSessionTarget::ResolvedGitRoot(_) => true,
            _ => false,
        }
    }

    /// The session to restart, once the lock on `locked_git_root` is held and the target
    /// was resolved again as `resolved`; `discovered` are the sessions of the locked root
    /// for a resolved Git root, and all agentbox containers otherwise.
    pub fn select_session_candidate(
        &self,
        resolved: &ResolvedSessionTarget,
        locked_git_root: &str,
        discovered: Vec<SessionRecord>,
    ) -> (r: Result<SessionRecord, AgentboxError>)
        ensures
            restart_candidate_outcome(r, *resolved, locked_git_root@, records_view(discovered@), self.target_display@),
    {
        let display = self.target_display.as_str();
        match resolved {
            ResolvedSessionTarget::ResolvedGitRoot(g) => {
                match require_locked_restart_target_unchanged(locked_git_root, g.as_str()) {
                    Ok(()) => {},
                    Err(e) => return Err(e),
                }
                require_single_restart_target_match(discovered, display)
            },
            ResolvedSessionTarget::ExactStoredGitRootPath(g) => {
                match require_locked_restart_target_unchanged(locked_git_root, g.as_str()) {
                    Ok(()) => {},
                    Err(e) => return Err(e),
                }
                let matches = exact_git_root_matches(discovered, g.as_str());
                require_single_restart_target_match(matches, display)
            },
            ResolvedSessionTarget::StableId(p) => {
                let selection = match select_agentbox_stable_id_target(&discovered, p.as_str()) {
                    Ok(selection) => selection,
                    Err(e) => return Err(e),
                };
                proof {
                    let ids = matching_ids(records_view(discovered@), p@);
                    assert forall|x: Seq<char>| ids == set![x] implies x == selection.id@ by {
                        assert(set![x].contains(x));
                    }
                }
                let sessions = selection.into_sessions();
                match require_stable_id_still_matches_locked_root(locked_git_root, &sessions) {
                    Ok(()) => {},
                    Err(e) => return Err(e),
                }
                require_single_restart_target_match(sessions, display)
            },
        }
    }
}

// ---------------------------------------------------------------------------
// Stop targets
// ---------------------------------------------------------------------------

/// How a Git root stop target was given.
#[derive(Debug, Clone, Copy, PartialEq, Eq, Structural)]
pub enum StopExactGitRootTargetMode {
    /// An existing directory: stopped under the workspace lock.
    Scoped,
    /// A path that does not exist: stopped by the Git root stored in labels.
    ExactStoredPath,
}

/// Stopping the containers of one Git root.
#[derive(Debug, PartialEq, Eq)]
pub struct StopExactGitRootTarget {
    pub git_root: String,
    pub mode: StopExactGitRootTargetMode,
}

/// Stopping the containers of one stable id.
#[derive(Debug)]
pub struct StopStableIdTarget {
    pub id: String,
    pub sessions: Vec<SessionRecord>,
    pub has_duplicate_sessions: bool,
}

/// What a stop command stops.
#[derive(Debug)]
pub enum StopSessionTargetPlan {
    ExactGitRoot(StopExactGitRootTarget),
    StableId(StopStableIdTarget),
}

/// How a stop target is named in messages.
pub open spec fn target_ref_spec(t: StopExactGitRootTarget) -> Seq<char> {
    match t.mode {
        StopExactGitRootTargetMode::Scoped => "`"@ + t.git_root@ + "`"@,
        StopExactGitRootTargetMode::ExactStoredPath => "exact stored git-root path `"@ + t.git_root@ + "`"@,
    }
}

/// The refusal to stop several containers without force.
pub fn require_force_for_duplicate_matches(has_duplicates: bool, force: bool, target_ref: &str, target_display: &str) -> (r: Result<(), AgentboxError>)
    ensures
        has_duplicates && !force ==> (r matches Err(AgentboxError::StopNeedsForce { target_ref: t, target }) && t@ == target_ref@
            && target@ == target_display@),
        !(has_duplicates && !force) ==> r is Ok,
{
    if has_duplicates && !force {
        Err(AgentboxError::StopNeedsForce { target_ref: owned(target_ref), target: owned(target_display) })
    } else {
        Ok(())
    }
}

impl StopExactGitRootTarget {
    /// The Git root.
    pub fn git_root(&self) -> (r: &str)
        ensures
            r@ == self.git_root@,
    {
        self.git_root.as_str()
    }

    /// Whether the stop runs under the workspace lock.
    pub fn uses_locked_root_scope(&self) -> (r: bool)
        ensures
            r == (self.mode == StopExactGitRootTargetMode::Scoped),
    {
        self.mode == StopExactGitRootTargetMode::Scoped
    }

    /// The sessions whose Git root is the same path as the target's.
    pub fn exact_matches_from(&self, sessions: Vec<SessionRecord>) -> (r: Vec<SessionRecord>)
        ensures
            records_view(r@) == with_root(records_view(sessions@), Some(self.git_root@)),
    {
        exact_git_root_matches(sessions, self.git_root.as_str())
    }

    /// How the target is named in messages.
    pub fn target_ref(&self) -> (r: String)
        ensures
            r@ == target_ref_spec(*self),
    {
        match self.mode {
            StopExactGitRootTargetMode::Scoped => crate::text::concat3("`", self.git_root.as_str(), "`"),
            StopExactGitRootTargetMode::ExactStoredPath => crate::text::concat3(
                "exact stored git-root path `",
                self.git_root.as_str(),
                "`",
            ),
        }
    }

    /// Refuses a target without containers.
    pub fn require_non_empty_matches(&self, sessions: &[SessionRecord]) -> (r: Result<(), AgentboxError>)
        ensures
            sessions@.len() == 0 ==> (r matches Err(AgentboxError::StopNoMatch { target_ref }) && target_ref@ == target_ref_spec(*self)),
            sessions@.len() > 0 ==> r is Ok,
    {
        if sessions.len() == 0 {
            Err(AgentboxError::StopNoMatch { target_ref: self.target_ref() })
        } else {
            Ok(())
        }
    }

    /// Refuses to stop several containers without force.
    pub fn require_force_for_matches(&self, match_count: usize, force: bool, target_display: &str) -> (r: Result<(), AgentboxError>)
        ensures
            match_count > 1 && !force ==> (r matches Err(AgentboxError::StopNeedsForce { target_ref: t, target }) && t@ == target_ref_spec(*self)
                && target@ == target_display@),
            !(match_count > 1 && !force) ==> r is Ok,
    {
        let target_ref = self.target_ref();
        require_force_for_duplicate_matches(match_count > 1, force, target_ref.as_str(), target_display)
    }
}

impl StopStableIdTarget {
    /// The selected stable id.
    pub fn id(&self) -> (r: &str)
        ensures
            r@ == self.id@,
    {
        self.id.as_str()
    }

    /// The containers to stop.
    pub fn into_sessions(self) -> (r: Vec<SessionRecord>)
        ensures
            records_view(r@) == records_view(self.sessions@),
    {
        self.sessions
    }

    /// Refuses to stop several containers of the id without force.
    pub fn require_force(&self, force: bool, target_display: &str) -> (r: Result<(), AgentboxError>)
        ensures
            self.has_duplicate_sessions && !force ==> (r matches Err(AgentboxError::StopNeedsForce { target_ref: t, target })
                && t@ == "stable id `"@ + self.id@ + "`"@ && target@ == target_display@),
            !(self.has_duplicate_sessions && !force) ==> r is Ok,
    {
        let target_ref = crate::text::concat3("stable id `", self.id.as_str(), "`");
        require_force_for_duplicate_matches(self.has_duplicate_sessions, force, target_ref.as_str(), target_display)
    }
}

/// The outcome of planning to stop a resolved target: a Git root is stopped by exact
/// match, scoped or by stored path; a stable id prefix selects containers that must all
/// name a Git root.
pub open spec fn stop_plan_outcome(r: Result<StopSessionTargetPlan, AgentboxError>, resolved: ResolvedSessionTarget, s: Seq<RecordView>) -> bool {
    match resolved {
        ResolvedSessionTarget::ResolvedGitRoot(g) => r matches Ok(StopSessionTargetPlan::ExactGitRoot(t)) && t.git_root@ == g@
            && t.mode == StopExactGitRootTargetMode::Scoped,
        ResolvedSessionTarget::ExactStoredGitRootPath(g) => r matches Ok(StopSessionTargetPlan::ExactGitRoot(t)) && t.git_root@ == g@
            && t.mode == StopExactGitRootTargetMode::ExactStoredPath,
        ResolvedSessionTarget::StableId(p) => prefix_selected(s, p@, err_of(r), |id: Seq<char>, m: Seq<RecordView>|
            if !any_rooted(m) {
                r matches Err(e) && no_root_error(e, id, StableIdTargetAction::Stop)
            } else if !all_rooted(m) {
                r matches Err(AgentboxError::UnrootedStableIdMatches { id: i, verb }) && i@ == id && verb@ == "stop"@
            } else {
                r matches Ok(StopSessionTargetPlan::StableId(t)) && t.id@ == id && records_view(t.sessions@) == m
                    && t.has_duplicate_sessions == (m.len() > 1)
            }),
    }
}

impl StopSessionTargetPlan {
    /// The plan for a resolved stop target, with all agentbox containers for a stable id
    /// prefix.
    pub fn resolve(resolved: &ResolvedSessionTarget, agentbox_sessions: &[SessionRecord]) -> (r: Result<Self, AgentboxError>)
        ensures
            stop_plan_outcome(r, *resolved, records_view(agentbox_sessions@)),
    {
        match resolved {
            ResolvedSessionTarget::ResolvedGitRoot(g) => Ok(StopSessionTargetPlan::ExactGitRoot(
                StopExactGitRootTarget { git_root: g.clone(), mode: StopExactGitRootTargetMode::Scoped },
            )),
            ResolvedSessionTarget::ExactStoredGitRootPath(g) => Ok(StopSessionTargetPlan::ExactGitRoot(
                StopExactGitRootTarget { git_root: g.clone(), mode: StopExactGitRootTargetMode::ExactStoredPath },
            )),
            ResolvedSessionTarget::StableId(p) => {
                let selection = match select_agentbox_stable_id_target(agentbox_sessions, p.as_str()) {
                    Ok(selection) => selection,
                    Err(e) => return Err(e),
                };
                proof {
                    let ids = matching_ids(records_view(agentbox_sessions@), p@);
                    assert forall|x: Seq<char>| ids == set![x] implies x == selection.id@ by {
                        assert(set![x].contains(x));
                    }
                }
                let id = selection.id.clone();
                let has_duplicate_sessions = selection.has_duplicate_sessions();
                let sessions = match selection.into_all_rooted_sessions(StableIdTargetAction::Stop) {
                    Ok(sessions) => sessions,
                    Err(e) => return Err(e),
                };
                Ok(StopSessionTargetPlan::StableId(StopStableIdTarget { id, sessions, has_duplicate_sessions }))
            },
        }
    }
}

} // verus!
