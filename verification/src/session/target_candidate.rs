//! The sessions a command may target, and the value each is targeted by.

use vstd::prelude::*;

use crate::metadata::{label_value, LABEL_RUNTIME};
use crate::text::owned;

use super::record::{is_connectable_spec, is_restartable_spec, record_root, record_stable_id, RecordView, SessionRecord};
use super::status::{status_name, SessionStatus};
use super::discovery::records_view;

verus! {

/// What a command targets sessions by.
#[derive(Debug, Clone, Copy, PartialEq, Eq, Structural)]
pub enum SessionTargetKind {
    /// The Git root of a session that can be connected to.
    ConnectRoot,
    /// The stable id of a session that can be restarted.
    RestartStableId,
    /// The stable id of any record that has one.
    StableId,
}

/// A session a command may target, and what it is targeted by.
#[derive(Debug, Clone, PartialEq, Eq)]
pub struct SessionTargetCandidate {
    pub value: String,
    pub canonical_git_root: Option<String>,
    pub runtime: Option<String>,
    pub status: SessionStatus,
}

/// The value a record is targeted by, if it is a candidate of `kind`.
pub open spec fn candidate_value(kind: SessionTargetKind, r: RecordView) -> Option<Seq<char>> {
    match kind {
        SessionTargetKind::ConnectRoot => if is_connectable_spec(r) { record_root(r) } else { None },
        SessionTargetKind::RestartStableId => if is_restartable_spec(r) { record_stable_id(r) } else { None },
        SessionTargetKind::StableId => record_stable_id(r),
    }
}

/// Whether `c` is the candidate that record `r` makes for `kind`.
pub open spec fn candidate_of(c: SessionTargetCandidate, kind: SessionTargetKind, r: RecordView) -> bool {
    &&& Some(c.value@) == candidate_value(kind, r)
    &&& super::record::opt_str_is(c.canonical_git_root, record_root(r))
    &&& super::record::opt_str_is(c.runtime, label_value(r.labels, LABEL_RUNTIME@))
    &&& c.status == r.status
}

/// The candidates that records make for `kind`, in order.
pub open spec fn candidate_values(kind: SessionTargetKind, s: Seq<RecordView>) -> Seq<Seq<char>>
    decreases s.len(),
{
    if s.len() == 0 {
        Seq::empty()
    } else {
        match candidate_value(kind, s.last()) {
            Some(v) => candidate_values(kind, s.drop_last()).push(v),
            None => candidate_values(kind, s.drop_last()),
        }
    }
}

impl SessionTargetKind {
    /// The candidate a session makes, if it is one.
    pub fn candidate(self, session: &SessionRecord) -> (r: Option<SessionTargetCandidate>)
        ensures
            match candidate_value(self, session@) {
                Some(_) => r matches Some(c) && candidate_of(c, self, session@),
                None => r is None,
            },
    {
        let value = match self {
            SessionTargetKind::ConnectRoot => if session.is_connectable_candidate() {
                session.canonical_git_root()
            } else {
                None
            },
            SessionTargetKind::RestartStableId => if session.is_restartable_candidate() {
                session.stable_id()
            } else {
                None
            },
            SessionTargetKind::StableId => session.stable_id(),
        };
        match value {
            Some(value) => Some(SessionTargetCandidate {
                value,
                canonical_git_root: session.canonical_git_root(),
                runtime: session.runtime(),
                status: session.status(),
            }),
            None => None,
        }
    }

    /// The candidates the sessions make, in order.
    pub fn candidates(self, sessions: &[SessionRecord]) -> (r: Vec<SessionTargetCandidate>)
        ensures
            r@.map_values(|c: SessionTargetCandidate| c.value@) == candidate_values(self, records_view(sessions@)),
    {
        let ghost s = records_view(sessions@);
        let mut r: Vec<SessionTargetCandidate> = Vec::new();
        let mut i: usize = 0;
        while i < sessions.len()
            invariant
                i <= sessions@.len(),
                s == records_view(sessions@),
                r@.map_values(|c: SessionTargetCandidate| c.value@) == candidate_values(self, s.take(i as int)),
            decreases sessions.len() - i,
        {
            proof {
                assert(s.take(i + 1).drop_last() =~= s.take(i as int));
            }
            let ghost before = r@;
            match self.candidate(&sessions[i]) {
                Some(c) => {
                    r.push(c);
                    assert(r@.map_values(|c: SessionTargetCandidate| c.value@) =~= before.map_values(|c: SessionTargetCandidate| c.value@).push(r@.last().value@));
                },
                None => {},
            }
            i = i + 1;
        }
        assert(s.take(sessions@.len() as int) =~= s);
        r
    }

    /// Whether a session is a candidate.
    pub fn matches(self, session: &SessionRecord) -> (r: bool)
        ensures
            r == (candidate_value(self, session@) is Some),
    {
        self.candidate(session).is_some()
    }
}

impl SessionTargetCandidate {
    /// The value the session is targeted by.
    pub fn value(&self) -> (r: &str)
        ensures
            r@ == self.value@,
    {
        self.value.as_str()
    }

    /// The session's Git root, or `unknown`.
    pub fn canonical_git_root_or_unknown(&self) -> (r: String)
        ensures
            r@ == match self.canonical_git_root {
                Some(x) => x@,
                None => "unknown"@,
            },
    {
        match &self.canonical_git_root {
            Some(x) => x.clone(),
            None => owned("unknown"),
        }
    }

    /// The session's runtime label, or `unknown`.
    pub fn runtime_or_unknown(&self) -> (r: String)
        ensures
            r@ == match self.runtime {
                Some(x) => x@,
                None => "unknown"@,
            },
    {
        match &self.runtime {
            Some(x) => x.clone(),
            None => owned("unknown"),
        }
    }

    /// The session's status name.
    pub fn status_str(&self) -> (r: &'static str)
        ensures
            r@ == status_name(self.status),
    {
        self.status.as_str()
    }
}

} // verus!
