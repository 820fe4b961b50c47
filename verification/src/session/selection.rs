//! Selecting sessions: by a prefix of their stable id, or the one session of a workspace.

use vstd::prelude::*;

use crate::error::AgentboxError;
use crate::order::{lex_lt, sorted_unique, strictly_sorted, strings_view};
use crate::runtime::kind::{kind_from_name, placeholder_text, RuntimeKind};
use crate::text::{ascii_lower, chars_of, has_prefix, join_spec, join_strings, lower, lower_chars, owned, push_str, starts_with, str_eq, string_of, trim};
use crate::workspace::WorkspaceIdentity;

use super::record::{opt_str_is, record_stable_id, RecordView, SessionRecord};
use super::discovery::records_view;

verus! {

/// The sessions whose stable id is one id that a prefix selected.
#[derive(Debug)]
pub struct StableIdPrefixSelection<'a> {
    pub id: String,
    pub sessions: Vec<&'a SessionRecord>,
}

impl<'a> StableIdPrefixSelection<'a> {
    /// The selected stable id.
    pub fn id(&self) -> (r: &str)
        ensures
            r@ == self.id@,
    {
        self.id.as_str()
    }

    /// Whether more than one session has the id.
    pub fn has_duplicate_sessions(&self) -> (r: bool)
        ensures
            r == (self.sessions@.len() > 1),
    {
        self.sessions.len() > 1
    }

    /// The session with the id, when exactly one has it.
    pub fn into_single_session(self) -> (r: Option<&'a SessionRecord>)
        ensures
            self.sessions@.len() == 1 ==> r == Some(self.sessions@[0]),
            self.sessions@.len() != 1 ==> r is None,
    {
        if self.sessions.len() == 1 {
            Some(self.sessions[0])
        } else {
            None
        }
    }

    /// The sessions with the id.
    pub fn into_sessions(self) -> (r: Vec<&'a SessionRecord>)
        ensures
            r@ == self.sessions@,
    {
        self.sessions
    }
}

/// Whether a record's stable id starts with `prefix`, ignoring ASCII case.
pub open spec fn id_matches(r: RecordView, prefix: Seq<char>) -> bool {
    match record_stable_id(r) {
        Some(id) => has_prefix(lower(id), lower(prefix)),
        None => false,
    }
}

/// The stable ids that match `prefix`.
pub open spec fn matching_ids(s: Seq<RecordView>, prefix: Seq<char>) -> Set<Seq<char>> {
    Set::new(|id: Seq<char>| exists|i: int| 0 <= i < s.len() && id_matches(s[i], prefix) && record_stable_id(s[i]) == Some(id))
}

/// The records of `s` whose stable id is `id`, in order.
pub open spec fn with_stable_id(s: Seq<RecordView>, id: Seq<char>) -> Seq<RecordView>
    decreases s.len(),
{
    if s.len() == 0 {
        Seq::empty()
    } else if record_stable_id(s.last()) == Some(id) {
        with_stable_id(s.drop_last(), id).push(s.last())
    } else {
        with_stable_id(s.drop_last(), id)
    }
}

/// `id` begins with the whole of `prefix` once both are lower-cased.
pub open spec fn begins_with_ignoring_case(id: Seq<char>, prefix: Seq<char>) -> bool {
    prefix.len() <= id.len() && forall|k: int| 0 <= k < prefix.len() ==> ascii_lower(#[trigger] id[k]) == ascii_lower(prefix[k])
}

/// A prefix selects exactly the stable ids of records that begin with the whole prefix,
/// ignoring ASCII case: a selected id never differs from the prefix at any of its places,
/// and every record id that begins with it is selected.
pub proof fn lemma_prefix_selects_ids_beginning_with_it(s: Seq<RecordView>, prefix: Seq<char>, id: Seq<char>)
    ensures
        matching_ids(s, prefix).contains(id) <==> (exists|i: int| 0 <= i < s.len() && record_stable_id(s[i]) == Some(id))
            && begins_with_ignoring_case(id, prefix),
{
    if matching_ids(s, prefix).contains(id) {
        let i = choose|i: int| 0 <= i < s.len() && id_matches(s[i], prefix) && record_stable_id(s[i]) == Some(id);
        assert(has_prefix(lower(id), lower(prefix)));
        assert forall|k: int| 0 <= k < prefix.len() implies ascii_lower(#[trigger] id[k]) == ascii_lower(prefix[k]) by {
            assert(lower(id).take(lower(prefix).len() as int)[k] == lower(prefix)[k]);
        }
    }
    if (exists|i: int| 0 <= i < s.len() && record_stable_id(s[i]) == Some(id)) && begins_with_ignoring_case(id, prefix) {
        let i = choose|i: int| 0 <= i < s.len() && record_stable_id(s[i]) == Some(id);
        assert(lower(id).take(lower(prefix).len() as int) =~= lower(prefix));
        assert(id_matches(s[i], prefix));
    }
}

/// Selects the sessions whose stable id starts with `prefix`, ignoring ASCII case: an
/// empty prefix is refused; it is an error when no id or more than one id matches (the
/// latter naming the ids in order); otherwise the sessions of the one id, in order.
pub fn select_stable_id_prefix_with_noun<'a>(sessions: &'a [SessionRecord], prefix: &str, noun: &str) -> (r: Result<StableIdPrefixSelection<'a>, AgentboxError>)
    ensures
        prefix@.len() == 0 ==> r matches Err(AgentboxError::EmptyStableIdPrefix),
        prefix@.len() > 0 && matching_ids(records_view(sessions@), prefix@).len() == 0 ==> (r matches Err(AgentboxError::NoStableIdMatch { noun: n, prefix: p }) && n@ == noun@ && p@ == prefix@),
        prefix@.len() > 0 && matching_ids(records_view(sessions@), prefix@).len() > 1 ==> (r matches Err(AgentboxError::AmbiguousStableIdPrefix { prefix: p, ids }) && p@ == prefix@
            && exists|sorted: Seq<Seq<char>>| #[trigger] strictly_sorted(sorted) && sorted.to_set() == matching_ids(records_view(sessions@), prefix@) && ids@ == join_spec(sorted, ", "@)),
        prefix@.len() > 0 && matching_ids(records_view(sessions@), prefix@).len() == 1 ==> (r matches Ok(sel)
            && matching_ids(records_view(sessions@), prefix@) == set![sel.id@]
            && sel.sessions@.map_values(|x: &SessionRecord| x@) == with_stable_id(records_view(sessions@), sel.id@)),
        r matches Ok(sel) ==> begins_with_ignoring_case(sel.id@, prefix@),
        matching_ids(records_view(sessions@), prefix@).finite(),
{
    let ghost s = records_view(sessions@);
    let prefix_chars = chars_of(prefix);
    let normalized = lower_chars(&prefix_chars);
    let mut ids: Vec<String> = Vec::new();
    let mut i: usize = 0;
    while i < sessions.len()
        invariant
            i <= sessions@.len(),
            s == records_view(sessions@),
            normalized@ == lower(prefix@),
            forall|id: Seq<char>| strings_view(ids@).contains(id) <==> exists|j: int| 0 <= j < i && id_matches(s[j], prefix@) && record_stable_id(s[j]) == Some(id),
        decreases sessions.len() - i,
    {
        let ghost before = ids@;
        match sessions[i].stable_id() {
            Some(id) => {
                let idc = chars_of(id.as_str());
                let low = lower_chars(&idc);
                if starts_with(&low, &normalized) {
                    ids.push(id);
                    proof {
                        assert(strings_view(ids@) =~= strings_view(before).push(ids@.last()@));
                        crate::order::lemma_push_contains(strings_view(before), ids@.last()@);
                    }
                }
            },
            None => {},
        }
        proof {
            assert forall|x: Seq<char>| strings_view(ids@).contains(x) <==> exists|j: int| 0 <= j < i + 1 && id_matches(s[j], prefix@) && record_stable_id(s[j]) == Some(x) by {
                if strings_view(ids@).contains(x) && !strings_view(before).contains(x) {
                    assert(id_matches(s[i as int], prefix@) && record_stable_id(s[i as int]) == Some(x));
                }
                if exists|j: int| 0 <= j < i + 1 && id_matches(s[j], prefix@) && record_stable_id(s[j]) == Some(x) {
                    let j = choose|j: int| 0 <= j < i + 1 && id_matches(s[j], prefix@) && record_stable_id(s[j]) == Some(x);
                    if j < i {
                        assert(strings_view(before).contains(x));
                    }
                }
            }
        }
        i = i + 1;
    }
    let distinct = sorted_unique(&ids);
    proof {
        let m = matching_ids(s, prefix@);
        let dv = strings_view(distinct@);
        assert(m =~= dv.to_set());
        crate::order::lemma_sorted_distinct_len(dv);
    }
    if chars_of(prefix).len() == 0 {
        return Err(AgentboxError::EmptyStableIdPrefix);
    }
    if distinct.len() == 0 {
        return Err(AgentboxError::NoStableIdMatch { noun: owned(noun), prefix: owned(prefix) });
    }
    if distinct.len() > 1 {
        return Err(AgentboxError::AmbiguousStableIdPrefix { prefix: owned(prefix), ids: join_strings(&distinct, ", ") });
    }
    let id = distinct[0].clone();
    proof {
        let dv = strings_view(distinct@);
        assert(dv[0] == id@);
        assert forall|x: Seq<char>| dv.to_set().contains(x) <==> set![id@].contains(x) by {
            if dv.contains(x) {
                let j = choose|j: int| 0 <= j < dv.len() && dv[j] == x;
                assert(j == 0);
            }
            if x == id@ {
                assert(dv.contains(x));
            }
        }
        assert(dv.to_set() =~= set![id@]);
    }
    proof {
        lemma_prefix_selects_ids_beginning_with_it(s, prefix@, id@);
        assert(set![id@].contains(id@));
    }
    let mut selected: Vec<&'a SessionRecord> = Vec::new();
    let mut k: usize = 0;
    while k < sessions.len()
        invariant
            k <= sessions@.len(),
            s == records_view(sessions@),
            selected@.map_values(|x: &SessionRecord| x@) == with_stable_id(s.take(k as int), id@),
        decreases sessions.len() - k,
    {
        proof {
            assert(s.take(k + 1).drop_last() =~= s.take(k as int));
        }
        let ghost before = selected@;
        match sessions[k].stable_id() {
            Some(sid) => if str_eq(sid.as_str(), id.as_str()) {
                selected.push(&sessions[k]);
                assert(selected@.map_values(|x: &SessionRecord| x@) =~= before.map_values(|x: &SessionRecord| x@).push(s[k as int]));
            },
            None => {},
        }
        k = k + 1;
    }
    assert(s.take(sessions@.len() as int) =~= s);
    Ok(StableIdPrefixSelection { id, sessions: selected })
}

/// Selects managed sessions by a prefix of their stable id.
pub fn select_stable_id_prefix<'a>(sessions: &'a [SessionRecord], prefix: &str) -> (r: Result<StableIdPrefixSelection<'a>, AgentboxError>)
    ensures
        prefix@.len() == 0 ==> r matches Err(AgentboxError::EmptyStableIdPrefix),
        prefix@.len() > 0 && matching_ids(records_view(sessions@), prefix@).len() == 0 ==> (r matches Err(AgentboxError::NoStableIdMatch { noun: n, prefix: p }) && n@ == "managed session"@ && p@ == prefix@),
        prefix@.len() > 0 && matching_ids(records_view(sessions@), prefix@).len() == 1 ==> (r matches Ok(sel)
            && matching_ids(records_view(sessions@), prefix@) == set![sel.id@]
            && sel.sessions@.map_values(|x: &SessionRecord| x@) == with_stable_id(records_view(sessions@), sel.id@)),
        r matches Ok(sel) ==> begins_with_ignoring_case(sel.id@, prefix@),
        prefix@.len() > 0 && matching_ids(records_view(sessions@), prefix@).len() > 1 ==> r matches Err(AgentboxError::AmbiguousStableIdPrefix { .. }),
{
    select_stable_id_prefix_with_noun(sessions, prefix, "managed session")
}

/// Selects agentbox containers by a prefix of their stable id.
pub fn select_agentbox_stable_id_prefix<'a>(sessions: &'a [SessionRecord], prefix: &str) -> (r: Result<StableIdPrefixSelection<'a>, AgentboxError>)
    ensures
        prefix@.len() == 0 ==> r matches Err(AgentboxError::EmptyStableIdPrefix),
        prefix@.len() > 0 && matching_ids(records_view(sessions@), prefix@).len() == 0 ==> (r matches Err(AgentboxError::NoStableIdMatch { noun: n, prefix: p }) && n@ == "agentbox container"@ && p@ == prefix@),
        prefix@.len() > 0 && matching_ids(records_view(sessions@), prefix@).len() == 1 ==> (r matches Ok(sel)
            && matching_ids(records_view(sessions@), prefix@) == set![sel.id@]
            && sel.sessions@.map_values(|x: &SessionRecord| x@) == with_stable_id(records_view(sessions@), sel.id@)),
        r matches Ok(sel) ==> begins_with_ignoring_case(sel.id@, prefix@),
        prefix@.len() > 0 && matching_ids(records_view(sessions@), prefix@).len() > 1 ==> r matches Err(AgentboxError::AmbiguousStableIdPrefix { .. }),
{
    select_stable_id_prefix_with_noun(sessions, prefix, "agentbox container")
}

/// The one session of a workspace: none when there is none, an error when there are
/// several.
pub fn select_single_session<'a>(sessions: &'a [SessionRecord], workspace: &WorkspaceIdentity) -> (r: Result<Option<&'a SessionRecord>, AgentboxError>)
    ensures
        sessions@.len() == 0 ==> r matches Ok(None),
        sessions@.len() == 1 ==> r == Ok::<Option<&'a SessionRecord>, AgentboxError>(Some(&sessions@[0])),
        sessions@.len() > 1 ==> (r matches Err(AgentboxError::DuplicateSessions { git_root }) && git_root@ == workspace.canonical_git_root@),
{
    if sessions.len() == 0 {
        Ok(None)
    } else if sessions.len() == 1 {
        Ok(Some(&sessions[0]))
    } else {
        Err(AgentboxError::DuplicateSessions { git_root: workspace.canonical_git_root.clone() })
    }
}

/// The runtime a hint names: the session's runtime label when it names a runtime,
/// otherwise the placeholder of all runtimes.
pub open spec fn hint_runtime(runtime: Option<Seq<char>>) -> Seq<char> {
    match runtime {
        Some(r) => if trim(r).len() > 0 && kind_from_name(r) is Some { r } else { placeholder_text() },
        None => placeholder_text(),
    }
}

/// The command that starts a session for the workspace again.
pub fn run_command_hint(runtime: Option<&str>, workspace: &WorkspaceIdentity) -> (r: String)
    ensures
        r@ == "agentbox start --runtime "@ + hint_runtime(match runtime { Some(x) => Some(x@), None => None }) + " "@ + workspace.requested_target@,
{
    let name = match runtime {
        Some(value) => match RuntimeKind::parse_label(value) {
            Ok(_) => owned(value),
            Err(_) => RuntimeKind::supported_values_placeholder(),
        },
        None => RuntimeKind::supported_values_placeholder(),
    };
    let mut out: Vec<char> = Vec::new();
    push_str(&mut out, "agentbox start --runtime ");
    push_str(&mut out, name.as_str());
    push_str(&mut out, " ");
    push_str(&mut out, workspace.requested_target.as_str());
    string_of(&out)
}

} // verus!
