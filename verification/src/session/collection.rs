//! Ordering, filtering and grouping sessions by their Git root.

use vstd::prelude::*;

use crate::order::{lemma_lex_transitive, lemma_lex_trichotomy, lex_lt, lex_order, strings_view, LexOrder};
use crate::path_order::{lemma_path_transitive, lemma_path_trichotomy, path_lt, path_order, paths_equal, same_path};
use crate::text::chars_of;

use super::discovery::records_view;
use super::record::{record_root, RecordView, SessionGroup, SessionRecord};

verus! {

// ---------------------------------------------------------------------------
// Identity order
// ---------------------------------------------------------------------------

/// The order of optional roots: no root first, then roots in string order.
pub open spec fn root_lt(a: Option<Seq<char>>, b: Option<Seq<char>>) -> bool {
    match (a, b) {
        (None, Some(_)) => true,
        (Some(x), Some(y)) => lex_lt(x, y),
        _ => false,
    }
}

/// The identity order of records: by Git root (none first), then by container name.
pub open spec fn identity_lt(a: RecordView, b: RecordView) -> bool {
    root_lt(record_root(a), record_root(b)) || (record_root(a) == record_root(b) && lex_lt(a.container_name, b.container_name))
}

/// Two records have the same identity: the same root and container name.
pub open spec fn same_identity(a: RecordView, b: RecordView) -> bool {
    record_root(a) == record_root(b) && a.container_name == b.container_name
}

proof fn lemma_root_order(a: Option<Seq<char>>, b: Option<Seq<char>>)
    ensures
        root_lt(a, b) || a == b || root_lt(b, a),
        !(root_lt(a, b) && root_lt(b, a)),
        !(root_lt(a, b) && a == b),
{
    match (a, b) {
        (Some(x), Some(y)) => lemma_lex_trichotomy(x, y),
        _ => {},
    }
}

proof fn lemma_root_transitive(a: Option<Seq<char>>, b: Option<Seq<char>>, c: Option<Seq<char>>)
    requires
        root_lt(a, b),
        root_lt(b, c),
    ensures
        root_lt(a, c),
{
    match (a, b, c) {
        (Some(x), Some(y), Some(z)) => lemma_lex_transitive(x, y, z),
        _ => {},
    }
}

/// The identity order is a strict order whose ties are records of the same identity.
pub proof fn lemma_identity_order(a: RecordView, b: RecordView)
    ensures
        identity_lt(a, b) || same_identity(a, b) || identity_lt(b, a),
        !(identity_lt(a, b) && identity_lt(b, a)),
        !(identity_lt(a, b) && same_identity(a, b)),
{
    lemma_root_order(record_root(a), record_root(b));
    lemma_lex_trichotomy(a.container_name, b.container_name);
}

/// The identity order is transitive.
pub proof fn lemma_identity_transitive(a: RecordView, b: RecordView, c: RecordView)
    requires
        identity_lt(a, b),
        identity_lt(b, c),
    ensures
        identity_lt(a, c),
{
    lemma_root_order(record_root(a), record_root(b));
    lemma_root_order(record_root(b), record_root(c));
    lemma_root_order(record_root(a), record_root(c));
    if root_lt(record_root(a), record_root(b)) && root_lt(record_root(b), record_root(c)) {
        lemma_root_transitive(record_root(a), record_root(b), record_root(c));
    }
    if record_root(a) == record_root(b) && record_root(b) == record_root(c) {
        lemma_lex_transitive(a.container_name, b.container_name, c.container_name);
    }
}

/// Record `i` comes before record `j` in a stable identity sort of `s`.
pub open spec fn placed_before(s: Seq<RecordView>, i: int, j: int) -> bool {
    identity_lt(s[i], s[j]) || (same_identity(s[i], s[j]) && i < j)
}

/// `order` lists each index of `s` once, in the order of a stable identity sort.
pub open spec fn is_identity_order(s: Seq<RecordView>, order: Seq<usize>) -> bool {
    &&& order.len() == s.len()
    &&& forall|k: int| 0 <= k < order.len() ==> #[trigger] order[k] < s.len()
    &&& forall|k: int, l: int| 0 <= k < l < order.len() ==> placed_before(s, #[trigger] order[k] as int, #[trigger] order[l] as int)
}

fn root_order(a: &Option<String>, b: &Option<String>) -> (r: LexOrder)
    ensures
        r == LexOrder::Before <==> root_lt(match a { Some(x) => Some(x@), None => None }, match b { Some(x) => Some(x@), None => None }),
        r == LexOrder::Same <==> (match a { Some(x) => Some(x@), None => None }) == (match b { Some(x) => Some(x@), None => None }),
        r == LexOrder::After <==> root_lt(match b { Some(x) => Some(x@), None => None }, match a { Some(x) => Some(x@), None => None }),
{
    match (a, b) {
        (None, None) => LexOrder::Same,
        (None, Some(_)) => LexOrder::Before,
        (Some(_), None) => LexOrder::After,
        (Some(x), Some(y)) => {
            let xc = chars_of(x.as_str());
            let yc = chars_of(y.as_str());
            lex_order(&xc, &yc)
        },
    }
}

fn identity_order(a: &SessionRecord, b: &SessionRecord) -> (r: LexOrder)
    ensures
        r == LexOrder::Before <==> identity_lt(a@, b@),
        r == LexOrder::Same <==> same_identity(a@, b@),
        r == LexOrder::After <==> identity_lt(b@, a@),
{
    proof {
        lemma_identity_order(a@, b@);
    }
    let ra = a.canonical_git_root();
    let rb = b.canonical_git_root();
    match root_order(&ra, &rb) {
        LexOrder::Before => LexOrder::Before,
        LexOrder::After => LexOrder::After,
        LexOrder::Same => {
            let na = chars_of(a.container_name());
            let nb = chars_of(b.container_name());
            lex_order(&na, &nb)
        },
    }
}

/// The indices of `sessions` in a stable identity sort: by Git root (none first), then by
/// container name, ties in their given order.
pub fn identity_sort_order(sessions: &[SessionRecord]) -> (order: Vec<usize>)
    ensures
        is_identity_order(records_view(sessions@), order@),
{
    let ghost s = records_view(sessions@);
    let mut order: Vec<usize> = Vec::new();
    let mut i: usize = 0;
    while i < sessions.len()
        invariant
            i <= sessions@.len(),
            s == records_view(sessions@),
            order@.len() == i,
            forall|k: int| 0 <= k < order@.len() ==> #[trigger] order@[k] < i,
            forall|k: int, l: int| 0 <= k < l < order@.len() ==> placed_before(s, #[trigger] order@[k] as int, #[trigger] order@[l] as int),
        decreases sessions.len() - i,
    {
        let mut pos: usize = order.len();
        while pos > 0 && identity_order(&sessions[i], &sessions[order[pos - 1]]) == LexOrder::Before
            invariant
                pos <= order@.len(),
                i < sessions@.len(),
                s == records_view(sessions@),
                forall|k: int| 0 <= k < order@.len() ==> #[trigger] order@[k] < i,
                forall|k: int| pos <= k < order@.len() ==> identity_lt(s[i as int], #[trigger] s[order@[k] as int]),
            decreases pos,
        {
            pos = pos - 1;
        }
        proof {
            assert forall|k: int| 0 <= k < pos implies placed_before(s, #[trigger] order@[k] as int, i as int) by {
                let last = order@[pos - 1] as int;
                lemma_identity_order(s[i as int], s[last]);
                if k < pos - 1 {
                    let ok = order@[k] as int;
                    assert(placed_before(s, ok, last));
                    lemma_identity_order(s[ok], s[last]);
                    if identity_lt(s[ok], s[last]) && identity_lt(s[last], s[i as int]) {
                        lemma_identity_transitive(s[ok], s[last], s[i as int]);
                    } else if identity_lt(s[ok], s[last]) {
                        lemma_identity_order(s[ok], s[i as int]);
                        if identity_lt(s[i as int], s[ok]) {
                            lemma_identity_transitive(s[i as int], s[ok], s[last]);
                        }
                    } else if identity_lt(s[last], s[i as int]) {
                        lemma_identity_order(s[ok], s[i as int]);
                        if identity_lt(s[i as int], s[ok]) {
                            lemma_identity_transitive(s[last], s[i as int], s[ok]);
                        }
                    } else {
                        lemma_identity_order(s[ok], s[i as int]);
                    }
                }
            }
        }
        let ghost old_order = order@;
        order.insert(pos, i);
        proof {
            assert forall|k: int, l: int| 0 <= k < l < order@.len() implies placed_before(s, #[trigger] order@[k] as int, #[trigger] order@[l] as int) by {
                if l < pos {
                    assert(order@[k] == old_order[k] && order@[l] == old_order[l]);
                } else if l == pos {
                    assert(order@[k] == old_order[k]);
                } else if k == pos {
                    assert(order@[l] == old_order[l - 1]);
                } else if k < pos {
                    assert(order@[k] == old_order[k] && order@[l] == old_order[l - 1]);
                } else {
                    assert(order@[k] == old_order[k - 1] && order@[l] == old_order[l - 1]);
                }
            }
        }
        i = i + 1;
    }
    order
}

/// References to the sessions in a stable identity sort: by Git root (none first), then by
/// container name.
pub fn sorted_session_refs_by_identity<'a>(sessions: &'a [SessionRecord]) -> (r: Vec<&'a SessionRecord>)
    ensures
        exists|order: Seq<usize>| #[trigger] is_identity_order(records_view(sessions@), order) && r@.len() == order.len()
            && forall|k: int| 0 <= k < order.len() ==> *#[trigger] r@[k] == sessions@[order[k] as int],
{
    let order = identity_sort_order(sessions);
    let mut r: Vec<&'a SessionRecord> = Vec::new();
    let mut k: usize = 0;
    while k < order.len()
        invariant
            k <= order@.len(),
            is_identity_order(records_view(sessions@), order@),
            r@.len() == k,
            forall|j: int| 0 <= j < k ==> *#[trigger] r@[j] == sessions@[order@[j] as int],
        decreases order.len() - k,
    {
        r.push(&sessions[order[k]]);
        k = k + 1;
    }
    r
}

// ---------------------------------------------------------------------------
// Filtering and grouping
// ---------------------------------------------------------------------------

/// A record's optional Git root matches `root`: both are absent, or both are present and
/// name the same path.
pub open spec fn root_matches(r: Option<Seq<char>>, root: Option<Seq<char>>) -> bool {
    match (r, root) {
        (Some(a), Some(b)) => same_path(a, b),
        (None, None) => true,
        _ => false,
    }
}

/// The records of `s` whose Git root matches `root` (the same path, or both absent), in
/// order.
pub open spec fn with_root(s: Seq<RecordView>, root: Option<Seq<char>>) -> Seq<RecordView>
    decreases s.len(),
{
    if s.len() == 0 {
        Seq::empty()
    } else if root_matches(record_root(s.last()), root) {
        with_root(s.drop_last(), root).push(s.last())
    } else {
        with_root(s.drop_last(), root)
    }
}

fn root_matches_exec(session_root: &Option<String>, root: &Option<String>) -> (r: bool)
    ensures
        r == root_matches(
            match session_root { Some(x) => Some(x@), None => None },
            match root { Some(x) => Some(x@), None => None },
        ),
{
    match (session_root, root) {
        (Some(a), Some(b)) => paths_equal(a.as_str(), b.as_str()),
        (None, None) => true,
        _ => false,
    }
}

fn take_with_root(sessions: &Vec<SessionRecord>, root: &Option<String>) -> (r: Vec<SessionRecord>)
    ensures
        records_view(r@) == with_root(records_view(sessions@), match root { Some(x) => Some(x@), None => None }),
{
    let ghost want = match root { Some(x) => Some(x@), None => None };
    let mut r: Vec<SessionRecord> = Vec::new();
    let mut i: usize = 0;
    while i < sessions.len()
        invariant
            i <= sessions@.len(),
            want == match root { Some(x) => Some(x@), None => None },
            records_view(r@) == with_root(records_view(sessions@).take(i as int), want),
        decreases sessions.len() - i,
    {
        proof {
            assert(records_view(sessions@).take(i + 1).drop_last() =~= records_view(sessions@).take(i as int));
        }
        let session_root = sessions[i].canonical_git_root();
        if root_matches_exec(&session_root, root) {
            let ghost before = r@;
            r.push(sessions[i].clone());
            assert(records_view(r@) =~= records_view(before).push(sessions@[i as int]@));
        }
        i = i + 1;
    }
    assert(records_view(sessions@).take(sessions@.len() as int) =~= records_view(sessions@));
    r
}

/// The sessions whose Git root is the same path as `git_root`, in order.
pub fn exact_git_root_matches(sessions: Vec<SessionRecord>, git_root: &str) -> (r: Vec<SessionRecord>)
    ensures
        records_view(r@) == with_root(records_view(sessions@), Some(git_root@)),
{
    let root = Some(crate::text::owned(git_root));
    take_with_root(&sessions, &root)
}

/// Sessions split by Git root: one group per root path, roots in increasing component
/// order, and the sessions without a root.
#[derive(Debug)]
pub struct SessionRootPartition {
    pub rooted: Vec<SessionGroup>,
    pub unrooted: Vec<SessionRecord>,
}

/// `names` is in strictly increasing component order.
pub open spec fn path_sorted(names: Seq<Seq<char>>) -> bool {
    forall|a: int, b: int| 0 <= a < b < names.len() ==> path_lt(#[trigger] names[a], #[trigger] names[b])
}

/// Record `m` of `s` is the first whose Git root is the same path as `root`, and it writes
/// the root as `root`.
pub open spec fn first_at(s: Seq<RecordView>, m: int, root: Seq<char>) -> bool {
    0 <= m < s.len() && record_root(s[m]) == Some(root)
        && forall|j: int| 0 <= j < m ==> !root_matches(#[trigger] record_root(s[j]), Some(root))
}

/// `root` is the Git root of a record of `s`, written as the first record with that root
/// path wrote it.
pub open spec fn first_of_its_path(s: Seq<RecordView>, root: Seq<char>) -> bool {
    exists|m: int| #[trigger] first_at(s, m, root)
}

/// Every Git root of the first `n` records of `s` is the same path as one of `names`.
pub open spec fn roots_covered(s: Seq<RecordView>, n: int, names: Seq<Seq<char>>) -> bool {
    forall|i: int| 0 <= i < n ==> match #[trigger] record_root(s[i]) {
        Some(r) => exists|k: int| 0 <= k < names.len() && same_path(r, #[trigger] names[k]),
        None => true,
    }
}

/// The Git roots of groups.
pub open spec fn group_roots(groups: Seq<SessionGroup>) -> Seq<Seq<char>> {
    groups.map_values(|g: SessionGroup| g.canonical_git_root@)
}

/// Whether `p` splits `s` by Git root path, as a map keyed by the root path does.
pub open spec fn is_partition_of(p: SessionRootPartition, s: Seq<RecordView>) -> bool {
    &&& path_sorted(group_roots(p.rooted@))
    &&& forall|k: int| 0 <= k < p.rooted@.len() ==> first_of_its_path(s, #[trigger] group_roots(p.rooted@)[k])
    &&& roots_covered(s, s.len() as int, group_roots(p.rooted@))
    &&& forall|k: int| 0 <= k < p.rooted@.len() ==> records_view(#[trigger] p.rooted@[k].sessions@) == with_root(s, Some(p.rooted@[k].canonical_git_root@))
    &&& records_view(p.unrooted@) == with_root(s, None)
}

/// Each of `names` is the Git root of one of the first `n` records of `s`, written as the
/// first of them with that root path wrote it; `idx` gives those records.
pub open spec fn firsts_at(s: Seq<RecordView>, n: int, names: Seq<Seq<char>>, idx: Seq<int>) -> bool {
    idx.len() == names.len() && forall|k: int| 0 <= k < names.len() ==> #[trigger] idx[k] < n && first_at(s, idx[k], names[k])
}

proof fn lemma_skip_root(s: Seq<RecordView>, i: int, names: Seq<Seq<char>>)
    requires
        0 <= i < s.len(),
        roots_covered(s, i, names),
        match record_root(s[i]) {
            Some(x) => exists|k: int| 0 <= k < names.len() && same_path(x, #[trigger] names[k]),
            None => true,
        },
    ensures
        roots_covered(s, i + 1, names),
{
    assert forall|m: int| 0 <= m < i + 1 implies match #[trigger] record_root(s[m]) {
        Some(y) => exists|k: int| 0 <= k < names.len() && same_path(y, #[trigger] names[k]),
        None => true,
    } by {
        if m < i {
            assert(roots_covered(s, i, names));
        }
    }
}

proof fn lemma_insert_sorted(names: Seq<Seq<char>>, pos: int, x: Seq<char>)
    requires
        0 <= pos <= names.len(),
        path_sorted(names),
        forall|k: int| 0 <= k < pos ==> path_lt(#[trigger] names[k], x),
        forall|k: int| pos <= k < names.len() ==> path_lt(x, #[trigger] names[k]),
    ensures
        path_sorted(names.insert(pos, x)),
        forall|k: int| 0 <= k < names.len() ==> !same_path(#[trigger] names[k], x),
{
    let nr = names.insert(pos, x);
    assert forall|k: int| 0 <= k < names.len() implies !same_path(#[trigger] names[k], x) by {
        lemma_path_trichotomy(names[k], x);
        lemma_path_trichotomy(x, names[k]);
    }
    assert forall|a: int, b: int| 0 <= a < b < nr.len() implies path_lt(#[trigger] nr[a], #[trigger] nr[b]) by {
        if b < pos {
        } else if a < pos && b == pos {
        } else if a < pos {
            lemma_path_transitive(nr[a], x, nr[b]);
        } else if a == pos {
        } else {
        }
    }
}

proof fn lemma_insert_covered(s: Seq<RecordView>, i: int, names: Seq<Seq<char>>, pos: int, x: Seq<char>)
    requires
        0 <= i < s.len(),
        0 <= pos <= names.len(),
        record_root(s[i]) == Some(x),
        roots_covered(s, i, names),
    ensures
        roots_covered(s, i + 1, names.insert(pos, x)),
{
    let nr = names.insert(pos, x);
    assert forall|m: int| 0 <= m < i + 1 implies match #[trigger] record_root(s[m]) {
        Some(y) => exists|k: int| 0 <= k < nr.len() && same_path(y, #[trigger] nr[k]),
        None => true,
    } by {
        if m < i {
            assert(roots_covered(s, i, names));
            match record_root(s[m]) {
                Some(y) => {
                    let k = choose|k: int| 0 <= k < names.len() && same_path(y, #[trigger] names[k]);
                    if k < pos {
                        assert(nr[k] == names[k]);
                    } else {
                        assert(nr[k + 1] == names[k]);
                    }
                },
                None => {},
            }
        } else {
            assert(nr[pos] == x);
        }
    }
}

proof fn lemma_insert_firsts(s: Seq<RecordView>, i: int, names: Seq<Seq<char>>, idx: Seq<int>, pos: int, x: Seq<char>)
    requires
        0 <= i < s.len(),
        0 <= pos <= names.len(),
        record_root(s[i]) == Some(x),
        firsts_at(s, i, names, idx),
        roots_covered(s, i, names),
        forall|k: int| 0 <= k < names.len() ==> !same_path(#[trigger] names[k], x),
    ensures
        firsts_at(s, i + 1, names.insert(pos, x), idx.insert(pos, i)),
{
    let nr = names.insert(pos, x);
    let ni = idx.insert(pos, i);
    assert forall|j: int| 0 <= j < i implies !root_matches(#[trigger] record_root(s[j]), Some(x)) by {
        assert(roots_covered(s, i, names));
        match record_root(s[j]) {
            Some(y) => {
                let q = choose|q: int| 0 <= q < names.len() && same_path(y, #[trigger] names[q]);
                assert(!same_path(names[q], x));
            },
            None => {},
        }
    }
    assert forall|k: int| 0 <= k < nr.len() implies #[trigger] ni[k] < i + 1 && first_at(s, ni[k], nr[k]) by {
        if k < pos {
            assert(ni[k] == idx[k] && nr[k] == names[k]);
        } else if k > pos {
            assert(ni[k] == idx[k - 1] && nr[k] == names[k - 1]);
        }
    }
}

/// Where `root` goes among path-sorted `names`: the place after every name that comes
/// before it, and whether the name there is the same path.
fn path_slot(names: &Vec<String>, root: &str) -> (res: (usize, bool))
    requires
        path_sorted(strings_view(names@)),
    ensures
        res.0 <= names@.len(),
        forall|k: int| 0 <= k < res.0 ==> path_lt(#[trigger] strings_view(names@)[k], root@),
        res.1 ==> res.0 < names@.len() && same_path(strings_view(names@)[res.0 as int], root@),
        !res.1 ==> forall|k: int| res.0 <= k < names@.len() ==> path_lt(root@, #[trigger] strings_view(names@)[k]),
{
    let ghost rv = strings_view(names@);
    let mut pos: usize = 0;
    while pos < names.len()
        invariant
            pos <= names@.len(),
            rv == strings_view(names@),
            path_sorted(rv),
            forall|k: int| 0 <= k < pos ==> path_lt(#[trigger] rv[k], root@),
        decreases names.len() - pos,
    {
        match path_order(names[pos].as_str(), root) {
            LexOrder::Before => {
                pos = pos + 1;
            },
            LexOrder::Same => {
                return (pos, true);
            },
            LexOrder::After => {
                proof {
                    assert forall|k: int| pos <= k < names@.len() implies path_lt(root@, #[trigger] rv[k]) by {
                        if k > pos {
                            lemma_path_transitive(root@, rv[pos as int], rv[k]);
                        }
                    }
                }
                return (pos, false);
            },
        }
    }
    (pos, false)
}

/// The distinct Git root paths of `sessions` in increasing component order, each written
/// as its first record wrote it.
pub(crate) fn first_roots_by_path(sessions: &Vec<SessionRecord>) -> (r: Vec<String>)
    ensures
        path_sorted(strings_view(r@)),
        forall|k: int| 0 <= k < r@.len() ==> first_of_its_path(records_view(sessions@), #[trigger] strings_view(r@)[k]),
        roots_covered(records_view(sessions@), sessions@.len() as int, strings_view(r@)),
{
    let ghost s = records_view(sessions@);
    let mut r: Vec<String> = Vec::new();
    let ghost mut idx: Seq<int> = Seq::empty();
    let mut i: usize = 0;
    while i < sessions.len()
        invariant
            i <= sessions@.len(),
            s == records_view(sessions@),
            path_sorted(strings_view(r@)),
            firsts_at(s, i as int, strings_view(r@), idx),
            roots_covered(s, i as int, strings_view(r@)),
        decreases sessions.len() - i,
    {
        match sessions[i].canonical_git_root() {
            None => {
                proof {
                    lemma_skip_root(s, i as int, strings_view(r@));
                }
            },
            Some(root) => {
                let ghost rv = strings_view(r@);
                let (pos, present) = path_slot(&r, root.as_str());
                if present {
                    proof {
                        assert(same_path(root@, rv[pos as int]));
                        lemma_skip_root(s, i as int, rv);
                    }
                } else {
                    proof {
                        lemma_insert_sorted(rv, pos as int, root@);
                        lemma_insert_covered(s, i as int, rv, pos as int, root@);
                        lemma_insert_firsts(s, i as int, rv, idx, pos as int, root@);
                        idx = idx.insert(pos as int, i as int);
                    }
                    let ghost x = root@;
                    r.insert(pos, root);
                    assert(strings_view(r@) =~= rv.insert(pos as int, x));
                }
            },
        }
        i = i + 1;
    }
    proof {
        assert forall|k: int| 0 <= k < r@.len() implies first_of_its_path(records_view(sessions@), #[trigger] strings_view(r@)[k]) by {
            assert(idx[k] < i && first_at(s, idx[k], strings_view(r@)[k]));
        }
    }
    r
}

/// Splits sessions by Git root path.
pub fn partition_sessions_by_git_root(sessions: Vec<SessionRecord>) -> (r: SessionRootPartition)
    ensures
        is_partition_of(r, records_view(sessions@)),
{
    let ghost s = records_view(sessions@);
    let distinct = first_roots_by_path(&sessions);
    let mut rooted: Vec<SessionGroup> = Vec::new();
    let mut k: usize = 0;
    while k < distinct.len()
        invariant
            k <= distinct@.len(),
            s == records_view(sessions@),
            rooted@.len() == k,
            forall|j: int| 0 <= j < k ==> (#[trigger] rooted@[j]).canonical_git_root@ == distinct@[j]@,
            forall|j: int| 0 <= j < k ==> records_view(#[trigger] rooted@[j].sessions@) == with_root(s, Some(rooted@[j].canonical_git_root@)),
        decreases distinct.len() - k,
    {
        let root = Some(distinct[k].clone());
        let group = take_with_root(&sessions, &root);
        rooted.push(SessionGroup { canonical_git_root: distinct[k].clone(), sessions: group });
        k = k + 1;
    }
    let unrooted = take_with_root(&sessions, &None);
    let r = SessionRootPartition { rooted, unrooted };
    proof {
        assert(group_roots(r.rooted@) =~= strings_view(distinct@));
    }
    r
}

/// The groups of sessions that have a Git root, one per root path in increasing component
/// order.
pub fn group_sessions_by_git_root(sessions: &[SessionRecord]) -> (r: Vec<SessionGroup>)
    ensures
        exists|p: SessionRootPartition| #[trigger] is_partition_of(p, records_view(sessions@)) && r == p.rooted,
{
    let mut copies: Vec<SessionRecord> = Vec::new();
    let mut i: usize = 0;
    while i < sessions.len()
        invariant
            i <= sessions@.len(),
            records_view(copies@) == records_view(sessions@).take(i as int),
        decreases sessions.len() - i,
    {
        let ghost before = copies@;
        copies.push(sessions[i].clone());
        assert(records_view(copies@) =~= records_view(before).push(sessions@[i as int]@));
        assert(records_view(sessions@).take(i + 1) =~= records_view(sessions@).take(i as int).push(sessions@[i as int]@));
        i = i + 1;
    }
    assert(records_view(sessions@).take(sessions@.len() as int) =~= records_view(sessions@));
    let p = partition_sessions_by_git_root(copies);
    p.rooted
}

} // verus!
