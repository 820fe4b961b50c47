//! Paths compared as Unix path components: two paths are the same path when they have the
//! same components, and paths are ordered by their components, the way `Utf8Path` and
//! `Utf8PathBuf` compare and order them.

use vstd::prelude::*;

use crate::order::{lemma_lex_transitive, lemma_lex_trichotomy, lex_lt, lex_order, LexOrder};
use crate::paths::is_absolute_spec;
use crate::text::{chars_of, push_chars, split_char, split_char_chars};

verus! {

/// One component of a Unix path, in the order components compare: the root directory, a
/// leading `.`, `..`, then named components by their text.
pub enum PathPart {
    Root,
    Cur,
    Parent,
    Normal(Seq<char>),
}

/// The components that the `/`-separated pieces of a path contribute: empty pieces and `.`
/// are skipped, `..` is the parent, anything else is a named component.
pub open spec fn normal_parts(pieces: Seq<Seq<char>>) -> Seq<PathPart>
    decreases pieces.len(),
{
    if pieces.len() == 0 {
        Seq::empty()
    } else {
        let rest = normal_parts(pieces.drop_last());
        let p = pieces.last();
        if p.len() == 0 || p == seq!['.'] {
            rest
        } else if p == seq!['.', '.'] {
            rest.push(PathPart::Parent)
        } else {
            rest.push(PathPart::Normal(p))
        }
    }
}

/// A relative path whose first piece is `.`.
pub open spec fn starts_with_cur_dir(p: Seq<char>) -> bool {
    !is_absolute_spec(p) && p.len() >= 1 && p[0] == '.' && (p.len() == 1 || p[1] == '/')
}

/// The components of a Unix path: the root directory for an absolute path, a leading `.`
/// for a relative path that starts with one, then the components of its pieces.
pub open spec fn path_parts(p: Seq<char>) -> Seq<PathPart> {
    let head = if is_absolute_spec(p) {
        seq![PathPart::Root]
    } else if starts_with_cur_dir(p) {
        seq![PathPart::Cur]
    } else {
        Seq::empty()
    };
    head + normal_parts(split_char(p, '/'))
}

/// Two texts name the same path: they have the same components.
pub open spec fn same_path(a: Seq<char>, b: Seq<char>) -> bool {
    path_parts(a) == path_parts(b)
}

/// The rank of a component's kind in the component order.
pub open spec fn part_rank(p: PathPart) -> int {
    match p {
        PathPart::Root => 0,
        PathPart::Cur => 1,
        PathPart::Parent => 2,
        PathPart::Normal(_) => 3,
    }
}

/// Component `a` comes before component `b`.
pub open spec fn part_lt(a: PathPart, b: PathPart) -> bool {
    part_rank(a) < part_rank(b) || match (a, b) {
        (PathPart::Normal(x), PathPart::Normal(y)) => lex_lt(x, y),
        _ => false,
    }
}

/// Component sequence `a` comes before `b`: at the first place where they differ `a` has
/// the smaller component, or `a` is a proper prefix of `b`.
pub open spec fn parts_lt(a: Seq<PathPart>, b: Seq<PathPart>) -> bool
    decreases a.len(),
{
    if a.len() == 0 {
        b.len() > 0
    } else if b.len() == 0 {
        false
    } else if a[0] != b[0] {
        part_lt(a[0], b[0])
    } else {
        parts_lt(a.drop_first(), b.drop_first())
    }
}

/// `path` is `root` or lies below it: its components begin with all of `root`'s.
pub open spec fn path_starts_with(path: Seq<char>, root: Seq<char>) -> bool {
    let p = path_parts(path);
    let q = path_parts(root);
    q.len() <= p.len() && p.take(q.len() as int) == q
}

/// Path `a` comes before path `b` in component order.
pub open spec fn path_lt(a: Seq<char>, b: Seq<char>) -> bool {
    parts_lt(path_parts(a), path_parts(b))
}

proof fn lemma_part_trichotomy(a: PathPart, b: PathPart)
    ensures
        part_lt(a, b) || a == b || part_lt(b, a),
        !(part_lt(a, b) && part_lt(b, a)),
        !(part_lt(a, b) && a == b),
{
    match (a, b) {
        (PathPart::Normal(x), PathPart::Normal(y)) => lemma_lex_trichotomy(x, y),
        _ => {},
    }
}

proof fn lemma_part_transitive(a: PathPart, b: PathPart, c: PathPart)
    requires
        part_lt(a, b),
        part_lt(b, c),
    ensures
        part_lt(a, c),
{
    match (a, b, c) {
        (PathPart::Normal(x), PathPart::Normal(y), PathPart::Normal(z)) => lemma_lex_transitive(x, y, z),
        _ => {},
    }
}

proof fn lemma_parts_trichotomy(a: Seq<PathPart>, b: Seq<PathPart>)
    ensures
        parts_lt(a, b) || a == b || parts_lt(b, a),
        !(parts_lt(a, b) && parts_lt(b, a)),
        !(parts_lt(a, b) && a == b),
    decreases a.len(),
{
    if a.len() > 0 && b.len() > 0 {
        lemma_part_trichotomy(a[0], b[0]);
        if a[0] == b[0] {
            lemma_parts_trichotomy(a.drop_first(), b.drop_first());
            if a.drop_first() == b.drop_first() {
                assert(a =~= seq![a[0]] + a.drop_first());
                assert(b =~= seq![b[0]] + b.drop_first());
            }
        }
    }
    if a.len() == 0 && b.len() == 0 {
        assert(a =~= b);
    }
}

proof fn lemma_parts_transitive(a: Seq<PathPart>, b: Seq<PathPart>, c: Seq<PathPart>)
    requires
        parts_lt(a, b),
        parts_lt(b, c),
    ensures
        parts_lt(a, c),
    decreases a.len(),
{
    if a.len() > 0 && b.len() > 0 && c.len() > 0 {
        lemma_part_trichotomy(a[0], b[0]);
        lemma_part_trichotomy(b[0], c[0]);
        lemma_part_trichotomy(a[0], c[0]);
        if a[0] == b[0] && b[0] == c[0] {
            lemma_parts_transitive(a.drop_first(), b.drop_first(), c.drop_first());
        } else if a[0] != b[0] && b[0] != c[0] {
            lemma_part_transitive(a[0], b[0], c[0]);
        }
    }
}

/// Between any two paths exactly one holds: the first comes before the second, they are
/// the same path, or the second comes before the first.
pub proof fn lemma_path_trichotomy(a: Seq<char>, b: Seq<char>)
    ensures
        path_lt(a, b) || same_path(a, b) || path_lt(b, a),
        !(path_lt(a, b) && path_lt(b, a)),
        !(path_lt(a, b) && same_path(a, b)),
{
    lemma_parts_trichotomy(path_parts(a), path_parts(b));
}

/// The component order of paths is transitive.
pub proof fn lemma_path_transitive(a: Seq<char>, b: Seq<char>, c: Seq<char>)
    requires
        path_lt(a, b),
        path_lt(b, c),
    ensures
        path_lt(a, c),
{
    lemma_parts_transitive(path_parts(a), path_parts(b), path_parts(c));
}

/// Paths that are the same path stand in the same place of the order.
pub proof fn lemma_same_path_order(a: Seq<char>, b: Seq<char>, c: Seq<char>)
    requires
        same_path(a, b),
    ensures
        path_lt(a, c) == path_lt(b, c),
        path_lt(c, a) == path_lt(c, b),
{
}

// ---------------------------------------------------------------------------
// Executable components
// ---------------------------------------------------------------------------

/// A component held at run time.
enum PartBuf {
    Root,
    Cur,
    Parent,
    Normal(Vec<char>),
}

impl PartBuf {
    spec fn view(&self) -> PathPart {
        match self {
            PartBuf::Root => PathPart::Root,
            PartBuf::Cur => PathPart::Cur,
            PartBuf::Parent => PathPart::Parent,
            PartBuf::Normal(v) => PathPart::Normal(v@),
        }
    }
}

spec fn parts_view(v: Seq<PartBuf>) -> Seq<PathPart> {
    v.map_values(|p: PartBuf| p.view())
}

fn parts_of(p: &str) -> (r: Vec<PartBuf>)
    ensures
        parts_view(r@) == path_parts(p@),
{
    let cs = chars_of(p);
    let pieces = split_char_chars(&cs, '/');
    let ghost split = split_char(p@, '/');
    let mut out: Vec<PartBuf> = Vec::new();
    if cs.len() > 0 && cs[0] == '/' {
        out.push(PartBuf::Root);
    } else if cs.len() >= 1 && cs[0] == '.' && (cs.len() == 1 || cs[1] == '/') {
        out.push(PartBuf::Cur);
    }
    let ghost head = parts_view(out@);
    assert(head + normal_parts(split) == path_parts(p@)) by {
        if is_absolute_spec(p@) {
            assert(head =~= seq![PathPart::Root]);
        } else if starts_with_cur_dir(p@) {
            assert(head =~= seq![PathPart::Cur]);
        } else {
            assert(head =~= Seq::<PathPart>::empty());
        }
    }
    let mut i: usize = 0;
    assert(split.take(0) =~= Seq::<Seq<char>>::empty());
    assert(parts_view(out@) =~= head + normal_parts(split.take(0)));
    while i < pieces.len()
        invariant
            i <= pieces@.len(),
            pieces@.len() == split.len(),
            forall|k: int| 0 <= k < pieces@.len() ==> #[trigger] pieces@[k]@ == split[k],
            parts_view(out@) == head + normal_parts(split.take(i as int)),
        decreases pieces.len() - i,
    {
        let piece = &pieces[i];
        let ghost before = parts_view(out@);
        proof {
            assert(split.take(i + 1).drop_last() =~= split.take(i as int));
            assert(split.take(i + 1).last() == piece@);
        }
        if piece.len() == 0 || (piece.len() == 1 && piece[0] == '.') {
            proof {
                if piece.len() == 1 {
                    assert(piece@ =~= seq!['.']);
                }
            }
        } else if piece.len() == 2 && piece[0] == '.' && piece[1] == '.' {
            proof {
                assert(piece@ =~= seq!['.', '.']);
                assert(piece@ != seq!['.']);
            }
            out.push(PartBuf::Parent);
            assert(parts_view(out@) =~= before.push(PathPart::Parent));
        } else {
            proof {
                if piece@ == seq!['.'] {
                    assert(piece@[0] == '.');
                }
                if piece@ == seq!['.', '.'] {
                    assert(piece@[0] == '.' && piece@[1] == '.');
                }
            }
            let mut name: Vec<char> = Vec::new();
            push_chars(&mut name, piece.as_slice());
            assert(name@ =~= piece@);
            out.push(PartBuf::Normal(name));
            assert(parts_view(out@) =~= before.push(PathPart::Normal(piece@)));
        }
        i = i + 1;
    }
    assert(split.take(pieces@.len() as int) =~= split);
    out
}

fn part_order(a: &PartBuf, b: &PartBuf) -> (r: LexOrder)
    ensures
        r == LexOrder::Before <==> part_lt(a.view(), b.view()),
        r == LexOrder::Same <==> a.view() == b.view(),
        r == LexOrder::After <==> part_lt(b.view(), a.view()),
{
    proof {
        lemma_part_trichotomy(a.view(), b.view());
    }
    let ra: u8 = match a {
        PartBuf::Root => 0,
        PartBuf::Cur => 1,
        PartBuf::Parent => 2,
        PartBuf::Normal(_) => 3,
    };
    let rb: u8 = match b {
        PartBuf::Root => 0,
        PartBuf::Cur => 1,
        PartBuf::Parent => 2,
        PartBuf::Normal(_) => 3,
    };
    assert(ra == part_rank(a.view()) && rb == part_rank(b.view()));
    if ra < rb {
        LexOrder::Before
    } else if rb < ra {
        LexOrder::After
    } else {
        match (a, b) {
            (PartBuf::Normal(x), PartBuf::Normal(y)) => lex_order(x.as_slice(), y.as_slice()),
            _ => LexOrder::Same,
        }
    }
}

fn parts_order(a: &Vec<PartBuf>, b: &Vec<PartBuf>) -> (r: LexOrder)
    ensures
        r == LexOrder::Before <==> parts_lt(parts_view(a@), parts_view(b@)),
        r == LexOrder::Same <==> parts_view(a@) == parts_view(b@),
        r == LexOrder::After <==> parts_lt(parts_view(b@), parts_view(a@)),
{
    let ghost av = parts_view(a@);
    let ghost bv = parts_view(b@);
    proof {
        lemma_parts_trichotomy(av, bv);
    }
    let mut i: usize = 0;
    assert(av.skip(0) =~= av);
    assert(bv.skip(0) =~= bv);
    while i < a.len() && i < b.len()
        invariant
            av == parts_view(a@),
            bv == parts_view(b@),
            i <= av.len(),
            i <= bv.len(),
            av.take(i as int) == bv.take(i as int),
            parts_lt(av, bv) == parts_lt(av.skip(i as int), bv.skip(i as int)),
            parts_lt(bv, av) == parts_lt(bv.skip(i as int), av.skip(i as int)),
        decreases a.len() - i,
    {
        proof {
            assert(av.skip(i as int).drop_first() =~= av.skip(i + 1));
            assert(bv.skip(i as int).drop_first() =~= bv.skip(i + 1));
            assert(av.skip(i as int)[0] == a@[i as int].view());
            assert(bv.skip(i as int)[0] == b@[i as int].view());
        }
        match part_order(&a[i], &b[i]) {
            LexOrder::Before => {
                proof {
                    if av == bv {
                        assert(av[i as int] == bv[i as int]);
                    }
                }
                return LexOrder::Before;
            },
            LexOrder::After => {
                proof {
                    if av == bv {
                        assert(av[i as int] == bv[i as int]);
                    }
                }
                return LexOrder::After;
            },
            LexOrder::Same => {},
        }
        assert(av.take(i + 1) =~= av.take(i as int).push(av[i as int]));
        assert(bv.take(i + 1) =~= bv.take(i as int).push(bv[i as int]));
        i = i + 1;
    }
    if a.len() == b.len() {
        assert(av =~= av.take(i as int));
        assert(bv =~= bv.take(i as int));
        LexOrder::Same
    } else if a.len() < b.len() {
        proof {
            assert(av.len() != bv.len());
        }
        LexOrder::Before
    } else {
        LexOrder::After
    }
}

/// Where path `a` stands relative to path `b` in component order (`Utf8Path::cmp`).
pub fn path_order(a: &str, b: &str) -> (r: LexOrder)
    ensures
        r == LexOrder::Before <==> path_lt(a@, b@),
        r == LexOrder::Same <==> same_path(a@, b@),
        r == LexOrder::After <==> path_lt(b@, a@),
{
    let pa = parts_of(a);
    let pb = parts_of(b);
    parts_order(&pa, &pb)
}

/// Whether `path` is `root` or lies below it (`Utf8Path::starts_with`).
pub fn starts_with_path(path: &str, root: &str) -> (r: bool)
    ensures
        r == path_starts_with(path@, root@),
{
    let p = parts_of(path);
    let q = parts_of(root);
    let ghost pv = parts_view(p@);
    let ghost qv = parts_view(q@);
    if q.len() > p.len() {
        return false;
    }
    let mut i: usize = 0;
    while i < q.len()
        invariant
            pv == parts_view(p@),
            qv == parts_view(q@),
            pv == path_parts(path@),
            qv == path_parts(root@),
            q@.len() <= p@.len(),
            i <= q@.len(),
            pv.take(i as int) == qv.take(i as int),
        decreases q.len() - i,
    {
        if part_order(&p[i], &q[i]) != LexOrder::Same {
            proof {
                assert(pv[i as int] == p@[i as int].view());
                assert(qv[i as int] == q@[i as int].view());
                if pv.take(qv.len() as int) == qv {
                    assert(pv.take(qv.len() as int)[i as int] == qv[i as int]);
                }
            }
            return false;
        }
        assert(pv.take(i + 1) =~= pv.take(i as int).push(pv[i as int]));
        assert(qv.take(i + 1) =~= qv.take(i as int).push(qv[i as int]));
        i = i + 1;
    }
    assert(qv.take(qv.len() as int) =~= qv);
    true
}

/// Whether `a` and `b` name the same path (`Utf8Path`'s `==`).
pub fn paths_equal(a: &str, b: &str) -> (r: bool)
    ensures
        r == same_path(a@, b@),
{
    path_order(a, b) == LexOrder::Same
}

} // verus!
