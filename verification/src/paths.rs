//! Unix paths held as text: whether they are absolute, how they join, and whether one lies
//! inside another by its components.

use vstd::prelude::*;

use crate::path_order::{path_starts_with, starts_with_path};
use crate::text::{chars_of, push_chars, push_str, string_of};

verus! {

/// A path that starts at the root directory.
pub open spec fn is_absolute_spec(p: Seq<char>) -> bool {
    p.len() > 0 && p[0] == '/'
}

/// `base` joined with `rest` as `Path::join` does on Unix: an absolute `rest` replaces
/// `base`; otherwise a `/` separates them unless `base` is empty or already ends in one.
pub open spec fn join_spec(base: Seq<char>, rest: Seq<char>) -> Seq<char> {
    if is_absolute_spec(rest) || base.len() == 0 {
        rest
    } else if base.last() == '/' {
        base + rest
    } else {
        base + seq!['/'] + rest
    }
}

/// `path` is `root` or lies below it: `root`'s components begin `path`'s.
pub open spec fn is_or_descendant_spec(path: Seq<char>, root: Seq<char>) -> bool {
    path_starts_with(path, root)
}

/// Whether `path` is absolute.
pub fn is_absolute(path: &str) -> (r: bool)
    ensures
        r == is_absolute_spec(path@),
{
    let cs = chars_of(path);
    cs.len() > 0 && cs[0] == '/'
}

fn join_chars(base: &[char], rest: &[char]) -> (r: Vec<char>)
    ensures
        r@ == join_spec(base@, rest@),
{
    let mut out: Vec<char> = Vec::new();
    if (rest.len() > 0 && rest[0] == '/') || base.len() == 0 {
        push_chars(&mut out, rest);
        assert(out@ =~= rest@);
        return out;
    }
    push_chars(&mut out, base);
    if base[base.len() - 1] != '/' {
        out.push('/');
    }
    push_chars(&mut out, rest);
    assert(out@ =~= join_spec(base@, rest@));
    out
}

/// `base` joined with `rest`.
pub fn join(base: &str, rest: &str) -> (r: String)
    ensures
        r@ == join_spec(base@, rest@),
{
    let b = chars_of(base);
    let c = chars_of(rest);
    let j = join_chars(&b, &c);
    string_of(&j)
}

/// `base` joined with each component in turn.
pub open spec fn join_all_spec(base: Seq<char>, components: Seq<Seq<char>>) -> Seq<char>
    decreases components.len(),
{
    if components.len() == 0 {
        base
    } else {
        join_spec(join_all_spec(base, components.drop_last()), components.last())
    }
}

/// `base` joined with each of `components` in turn.
pub fn join_all(base: &str, components: &Vec<&str>) -> (r: String)
    ensures
        r@ == join_all_spec(base@, components@.map_values(|c: &str| c@)),
{
    let ghost cv = components@.map_values(|c: &str| c@);
    let mut acc = chars_of(base);
    let mut i: usize = 0;
    while i < components.len()
        invariant
            i <= components@.len(),
            cv == components@.map_values(|c: &str| c@),
            acc@ == join_all_spec(base@, cv.take(i as int)),
        decreases components.len() - i,
    {
        let c = chars_of(components[i]);
        acc = join_chars(&acc, &c);
        assert(cv.take(i + 1).drop_last() =~= cv.take(i as int));
        i = i + 1;
    }
    assert(cv.take(components@.len() as int) =~= cv);
    string_of(&acc)
}

/// Whether `path` is `root` or lies below it.
pub fn is_or_descendant(path: &str, root: &str) -> (r: bool)
    ensures
        r == is_or_descendant_spec(path@, root@),
{
    starts_with_path(path, root)
}

/// The text `path` with `suffix` appended (`format!("{path}{suffix}")`).
pub fn with_suffix(path: &str, suffix: &str) -> (r: String)
    ensures
        r@ == path@ + suffix@,
{
    let mut out: Vec<char> = Vec::new();
    push_str(&mut out, path);
    push_str(&mut out, suffix);
    assert(out@ =~= path@ + suffix@);
    string_of(&out)
}

} // verus!
