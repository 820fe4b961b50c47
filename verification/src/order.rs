//! The order of strings (by Unicode scalar value, which is the order of their UTF-8 bytes),
//! and sorting by it.

use vstd::prelude::*;

verus! {

/// `a` comes strictly before `b`: at the first position where they differ `a` has the
/// smaller character, or `a` is a proper prefix of `b`.
pub open spec fn lex_lt(a: Seq<char>, b: Seq<char>) -> bool
    decreases a.len(),
{
    if a.len() == 0 {
        b.len() > 0
    } else if b.len() == 0 {
        false
    } else if a[0] != b[0] {
        a[0] < b[0]
    } else {
        lex_lt(a.drop_first(), b.drop_first())
    }
}

/// `a` comes before `b` or equals it.
pub open spec fn lex_le(a: Seq<char>, b: Seq<char>) -> bool {
    a == b || lex_lt(a, b)
}

/// Exactly one of `a < b`, `a == b`, `b < a` holds.
pub proof fn lemma_lex_trichotomy(a: Seq<char>, b: Seq<char>)
    ensures
        lex_lt(a, b) || a == b || lex_lt(b, a),
        !(lex_lt(a, b) && lex_lt(b, a)),
        !(lex_lt(a, b) && a == b),
    decreases a.len(),
{
    if a.len() > 0 && b.len() > 0 && a[0] == b[0] {
        lemma_lex_trichotomy(a.drop_first(), b.drop_first());
        if a.drop_first() == b.drop_first() {
            assert(a =~= seq![a[0]] + a.drop_first());
            assert(b =~= seq![b[0]] + b.drop_first());
        }
    }
    if a.len() == 0 && b.len() == 0 {
        assert(a =~= b);
    }
}

/// The order is transitive.
pub proof fn lemma_lex_transitive(a: Seq<char>, b: Seq<char>, c: Seq<char>)
    requires
        lex_lt(a, b),
        lex_lt(b, c),
    ensures
        lex_lt(a, c),
    decreases a.len(),
{
    if a.len() > 0 && b.len() > 0 && c.len() > 0 && a[0] == b[0] && b[0] == c[0] {
        lemma_lex_transitive(a.drop_first(), b.drop_first(), c.drop_first());
    }
}

/// Where one string stands relative to another.
#[derive(Debug, Clone, Copy, PartialEq, Eq, Structural)]
pub enum LexOrder {
    Before,
    Same,
    After,
}

/// Compares two character sequences.
pub fn lex_order(a: &[char], b: &[char]) -> (r: LexOrder)
    ensures
        r == LexOrder::Before <==> lex_lt(a@, b@),
        r == LexOrder::Same <==> a@ == b@,
        r == LexOrder::After <==> lex_lt(b@, a@),
{
    proof {
        lemma_lex_trichotomy(a@, b@);
    }
    let mut i: usize = 0;
    assert(a@.skip(0) =~= a@);
    assert(b@.skip(0) =~= b@);
    while i < a.len() && i < b.len()
        invariant
            i <= a@.len(),
            i <= b@.len(),
            a@.take(i as int) == b@.take(i as int),
            lex_lt(a@, b@) == lex_lt(a@.skip(i as int), b@.skip(i as int)),
            lex_lt(b@, a@) == lex_lt(b@.skip(i as int), a@.skip(i as int)),
        decreases a.len() - i,
    {
        proof {
            assert(a@.skip(i as int).drop_first() =~= a@.skip(i + 1));
            assert(b@.skip(i as int).drop_first() =~= b@.skip(i + 1));
        }
        if a[i] != b[i] {
            proof {
                if a@ == b@ {
                    assert(a@[i as int] == b@[i as int]);
                }
            }
            if a[i] < b[i] {
                return LexOrder::Before;
            } else {
                return LexOrder::After;
            }
        }
        assert(a@.take(i + 1) =~= a@.take(i as int).push(a@[i as int]));
        assert(b@.take(i + 1) =~= b@.take(i as int).push(b@[i as int]));
        i = i + 1;
    }
    if a.len() == b.len() {
        assert(a@ =~= a@.take(i as int));
        assert(b@ =~= b@.take(i as int));
        LexOrder::Same
    } else if a.len() < b.len() {
        proof {
            assert(a@.len() != b@.len());
        }
        LexOrder::Before
    } else {
        LexOrder::After
    }
}

/// `s` is in strictly increasing order.
pub open spec fn strictly_sorted(s: Seq<Seq<char>>) -> bool {
    forall|i: int, j: int| 0 <= i < j < s.len() ==> lex_lt(#[trigger] s[i], #[trigger] s[j])
}

/// `s` is in non-decreasing order.
pub open spec fn sorted(s: Seq<Seq<char>>) -> bool {
    forall|i: int, j: int| 0 <= i < j < s.len() ==> lex_le(#[trigger] s[i], #[trigger] s[j])
}

/// The strings of `v`, by their characters.
pub open spec fn strings_view(v: Seq<String>) -> Seq<Seq<char>> {
    v.map_values(|s: String| s@)
}

/// A strictly sorted sequence holds no element twice, so its set has as many elements.
pub proof fn lemma_sorted_distinct_len(s: Seq<Seq<char>>)
    requires
        strictly_sorted(s),
    ensures
        s.no_duplicates(),
        s.to_set().finite(),
        s.to_set().len() == s.len(),
{
    assert forall|i: int, j: int| 0 <= i < s.len() && 0 <= j < s.len() && i != j implies s[i] != s[j] by {
        if i < j {
            lemma_lex_trichotomy(s[i], s[j]);
        } else {
            lemma_lex_trichotomy(s[j], s[i]);
        }
    }
    s.unique_seq_to_set();
    vstd::seq_lib::seq_to_set_is_finite(s);
}

/// A sequence with one more element at its end holds what it held and that element.
pub proof fn lemma_push_contains<A>(s: Seq<A>, a: A)
    ensures
        forall|x: A| #[trigger] s.push(a).contains(x) <==> s.contains(x) || x == a,
{
    assert forall|x: A| #[trigger] s.push(a).contains(x) <==> s.contains(x) || x == a by {
        if s.push(a).contains(x) {
            let k = choose|k: int| 0 <= k < s.push(a).len() && s.push(a)[k] == x;
            if k < s.len() {
                assert(s[k] == x);
            }
        }
        if s.contains(x) {
            let k = choose|k: int| 0 <= k < s.len() && s[k] == x;
            assert(s.push(a)[k] == x);
        }
        if x == a {
            assert(s.push(a)[s.len() as int] == x);
        }
    }
}

/// The strings of `v` in increasing order, each once: what sorting and then deduplicating
/// a `Vec<String>` gives.
pub fn sorted_unique(v: &Vec<String>) -> (r: Vec<String>)
    ensures
        strictly_sorted(strings_view(r@)),
        forall|x: Seq<char>| strings_view(r@).contains(x) <==> strings_view(v@).contains(x),
{
    let mut r: Vec<String> = Vec::new();
    let mut i: usize = 0;
    while i < v.len()
        invariant
            i <= v@.len(),
            strictly_sorted(strings_view(r@)),
            forall|x: Seq<char>| strings_view(r@).contains(x) <==> strings_view(v@.take(i as int)).contains(x),
        decreases v.len() - i,
    {
        let item = v[i].clone();
        let ic: Vec<char> = crate::text::chars_of(item.as_str());
        let mut pos: usize = 0;
        let mut stop = false;
        let mut present = false;
        while !stop && pos < r.len()
            invariant
                pos <= r@.len(),
                ic@ == item@,
                item@ == v@[i as int]@,
                strictly_sorted(strings_view(r@)),
                forall|k: int| 0 <= k < pos ==> lex_lt(#[trigger] strings_view(r@)[k], item@),
                stop ==> pos < r@.len() && lex_le(item@, strings_view(r@)[pos as int]),
                present ==> stop && strings_view(r@)[pos as int] == item@,
                stop && !present ==> lex_lt(item@, strings_view(r@)[pos as int]),
            decreases (r.len() - pos) as int + (if stop { 0int } else { 1int }),
        {
            let rc: Vec<char> = crate::text::chars_of(r[pos].as_str());
            match lex_order(&rc, &ic) {
                LexOrder::Before => {
                    pos = pos + 1;
                },
                LexOrder::Same => {
                    present = true;
                    stop = true;
                },
                LexOrder::After => {
                    stop = true;
                },
            }
        }
        proof {
            assert(v@.take(i + 1) =~= v@.take(i as int).push(v@[i as int]));
            assert(strings_view(v@.take(i + 1)) =~= strings_view(v@.take(i as int)).push(item@));
            lemma_push_contains(strings_view(v@.take(i as int)), item@);
        }
        if !present {
            proof {
                assert forall|k: int| pos <= k < r@.len() implies lex_lt(
                    item@,
                    #[trigger] strings_view(r@)[k],
                ) by {
                    if pos < r@.len() {
                        if k > pos {
                            lemma_lex_transitive(item@, strings_view(r@)[pos as int], strings_view(r@)[k]);
                        }
                    }
                }
            }
            let ghost old_r = strings_view(r@);
            r.insert(pos, item);
            proof {
                let nr = strings_view(r@);
                assert(nr =~= old_r.insert(pos as int, item@));
                assert forall|a: int, b: int| 0 <= a < b < nr.len() implies lex_lt(
                    #[trigger] nr[a],
                    #[trigger] nr[b],
                ) by {
                    if b < pos {
                    } else if a < pos && b == pos {
                    } else if a < pos {
                        lemma_lex_transitive(nr[a], item@, nr[b]);
                    } else if a == pos {
                    } else {
                    }
                }
                assert forall|x: Seq<char>| nr.contains(x) <==> strings_view(v@.take(i + 1)).contains(x) by {
                    if nr.contains(x) {
                        let k = choose|k: int| 0 <= k < nr.len() && nr[k] == x;
                        if k < pos {
                            assert(old_r[k] == x);
                        } else if k > pos {
                            assert(old_r[k - 1] == x);
                        }
                    }
                    if old_r.contains(x) {
                        let k = choose|k: int| 0 <= k < old_r.len() && old_r[k] == x;
                        if k < pos {
                            assert(nr[k] == x);
                        } else {
                            assert(nr[k + 1] == x);
                        }
                    }
                    if x == item@ {
                        assert(nr[pos as int] == x);
                    }
                }
            }
        } else {
            proof {
                assert(strings_view(r@)[pos as int] == item@);
                assert(strings_view(r@).contains(item@));
            }
        }
        i = i + 1;
    }
    assert(v@.take(v@.len() as int) =~= v@);
    r
}

} // verus!
