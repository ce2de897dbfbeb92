//! Row lookup over sequences, shared by every table of the store.
//!
//! A table is modelled as a `Seq` of rows. `lookup` is the mathematical
//! "the row satisfying this predicate, if any"; `unique_by` states that a
//! key projection never repeats, which makes `lookup` by that key pin down
//! a single row.

use vstd::prelude::*;

verus! {

/// No two distinct rows of `s` share a key.
pub open spec fn unique_by<T>(s: Seq<T>, key: spec_fn(T) -> int) -> bool {
    forall|i: int, j: int| 0 <= i < j < s.len() ==> key(s[i]) != key(s[j])
}

/// The row of `s` satisfying `p`, if any row does.
pub open spec fn lookup<T>(s: Seq<T>, p: spec_fn(T) -> bool) -> Option<T> {
    if exists|i: int| 0 <= i < s.len() && p(s[i]) {
        Some(s[choose|i: int| 0 <= i < s.len() && p(s[i])])
    } else {
        None
    }
}

/// At most one row of `s` satisfies `p`.
pub open spec fn at_most_one<T>(s: Seq<T>, p: spec_fn(T) -> bool) -> bool {
    forall|i: int, j: int| 0 <= i < j < s.len() && p(s[i]) ==> !p(s[j])
}

/// A row that is present and matches is the `lookup` result, provided at
/// most one row matches.
pub proof fn lemma_lookup_found<T>(s: Seq<T>, p: spec_fn(T) -> bool, x: T)
    requires
        at_most_one(s, p),
        s.contains(x),
        p(x),
    ensures
        lookup(s, p) == Some(x),
{
    let xi = choose|i: int| 0 <= i < s.len() && s[i] == x;
    assert(p(s[xi]));
    let ci = choose|i: int| 0 <= i < s.len() && p(s[i]);
    if ci < xi {
        assert(!p(s[xi]));
    } else if xi < ci {
        assert(!p(s[ci]));
    }
}

/// If no row matches, `lookup` is `None`.
pub proof fn lemma_lookup_none<T>(s: Seq<T>, p: spec_fn(T) -> bool)
    requires
        forall|i: int| 0 <= i < s.len() ==> !p(s[i]),
    ensures
        lookup(s, p) == None::<T>,
{
}

/// A row kept by an identity-keeping filter is a row of the input that the
/// filter keeps.
pub proof fn lemma_keep_contains<T>(s: Seq<T>, f: spec_fn(T) -> Option<T>, x: T)
    requires
        forall|t: T| (#[trigger] f(t)) is Some ==> f(t)->0 == t,
        s.filter_map(f).contains(x),
    ensures
        s.contains(x) && f(x) == Some(x),
{
    s.lemma_filter_map_contains(f, x);
    let t = choose|t: T| #[trigger] s.contains(t) && f(t) == Some(x);
    assert(f(t)->0 == t);
}

/// Every pairwise property of a table's rows survives an identity-keeping
/// filter.
pub proof fn lemma_keep_pairwise<T>(s: Seq<T>, f: spec_fn(T) -> Option<T>, ok: spec_fn(T, T) -> bool)
    requires
        forall|t: T| (#[trigger] f(t)) is Some ==> f(t)->0 == t,
        forall|i: int, j: int| 0 <= i < j < s.len() ==> #[trigger] ok(s[i], s[j]),
    ensures
        forall|i: int, j: int|
            0 <= i < j < s.filter_map(f).len() ==> #[trigger] ok(
                s.filter_map(f)[i],
                s.filter_map(f)[j],
            ),
    decreases s.len(),
{
    if s.len() > 0 {
        let rest = s.drop_last();
        assert(forall|i: int, j: int| 0 <= i < j < rest.len() ==> #[trigger] ok(rest[i], rest[j]))
            by {
            assert forall|i: int, j: int| 0 <= i < j < rest.len() implies #[trigger] ok(
                rest[i],
                rest[j],
            ) by {
                assert(rest[i] == s[i] && rest[j] == s[j]);
                assert(ok(s[i], s[j]));
            }
        }
        lemma_keep_pairwise(rest, f, ok);
        let outr = rest.filter_map(f);
        let out = s.filter_map(f);
        match f(s.last()) {
            Some(y) => {
                assert(y == s.last());
                assert(out == outr + seq![y]);
                assert forall|i: int, j: int| 0 <= i < j < out.len() implies #[trigger] ok(
                    out[i],
                    out[j],
                ) by {
                    if j < outr.len() {
                        assert(out[i] == outr[i] && out[j] == outr[j]);
                        assert(ok(outr[i], outr[j]));
                    } else {
                        assert(out[j] == y);
                        assert(out[i] == outr[i]);
                        assert(outr.contains(outr[i]));
                        lemma_keep_contains(rest, f, outr[i]);
                        let m = choose|m: int| 0 <= m < rest.len() && rest[m] == outr[i];
                        assert(s[m] == outr[i]);
                        assert(ok(s[m], s[s.len() - 1]));
                    }
                }
            },
            None => {
                assert(out == outr);
            },
        }
    }
}

/// A row put into the output of `filter_map` by a retained input row is
/// contained in the output.
pub proof fn lemma_filter_map_contains_fwd<A, B>(s: Seq<A>, f: spec_fn(A) -> Option<B>, i: int)
    requires
        0 <= i < s.len(),
        f(s[i]) is Some,
    ensures
        s.filter_map(f).contains(f(s[i])->0),
    decreases s.len(),
{
    if i == s.len() - 1 {
        assert(s.drop_last().filter_map(f) + seq![f(s.last())->0]
            == s.filter_map(f));
        let out = s.filter_map(f);
        assert(out[out.len() - 1] == f(s[i])->0);
    } else {
        lemma_filter_map_contains_fwd(s.drop_last(), f, i);
        assert(s.drop_last()[i] == s[i]);
        let sub = s.drop_last().filter_map(f);
        let j = choose|j: int| 0 <= j < sub.len() && sub[j] == f(s[i])->0;
        match f(s.last()) {
            Some(b) => {
                assert(s.filter_map(f) == sub + seq![b]);
                assert(s.filter_map(f)[j] == f(s[i])->0);
            },
            None => {
                assert(s.filter_map(f) == sub);
            },
        }
    }
}

} // verus!
