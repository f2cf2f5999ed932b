//! Facts about `Seq::filter` that the stripping proofs rely on.
use vstd::prelude::*;

verus! {

/// Filtering a prefix one element longer adds that element exactly when it
/// passes.
pub proof fn lemma_filter_step<A>(s: Seq<A>, i: int, pred: spec_fn(A) -> bool)
    requires
        0 <= i < s.len(),
    ensures
        s.take(i + 1).filter(pred) == if pred(s[i]) {
            s.take(i).filter(pred).push(s[i])
        } else {
            s.take(i).filter(pred)
        },
{
    reveal(Seq::filter);
    assert(s.take(i + 1).drop_last() =~= s.take(i));
    assert(s.take(i + 1).last() == s[i]);
}

/// Every element of a filtered sequence is an element of the original.
pub proof fn lemma_filter_subset<A>(s: Seq<A>, pred: spec_fn(A) -> bool)
    ensures
        forall|i: int| 0 <= i < s.filter(pred).len() ==> s.contains(#[trigger] s.filter(pred)[i]),
    decreases s.len(),
{
    reveal(Seq::filter);
    if s.len() > 0 {
        let init = s.drop_last();
        lemma_filter_subset(init, pred);
        let filtered = s.filter(pred);
        assert forall|i: int| 0 <= i < filtered.len() implies s.contains(#[trigger] filtered[i]) by {
            if i < init.filter(pred).len() {
                assert(filtered[i] == init.filter(pred)[i]);
                let j = choose|j: int| 0 <= j < init.len() && init[j] == init.filter(pred)[i];
                assert(s[j] == init[j]);
            } else {
                assert(filtered[i] == s[s.len() - 1]);
            }
        }
    }
}

/// Every element of a filtered sequence passes the filter, and every
/// element of the original that passes is kept.
pub proof fn lemma_filter_exact<A>(s: Seq<A>, pred: spec_fn(A) -> bool)
    ensures
        forall|i: int| 0 <= i < s.filter(pred).len() ==> pred(#[trigger] s.filter(pred)[i]),
        forall|i: int| 0 <= i < s.len() && pred(s[i]) ==> #[trigger] s.filter(pred).contains(s[i]),
    decreases s.len(),
{
    reveal(Seq::filter);
    if s.len() > 0 {
        let init = s.drop_last();
        lemma_filter_exact(init, pred);
        let filtered = s.filter(pred);
        let init_filtered = init.filter(pred);
        assert forall|i: int| 0 <= i < filtered.len() implies pred(#[trigger] filtered[i]) by {
            if i < init_filtered.len() {
                assert(filtered[i] == init_filtered[i]);
            }
        }
        assert forall|i: int| 0 <= i < s.len() && pred(s[i]) implies #[trigger] filtered.contains(
            s[i],
        ) by {
            if i == s.len() - 1 {
                assert(filtered[filtered.len() - 1] == s[i]);
            } else {
                assert(init[i] == s[i]);
                assert(init_filtered.contains(init[i]));
                let j = choose|j: int| 0 <= j < init_filtered.len() && init_filtered[j] == init[i];
                assert(filtered[j] == init_filtered[j]);
            }
        }
    }
}

/// A property of every element but the last survives filtering.
pub proof fn lemma_filter_all_but_last<A>(s: Seq<A>, pred: spec_fn(A) -> bool, prop: spec_fn(A) -> bool)
    requires
        forall|i: int| 0 <= i < s.len() - 1 ==> prop(#[trigger] s[i]),
    ensures
        forall|i: int| 0 <= i < s.filter(pred).len() - 1 ==> prop(#[trigger] s.filter(pred)[i]),
{
    reveal(Seq::filter);
    if s.len() > 0 {
        let init = s.drop_last();
        lemma_filter_subset(init, pred);
        let init_filtered = init.filter(pred);
        assert forall|i: int| 0 <= i < init_filtered.len() implies prop(#[trigger] init_filtered[i]) by {
            let j = choose|j: int| 0 <= j < init.len() && init[j] == init_filtered[i];
            assert(s[j] == init[j]);
        }
        let filtered = s.filter(pred);
        if pred(s.last()) {
            assert(filtered == init_filtered.push(s.last()));
            assert forall|i: int| 0 <= i < filtered.len() - 1 implies prop(#[trigger] filtered[i]) by {
                assert(filtered[i] == init_filtered[i]);
            }
        } else {
            assert(filtered == init_filtered);
        }
    }
}

/// A filter that every element passes changes nothing.
pub proof fn lemma_filter_all_pass<A>(s: Seq<A>, pred: spec_fn(A) -> bool)
    requires
        forall|i: int| 0 <= i < s.len() ==> pred(#[trigger] s[i]),
    ensures
        s.filter(pred) == s,
    decreases s.len(),
{
    reveal(Seq::filter);
    if s.len() > 0 {
        let init = s.drop_last();
        assert forall|i: int| 0 <= i < init.len() implies pred(#[trigger] init[i]) by {
            assert(init[i] == s[i]);
        }
        lemma_filter_all_pass(init, pred);
        assert(pred(s[s.len() - 1]));
        assert(init.push(s.last()) =~= s);
    }
}

} // verus!
