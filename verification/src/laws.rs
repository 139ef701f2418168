//! Laws of the stack, proved over its model.

use crate::model::{
    below_top, every_pop_finds_one, nth_popped, pop_n, pops, push_all, pushes, run, tally, Op,
};
use crate::stack::List;
use vstd::prelude::*;

verus! {

/// Pushing `vs` in order puts its elements on top of `s` in reverse order.
pub proof fn lemma_push_all_reverses(s: Seq<i32>, vs: Seq<i32>)
    ensures
        push_all(s, vs) == vs.reverse() + s,
    decreases vs.len(),
{
    if vs.len() > 0 {
        lemma_push_all_reverses(s, vs.drop_last());
        assert(vs.reverse() =~= seq![vs.last()] + vs.drop_last().reverse());
    }
    assert(push_all(s, vs) =~= vs.reverse() + s);
}

/// `n` removals take away the first `n` elements, or all of them where there
/// are fewer.
pub proof fn lemma_pop_n_skips(s: Seq<i32>, n: nat)
    ensures
        n <= s.len() ==> pop_n(s, n) == s.skip(n as int),
        n > s.len() ==> pop_n(s, n) == Seq::<i32>::empty(),
    decreases n,
{
    if n > 0 {
        lemma_pop_n_skips(s, (n - 1) as nat);
        if n <= s.len() {
            assert(s.skip(n - 1).skip(1) =~= s.skip(n as int));
        } else {
            assert(below_top(pop_n(s, (n - 1) as nat)) =~= Seq::<i32>::empty());
        }
    } else {
        assert(s.skip(0) =~= s);
    }
}

/// Last in, first out: once `vs` has been pushed onto any stack, in order,
/// the next `vs.len()` removals hand its elements out last one first, and
/// leave the stack as it was before the pushes.
pub proof fn law_lifo(s: Seq<i32>, vs: Seq<i32>)
    ensures
        forall|i: nat|
            i < vs.len() ==> #[trigger] nth_popped(push_all(s, vs), i) == Some(
                vs[vs.len() - 1 - i],
            ),
        pop_n(push_all(s, vs), vs.len()) == s,
{
    let full = push_all(s, vs);
    lemma_push_all_reverses(s, vs);
    assert forall|i: nat| i < vs.len() implies #[trigger] nth_popped(full, i) == Some(
        vs[vs.len() - 1 - i],
    ) by {
        lemma_pop_n_skips(full, i);
    }
    lemma_pop_n_skips(full, vs.len());
    assert(full.skip(vs.len() as int) =~= s);
}

/// Removing from an empty stack hands out nothing and leaves it empty, however
/// often it is repeated.
pub proof fn law_empty_pop(n: nat)
    ensures
        nth_popped(Seq::empty(), n) == None::<i32>,
        pop_n(Seq::empty(), n) == Seq::<i32>::empty(),
{
    lemma_pop_n_skips(Seq::empty(), n);
    assert(Seq::<i32>::empty().skip(0) =~= Seq::<i32>::empty());
}

/// After the `k` elements of `vs` have been pushed onto an empty stack and
/// `j` of them removed again, `k - j` elements are left: the first `k - j`
/// that were pushed, the latest of them on top.
pub proof fn law_length_conservation(vs: Seq<i32>, j: nat)
    requires
        j <= vs.len(),
    ensures
        pop_n(push_all(Seq::empty(), vs), j).len() == vs.len() - j,
        pop_n(push_all(Seq::empty(), vs), j) == vs.take(vs.len() - j).reverse(),
        pop_n(push_all(Seq::empty(), vs), j) == vs.reverse().skip(j as int),
{
    let full = push_all(Seq::empty(), vs);
    lemma_push_all_reverses(Seq::empty(), vs);
    lemma_pop_n_skips(full, j);
    assert(full =~= vs.reverse());
    assert(vs.reverse().skip(j as int) =~= vs.take(vs.len() - j).reverse());
}

/// Whatever operations are carried out, in whatever order, the stack holds as
/// many elements as a tally kept beside it says.
pub proof fn law_length_follows_tally(s: Seq<i32>, ops: Seq<Op>)
    ensures
        run(s, ops).len() == tally(s.len(), ops),
    decreases ops.len(),
{
    if ops.len() > 0 {
        law_length_follows_tally(s, ops.drop_last());
    }
}

/// Where no removal meets an empty stack, a stack that started empty holds as
/// many elements as were pushed less as many as were removed.
pub proof fn law_length_is_pushes_less_pops(ops: Seq<Op>)
    requires
        every_pop_finds_one(Seq::empty(), ops),
    ensures
        pops(ops) <= pushes(ops),
        run(Seq::empty(), ops).len() == pushes(ops) - pops(ops),
    decreases ops.len(),
{
    if ops.len() > 0 {
        law_length_is_pushes_less_pops(ops.drop_last());
    }
}

/// After any sequence of operations on a stack that started empty, a walk
/// from the head ends, and the nodes it has met are as many as the tally of
/// elements says.
pub proof fn law_walk_meets_tally(ls: &List, ops: Seq<Op>)
    requires
        ls@ == run(Seq::empty(), ops),
    ensures
        ls.node_count() == tally(0, ops),
{
    ls.law_one_node_per_element();
    law_length_follows_tally(Seq::empty(), ops);
}

} // verus!
