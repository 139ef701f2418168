//! The mathematical model of the stack: a sequence of elements, top first.

use vstd::prelude::*;

verus! {

/// The contents after `v` has been put on top of `s`.
pub open spec fn with_top(s: Seq<i32>, v: i32) -> Seq<i32> {
    seq![v] + s
}

/// What removing the top of `s` hands out: the first element, or nothing
/// when `s` is empty.
pub open spec fn top(s: Seq<i32>) -> Option<i32> {
    if s.len() == 0 {
        None
    } else {
        Some(s[0])
    }
}

/// The contents left once the top of `s` has been removed. An empty `s`
/// stays empty.
pub open spec fn below_top(s: Seq<i32>) -> Seq<i32> {
    if s.len() == 0 {
        s
    } else {
        s.skip(1)
    }
}

/// The contents after the elements of `vs` have been pushed onto `s` one by
/// one, `vs[0]` first.
pub open spec fn push_all(s: Seq<i32>, vs: Seq<i32>) -> Seq<i32>
    decreases vs.len(),
{
    if vs.len() == 0 {
        s
    } else {
        with_top(push_all(s, vs.drop_last()), vs.last())
    }
}

/// The contents after `n` removals from `s`.
pub open spec fn pop_n(s: Seq<i32>, n: nat) -> Seq<i32>
    decreases n,
{
    if n == 0 {
        s
    } else {
        below_top(pop_n(s, (n - 1) as nat))
    }
}

/// What removal number `i`, counted from 0, hands out in a run of removals
/// that starts from `s`.
pub open spec fn nth_popped(s: Seq<i32>, i: nat) -> Option<i32> {
    top(pop_n(s, i))
}

/// One operation on a stack.
pub enum Op {
    Push(i32),
    Pop,
}

/// The contents after `op` has been carried out on `s`.
pub open spec fn apply(s: Seq<i32>, op: Op) -> Seq<i32> {
    match op {
        Op::Push(v) => with_top(s, v),
        Op::Pop => below_top(s),
    }
}

/// The contents after the operations of `ops` have been carried out on `s`,
/// `ops[0]` first.
pub open spec fn run(s: Seq<i32>, ops: Seq<Op>) -> Seq<i32>
    decreases ops.len(),
{
    if ops.len() == 0 {
        s
    } else {
        apply(run(s, ops.drop_last()), ops.last())
    }
}

/// A tally of elements kept beside the stack: a push adds one, a removal
/// takes one away unless the tally is already zero.
pub open spec fn tally(c: nat, ops: Seq<Op>) -> nat
    decreases ops.len(),
{
    if ops.len() == 0 {
        c
    } else {
        let before = tally(c, ops.drop_last());
        match ops.last() {
            Op::Push(_) => before + 1,
            Op::Pop => if before == 0 {
                0
            } else {
                (before - 1) as nat
            },
        }
    }
}

/// How many of `ops` are pushes.
pub open spec fn pushes(ops: Seq<Op>) -> nat
    decreases ops.len(),
{
    if ops.len() == 0 {
        0
    } else if ops.last() is Push {
        pushes(ops.drop_last()) + 1
    } else {
        pushes(ops.drop_last())
    }
}

/// How many of `ops` are removals.
pub open spec fn pops(ops: Seq<Op>) -> nat
    decreases ops.len(),
{
    if ops.len() == 0 {
        0
    } else if ops.last() is Pop {
        pops(ops.drop_last()) + 1
    } else {
        pops(ops.drop_last())
    }
}

/// Whether every removal in `ops`, carried out from `s`, finds an element.
pub open spec fn every_pop_finds_one(s: Seq<i32>, ops: Seq<Op>) -> bool
    decreases ops.len(),
{
    ops.len() == 0 || {
        &&& every_pop_finds_one(s, ops.drop_last())
        &&& ops.last() is Pop ==> run(s, ops.drop_last()).len() > 0
    }
}

} // verus!
