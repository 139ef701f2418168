//! The stack itself: a chain of boxed nodes, each owned by the link before it.

use crate::model::{below_top, top, with_top};
use vstd::prelude::*;

verus! {

/// A slot that owns the rest of the chain, or nothing.
enum Link {
    Empty,
    More(Box<Node>),
}

/// One element and the link that owns the nodes below it.
struct Node {
    elem: i32,
    next: Link,
}

/// A stack of `i32` values. Its view is the sequence of its elements, the
/// most recently pushed one first.
pub struct List {
    head: Link,
}

impl Link {
    /// The elements met when following the chain from this link to its end.
    spec fn elems(self) -> Seq<i32>
        decreases self,
    {
        match self {
            Link::Empty => Seq::empty(),
            Link::More(node) => with_top(node.next.elems(), node.elem),
        }
    }

    /// The number of nodes met when following the chain from this link to
    /// its end.
    spec fn nodes(self) -> nat
        decreases self,
    {
        match self {
            Link::Empty => 0,
            Link::More(node) => 1 + node.next.nodes(),
        }
    }

    /// Following the chain meets one node for each element.
    proof fn lemma_nodes_is_len(self)
        ensures
            self.nodes() == self.elems().len(),
        decreases self,
    {
        match self {
            Link::Empty => {},
            Link::More(node) => {
                node.next.lemma_nodes_is_len();
            },
        }
    }

    /// Moves the chain out of this link and leaves the link empty.
    fn take(&mut self) -> (out: Link)
        ensures
            *final(self) == Link::Empty,
            out == *old(self),
        opens_invariants none
        no_unwind
    {
        let mut out = Link::Empty;
        std::mem::swap(self, &mut out);
        out
    }
}

impl View for List {
    type V = Seq<i32>;

    closed spec fn view(&self) -> Seq<i32> {
        self.head.elems()
    }
}

impl List {
    /// The number of nodes that a walk from the head reaches before it comes
    /// to an empty link. It is defined by recursion along the chain of
    /// owners, so such a walk always ends.
    pub closed spec fn node_count(&self) -> nat {
        self.head.nodes()
    }

    /// A walk from the head meets each element in exactly one node: the
    /// nodes are as many as the elements of the view.
    pub proof fn law_one_node_per_element(&self)
        ensures
            self.node_count() == self@.len(),
    {
        self.head.lemma_nodes_is_len();
    }

    /// An empty stack.
    pub fn new() -> (out: Self)
        ensures
            out@ == Seq::<i32>::empty(),
    {
        List { head: Link::Empty }
    }

    /// Puts `elem` on top. Everything already held keeps its place below it.
    pub fn push(&mut self, elem: i32)
        ensures
            final(self)@ == with_top(old(self)@, elem),
    {
        let new_node = Box::new(Node { elem, next: self.head.take() });
        self.head = Link::More(new_node);
    }

    /// Removes the top element and returns it, or returns `None` and leaves
    /// the stack empty when there is nothing to remove.
    pub fn pop(&mut self) -> (out: Option<i32>)
        ensures
            out == top(old(self)@),
            final(self)@ == below_top(old(self)@),
    {
        match self.head.take() {
            Link::Empty => None,
            Link::More(node) => {
                self.head = node.next;
                Some(node.elem)
            }
        }
    }
}

impl Default for List {
    /// The default stack is the empty one.
    fn default() -> (out: Self)
        ensures
            out@ == Seq::<i32>::empty(),
    {
        Self::new()
    }
}

impl Drop for List {
    /// Releases the chain node by node. Each node is cut off from the ones
    /// below it before it is let go, so that freeing it frees nothing else
    /// and the depth of the teardown does not grow with the chain.
    fn drop(&mut self)
        ensures
            final(self)@ == Seq::<i32>::empty(),
        opens_invariants none
        no_unwind
    {
        let mut cur_link = self.head.take();
        loop
            invariant
                self.head == Link::Empty,
            decreases cur_link.nodes(),
        {
            match cur_link {
                Link::Empty => {
                    break ;
                },
                Link::More(mut boxed_node) => {
                    cur_link = boxed_node.next.take();
                    // The node is let go at the end of this arm, and by now
                    // it owns nothing below it.
                    assert(boxed_node.next == Link::Empty);
                },
            }
        }
    }
}

} // verus!
