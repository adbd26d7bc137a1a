//! Copying the nodes of an OS-owned linked collection into process-owned memory.
//!
//! The caller follows the collection's `next` links and hands each node, copied by
//! value, to [`Traversal::visit`]; it stops at the null marker or when `visit` says
//! that the cap was reached.
use vstd::prelude::*;

verus! {

/// The most nodes that one traversal copies, a guard against a malformed collection.
pub const MAX_NODES: usize = 65536;

/// The copies made so far, and the cap on their number.
pub struct Traversal<T> {
    pub items: Vec<T>,
    pub cap: usize,
}

/// The copies after visiting `node`: it is kept while fewer than `cap` were kept.
pub open spec fn visit_step<T>(items: Seq<T>, node: T, cap: nat) -> Seq<T> {
    if items.len() < cap {
        items.push(node)
    } else {
        items
    }
}

/// The copies after visiting each of `nodes` in turn.
pub open spec fn walk<T>(items: Seq<T>, nodes: Seq<T>, cap: nat) -> Seq<T>
    decreases nodes.len(),
{
    if nodes.len() == 0 {
        items
    } else {
        walk(visit_step(items, nodes[0], cap), nodes.drop_first(), cap)
    }
}

impl<T> Traversal<T> {
    /// An empty traversal that copies at most `MAX_NODES` nodes.
    pub fn new() -> (r: Traversal<T>)
        ensures
            r.items@ == Seq::<T>::empty(),
            r.cap == MAX_NODES,
    {
        Traversal { items: Vec::new(), cap: MAX_NODES }
    }

    /// Keeps a copy of the next node; returns whether the caller may go on to the
    /// node after it.
    pub fn visit(&mut self, node: T) -> (r: bool)
        ensures
            final(self).items@ == visit_step(old(self).items@, node, old(self).cap as nat),
            final(self).cap == old(self).cap,
            r == (final(self).items@.len() < final(self).cap),
    {
        if self.items.len() < self.cap {
            self.items.push(node);
        }
        self.items.len() < self.cap
    }
}

proof fn lemma_walk_prefix<T>(items: Seq<T>, nodes: Seq<T>, cap: nat)
    requires
        items.len() <= cap,
    ensures
        walk(items, nodes, cap) == (items + nodes).take(
            if items.len() + nodes.len() <= cap { (items.len() + nodes.len()) as int } else { cap as int },
        ),
    decreases nodes.len(),
{
    let all = items + nodes;
    let n: int = if items.len() + nodes.len() <= cap { (items.len() + nodes.len()) as int } else { cap as int };
    if nodes.len() == 0 {
        assert(all.take(n) =~= items);
    } else {
        let next = visit_step(items, nodes[0], cap);
        lemma_walk_prefix(next, nodes.drop_first(), cap);
        if items.len() < cap {
            assert(next + nodes.drop_first() =~= all);
        } else {
            assert(n == cap);
            assert(all.take(n) =~= items);
            assert(walk(next, nodes.drop_first(), cap) =~= items);
        }
    }
}

/// Visiting the nodes of a collection from first to last keeps them in their order,
/// and never more than there are nodes or than the cap allows: all of them when
/// they are no more than the cap.
pub proof fn lemma_walk_copies_in_order<T>(nodes: Seq<T>, cap: nat)
    ensures
        walk(Seq::empty(), nodes, cap).len() <= nodes.len(),
        walk(Seq::empty(), nodes, cap).len() <= cap,
        walk(Seq::empty(), nodes, cap) == nodes.take(walk(Seq::empty(), nodes, cap).len() as int),
        nodes.len() <= cap ==> walk(Seq::empty(), nodes, cap) == nodes,
{
    lemma_walk_prefix(Seq::<T>::empty(), nodes, cap);
    assert(Seq::<T>::empty() + nodes =~= nodes);
    assert(nodes.take(nodes.len() as int) =~= nodes);
}

} // verus!
