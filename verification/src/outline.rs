//! The pet's outline: a closed ring of nodes, each tied by springs to the
//! node before it and the node after it.

use vstd::prelude::*;

verus! {

/// Number of nodes on the outline.
pub const NODE_COUNT: usize = 24;

/// The node before node `i` on the ring.
pub open spec fn spec_prev_node(i: int) -> int {
    if i == 0 { NODE_COUNT - 1 } else { i - 1 }
}

/// The node after node `i` on the ring.
pub open spec fn spec_next_node(i: int) -> int {
    if i == NODE_COUNT - 1 { 0 } else { i + 1 }
}

/// The neighbours of node `i`: the node before it and the node after it,
/// as the spring step reads them.
pub fn ring_neighbours(i: usize) -> (pair: (usize, usize))
    requires
        i < NODE_COUNT,
    ensures
        pair.0 == spec_prev_node(i as int),
        pair.1 == spec_next_node(i as int),
        pair.0 < NODE_COUNT,
        pair.1 < NODE_COUNT,
        i == 0 ==> pair == (23usize, 1usize),
        i == 23 ==> pair == (22usize, 0usize),
        0 < i < 23 ==> pair.0 == i - 1 && pair.1 == i + 1,
{
    ((i + NODE_COUNT - 1) % NODE_COUNT, (i + 1) % NODE_COUNT)
}

/// Walking one node forward and one node back, in either order, returns to
/// the start, and no node is its own neighbour.
pub proof fn lemma_ring_neighbours_inverse(i: int)
    requires
        0 <= i < NODE_COUNT,
    ensures
        spec_prev_node(spec_next_node(i)) == i,
        spec_next_node(spec_prev_node(i)) == i,
        spec_prev_node(i) != i,
        spec_next_node(i) != i,
{
}

} // verus!
