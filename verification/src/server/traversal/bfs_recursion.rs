//! Breadth-first walk of the network of servers.

use vstd::prelude::*;

verus! {

/// Walks the known servers breadth first; it holds no state.
#[derive(Debug, Default, Clone, Copy, PartialEq, Eq, Hash)]
pub struct BfsRecursionTraversal;

} // verus!
