//! Ways for a server to walk the network of servers.

pub mod bfs_recursion;

pub use bfs_recursion::BfsRecursionTraversal;
