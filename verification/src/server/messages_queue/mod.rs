//! Queues of messages waiting to be indexed.

use vstd::prelude::*;

verus! {

/// A queue of messages kept by a server; it declares no operation yet.
pub trait MessagesQueue {}

} // verus!
