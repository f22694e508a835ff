//! Hyperborea protocol: its value types, their JSON form, and the rules that
//! clients and servers follow.

use vstd::prelude::*;

pub mod crypto;
pub mod rest_api;
pub mod text;
pub mod bytes;
pub mod time;
pub mod server;

verus! {

/// Version of the protocol's standard that this library implements.
pub const STANDARD_VERSION: u64 = 1;

} // verus!
