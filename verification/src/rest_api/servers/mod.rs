//! The servers that a server knows, in the first protocol version's layout.

pub use crate::rest_api::types::Server;
pub use crate::rest_api::requests::ServersResponse;
