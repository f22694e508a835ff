//! The clients that a server knows, in the first protocol version's layout.

pub use crate::rest_api::types::Client;
pub use crate::rest_api::requests::ClientsResponse;
