//! Looking a client up, in the first protocol version's layout.

pub use crate::rest_api::requests::lookup::{LookupRequest, LookupResponse, LookupRequestBody, LookupResponseBody};
