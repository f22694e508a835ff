//! Polling messages, in the first protocol version's layout.

pub use crate::rest_api::requests::poll::{PollRequest, PollResponse, PollRequestBody, PollResponseBody};
