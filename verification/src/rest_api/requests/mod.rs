//! Requests and responses of the protocol's REST API.

pub mod connect;
pub mod clients;
pub mod servers;
pub mod send;
pub mod info;
pub mod lookup;
pub mod announce;
pub mod poll;

pub use connect::{ConnectRequest, ConnectResponse, ConnectRequestBody, ConnectResponseBody};
pub use clients::ClientsResponse;
pub use servers::ServersResponse;
pub use send::{SendRequest, SendResponse, SendRequestBody, SendResponseBody};
pub use info::InfoResponse;
pub use lookup::{LookupRequest, LookupResponse, LookupRequestBody, LookupResponseBody};
pub use announce::{AnnounceRequest, AnnounceResponse, AnnounceRequestBody, AnnounceResponseBody};
pub use poll::{PollRequest, PollResponse, PollRequestBody, PollResponseBody};
