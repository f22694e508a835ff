//! Connection of a client to a server, in the first protocol version's layout.

pub use crate::rest_api::types::{ClientType, ClientInfo, ConnectionToken, ConnectionCertificate};
pub use crate::rest_api::requests::connect::{ConnectRequest, ConnectResponse, ConnectRequestBody, ConnectResponseBody};
