//! Listing the clients of a server.

pub mod response;

pub use response::ClientsResponse;
