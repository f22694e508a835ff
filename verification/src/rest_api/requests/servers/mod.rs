//! Listing the servers known to a server.

pub mod response;

pub use response::ServersResponse;
