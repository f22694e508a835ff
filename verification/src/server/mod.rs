//! The rules a server keeps: its inbox of messages and how it walks the network.

pub mod messages_inbox;
pub mod messages_queue;
pub mod traversal;
