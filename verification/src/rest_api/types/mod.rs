pub mod client_type;
pub mod client_info;
pub mod connection_token;
pub mod connection_certificate;
pub mod server;
pub mod client;
pub mod sender;
pub mod message;
pub mod message_info;
pub mod messages_error;
pub mod message_encoding;

pub use client_type::ClientType;
pub use client_info::ClientInfo;
pub use connection_token::ConnectionToken;
pub use connection_certificate::ConnectionCertificate;
pub use server::Server;
pub use client::Client;
pub use sender::Sender;
pub use message::Message;
pub use message_info::MessageInfo;
pub use messages_error::MessagesError;
pub use message_encoding::MessageEncoding;
