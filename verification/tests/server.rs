use hyperborealib::crypto::PublicKey;
use hyperborealib::rest_api::send::{Message, MessageEncoding};
use hyperborealib::rest_api::types::{Client, ClientInfo, ConnectionCertificate, ConnectionToken, Sender, Server};
use hyperborealib::server::messages_inbox::{add_message, poll_messages, InboxRecord};

fn key(seed: u8) -> PublicKey {
    let mut bytes = [seed; 33];
    bytes[0] = 2;
    PublicKey::from_bytes(&bytes).unwrap()
}

fn sender() -> Sender {
    let certificate = ConnectionCertificate::new(ConnectionToken::now(key(1)), vec![1; 64]);
    Sender::new(Client::new(key(2), certificate, ClientInfo::thin()), Server::new(key(1), "s"))
}

fn message(content: &str) -> Message {
    Message::new(content, "sign", MessageEncoding::from_str("base64/plain").unwrap())
}

fn inbox() -> Vec<InboxRecord> {
    let mut inbox = Vec::new();
    add_message(&mut inbox, sender(), "a", message("1"));
    add_message(&mut inbox, sender(), "b", message("2"));
    add_message(&mut inbox, sender(), "a", message("3"));
    add_message(&mut inbox, sender(), "a", message("4"));
    inbox
}

#[test]
fn poll_takes_channel_in_order() {
    let outcome = poll_messages(inbox(), "a", Some(2));
    let taken: Vec<&str> = outcome.messages.iter().map(|r| r.message.content.as_str()).collect();
    assert_eq!(taken, vec!["1", "3"]);
    let left: Vec<&str> = outcome.inbox.iter().map(|r| r.message.content.as_str()).collect();
    assert_eq!(left, vec!["2", "4"]);
    assert_eq!(outcome.remaining, 2);
}

#[test]
fn poll_without_limit_takes_all_of_channel() {
    let outcome = poll_messages(inbox(), "a", None);
    assert_eq!(outcome.messages.len(), 3);
    assert_eq!(outcome.remaining, 1);
    assert_eq!(outcome.inbox[0].channel, "b");
}

#[test]
fn poll_zero_limit_takes_nothing() {
    let outcome = poll_messages(inbox(), "a", Some(0));
    assert!(outcome.messages.is_empty());
    assert_eq!(outcome.remaining, 4);
}

#[test]
fn poll_unknown_channel() {
    let outcome = poll_messages(inbox(), "c", Some(10));
    assert!(outcome.messages.is_empty());
    assert_eq!(outcome.inbox.len(), 4);
}
