use hyperborealib::crypto::PublicKey;
use hyperborealib::rest_api::{AsJson, AsJsonError};
use hyperborealib::rest_api::types::{
    Client, ClientInfo, ClientType, ConnectionCertificate, ConnectionToken, Message, MessageEncoding,
    MessageInfo, MessagesError, Sender, Server,
};

fn key(seed: u8) -> PublicKey {
    let mut bytes = [seed; 33];
    bytes[0] = 2;
    PublicKey::from_bytes(&bytes).unwrap()
}

fn get_types() -> &'static [(ClientType, &'static str)] {
    &[
        (ClientType::Thin, "thin"),
        (ClientType::Thick, "thick"),
        (ClientType::Server, "server"),
        (ClientType::File, "file"),
    ]
}

fn get_certificate() -> ConnectionCertificate {
    let token = ConnectionToken::now(key(7));
    ConnectionCertificate::new(token, vec![9; 64])
}

fn get_client() -> Client {
    Client::new(key(3), get_certificate(), ClientInfo::thin())
}

fn get_server() -> Server {
    Server::new(key(4), "localhost:8001")
}

fn get_sender() -> Sender {
    Sender::new(get_client(), get_server())
}

fn get_encodings() -> Result<Vec<MessageEncoding>, MessagesError> {
    Ok(vec![
        MessageEncoding::from_str("base64")?,
        MessageEncoding::from_str("base64/deflate")?,
        MessageEncoding::from_str("base64/brotli")?,
        MessageEncoding::from_str("base64/aes256-gcm")?,
        MessageEncoding::from_str("base64/chacha20-poly1305")?,
        MessageEncoding::from_str("base64/aes256-gcm/deflate")?,
        MessageEncoding::from_str("base64/chacha20-poly1305/deflate")?,
        MessageEncoding::from_str("base64/aes256-gcm/brotli")?,
        MessageEncoding::from_str("base64/chacha20-poly1305/brotli")?,
    ])
}

#[test]
fn client_type_serialize() {
    for (client_type, name) in get_types() {
        assert_eq!(client_type.to_string(), *name);
    }
}

#[test]
fn deserialize() -> Result<(), ()> {
    for (client_type, name) in get_types() {
        assert_eq!(ClientType::from_str(name)?, *client_type);
    }

    Ok(())
}

#[test]
fn client_type_unknown_name() {
    assert!(ClientType::from_str("thinner").is_err());
    assert!(ClientType::from_str("").is_err());
}

#[test]
fn connection_token_serialize() -> Result<(), hyperborealib::crypto::CryptographyError> {
    let token = ConnectionToken::now(key(1));

    assert_eq!(ConnectionToken::from_bytes(&token.to_bytes())?, token);

    Ok(())
}

#[test]
fn connection_token_bytes_layout() {
    let token = ConnectionToken::new(0x0102030405060708, key(5));
    let bytes = token.to_bytes();
    assert_eq!(bytes.len(), 41);
    assert_eq!(&bytes[..8], &[1, 2, 3, 4, 5, 6, 7, 8]);
    assert_eq!(&bytes[8..], key(5).to_bytes().as_slice());
}

#[test]
fn connection_token_wrong_length() {
    assert!(ConnectionToken::from_bytes(&[0u8; 40]).is_err());
    assert!(ConnectionToken::from_bytes(&[0u8; 42]).is_err());
}

#[test]
fn parse() -> Result<(), MessagesError> {
    assert!(MessageEncoding::from_str("aboba").is_err());

    for encoding in get_encodings()? {
        assert_eq!(MessageEncoding::from_str(&encoding.to_string())?, encoding);
    }

    Ok(())
}

#[test]
fn parse_errors() {
    match MessageEncoding::from_str("base64/a/b/c") {
        Err(MessagesError::WrongMessageEncodingFormat(text)) => assert_eq!(text, "base64/a/b/c"),
        _ => panic!("four parts are not a message encoding"),
    }
    assert!(matches!(
        MessageEncoding::from_str("base32"),
        Err(MessagesError::CryptographyError(_))
    ));
    assert!(matches!(
        MessageEncoding::from_str("base64/gzip"),
        Err(MessagesError::CryptographyError(_))
    ));
}

#[test]
fn message_encoding_text() -> Result<(), MessagesError> {
    assert_eq!(MessageEncoding::from_str("base64")?.to_string(), "base64");
    assert_eq!(
        MessageEncoding::from_str("base64/chacha20-poly1305/brotli")?.to_string(),
        "base64/chacha20-poly1305/brotli"
    );
    Ok(())
}

#[test]
fn serialize_thin() -> Result<(), AsJsonError> {
    let client = ClientInfo::thin();
    assert_eq!(ClientInfo::from_json(&client.to_json()?)?, client);
    Ok(())
}

#[test]
fn serialize_thick() -> Result<(), AsJsonError> {
    let client = ClientInfo::thick("Hello, World!");
    assert_eq!(ClientInfo::from_json(&client.to_json()?)?, client);
    Ok(())
}

#[test]
fn client_info_serialize_server() -> Result<(), AsJsonError> {
    let client = ClientInfo::server("Hello, World!");
    assert_eq!(ClientInfo::from_json(&client.to_json()?)?, client);
    Ok(())
}

#[test]
fn serialize_file() -> Result<(), AsJsonError> {
    let client = ClientInfo::file("Hello, World!");
    assert_eq!(ClientInfo::from_json(&client.to_json()?)?, client);
    Ok(())
}

#[test]
fn connection_certificate_serialize() -> Result<(), AsJsonError> {
    let cert = get_certificate();
    assert_eq!(ConnectionCertificate::from_json(&cert.to_json()?)?, cert);
    Ok(())
}

#[test]
fn client_serialize() -> Result<(), AsJsonError> {
    let client = get_client();
    assert_eq!(Client::from_json(&client.to_json()?)?, client);
    Ok(())
}

#[test]
fn server_serialize() -> Result<(), AsJsonError> {
    let server = get_server();
    assert_eq!(Server::from_json(&server.to_json()?)?, server);
    Ok(())
}

#[test]
fn sender_serialize() -> Result<(), AsJsonError> {
    let sender = get_sender();
    assert_eq!(Sender::from_json(&sender.to_json()?)?, sender);
    Ok(())
}

#[test]
fn message_serialize() -> Result<(), AsJsonError> {
    for encoding in get_encodings().unwrap() {
        let message = Message::new("content", "sign", encoding);
        assert_eq!(Message::from_json(&message.to_json()?)?, message);
    }
    Ok(())
}

#[test]
fn message_info_serialize() -> Result<(), AsJsonError> {
    let encoding = MessageEncoding::from_str("base64").unwrap();
    let message = Message::new("content", "sign", encoding);
    let info = MessageInfo::now(get_sender(), "Hello, World!", message);
    assert_eq!(MessageInfo::from_json(&info.to_json()?)?, info);
    Ok(())
}

#[test]
fn certificate_validation() {
    let cert = get_certificate();
    assert_eq!(cert.validate(&key(7), Ok(true)), Ok(true));
    assert_eq!(cert.validate(&key(7), Ok(false)), Ok(false));
    assert_eq!(cert.validate(&key(8), Ok(true)), Ok(false));
}

#[test]
fn serialize_certificate() -> Result<(), AsJsonError> {
    let cert = ConnectionCertificate::new(ConnectionToken::now(key(20)), vec![6; 64]);
    assert_eq!(ConnectionCertificate::from_json(&cert.to_json()?)?, cert);
    Ok(())
}

#[test]
fn mod_serialize_client() -> Result<(), AsJsonError> {
    let client = Client::new(key(21), get_certificate(), ClientInfo::thin());
    assert_eq!(Client::from_json(&client.to_json()?)?, client);
    Ok(())
}
