use hyperborealib::crypto::{CryptographyError, PublicKey};
use hyperborealib::rest_api::send::{
    Message, MessageEncoding, SendError, SendRequestBody, TextCompression, TextEncoding, TextEncryption,
};
use hyperborealib::rest_api::types::{Client, ClientInfo, ConnectionCertificate, ConnectionToken, Sender, Server};
use hyperborealib::rest_api::{AsJson, AsJsonError};

const SECRET: &[u8; 32] = b"amogus aboba banana aboba amogus";

fn key(seed: u8) -> PublicKey {
    let mut bytes = [seed; 33];
    bytes[0] = 2;
    PublicKey::from_bytes(&bytes).unwrap()
}

fn encodings() -> Result<[MessageEncoding; 6], SendError> {
    Ok([
        MessageEncoding::from_str("base64/plain")?,
        MessageEncoding::from_str("base64/deflate")?,
        MessageEncoding::from_str("base64/aes256-gcm")?,
        MessageEncoding::from_str("base64/chacha20-poly1305")?,
        MessageEncoding::from_str("base64/aes256-gcm/deflate")?,
        MessageEncoding::from_str("base64/chacha20-poly1305/deflate")?,
    ])
}

#[test]
fn message_encoding_serialize() -> Result<(), SendError> {
    let encodings = [
        MessageEncoding::from_str("base64/plain")?,
        MessageEncoding::from_str("base64/deflate")?,
        MessageEncoding::from_str("base64/aes256-gcm")?,
        MessageEncoding::from_str("base64/chacha20-poly1305")?,
        MessageEncoding::from_str("base64/aes256-gcm/deflate")?,
        MessageEncoding::from_str("base64/chacha20-poly1305/deflate")?,
    ];

    match MessageEncoding::from_str("aboba") {
        Err(SendError::WrongMessageEncodingFormat(str)) if str == "aboba" => (),

        _ => panic!("Message encoding expected to fail at value 'aboba'"),
    }

    for encoding in encodings {
        assert_eq!(MessageEncoding::from_str(encoding.to_str())?, encoding);
    }

    Ok(())
}

#[test]
fn encode_decode() -> Result<(), SendError> {
    let encodings = [TextEncoding::Base64];

    for encoding in encodings {
        let encoded = encoding.encode(b"Hello, World!");
        let decoded = encoding.decode(&encoded)?;

        assert_eq!(decoded, b"Hello, World!");
    }

    Ok(())
}

#[test]
fn base64_text_of_bytes() {
    assert_eq!(TextEncoding::Base64.encode(b"Hello, World!"), "SGVsbG8sIFdvcmxkIQ==");
    assert_eq!(TextEncoding::Base64.encode(&[0xfb, 0xff]), "-_8=");
    assert_eq!(TextEncoding::Base64.encode(b"Man"), "TWFu");
    assert_eq!(TextEncoding::Base64.encode(b"ManM"), "TWFuTQ==");
    assert_eq!(TextEncoding::Base64.encode(b""), "");
    assert_eq!(TextEncoding::Base64.decode("%%%"), Err(SendError::TextDecodingError));
}

#[test]
fn encryption_decryption() -> Result<(), SendError> {
    let encryptions = [
        TextEncryption::Unencrypted,
        TextEncryption::Aes256Gcm,
        TextEncryption::ChaCha20Poly1305,
    ];

    let key = b"amogus aboba banana aboba amogus";

    for encryption in encryptions {
        let encrypted = encryption.encrypt(b"Hello, World!", *key)?;
        let decrypted = encryption.decrypt(&encrypted, *key)?;

        assert_eq!(decrypted, b"Hello, World!");
    }

    Ok(())
}

#[test]
fn encryption_changes_bytes() -> Result<(), SendError> {
    let sealed = TextEncryption::Aes256Gcm.encrypt(b"Hello, World!", *SECRET)?;
    assert_eq!(sealed.len(), 13 + 16);
    assert_ne!(&sealed[..13], b"Hello, World!");
    let other = *b"another 32 bytes long secret key";
    assert_eq!(
        TextEncryption::Aes256Gcm.decrypt(&sealed, other),
        Err(SendError::TextDecryptionFailed)
    );
    let sealed = TextEncryption::ChaCha20Poly1305.encrypt(b"Hello, World!", *SECRET)?;
    assert_ne!(&sealed[..13], b"Hello, World!");
    assert_eq!(TextEncryption::Unencrypted.encrypt(b"abc", *SECRET)?, b"abc");
    Ok(())
}

#[test]
fn compress_decompress() -> Result<(), SendError> {
    let compressions = [TextCompression::Uncompressed, TextCompression::Deflate];

    for compression in compressions {
        let compressed = compression.compress(b"Hello, World!")?;
        let decompressed = compression.decompress(&compressed)?;

        assert_eq!(decompressed, b"Hello, World!");
    }

    Ok(())
}

#[test]
fn deflate_shrinks_repetition() -> Result<(), SendError> {
    let data = vec![b'a'; 1000];
    let compressed = TextCompression::Deflate.compress(&data)?;
    assert!(compressed.len() < 100);
    assert_eq!(TextCompression::Deflate.decompress(&compressed)?, data);
    Ok(())
}

#[test]
fn message_create_read() -> Result<(), SendError> {
    for encoding in encodings()? {
        let message = Message::create(SECRET, b"Hello, World!", b"signature bytes", encoding)?;

        let (content, sign) = message.read(SECRET)?;

        assert_eq!(sign, b"signature bytes");
        assert_eq!(Message::accept(content, Ok(true))?, b"Hello, World!");
    }

    Ok(())
}

#[test]
fn message_signature_refused() {
    assert_eq!(Message::accept(vec![1], Ok(false)), Err(SendError::InvalidMessageSignature));
    assert_eq!(
        Message::accept(vec![1], Err(CryptographyError::InvalidPublicKey)),
        Err(SendError::CryptographyError(CryptographyError::InvalidPublicKey))
    );
}

#[test]
fn forward_backward() -> Result<(), SendError> {
    for encoding in encodings()? {
        let text = encoding.forward(b"Hello, World!", SECRET)?;
        assert_eq!(encoding.backward(&text, SECRET)?, b"Hello, World!");
    }
    Ok(())
}

#[test]
fn send_request_serialize() -> Result<(), AsJsonError> {
    let certificate = ConnectionCertificate::new(ConnectionToken::now(key(2)), vec![3; 64]);
    let client = Client::new(key(1), certificate, ClientInfo::thin());
    let server = Server::new(key(2), "amogus");

    let sender = Sender::new(client, server.clone());

    let message_encoding = MessageEncoding::from_str("base64/plain").unwrap();
    let message = Message::new("content", "sign", message_encoding);

    let request = SendRequestBody::new(sender, server.public_key, "amogus", message);

    assert_eq!(SendRequestBody::from_json(&request.to_json()?)?, request);

    Ok(())
}

#[test]
fn first_version_message_serialize() -> Result<(), AsJsonError> {
    for encoding in encodings().unwrap() {
        let message = Message::create(SECRET, b"Hello, World!", b"sign", encoding).unwrap();
        assert_eq!(Message::from_json(&message.to_json()?)?, message);
    }
    Ok(())
}

#[test]
fn corrupt_deflate_stream() {
    assert_eq!(
        TextCompression::Deflate.decompress(&[0xff, 0xff, 0xff, 0xff]),
        Err(SendError::TextDecompressionFailed)
    );
}
