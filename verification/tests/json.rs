use hyperborealib::crypto::{CryptographyError, PublicKey};
use hyperborealib::rest_api::json::Json;
use hyperborealib::rest_api::middleware::{client_record, refusal, response_outcome, validation_outcome, MiddlewareError};
use hyperborealib::rest_api::request::MIN_PROOF_SEED;
use hyperborealib::rest_api::requests::{ConnectRequest, ConnectResponseBody, PollRequestBody};
use hyperborealib::rest_api::response::Response;
use hyperborealib::rest_api::status::ResponseStatus;
use hyperborealib::rest_api::types::{ClientInfo, ConnectionCertificate, ConnectionToken, Message, Server};
use hyperborealib::rest_api::{AsJson, AsJsonError, ValidationError};
use hyperborealib::time::timestamp;

fn key(seed: u8) -> PublicKey {
    let mut bytes = [seed; 33];
    bytes[0] = 2;
    PublicKey::from_bytes(&bytes).unwrap()
}

fn object(fields: Vec<(&str, Json)>) -> Json {
    Json::Object(fields.into_iter().map(|(k, v)| (k.to_string(), v)).collect())
}

#[test]
fn missing_field() {
    let json = object(vec![("public_key", Json::text(&key(1).to_base64()))]);
    assert!(matches!(Server::from_json(&json), Err(AsJsonError::FieldNotFound("address"))));
}

#[test]
fn field_of_wrong_kind() {
    let json = object(vec![("public_key", Json::Number(5)), ("address", Json::text("a"))]);
    assert!(matches!(Server::from_json(&json), Err(AsJsonError::FieldNotFound("public_key"))));
}

#[test]
fn key_of_wrong_length() {
    let short = hyperborealib::crypto::base64_encode(&[1, 2, 3]);
    let json = object(vec![("public_key", Json::text(&short)), ("address", Json::text("a"))]);
    assert!(matches!(
        Server::from_json(&json),
        Err(AsJsonError::CryptographyError(CryptographyError::InvalidPublicKey))
    ));
}

#[test]
fn certificate_not_base64() {
    let json = object(vec![("token", Json::text("%%%")), ("sign", Json::text("AAAA"))]);
    assert!(matches!(ConnectionCertificate::from_json(&json), Err(AsJsonError::Base64Error)));
}

#[test]
fn message_encoding_refused() {
    let json = object(vec![
        ("content", Json::text("c")),
        ("sign", Json::text("s")),
        ("encoding", Json::text("base32")),
    ]);
    match Message::from_json(&json) {
        Err(AsJsonError::Other(text)) => assert_eq!(
            text,
            "Field 'encoding' contained invalid message encoding format: 'Unknown algorithm'"
        ),
        _ => panic!("base32 is not a message encoding"),
    }
}

#[test]
fn poll_limit_forms() {
    let json = object(vec![("channel", Json::text("c")), ("limit", Json::Bool(true))]);
    assert!(matches!(PollRequestBody::from_json(&json), Err(AsJsonError::FieldValueInvalid("channel"))));
    let json = object(vec![("channel", Json::text("c"))]);
    assert!(matches!(PollRequestBody::from_json(&json), Err(AsJsonError::FieldNotFound("channel"))));
    let json = object(vec![("channel", Json::text("c")), ("limit", Json::OtherNumber)]);
    assert!(matches!(PollRequestBody::from_json(&json), Err(AsJsonError::FieldValueInvalid("channel"))));
}

#[test]
fn response_status_unknown() {
    let json = object(vec![("standard", Json::Number(1)), ("status", Json::Number(7))]);
    assert!(matches!(
        Response::<ConnectResponseBody>::from_json(&json),
        Err(AsJsonError::FieldValueInvalid("status"))
    ));
    let json = object(vec![("standard", Json::Number(2))]);
    assert!(matches!(Response::<ConnectResponseBody>::from_json(&json), Err(AsJsonError::InvalidStandard(2))));
}

#[test]
fn json_lookup_first_entry() {
    let json = object(vec![("a", Json::Number(1)), ("a", Json::Number(2))]);
    assert!(matches!(json.get("a"), Some(Json::Number(1))));
    assert!(json.get("b").is_none());
    assert!(Json::Null.get("a").is_none());
}

#[test]
fn outcomes() {
    assert_eq!(validation_outcome(Ok(true)), Ok(()));
    assert_eq!(validation_outcome(Ok(false)), Err(MiddlewareError::InvalidProofSeedSignature));
    let error = Response::<()>::error(ResponseStatus::ClientNotFound, "nobody");
    assert_eq!(
        response_outcome(Ok(true), error),
        Err(MiddlewareError::RequestFailed { status: ResponseStatus::ClientNotFound, reason: String::from("nobody") })
    );
    let success = Response::success(ResponseStatus::Success, key(1), vec![], 5u8);
    assert_eq!(response_outcome(Ok(true), success), Ok(5u8));
    let success = Response::success(ResponseStatus::Success, key(1), vec![], 5u8);
    assert_eq!(
        response_outcome(Err(ValidationError::InvalidSeed), success),
        Err(MiddlewareError::SignatureValidationError(ValidationError::InvalidSeed))
    );
}

#[test]
fn refusals() {
    assert_eq!(refusal(Ok(true)), None);
    assert_eq!(
        refusal(Ok(false)),
        Some((ResponseStatus::RequestValidationFailed, String::from("Request validation failed")))
    );
    assert_eq!(
        refusal(Err(ValidationError::InvalidSeed)),
        Some((
            ResponseStatus::ServerError,
            String::from("An error occured during request validation: Proof seed must be a 64 bit long unsigned integer")
        ))
    );
}

#[test]
fn connected_client_record() {
    let certificate = ConnectionCertificate::new(ConnectionToken::new(5, key(2)), vec![1, 2]);
    let request = ConnectRequest::new(key(1), MIN_PROOF_SEED, vec![], certificate.clone(), ClientInfo::thick("addr"));
    let client = client_record(request);
    assert_eq!(client.public_key, key(1));
    assert_eq!(client.certificate, certificate);
    assert_eq!(client.info, ClientInfo::thick("addr"));
}

#[test]
fn clock_after_epoch() {
    assert!(timestamp() > 1_600_000_000);
}

#[test]
fn first_version_encoding_refused() {
    let json = object(vec![
        ("content", Json::text("c")),
        ("sign", Json::text("s")),
        ("encoding", Json::text("aboba")),
    ]);
    match hyperborealib::rest_api::send::Message::from_json(&json) {
        Err(AsJsonError::Other(text)) => assert_eq!(
            text,
            "Field 'encoding' contained invalid message encoding format: 'Wrong message encoding format provided: 'aboba''"
        ),
        _ => panic!("aboba is not a message encoding"),
    }
}
