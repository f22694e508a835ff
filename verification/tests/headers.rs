use hyperborealib::crypto::{CryptographyError, PublicKey};
use hyperborealib::rest_api::request::{proof_bytes, proof_seed_from, Request, MIN_PROOF_SEED};
use hyperborealib::rest_api::requests::{ConnectRequest, ConnectResponse, InfoResponse, LookupRequest};
use hyperborealib::rest_api::types::ClientType;
use hyperborealib::rest_api::response::Response;
use hyperborealib::rest_api::status::ResponseStatus;
use hyperborealib::rest_api::connect::ConnectionToken;
use hyperborealib::rest_api::types::{ClientInfo, ConnectionCertificate};
use hyperborealib::rest_api::{AsJson, AsJsonError, ValidationError};
use hyperborealib::STANDARD_VERSION;

fn key(seed: u8) -> PublicKey {
    let mut bytes = [seed; 33];
    bytes[0] = 3;
    PublicKey::from_bytes(&bytes).unwrap()
}

#[test]
fn serialize_token() -> Result<(), CryptographyError> {
    let public = key(1);

    let token = ConnectionToken::now(public);

    assert_eq!(ConnectionToken::from_bytes(&token.to_bytes())?, token);

    Ok(())
}

#[test]
fn validate() -> Result<(), ValidationError> {
    let seed = MIN_PROOF_SEED + 987654321;

    // Valid request header
    let request = Request::new(key(2), seed, vec![7; 64], ());

    assert!(request.validate(Ok(true))?);

    // Invalid proof seed
    let mut request = Request::new(key(2), seed, vec![7; 64], ());

    request.proof_seed = 0;

    assert!(request.validate(Ok(true)).is_err());

    // Invalid sign (different proof seed)
    let mut request = Request::new(key(2), seed, vec![7; 64], ());

    request.proof_seed = MIN_PROOF_SEED + 5;

    assert!(!request.validate(Ok(false))?);

    // Invalid sign (different proof sign)
    let mut request = Request::new(key(2), seed, vec![7; 64], ());

    request.proof_sign = vec![1, 2, 3, 4, 5, 6, 7, 8];

    assert!(request.validate(Err(CryptographyError::InvalidPublicKey)).is_err());

    Ok(())
}

#[test]
fn validate_seed_boundary() {
    let mut low = Request::new(key(2), MIN_PROOF_SEED, vec![], ());
    low.proof_seed = MIN_PROOF_SEED - 1;
    assert_eq!(low.validate(Ok(true)), Err(ValidationError::InvalidSeed));
    let high = Request::new(key(2), MIN_PROOF_SEED, vec![], ());
    assert_eq!(high.validate(Ok(true)), Ok(true));
    assert_eq!(
        high.validate(Err(CryptographyError::InvalidPublicKey)),
        Err(ValidationError::CryptographyError(CryptographyError::InvalidPublicKey))
    );
}

#[test]
fn proof_bytes_big_endian() {
    assert_eq!(proof_bytes(0x0102030405060708), vec![1, 2, 3, 4, 5, 6, 7, 8]);
}

#[test]
fn request_serialize() -> Result<(), AsJsonError> {
    let certificate = ConnectionCertificate::new(ConnectionToken::now(key(4)), vec![5; 64]);

    let connect_request = ConnectRequest::new(
        key(3),
        MIN_PROOF_SEED + 1,
        vec![6; 64],
        certificate,
        ClientInfo::thin(),
    );

    let request = Request::new(key(3), MIN_PROOF_SEED + 2, vec![8; 64], connect_request);

    assert_eq!(Request::from_json(&request.to_json()?)?, request);

    Ok(())
}

#[test]
fn request_invalid_standard() {
    let mut request = Request::new(key(3), MIN_PROOF_SEED, vec![], ClientInfo::thin());
    request.standard = 2;
    assert!(matches!(request.to_json(), Err(AsJsonError::InvalidStandard(2))));
}

#[test]
fn serialize_success() -> Result<(), AsJsonError> {
    let connect_response = ConnectResponse::success(ResponseStatus::Success, key(5), vec![1; 64]);

    let response = Response::success(ResponseStatus::Success, key(6), vec![2; 64], connect_response);

    assert_eq!(Response::from_json(&response.to_json()?)?, response);

    Ok(())
}

#[test]
fn serialize_error() -> Result<(), AsJsonError> {
    let response = Response::<ConnectResponse>::error(ResponseStatus::MessageTooLarge, "Hello, World!");

    assert_eq!(Response::from_json(&response.to_json()?)?, response);

    Ok(())
}

#[test]
fn response_getters() {
    let response = Response::success(ResponseStatus::Success, key(1), vec![], ());
    assert_eq!(response.standard(), STANDARD_VERSION);
    assert_eq!(response.status(), ResponseStatus::Success);
    let error = Response::<()>::error(ResponseStatus::ClientNotFound, "gone");
    assert_eq!(error.status(), ResponseStatus::ClientNotFound);
    assert_eq!(error.validate(0, Ok(false)), Ok(true));
    assert_eq!(response.validate(0, Ok(true)), Err(ValidationError::InvalidSeed));
}

#[test]
fn status_codes() {
    let statuses = [
        (ResponseStatus::Success, 100),
        (ResponseStatus::ServerError, 200),
        (ResponseStatus::InvalidRequestStructure, 300),
        (ResponseStatus::RequestValidationFailed, 301),
        (ResponseStatus::ClientLookupTimeout, 310),
        (ResponseStatus::ClientNotFound, 311),
        (ResponseStatus::ClientNotConnected, 320),
        (ResponseStatus::ClientInboxFull, 321),
        (ResponseStatus::MessageTooLarge, 322),
    ];
    for (status, code) in statuses {
        assert_eq!(status.to_code(), code);
        assert_eq!(ResponseStatus::from_code(code), Some(status));
        assert_eq!(status.is_success(), code == 100);
    }
    assert_eq!(ResponseStatus::from_code(101), None);
}

#[test]
fn mod_serialize() -> Result<(), AsJsonError> {
    let response = InfoResponse::new(key(9), MIN_PROOF_SEED + 3, vec![4; 64]);

    assert_eq!(InfoResponse::from_json(&response.to_json()?)?, response);

    Ok(())
}

#[test]
fn connect_request_validation() {
    let certificate = ConnectionCertificate::new(ConnectionToken::now(key(4)), vec![5; 64]);
    let request = ConnectRequest::new(key(3), MIN_PROOF_SEED, vec![], certificate, ClientInfo::thin());
    assert_eq!(request.validate(&key(4), Ok(true), Ok(true)), Ok(true));
    assert_eq!(request.validate(&key(4), Ok(false), Ok(true)), Ok(false));
    assert_eq!(request.validate(&key(8), Ok(true), Ok(true)), Ok(false));
    assert_eq!(
        request.validate(&key(4), Ok(true), Err(CryptographyError::InvalidPublicKey)),
        Err(ValidationError::CryptographyError(CryptographyError::InvalidPublicKey))
    );
}

#[test]
fn proof_seed_has_high_bit() {
    assert_eq!(proof_seed_from(0), MIN_PROOF_SEED);
    assert_eq!(proof_seed_from(5), MIN_PROOF_SEED + 5);
    assert_eq!(proof_seed_from(MIN_PROOF_SEED + 9), MIN_PROOF_SEED + 9);
    assert_eq!(proof_seed_from(u64::MAX), u64::MAX);
}

#[test]
fn proofs_to_check() {
    let request = Request::new(key(2), MIN_PROOF_SEED + 4, vec![7; 64], ());
    let (k, bytes, sign) = request.proof_to_check();
    assert_eq!(*k, key(2));
    assert_eq!(bytes, proof_bytes(MIN_PROOF_SEED + 4));
    assert_eq!(*sign, vec![7; 64]);

    let info = InfoResponse::new(key(5), MIN_PROOF_SEED + 1, vec![2; 64]);
    let (k, bytes, sign) = info.proof_to_check();
    assert_eq!(*k, key(5));
    assert_eq!(bytes, proof_bytes(MIN_PROOF_SEED + 1));
    assert_eq!(*sign, vec![2; 64]);

    let response = ConnectResponse::success(ResponseStatus::Success, key(6), vec![3; 64]);
    let (k, bytes, sign) = response.0.proof_to_check(MIN_PROOF_SEED + 8).unwrap();
    assert_eq!(*k, key(6));
    assert_eq!(bytes, proof_bytes(MIN_PROOF_SEED + 8));
    assert_eq!(*sign, vec![3; 64]);

    let failed = ConnectResponse::error(ResponseStatus::ServerError, "down");
    assert!(failed.0.proof_to_check(MIN_PROOF_SEED).is_none());
}

#[test]
fn certificate_and_query_to_check() {
    let token = ConnectionToken::now(key(4));
    let certificate = ConnectionCertificate::new(token.clone(), vec![5; 64]);
    let request = ConnectRequest::new(key(3), MIN_PROOF_SEED, vec![], certificate, ClientInfo::thin());
    let (k, bytes, sign) = request.certificate_to_check();
    assert_eq!(*k, key(3));
    assert_eq!(bytes, token.to_bytes());
    assert_eq!(*sign, vec![5; 64]);

    let lookup = LookupRequest::new(key(1), MIN_PROOF_SEED, vec![], key(9), Some(ClientType::Thick));
    let (wanted, client_type) = lookup.query();
    assert_eq!(*wanted, key(9));
    assert_eq!(client_type, Some(ClientType::Thick));
}
