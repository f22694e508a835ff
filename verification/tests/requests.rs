use hyperborealib::crypto::PublicKey;
use hyperborealib::rest_api::middleware::{
    lookup_next, lookup_start, LookupAction, LookupFinding, LookupSearch, LookupStage, LookupStep, MiddlewareError,
};
use hyperborealib::rest_api::request::MIN_PROOF_SEED;
use hyperborealib::rest_api::requests::{
    AnnounceRequest, AnnounceRequestBody, AnnounceResponse, ClientsResponse, ConnectRequestBody, ConnectResponseBody, LookupRequestBody,
    LookupResponse, LookupResponseBody, PollRequestBody, PollResponseBody, SendResponseBody, ServersResponse,
};
use hyperborealib::rest_api::status::ResponseStatus;
use hyperborealib::rest_api::types::{
    Client, ClientInfo, ClientType, ConnectionCertificate, ConnectionToken, Message, MessageEncoding,
    MessageInfo, Sender, Server,
};
use hyperborealib::rest_api::{AsJson, AsJsonError, ValidationError};

fn key(seed: u8) -> PublicKey {
    let mut bytes = [seed; 33];
    bytes[0] = 2;
    PublicKey::from_bytes(&bytes).unwrap()
}

fn get_client() -> Client {
    let certificate = ConnectionCertificate::new(ConnectionToken::now(key(10)), vec![1; 64]);
    Client::new(key(11), certificate, ClientInfo::thin())
}

fn get_server() -> Server {
    Server::new(key(12), "localhost:8001")
}

#[test]
fn response_serialize_local() -> Result<(), AsJsonError> {
    let response = LookupResponseBody::local(get_client(), true);
    assert_eq!(LookupResponseBody::from_json(&response.to_json()?)?, response);
    Ok(())
}

#[test]
fn response_serialize_remote() -> Result<(), AsJsonError> {
    let response = LookupResponseBody::remote(get_client(), get_server(), true);
    assert_eq!(LookupResponseBody::from_json(&response.to_json()?)?, response);
    Ok(())
}

#[test]
fn response_serialize_hint() -> Result<(), AsJsonError> {
    let response = LookupResponseBody::hint(vec![get_server(), get_server(), get_server()]);
    assert_eq!(LookupResponseBody::from_json(&response.to_json()?)?, response);
    Ok(())
}

#[test]
fn lookup_disposition_unknown() -> Result<(), AsJsonError> {
    let mut json = LookupResponseBody::local(get_client(), false).to_json()?;
    if let hyperborealib::rest_api::json::Json::Object(fields) = &mut json {
        fields[0].1 = hyperborealib::rest_api::json::Json::text("elsewhere");
    }
    assert!(matches!(LookupResponseBody::from_json(&json), Err(AsJsonError::FieldValueInvalid(_))));
    Ok(())
}

#[test]
fn request_serialize_client() -> Result<(), AsJsonError> {
    let request = AnnounceRequestBody::client(get_client(), get_server());
    assert_eq!(AnnounceRequestBody::from_json(&request.to_json()?)?, request);
    Ok(())
}

#[test]
fn request_serialize_server() -> Result<(), AsJsonError> {
    let request = AnnounceRequestBody::server(get_server());
    assert_eq!(AnnounceRequestBody::from_json(&request.to_json()?)?, request);
    Ok(())
}

#[test]
fn response_serialize() -> Result<(), AsJsonError> {
    let response = ClientsResponse::new(vec![get_client(), get_client(), get_client()]);
    assert_eq!(ClientsResponse::from_json(&response.to_json()?)?, response);
    Ok(())
}

#[test]
fn mod_serialize_response() -> Result<(), AsJsonError> {
    let response = ServersResponse::new(vec![Server::new(key(13), "Hello, World!")]);
    assert_eq!(ServersResponse::from_json(&response.to_json()?)?, response);
    Ok(())
}

#[test]
fn mod_serialize_server() -> Result<(), AsJsonError> {
    let server = Server::new(key(14), "Hello, World!");
    assert_eq!(Server::from_json(&server.to_json()?)?, server);
    Ok(())
}

#[test]
fn connect_request_body_serialize() -> Result<(), AsJsonError> {
    let certificate = ConnectionCertificate::new(ConnectionToken::now(key(15)), vec![2; 64]);
    let request = ConnectRequestBody::new(certificate, ClientInfo::thin());
    assert_eq!(ConnectRequestBody::from_json(&request.to_json()?)?, request);
    Ok(())
}

#[test]
fn empty_bodies_serialize() -> Result<(), AsJsonError> {
    assert_eq!(ConnectResponseBody::from_json(&ConnectResponseBody::new().to_json()?)?, ConnectResponseBody);
    assert_eq!(SendResponseBody::from_json(&SendResponseBody::new().to_json()?)?, SendResponseBody);
    Ok(())
}

#[test]
fn lookup_request_serialize() -> Result<(), AsJsonError> {
    let request = LookupRequestBody::new(key(16), Some(ClientType::Thin));
    assert_eq!(LookupRequestBody::from_json(&request.to_json()?)?, request);
    let request = LookupRequestBody::new(key(16), None);
    assert_eq!(LookupRequestBody::from_json(&request.to_json()?)?, request);
    Ok(())
}

#[test]
fn poll_request_serialize() -> Result<(), AsJsonError> {
    let request = PollRequestBody::new("Hello, World!", None);
    assert_eq!(PollRequestBody::from_json(&request.to_json()?)?, request);
    let request = PollRequestBody::new("Hello, World!", Some(5));
    assert_eq!(PollRequestBody::from_json(&request.to_json()?)?, request);
    Ok(())
}

#[test]
fn poll_response_serialize() -> Result<(), AsJsonError> {
    let sender = Sender::new(get_client(), Server::new(key(17), "example.org"));
    let encoding = MessageEncoding::from_str("base64").unwrap();
    let message = Message::new("content", "sign", encoding);
    let info = MessageInfo::now(sender, "Hello, World!", message);
    let response = PollResponseBody::new(vec![info], 100);
    assert_eq!(PollResponseBody::from_json(&response.to_json()?)?, response);
    Ok(())
}

#[test]
fn lookup_search_walks_hints_once() {
    let mut search = LookupSearch::new("a");
    assert_eq!(search.next_server().as_deref(), Some("a"));
    let hint = LookupResponse::success(
        ResponseStatus::Success,
        key(1),
        vec![],
        LookupResponseBody::hint(vec![Server::new(key(2), "b"), Server::new(key(3), "a")]),
    );
    assert!(matches!(
        search.on_response(String::from("a"), Ok(true), hint),
        Ok(LookupStep::Continue)
    ));
    assert_eq!(search.next_server().as_deref(), Some("b"));
    let found = LookupResponse::success(
        ResponseStatus::Success,
        key(4),
        vec![],
        LookupResponseBody::local(get_client(), true),
    );
    match search.on_response(String::from("b"), Ok(true), found) {
        Ok(LookupStep::Found { server, available, .. }) => {
            assert_eq!(server.address, "b");
            assert!(available);
        },
        _ => panic!("the client was found on b"),
    }
    // "a" was already asked, so nothing is left.
    assert_eq!(search.next_server(), None);
}

#[test]
fn lookup_search_validation_failure() {
    let mut search = LookupSearch::new("a");
    let _ = search.next_server();
    let answer = LookupResponse::error(ResponseStatus::ServerError, "down");
    assert!(matches!(
        search.on_response(String::from("a"), Err(ValidationError::InvalidSeed), answer),
        Err(MiddlewareError::SignatureValidationError(ValidationError::InvalidSeed))
    ));
    let _ = MIN_PROOF_SEED;
}

#[test]
fn lookup_search_refused_signature_moves_on() {
    let mut search = LookupSearch::new("a");
    assert_eq!(search.next_server().as_deref(), Some("a"));
    let hint = LookupResponse::success(
        ResponseStatus::Success,
        key(1),
        vec![],
        LookupResponseBody::hint(vec![Server::new(key(2), "b"), Server::new(key(3), "b")]),
    );
    // A refused signature moves on without marking "a" as asked.
    assert!(matches!(
        search.on_response(String::from("a"), Ok(false), hint.clone()),
        Ok(LookupStep::Continue)
    ));
    assert_eq!(search.next_server(), None);
}

#[test]
fn lookup_search_repeated_hints_ask_once() {
    let mut search = LookupSearch::new("a");
    assert_eq!(search.next_server().as_deref(), Some("a"));
    let hint = LookupResponse::success(
        ResponseStatus::Success,
        key(1),
        vec![],
        LookupResponseBody::hint(vec![Server::new(key(2), "b"), Server::new(key(3), "b"), Server::new(key(4), "c")]),
    );
    assert!(matches!(search.on_response(String::from("a"), Ok(true), hint), Ok(LookupStep::Continue)));
    assert_eq!(search.next_server().as_deref(), Some("b"));
    let failed = LookupResponse::error(ResponseStatus::ServerError, "busy");
    assert!(matches!(search.on_response(String::from("b"), Ok(true), failed.clone()), Ok(LookupStep::Continue)));
    // The same answer taken twice still lists "b" once; the second "b" is skipped.
    assert!(matches!(search.on_response(String::from("b"), Ok(true), failed), Ok(LookupStep::Continue)));
    assert_eq!(search.next_server().as_deref(), Some("c"));
    assert_eq!(search.next_server(), None);
}

#[test]
fn lookup_order_local_first() {
    assert_eq!(lookup_start(), LookupStage::Local);
    let client = get_client();
    match lookup_next(LookupFinding::Local(Some(client.clone()))) {
        LookupAction::Answer(body) => assert_eq!(body, LookupResponseBody::local(client, true)),
        LookupAction::Ask(_) => panic!("a local client is answered"),
    }
}

#[test]
fn lookup_order_remote_then_hint() {
    assert!(matches!(lookup_next(LookupFinding::Local(None)), LookupAction::Ask(LookupStage::Remote)));
    match lookup_next(LookupFinding::Remote(Some((get_client(), get_server())))) {
        LookupAction::Answer(LookupResponseBody::Remote { server, available, .. }) => {
            assert_eq!(server, get_server());
            assert!(available);
        },
        _ => panic!("a remote client is answered"),
    }
    assert!(matches!(lookup_next(LookupFinding::Remote(None)), LookupAction::Ask(LookupStage::Hint)));
    match lookup_next(LookupFinding::Hint(vec![get_server()])) {
        LookupAction::Answer(body) => assert_eq!(body, LookupResponseBody::hint(vec![get_server()])),
        LookupAction::Ask(_) => panic!("the hint is the last stage"),
    }
    match lookup_next(LookupFinding::Hint(vec![])) {
        LookupAction::Answer(body) => assert_eq!(body, LookupResponseBody::hint(vec![])),
        LookupAction::Ask(_) => panic!("an empty hint is answered too"),
    }
}

#[test]
fn announce_request_serialize() -> Result<(), AsJsonError> {
    let client = get_client();
    let request = AnnounceRequest::client(key(5), MIN_PROOF_SEED + 7, vec![3; 64], client.clone(), get_server());
    assert_eq!(request.0.proof_seed, MIN_PROOF_SEED + 7);
    assert_eq!(request.0.request, AnnounceRequestBody::client(client, get_server()));
    assert_eq!(AnnounceRequest::from_json(&request.to_json()?)?, request);
    let request = AnnounceRequest::server(key(6), MIN_PROOF_SEED, vec![], get_server());
    assert_eq!(request.0.standard, 1);
    assert_eq!(AnnounceRequest::from_json(&request.to_json()?)?, request);
    assert_eq!(request.validate(Ok(true)), Ok(true));
    Ok(())
}

#[test]
fn announce_response_serialize() -> Result<(), AsJsonError> {
    let response = AnnounceResponse::success(ResponseStatus::Success, key(7), vec![1; 64]);
    assert_eq!(AnnounceResponse::from_json(&response.to_json()?)?, response);
    assert_eq!(response.validate(MIN_PROOF_SEED - 1, Ok(true)), Err(ValidationError::InvalidSeed));
    let response = AnnounceResponse::error(ResponseStatus::ServerError, "nope");
    assert_eq!(AnnounceResponse::from_json(&response.to_json()?)?, response);
    assert_eq!(response.validate(0, Ok(false)), Ok(true));
    Ok(())
}
