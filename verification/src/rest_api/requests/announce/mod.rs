//! Announcing clients and servers.

use vstd::prelude::*;

pub mod request;
pub mod response;

pub use request::{AnnounceRequestBody, AnnounceView};
pub use response::AnnounceResponseBody;

use crate::crypto::{CryptographyError, PublicKey};
use crate::rest_api::{AsJson, AsJsonError, JsonError, ValidationError};
use crate::rest_api::json::{Json, JsonValue};
use crate::rest_api::request::{Request, MIN_PROOF_SEED, proof_validation};
use crate::rest_api::response::Response;
use crate::rest_api::status::ResponseStatus;
use crate::STANDARD_VERSION;
use crate::rest_api::types::{Client, Server};

verus! {

/// Request announcing a client or a server to another server.
#[derive(Debug, Clone, PartialEq, Eq, Hash)]
pub struct AnnounceRequest(pub Request<AnnounceRequestBody>);

impl View for AnnounceRequest {
    type V = <Request<AnnounceRequestBody> as View>::V;

    open spec fn view(&self) -> Self::V {
        self.0@
    }
}

impl AnnounceRequest {
    /// A request from the client with `public_key` announcing itself as `client`,
    /// connected to `server`; `proof_seed` is a random seed of at least `2^63` and
    /// `proof_sign` the client's signature of `proof_bytes(proof_seed)`.
    pub fn client(public_key: PublicKey, proof_seed: u64, proof_sign: Vec<u8>, client: Client, server: Server) -> (request: Self)
        requires
            proof_seed >= MIN_PROOF_SEED,
        ensures
            request.0.standard == STANDARD_VERSION,
            request.0.public_key@ == public_key@,
            request.0.proof_seed == proof_seed,
            request.0.proof_sign@ == proof_sign@,
            request.0.request@ == (AnnounceView::Client { client: client@, server: server@ }),
    {
        AnnounceRequest(Request::new(public_key, proof_seed, proof_sign, AnnounceRequestBody::client(client, server)))
    }

    /// A request from the server with `public_key` announcing `server`;
    /// `proof_seed` is a random seed of at least `2^63` and `proof_sign` the
    /// server's signature of `proof_bytes(proof_seed)`.
    pub fn server(public_key: PublicKey, proof_seed: u64, proof_sign: Vec<u8>, server: Server) -> (request: Self)
        requires
            proof_seed >= MIN_PROOF_SEED,
        ensures
            request.0.standard == STANDARD_VERSION,
            request.0.public_key@ == public_key@,
            request.0.proof_seed == proof_seed,
            request.0.proof_sign@ == proof_sign@,
            request.0.request@ == (AnnounceView::Server { server: server@ }),
    {
        AnnounceRequest(Request::new(public_key, proof_seed, proof_sign, AnnounceRequestBody::server(server)))
    }

    /// Validate the request's header; `signature_check` is the outcome of
    /// checking its proof signature.
    pub fn validate(&self, signature_check: Result<bool, CryptographyError>) -> (valid: Result<
        bool,
        ValidationError,
    >)
        ensures
            valid == proof_validation(self.0.proof_seed, signature_check),
    {
        self.0.validate(signature_check)
    }
}

impl AsJson for AnnounceRequest {
    open spec fn json_valid(value: Self::V) -> bool {
        <Request<AnnounceRequestBody> as AsJson>::json_valid(value)
    }

    open spec fn json_written(value: Self::V) -> Result<JsonValue, JsonError> {
        <Request<AnnounceRequestBody> as AsJson>::json_written(value)
    }

    open spec fn json_read(json: JsonValue) -> Result<Self::V, JsonError> {
        <Request<AnnounceRequestBody> as AsJson>::json_read(json)
    }

    fn to_json(&self) -> (json: Result<Json, AsJsonError>) {
        self.0.to_json()
    }

    fn from_json(json: &Json) -> (value: Result<Self, AsJsonError>) {
        match <Request<AnnounceRequestBody> as AsJson>::from_json(json) {
            Ok(inner) => Ok(AnnounceRequest(inner)),
            Err(e) => Err(e),
        }
    }
}

/// Response of a server to an announcement.
#[derive(Debug, Clone, PartialEq, Eq, Hash)]
pub struct AnnounceResponse(pub Response<AnnounceResponseBody>);

impl View for AnnounceResponse {
    type V = <Response<AnnounceResponseBody> as View>::V;

    open spec fn view(&self) -> Self::V {
        self.0@
    }
}

impl AnnounceResponse {
    /// A successful response from the server with `public_key`; `proof` is the
    /// server's signature of the request's `proof_bytes(proof_seed)`.
    pub fn success(status: ResponseStatus, public_key: PublicKey, proof: Vec<u8>) -> (response: Self)
        ensures
            response.0 matches Response::Success { standard, status: s, public_key: k, proof_sign, response: b }
                && standard == STANDARD_VERSION && s == status && k@ == public_key@ && proof_sign@
                == proof@ && b == AnnounceResponseBody,
    {
        AnnounceResponse(Response::success(status, public_key, proof, AnnounceResponseBody::new()))
    }

    /// An error response explaining itself by `reason`.
    pub fn error(status: ResponseStatus, reason: &str) -> (response: Self)
        ensures
            response.0 matches Response::Error { standard, status: s, reason: text } && standard
                == STANDARD_VERSION && s == status && text@ == reason@,
    {
        AnnounceResponse(Response::error(status, reason))
    }

    /// Validate the response for a request whose proof seed was `proof_seed`
    /// (error responses are always valid).
    pub fn validate(&self, proof_seed: u64, signature_check: Result<bool, CryptographyError>) -> (valid: Result<
        bool,
        ValidationError,
    >)
        ensures
            self.0 is Success ==> valid == proof_validation(proof_seed, signature_check),
            self.0 is Error ==> valid == Ok::<bool, ValidationError>(true),
    {
        self.0.validate(proof_seed, signature_check)
    }
}

impl AsJson for AnnounceResponse {
    open spec fn json_valid(value: Self::V) -> bool {
        <Response<AnnounceResponseBody> as AsJson>::json_valid(value)
    }

    open spec fn json_written(value: Self::V) -> Result<JsonValue, JsonError> {
        <Response<AnnounceResponseBody> as AsJson>::json_written(value)
    }

    open spec fn json_read(json: JsonValue) -> Result<Self::V, JsonError> {
        <Response<AnnounceResponseBody> as AsJson>::json_read(json)
    }

    fn to_json(&self) -> (json: Result<Json, AsJsonError>) {
        self.0.to_json()
    }

    fn from_json(json: &Json) -> (value: Result<Self, AsJsonError>) {
        match <Response<AnnounceResponseBody> as AsJson>::from_json(json) {
            Ok(inner) => Ok(AnnounceResponse(inner)),
            Err(e) => Err(e),
        }
    }
}

} // verus!
