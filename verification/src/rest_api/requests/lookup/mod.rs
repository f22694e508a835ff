//! Looking a client up.

use vstd::prelude::*;

pub mod request;
pub mod response;

pub use request::LookupRequestBody;
pub use response::{LookupResponseBody, LookupView};

use crate::crypto::{CryptographyError, PublicKey};
use crate::rest_api::{AsJson, AsJsonError, JsonError, ValidationError};
use crate::rest_api::json::{Json, JsonValue};
use crate::rest_api::request::{Request, MIN_PROOF_SEED, proof_validation};
use crate::rest_api::response::Response;
use crate::rest_api::status::ResponseStatus;
use crate::STANDARD_VERSION;
use crate::rest_api::types::ClientType;

verus! {

/// Request to look a client up.
#[derive(Debug, Clone, PartialEq, Eq, Hash)]
pub struct LookupRequest(pub Request<LookupRequestBody>);

impl View for LookupRequest {
    type V = <Request<LookupRequestBody> as View>::V;

    open spec fn view(&self) -> Self::V {
        self.0@
    }
}

impl LookupRequest {
    /// The client that the request looks for: its key and the type asked for.
    pub fn query(&self) -> (query: (&PublicKey, Option<ClientType>))
        ensures
            query.0@ == self.0.request.public_key@,
            query.1 == self.0.request.client_type,
    {
        (&self.0.request.public_key, self.0.request.client_type)
    }

    /// A request from the sender with `public_key`; `proof_seed` is a random seed
    /// of at least `2^63` and `proof_sign` the sender's signature of
    /// `proof_bytes(proof_seed)`.
    pub fn new(public_key: PublicKey, proof_seed: u64, proof_sign: Vec<u8>, lookup_client_public: PublicKey, lookup_client_type: Option<ClientType>) -> (request: Self)
        requires
            proof_seed >= MIN_PROOF_SEED,
        ensures
            request.0.standard == STANDARD_VERSION,
            request.0.public_key@ == public_key@,
            request.0.proof_seed == proof_seed,
            request.0.proof_sign@ == proof_sign@,
            request.0.request@ == (lookup_client_public@, lookup_client_type),
    {
        LookupRequest(Request::new(public_key, proof_seed, proof_sign, LookupRequestBody::new(lookup_client_public, lookup_client_type)))
    }

    /// Validate the request's header; `signature_check` is the outcome of
    /// checking its proof signature.
    pub fn validate(&self, signature_check: Result<bool, CryptographyError>) -> (valid: Result<
        bool,
        ValidationError,
    >)
        ensures
            valid == proof_validation(self.0.proof_seed, signature_check),
    {
        self.0.validate(signature_check)
    }
}

impl AsJson for LookupRequest {
    open spec fn json_valid(value: Self::V) -> bool {
        <Request<LookupRequestBody> as AsJson>::json_valid(value)
    }

    open spec fn json_written(value: Self::V) -> Result<JsonValue, JsonError> {
        <Request<LookupRequestBody> as AsJson>::json_written(value)
    }

    open spec fn json_read(json: JsonValue) -> Result<Self::V, JsonError> {
        <Request<LookupRequestBody> as AsJson>::json_read(json)
    }

    fn to_json(&self) -> (json: Result<Json, AsJsonError>) {
        self.0.to_json()
    }

    fn from_json(json: &Json) -> (value: Result<Self, AsJsonError>) {
        match <Request<LookupRequestBody> as AsJson>::from_json(json) {
            Ok(inner) => Ok(LookupRequest(inner)),
            Err(e) => Err(e),
        }
    }
}

/// Response of a server to a lookup request.
#[derive(Debug, Clone, PartialEq, Eq, Hash)]
pub struct LookupResponse(pub Response<LookupResponseBody>);

impl View for LookupResponse {
    type V = <Response<LookupResponseBody> as View>::V;

    open spec fn view(&self) -> Self::V {
        self.0@
    }
}

impl LookupResponse {
    /// A successful response from the server with `public_key`; `proof` is the
    /// server's signature of the request's `proof_bytes(proof_seed)`.
    pub fn success(status: ResponseStatus, public_key: PublicKey, proof: Vec<u8>, response_body: LookupResponseBody) -> (response: Self)
        ensures
            response.0 matches Response::Success { standard, status: s, public_key: k, proof_sign, response: b }
                && standard == STANDARD_VERSION && s == status && k@ == public_key@ && proof_sign@
                == proof@ && b == response_body,
    {
        LookupResponse(Response::success(status, public_key, proof, response_body))
    }

    /// An error response explaining itself by `reason`.
    pub fn error(status: ResponseStatus, reason: &str) -> (response: Self)
        ensures
            response.0 matches Response::Error { standard, status: s, reason: text } && standard
                == STANDARD_VERSION && s == status && text@ == reason@,
    {
        LookupResponse(Response::error(status, reason))
    }

    /// Validate the response for a request whose proof seed was `proof_seed`
    /// (error responses are always valid).
    pub fn validate(&self, proof_seed: u64, signature_check: Result<bool, CryptographyError>) -> (valid: Result<
        bool,
        ValidationError,
    >)
        ensures
            self.0 is Success ==> valid == proof_validation(proof_seed, signature_check),
            self.0 is Error ==> valid == Ok::<bool, ValidationError>(true),
    {
        self.0.validate(proof_seed, signature_check)
    }
}

impl AsJson for LookupResponse {
    open spec fn json_valid(value: Self::V) -> bool {
        <Response<LookupResponseBody> as AsJson>::json_valid(value)
    }

    open spec fn json_written(value: Self::V) -> Result<JsonValue, JsonError> {
        <Response<LookupResponseBody> as AsJson>::json_written(value)
    }

    open spec fn json_read(json: JsonValue) -> Result<Self::V, JsonError> {
        <Response<LookupResponseBody> as AsJson>::json_read(json)
    }

    fn to_json(&self) -> (json: Result<Json, AsJsonError>) {
        self.0.to_json()
    }

    fn from_json(json: &Json) -> (value: Result<Self, AsJsonError>) {
        match <Response<LookupResponseBody> as AsJson>::from_json(json) {
            Ok(inner) => Ok(LookupResponse(inner)),
            Err(e) => Err(e),
        }
    }
}

} // verus!
