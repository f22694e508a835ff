//! Polling the messages of a channel.

use vstd::prelude::*;

pub mod request;
pub mod response;

pub use request::PollRequestBody;
pub use response::PollResponseBody;

use crate::crypto::{CryptographyError, PublicKey};
use crate::rest_api::{AsJson, AsJsonError, JsonError, ValidationError};
use crate::rest_api::json::{Json, JsonValue};
use crate::rest_api::request::{Request, MIN_PROOF_SEED, proof_validation};
use crate::rest_api::response::Response;
use crate::rest_api::status::ResponseStatus;
use crate::STANDARD_VERSION;

verus! {

/// Request to take the messages of a channel.
#[derive(Debug, Clone, PartialEq, Eq, Hash)]
pub struct PollRequest(pub Request<PollRequestBody>);

impl View for PollRequest {
    type V = <Request<PollRequestBody> as View>::V;

    open spec fn view(&self) -> Self::V {
        self.0@
    }
}

impl PollRequest {
    /// A request from the sender with `public_key`; `proof_seed` is a random seed
    /// of at least `2^63` and `proof_sign` the sender's signature of
    /// `proof_bytes(proof_seed)`.
    pub fn new(public_key: PublicKey, proof_seed: u64, proof_sign: Vec<u8>, channel: &str, limit: Option<u64>) -> (request: Self)
        requires
            proof_seed >= MIN_PROOF_SEED,
        ensures
            request.0.standard == STANDARD_VERSION,
            request.0.public_key@ == public_key@,
            request.0.proof_seed == proof_seed,
            request.0.proof_sign@ == proof_sign@,
            request.0.request@ == (channel@, limit),
    {
        PollRequest(Request::new(public_key, proof_seed, proof_sign, PollRequestBody::new(channel, limit)))
    }

    /// Validate the request's header; `signature_check` is the outcome of
    /// checking its proof signature.
    pub fn validate(&self, signature_check: Result<bool, CryptographyError>) -> (valid: Result<
        bool,
        ValidationError,
    >)
        ensures
            valid == proof_validation(self.0.proof_seed, signature_check),
    {
        self.0.validate(signature_check)
    }
}

impl AsJson for PollRequest {
    open spec fn json_valid(value: Self::V) -> bool {
        <Request<PollRequestBody> as AsJson>::json_valid(value)
    }

    open spec fn json_written(value: Self::V) -> Result<JsonValue, JsonError> {
        <Request<PollRequestBody> as AsJson>::json_written(value)
    }

    open spec fn json_read(json: JsonValue) -> Result<Self::V, JsonError> {
        <Request<PollRequestBody> as AsJson>::json_read(json)
    }

    fn to_json(&self) -> (json: Result<Json, AsJsonError>) {
        self.0.to_json()
    }

    fn from_json(json: &Json) -> (value: Result<Self, AsJsonError>) {
        match <Request<PollRequestBody> as AsJson>::from_json(json) {
            Ok(inner) => Ok(PollRequest(inner)),
            Err(e) => Err(e),
        }
    }
}

/// Response of a server to a poll request.
#[derive(Debug, Clone, PartialEq, Eq, Hash)]
pub struct PollResponse(pub Response<PollResponseBody>);

impl View for PollResponse {
    type V = <Response<PollResponseBody> as View>::V;

    open spec fn view(&self) -> Self::V {
        self.0@
    }
}

impl PollResponse {
    /// A successful response from the server with `public_key`; `proof` is the
    /// server's signature of the request's `proof_bytes(proof_seed)`.
    pub fn success(status: ResponseStatus, public_key: PublicKey, proof: Vec<u8>, response_body: PollResponseBody) -> (response: Self)
        ensures
            response.0 matches Response::Success { standard, status: s, public_key: k, proof_sign, response: b }
                && standard == STANDARD_VERSION && s == status && k@ == public_key@ && proof_sign@
                == proof@ && b == response_body,
    {
        PollResponse(Response::success(status, public_key, proof, response_body))
    }

    /// An error response explaining itself by `reason`.
    pub fn error(status: ResponseStatus, reason: &str) -> (response: Self)
        ensures
            response.0 matches Response::Error { standard, status: s, reason: text } && standard
                == STANDARD_VERSION && s == status && text@ == reason@,
    {
        PollResponse(Response::error(status, reason))
    }

    /// Validate the response for a request whose proof seed was `proof_seed`
    /// (error responses are always valid).
    pub fn validate(&self, proof_seed: u64, signature_check: Result<bool, CryptographyError>) -> (valid: Result<
        bool,
        ValidationError,
    >)
        ensures
            self.0 is Success ==> valid == proof_validation(proof_seed, signature_check),
            self.0 is Error ==> valid == Ok::<bool, ValidationError>(true),
    {
        self.0.validate(proof_seed, signature_check)
    }
}

impl AsJson for PollResponse {
    open spec fn json_valid(value: Self::V) -> bool {
        <Response<PollResponseBody> as AsJson>::json_valid(value)
    }

    open spec fn json_written(value: Self::V) -> Result<JsonValue, JsonError> {
        <Response<PollResponseBody> as AsJson>::json_written(value)
    }

    open spec fn json_read(json: JsonValue) -> Result<Self::V, JsonError> {
        <Response<PollResponseBody> as AsJson>::json_read(json)
    }

    fn to_json(&self) -> (json: Result<Json, AsJsonError>) {
        self.0.to_json()
    }

    fn from_json(json: &Json) -> (value: Result<Self, AsJsonError>) {
        match <Response<PollResponseBody> as AsJson>::from_json(json) {
            Ok(inner) => Ok(PollResponse(inner)),
            Err(e) => Err(e),
        }
    }
}

} // verus!
