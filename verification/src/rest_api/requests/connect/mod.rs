//! Connection of a client to a server.

use vstd::prelude::*;

pub mod request;
pub mod response;

pub use request::ConnectRequestBody;
pub use response::ConnectResponseBody;

use crate::crypto::{CryptographyError, PublicKey};
use crate::rest_api::{AsJson, AsJsonError, JsonError, ValidationError};
use crate::rest_api::json::{Json, JsonValue};
use crate::rest_api::request::{Request, MIN_PROOF_SEED, proof_validation};
use crate::rest_api::response::Response;
use crate::rest_api::status::ResponseStatus;
use crate::STANDARD_VERSION;
use crate::rest_api::types::{ClientInfo, ConnectionCertificate};
use crate::rest_api::types::connection_certificate::certificate_validation;
use crate::rest_api::types::connection_token::token_bytes;

verus! {

/// Request of a client to connect to a server.
#[derive(Debug, Clone, PartialEq, Eq, Hash)]
pub struct ConnectRequest(pub Request<ConnectRequestBody>);

impl View for ConnectRequest {
    type V = <Request<ConnectRequestBody> as View>::V;

    open spec fn view(&self) -> Self::V {
        self.0@
    }
}

impl ConnectRequest {
    /// What checking the client's certificate takes: the client's key (that of
    /// the header), the bytes of the certificate's token and its signature.
    pub fn certificate_to_check(&self) -> (check: (&PublicKey, Vec<u8>, &Vec<u8>))
        ensures
            check.0@ == self.0.public_key@,
            check.1@ == token_bytes(self.0.request.certificate.token.auth_date, self.0.request.certificate.token.public_key@),
            check.2@ == self.0.request.certificate.sign@,
    {
        (&self.0.public_key, self.0.request.certificate.signed_bytes(), &self.0.request.certificate.sign)
    }

    /// A request from the sender with `public_key`; `proof_seed` is a random seed
    /// of at least `2^63` and `proof_sign` the sender's signature of
    /// `proof_bytes(proof_seed)`.
    pub fn new(public_key: PublicKey, proof_seed: u64, proof_sign: Vec<u8>, certificate: ConnectionCertificate, client: ClientInfo) -> (request: Self)
        requires
            proof_seed >= MIN_PROOF_SEED,
        ensures
            request.0.standard == STANDARD_VERSION,
            request.0.public_key@ == public_key@,
            request.0.proof_seed == proof_seed,
            request.0.proof_sign@ == proof_sign@,
            request.0.request@ == (certificate@, client@),
    {
        ConnectRequest(Request::new(public_key, proof_seed, proof_sign, ConnectRequestBody::new(certificate, client)))
    }

    /// Validate the request's header and the client's certificate for the server
    /// with key `server_public`; `signature_check` is the outcome of checking the
    /// header's proof signature, `certificate_check` that of checking the
    /// certificate's signature with the header's key. The certificate is looked
    /// at only when the header is valid.
    pub fn validate(
        &self,
        server_public: &PublicKey,
        signature_check: Result<bool, CryptographyError>,
        certificate_check: Result<bool, CryptographyError>,
    ) -> (valid: Result<bool, ValidationError>)
        ensures
            valid == (match proof_validation(self.0.proof_seed, signature_check) {
                Err(e) => Err(e),
                Ok(false) => Ok(false),
                Ok(true) => match certificate_validation(
                    self.0.request.certificate.token.public_key@,
                    server_public@,
                    certificate_check,
                ) {
                    Ok(b) => Ok(b),
                    Err(e) => Err(ValidationError::CryptographyError(e)),
                },
            }),
    {
        if !self.0.validate(signature_check)? {
            return Ok(false);
        }
        match self.0.request.certificate.validate(server_public, certificate_check) {
            Ok(b) => Ok(b),
            Err(e) => Err(ValidationError::CryptographyError(e)),
        }
    }
}

impl AsJson for ConnectRequest {
    open spec fn json_valid(value: Self::V) -> bool {
        <Request<ConnectRequestBody> as AsJson>::json_valid(value)
    }

    open spec fn json_written(value: Self::V) -> Result<JsonValue, JsonError> {
        <Request<ConnectRequestBody> as AsJson>::json_written(value)
    }

    open spec fn json_read(json: JsonValue) -> Result<Self::V, JsonError> {
        <Request<ConnectRequestBody> as AsJson>::json_read(json)
    }

    fn to_json(&self) -> (json: Result<Json, AsJsonError>) {
        self.0.to_json()
    }

    fn from_json(json: &Json) -> (value: Result<Self, AsJsonError>) {
        match <Request<ConnectRequestBody> as AsJson>::from_json(json) {
            Ok(inner) => Ok(ConnectRequest(inner)),
            Err(e) => Err(e),
        }
    }
}

/// Response of a server to a connection request.
#[derive(Debug, Clone, PartialEq, Eq, Hash)]
pub struct ConnectResponse(pub Response<ConnectResponseBody>);

impl View for ConnectResponse {
    type V = <Response<ConnectResponseBody> as View>::V;

    open spec fn view(&self) -> Self::V {
        self.0@
    }
}

impl ConnectResponse {
    /// A successful response from the server with `public_key`; `proof` is the
    /// server's signature of the request's `proof_bytes(proof_seed)`.
    pub fn success(status: ResponseStatus, public_key: PublicKey, proof: Vec<u8>) -> (response: Self)
        ensures
            response.0 matches Response::Success { standard, status: s, public_key: k, proof_sign, response: b }
                && standard == STANDARD_VERSION && s == status && k@ == public_key@ && proof_sign@
                == proof@ && b == ConnectResponseBody,
    {
        ConnectResponse(Response::success(status, public_key, proof, ConnectResponseBody::new()))
    }

    /// An error response explaining itself by `reason`.
    pub fn error(status: ResponseStatus, reason: &str) -> (response: Self)
        ensures
            response.0 matches Response::Error { standard, status: s, reason: text } && standard
                == STANDARD_VERSION && s == status && text@ == reason@,
    {
        ConnectResponse(Response::error(status, reason))
    }

    /// Validate the response for a request whose proof seed was `proof_seed`
    /// (error responses are always valid).
    pub fn validate(&self, proof_seed: u64, signature_check: Result<bool, CryptographyError>) -> (valid: Result<
        bool,
        ValidationError,
    >)
        ensures
            self.0 is Success ==> valid == proof_validation(proof_seed, signature_check),
            self.0 is Error ==> valid == Ok::<bool, ValidationError>(true),
    {
        self.0.validate(proof_seed, signature_check)
    }
}

impl AsJson for ConnectResponse {
    open spec fn json_valid(value: Self::V) -> bool {
        <Response<ConnectResponseBody> as AsJson>::json_valid(value)
    }

    open spec fn json_written(value: Self::V) -> Result<JsonValue, JsonError> {
        <Response<ConnectResponseBody> as AsJson>::json_written(value)
    }

    open spec fn json_read(json: JsonValue) -> Result<Self::V, JsonError> {
        <Response<ConnectResponseBody> as AsJson>::json_read(json)
    }

    fn to_json(&self) -> (json: Result<Json, AsJsonError>) {
        self.0.to_json()
    }

    fn from_json(json: &Json) -> (value: Result<Self, AsJsonError>) {
        match <Response<ConnectResponseBody> as AsJson>::from_json(json) {
            Ok(inner) => Ok(ConnectResponse(inner)),
            Err(e) => Err(e),
        }
    }
}

} // verus!
