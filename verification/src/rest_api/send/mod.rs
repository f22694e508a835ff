//! Sending messages in the form of the first protocol version: text codecs,
//! message encodings and the send request.

use vstd::prelude::*;

pub mod text_encoding;
pub mod text_encryption;
pub mod text_compression;
pub mod message_encoding;
pub mod message;
pub mod request;

pub use text_encoding::TextEncoding;
pub use text_encryption::TextEncryption;
pub use text_compression::TextCompression;
pub use message_encoding::MessageEncoding;
pub use message::Message;
pub use request::SendRequestBody;
pub use crate::rest_api::types::Sender;
pub use crate::rest_api::requests::SendResponseBody;

use crate::crypto::{CryptographyError, PublicKey};
use crate::rest_api::{AsJson, AsJsonError, JsonError, ValidationError};
use crate::rest_api::json::{Json, JsonValue};
use crate::rest_api::request::{Request, MIN_PROOF_SEED, proof_validation};
use crate::rest_api::response::Response;
use crate::rest_api::status::ResponseStatus;
use crate::STANDARD_VERSION;

verus! {

/// Errors of message encodings and messages.
#[derive(Debug, Clone, PartialEq, Eq)]
pub enum SendError {
    /// The text names no message encoding; it holds the text.
    WrongMessageEncodingFormat(String),
    /// The message's signature does not match its content.
    InvalidMessageSignature,
    /// The text could not be decoded.
    TextDecodingError,
    /// The bytes could not be encrypted.
    TextEncryptionFailed,
    /// The bytes could not be decrypted.
    TextDecryptionFailed,
    /// The bytes could not be compressed.
    TextCompressionFailed,
    /// The bytes could not be decompressed.
    TextDecompressionFailed,
    /// A key was refused.
    CryptographyError(CryptographyError),
}

/// Request to send a message to a client.
#[derive(Debug, Clone, PartialEq, Eq, Hash)]
pub struct SendRequest(pub Request<SendRequestBody>);

impl View for SendRequest {
    type V = <Request<SendRequestBody> as View>::V;

    open spec fn view(&self) -> Self::V {
        self.0@
    }
}

impl SendRequest {
    /// A request from the sender with `public_key`; `proof_seed` is a random seed
    /// of at least `2^63` and `proof_sign` the sender's signature of
    /// `proof_bytes(proof_seed)`.
    pub fn new(public_key: PublicKey, proof_seed: u64, proof_sign: Vec<u8>, sender: Sender, receiver_public: PublicKey, channel: &str, message: Message) -> (request: Self)
        requires
            proof_seed >= MIN_PROOF_SEED,
        ensures
            request.0.standard == STANDARD_VERSION,
            request.0.public_key@ == public_key@,
            request.0.proof_seed == proof_seed,
            request.0.proof_sign@ == proof_sign@,
            request.0.request@ == (sender@, receiver_public@, channel@, message@),
    {
        SendRequest(Request::new(public_key, proof_seed, proof_sign, SendRequestBody::new(sender, receiver_public, channel, message)))
    }

    /// Validate the request's header; `signature_check` is the outcome of
    /// checking its proof signature.
    pub fn validate(&self, signature_check: Result<bool, CryptographyError>) -> (valid: Result<
        bool,
        ValidationError,
    >)
        ensures
            valid == proof_validation(self.0.proof_seed, signature_check),
    {
        self.0.validate(signature_check)
    }
}

impl AsJson for SendRequest {
    open spec fn json_valid(value: Self::V) -> bool {
        <Request<SendRequestBody> as AsJson>::json_valid(value)
    }

    open spec fn json_written(value: Self::V) -> Result<JsonValue, JsonError> {
        <Request<SendRequestBody> as AsJson>::json_written(value)
    }

    open spec fn json_read(json: JsonValue) -> Result<Self::V, JsonError> {
        <Request<SendRequestBody> as AsJson>::json_read(json)
    }

    fn to_json(&self) -> (json: Result<Json, AsJsonError>) {
        self.0.to_json()
    }

    fn from_json(json: &Json) -> (value: Result<Self, AsJsonError>) {
        match <Request<SendRequestBody> as AsJson>::from_json(json) {
            Ok(inner) => Ok(SendRequest(inner)),
            Err(e) => Err(e),
        }
    }
}

/// Response of a server to a send request.
#[derive(Debug, Clone, PartialEq, Eq, Hash)]
pub struct SendResponse(pub Response<SendResponseBody>);

impl View for SendResponse {
    type V = <Response<SendResponseBody> as View>::V;

    open spec fn view(&self) -> Self::V {
        self.0@
    }
}

impl SendResponse {
    /// A successful response from the server with `public_key`; `proof` is the
    /// server's signature of the request's `proof_bytes(proof_seed)`.
    pub fn success(status: ResponseStatus, public_key: PublicKey, proof: Vec<u8>) -> (response: Self)
        ensures
            response.0 matches Response::Success { standard, status: s, public_key: k, proof_sign, response: b }
                && standard == STANDARD_VERSION && s == status && k@ == public_key@ && proof_sign@
                == proof@ && b == SendResponseBody,
    {
        SendResponse(Response::success(status, public_key, proof, SendResponseBody::new()))
    }

    /// An error response explaining itself by `reason`.
    pub fn error(status: ResponseStatus, reason: &str) -> (response: Self)
        ensures
            response.0 matches Response::Error { standard, status: s, reason: text } && standard
                == STANDARD_VERSION && s == status && text@ == reason@,
    {
        SendResponse(Response::error(status, reason))
    }

    /// Validate the response for a request whose proof seed was `proof_seed`
    /// (error responses are always valid).
    pub fn validate(&self, proof_seed: u64, signature_check: Result<bool, CryptographyError>) -> (valid: Result<
        bool,
        ValidationError,
    >)
        ensures
            self.0 is Success ==> valid == proof_validation(proof_seed, signature_check),
            self.0 is Error ==> valid == Ok::<bool, ValidationError>(true),
    {
        self.0.validate(proof_seed, signature_check)
    }
}

impl AsJson for SendResponse {
    open spec fn json_valid(value: Self::V) -> bool {
        <Response<SendResponseBody> as AsJson>::json_valid(value)
    }

    open spec fn json_written(value: Self::V) -> Result<JsonValue, JsonError> {
        <Response<SendResponseBody> as AsJson>::json_written(value)
    }

    open spec fn json_read(json: JsonValue) -> Result<Self::V, JsonError> {
        <Response<SendResponseBody> as AsJson>::json_read(json)
    }

    fn to_json(&self) -> (json: Result<Json, AsJsonError>) {
        self.0.to_json()
    }

    fn from_json(json: &Json) -> (value: Result<Self, AsJsonError>) {
        match <Response<SendResponseBody> as AsJson>::from_json(json) {
            Ok(inner) => Ok(SendResponse(inner)),
            Err(e) => Err(e),
        }
    }
}

} // verus!
