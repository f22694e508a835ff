//! The decisions that clients and servers take on each other's requests and answers.

use vstd::prelude::*;

use crate::crypto::CryptographyError;
use crate::rest_api::ValidationError;
use crate::rest_api::status::ResponseStatus;

pub mod client;
pub mod server;

pub use client::{ConnectedClient, LookupSearch, LookupStep, response_outcome, validation_outcome};
pub use server::{refusal, client_record, lookup_start, lookup_next, LookupStage, LookupFinding, LookupAction};

verus! {

/// Errors of the client's exchanges with servers.
#[derive(Debug, Clone, PartialEq, Eq)]
pub enum MiddlewareError {
    /// The proof seed is invalid.
    InvalidProofSeed,
    /// The server's signature of the proof seed does not match.
    InvalidProofSeedSignature,
    /// A key was refused.
    CryptographyError(CryptographyError),
    /// The validation of a response failed.
    SignatureValidationError(ValidationError),
    /// The server answered with an error.
    RequestFailed { status: ResponseStatus, reason: String },
    /// Any other failure, described by a text.
    Other(String),
}

} // verus!
