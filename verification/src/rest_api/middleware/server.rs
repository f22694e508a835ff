//! The decisions that a server takes on the requests it receives.

use vstd::prelude::*;

use crate::crypto::cryptography_error_text;
use crate::rest_api::ValidationError;
use crate::rest_api::requests::ConnectRequest;
use crate::rest_api::requests::lookup::{LookupResponseBody, LookupView};
use crate::rest_api::status::ResponseStatus;
use crate::rest_api::types::{Client, Server};
use crate::rest_api::views;
use crate::text::owned;

verus! {

/// The text of a validation error.
pub open spec fn validation_error_text(e: ValidationError) -> Seq<char> {
    match e {
        ValidationError::InvalidSeed => "Proof seed must be a 64 bit long unsigned integer"@,
        ValidationError::CryptographyError(c) => cryptography_error_text(c),
    }
}

/// Describe a validation error.
pub fn describe_validation_error(e: ValidationError) -> (text: &'static str)
    ensures
        text@ == validation_error_text(e),
{
    match e {
        ValidationError::InvalidSeed => "Proof seed must be a 64 bit long unsigned integer",
        ValidationError::CryptographyError(c) => c.describe(),
    }
}

/// The error answer that a server gives to a request validated as `validated`,
/// or `None` when the request is accepted: a failed validation is a server error,
/// a request that does not validate is refused.
pub open spec fn refusal_of(validated: Result<bool, ValidationError>) -> Option<(ResponseStatus, Seq<char>)> {
    match validated {
        Err(e) => Some(
            (
                ResponseStatus::ServerError,
                "An error occured during request validation: "@ + validation_error_text(e),
            ),
        ),
        Ok(false) => Some((ResponseStatus::RequestValidationFailed, "Request validation failed"@)),
        Ok(true) => None,
    }
}

/// The error answer to a request validated as `validated`, if it is refused.
pub fn refusal(validated: Result<bool, ValidationError>) -> (answer: Option<(ResponseStatus, String)>)
    ensures
        match (answer, refusal_of(validated)) {
            (Some((status, reason)), Some((s, r))) => status == s && reason@ == r,
            (None, None) => true,
            _ => false,
        },
{
    match validated {
        Err(e) => {
            let mut reason = owned("An error occured during request validation: ");
            reason.append(describe_validation_error(e));
            Some((ResponseStatus::ServerError, reason))
        },
        Ok(false) => Some((ResponseStatus::RequestValidationFailed, owned("Request validation failed"))),
        Ok(true) => None,
    }
}

/// The record under which a server indexes a client that connected with `request`.
pub fn client_record(request: ConnectRequest) -> (client: Client)
    ensures
        client@ == (request.0.public_key@, request.0.request.certificate@, request.0.request.client@),
{
    Client::new(request.0.public_key, request.0.request.certificate, request.0.request.client)
}

/// Where a server looks for a client it is asked for, in this order: among its
/// own clients, among the clients it knows to be connected to other servers, and
/// for servers that may know the client.
#[derive(Debug, Clone, Copy, PartialEq, Eq, Hash)]
pub enum LookupStage {
    Local,
    Remote,
    Hint,
}

/// What a server's records gave at a stage of a lookup.
pub enum LookupFinding {
    Local(Option<Client>),
    Remote(Option<(Client, Server)>),
    Hint(Vec<Server>),
}

/// What a server does next in a lookup: answer, or look at another stage.
pub enum LookupAction {
    Answer(LookupResponseBody),
    Ask(LookupStage),
}

/// The stage at which a lookup starts.
pub fn lookup_start() -> (stage: LookupStage)
    ensures
        stage == LookupStage::Local,
{
    LookupStage::Local
}

/// The next step of a lookup after `finding`: a client found among the server's
/// own clients or connected elsewhere is answered as available; otherwise the
/// next stage is asked; the servers found at the last stage are the answer.
pub fn lookup_next(finding: LookupFinding) -> (action: LookupAction)
    ensures
        match finding {
            LookupFinding::Local(Some(client)) => action matches LookupAction::Answer(body)
                && body@ == (LookupView::Local { client: client@, available: true }),
            LookupFinding::Local(None) => action == LookupAction::Ask(LookupStage::Remote),
            LookupFinding::Remote(Some((client, server))) => action matches LookupAction::Answer(body)
                && body@ == (LookupView::Remote { client: client@, server: server@, available: true }),
            LookupFinding::Remote(None) => action == LookupAction::Ask(LookupStage::Hint),
            LookupFinding::Hint(servers) => action matches LookupAction::Answer(body)
                && body@ == (LookupView::Hint { servers: views(servers@) }),
        },
{
    match finding {
        LookupFinding::Local(Some(client)) => LookupAction::Answer(LookupResponseBody::local(client, true)),
        LookupFinding::Local(None) => LookupAction::Ask(LookupStage::Remote),
        LookupFinding::Remote(Some((client, server))) => LookupAction::Answer(
            LookupResponseBody::remote(client, server, true),
        ),
        LookupFinding::Remote(None) => LookupAction::Ask(LookupStage::Hint),
        LookupFinding::Hint(servers) => LookupAction::Answer(LookupResponseBody::hint(servers)),
    }
}

} // verus!
