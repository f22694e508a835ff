//! Response status codes of the protocol.

use vstd::prelude::*;

verus! {

/// Status of a protocol response.
#[derive(Debug, Clone, Copy, PartialEq, Eq, Hash, Structural)]
pub enum ResponseStatus {
    /// Success - 100
    Success,
    /// Server error - 200
    ServerError,
    /// Protocol error - 300
    InvalidRequestStructure,
    /// Protocol error - 301
    RequestValidationFailed,
    /// Protocol error - 310
    ClientLookupTimeout,
    /// Protocol error - 311
    ClientNotFound,
    /// Protocol error - 320
    ClientNotConnected,
    /// Protocol error - 321
    ClientInboxFull,
    /// Protocol error - 322
    MessageTooLarge,
}

/// The numeric code of each status.
pub open spec fn status_code(status: ResponseStatus) -> u64 {
    match status {
        ResponseStatus::Success => 100,
        ResponseStatus::ServerError => 200,
        ResponseStatus::InvalidRequestStructure => 300,
        ResponseStatus::RequestValidationFailed => 301,
        ResponseStatus::ClientLookupTimeout => 310,
        ResponseStatus::ClientNotFound => 311,
        ResponseStatus::ClientNotConnected => 320,
        ResponseStatus::ClientInboxFull => 321,
        ResponseStatus::MessageTooLarge => 322,
    }
}

/// The status that a code stands for, if any.
pub open spec fn status_of_code(code: u64) -> Option<ResponseStatus> {
    if code == 100 {
        Some(ResponseStatus::Success)
    } else if code == 200 {
        Some(ResponseStatus::ServerError)
    } else if code == 300 {
        Some(ResponseStatus::InvalidRequestStructure)
    } else if code == 301 {
        Some(ResponseStatus::RequestValidationFailed)
    } else if code == 310 {
        Some(ResponseStatus::ClientLookupTimeout)
    } else if code == 311 {
        Some(ResponseStatus::ClientNotFound)
    } else if code == 320 {
        Some(ResponseStatus::ClientNotConnected)
    } else if code == 321 {
        Some(ResponseStatus::ClientInboxFull)
    } else if code == 322 {
        Some(ResponseStatus::MessageTooLarge)
    } else {
        None
    }
}

/// A status is a success when its code lies in `100..200`.
pub open spec fn status_is_success(status: ResponseStatus) -> bool {
    100 <= status_code(status) < 200
}

impl ResponseStatus {
    /// The status that a numeric code stands for.
    pub fn from_code(code: u64) -> (status: Option<Self>)
        ensures
            status == status_of_code(code),
    {
        if code == 100 {
            Some(Self::Success)
        } else if code == 200 {
            Some(Self::ServerError)
        } else if code == 300 {
            Some(Self::InvalidRequestStructure)
        } else if code == 301 {
            Some(Self::RequestValidationFailed)
        } else if code == 310 {
            Some(Self::ClientLookupTimeout)
        } else if code == 311 {
            Some(Self::ClientNotFound)
        } else if code == 320 {
            Some(Self::ClientNotConnected)
        } else if code == 321 {
            Some(Self::ClientInboxFull)
        } else if code == 322 {
            Some(Self::MessageTooLarge)
        } else {
            None
        }
    }

    /// The numeric code of the status.
    pub fn to_code(&self) -> (code: u64)
        ensures
            code == status_code(*self),
    {
        match self {
            Self::Success => 100,
            Self::ServerError => 200,
            Self::InvalidRequestStructure => 300,
            Self::RequestValidationFailed => 301,
            Self::ClientLookupTimeout => 310,
            Self::ClientNotFound => 311,
            Self::ClientNotConnected => 320,
            Self::ClientInboxFull => 321,
            Self::MessageTooLarge => 322,
        }
    }

    /// Whether the status reports success (its code lies in `100..200`).
    pub fn is_success(&self) -> (success: bool)
        ensures
            success == status_is_success(*self),
            success <==> *self == ResponseStatus::Success,
    {
        let code = self.to_code();
        100 <= code && code < 200
    }
}

/// Reading back the code of a status gives the status.
pub proof fn lemma_status_code_roundtrip(status: ResponseStatus)
    ensures
        status_of_code(status_code(status)) == Some(status),
{
}

/// A code that stands for a status is that status's code.
pub proof fn lemma_code_status_roundtrip(code: u64)
    ensures
        status_of_code(code) matches Some(status) ==> status_code(status) == code,
{
}

/// Distinct statuses have distinct codes.
pub proof fn lemma_status_code_injective(a: ResponseStatus, b: ResponseStatus)
    requires
        status_code(a) == status_code(b),
    ensures
        a == b,
{
    lemma_status_code_roundtrip(a);
    lemma_status_code_roundtrip(b);
}

} // verus!
