use vstd::prelude::*;

use crate::crypto::CryptographyError;

verus! {

/// Errors of message encodings and messages.
#[derive(Debug, Clone, PartialEq, Eq)]
pub enum MessagesError {
    /// The text is not a message encoding format; it holds the text.
    WrongMessageEncodingFormat(String),
    /// The message's signature does not match its content.
    InvalidMessageSignature,
    /// An algorithm name or a key was refused.
    CryptographyError(CryptographyError),
}

} // verus!
