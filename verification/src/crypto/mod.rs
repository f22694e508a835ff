//! Key encodings and text codecs shared by the protocol's types.

use vstd::prelude::*;

pub mod base64_text;
pub mod public_key;
pub mod formats;

pub use base64_text::{base64_encode, base64_decode, base64_encoded, base64_decoded};
pub use public_key::{PublicKey, PUBLIC_KEY_LEN};
pub use formats::{Encoding, Encryption, Compression};

verus! {

#[verifier::external_type_specification]
#[verifier::external_body]
pub struct ExAeadError(aes_gcm::Error);

/// Errors of key decoding and of the byte codecs.
#[derive(Debug, Clone, Copy, PartialEq, Eq)]
pub enum CryptographyError {
    /// The bytes do not have the length of an encoded public key.
    InvalidPublicKey,
    /// The text is not valid base64.
    Base64DecodeFailed,
    /// The name does not belong to a known algorithm.
    UnknownAlgorithm,
}

/// The text that describes a cryptography error.
pub open spec fn cryptography_error_text(e: CryptographyError) -> Seq<char> {
    match e {
        CryptographyError::InvalidPublicKey => "Invalid public key"@,
        CryptographyError::Base64DecodeFailed => "Failed to decode base64 text"@,
        CryptographyError::UnknownAlgorithm => "Unknown algorithm"@,
    }
}

impl CryptographyError {
    /// The text that describes the error.
    pub fn describe(&self) -> (text: &'static str)
        ensures
            text@ == cryptography_error_text(*self),
    {
        match self {
            CryptographyError::InvalidPublicKey => "Invalid public key",
            CryptographyError::Base64DecodeFailed => "Failed to decode base64 text",
            CryptographyError::UnknownAlgorithm => "Unknown algorithm",
        }
    }
}

/// Copy a byte slice into a new vector.
pub fn copy_bytes(data: &[u8]) -> (out: Vec<u8>)
    ensures
        out@ == data@,
{
    let mut out: Vec<u8> = Vec::new();
    let mut i: usize = 0;
    while i < data.len()
        invariant
            i <= data@.len(),
            out@ == data@.subrange(0, i as int),
        decreases data@.len() - i,
    {
        out.push(data[i]);
        i = i + 1;
    }
    assert(data@.subrange(0, data@.len() as int) =~= data@);
    out
}

} // verus!
