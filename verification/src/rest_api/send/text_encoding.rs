//! Text encodings of bytes.

use vstd::prelude::*;

use super::SendError;
use crate::crypto::{base64_encode, base64_decode, base64_encoded, base64_decoded};

verus! {

/// Algorithm that writes bytes as text.
#[derive(Debug, Clone, Copy, PartialEq, Eq, Hash, Structural)]
pub enum TextEncoding {
    Base64,
}

impl Default for TextEncoding {
    fn default() -> (encoding: Self)
        ensures
            encoding == TextEncoding::Base64,
    {
        TextEncoding::Base64
    }
}

/// The text that an encoding writes for some bytes.
pub open spec fn encoded_text(encoding: TextEncoding, data: Seq<u8>) -> Seq<char> {
    match encoding {
        TextEncoding::Base64 => base64_encoded(data),
    }
}

/// The bytes that an encoding reads from a text, if it reads any.
pub open spec fn decoded_text(encoding: TextEncoding, text: Seq<char>) -> Option<Seq<u8>> {
    match encoding {
        TextEncoding::Base64 => base64_decoded(text),
    }
}

impl TextEncoding {
    /// Write bytes as text.
    pub fn encode(&self, data: &[u8]) -> (text: String)
        ensures
            text@ == encoded_text(*self, data@),
            text@ == base64_encoded(data@),
    {
        match self {
            TextEncoding::Base64 => base64_encode(data),
        }
    }

    /// Read bytes from a text; decoding what `encode` wrote gives the bytes back.
    pub fn decode(&self, text: &str) -> (data: Result<Vec<u8>, SendError>)
        ensures
            data is Ok <==> decoded_text(*self, text@) is Some,
            data matches Ok(d) ==> d@ == decoded_text(*self, text@)->Some_0,
            data matches Err(e) ==> e == SendError::TextDecodingError,
            data is Ok <==> base64_decoded(text@) is Some,
            data matches Ok(d) ==> Some(d@) == base64_decoded(text@),
            forall|source: Seq<u8>|
                text@ == #[trigger] encoded_text(*self, source) ==> (data matches Ok(d) && d@
                    == source),
    {
        match self {
            TextEncoding::Base64 => match base64_decode(text) {
                Ok(d) => Ok(d),
                Err(_) => Err(SendError::TextDecodingError),
            },
        }
    }
}

} // verus!
