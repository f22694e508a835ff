//! The encoded form of a participant's public key.

use vstd::prelude::*;

use super::base64_text::{base64_encode, base64_decode, base64_encoded, base64_decoded};
use super::{copy_bytes, CryptographyError};

verus! {

/// Length in bytes of an encoded (compressed) public key.
pub const PUBLIC_KEY_LEN: usize = 33;

/// Public key of a client or a server, held as its fixed-size byte encoding.
#[derive(Debug, PartialEq, Eq, Hash)]
pub struct PublicKey {
    bytes: Vec<u8>,
}

impl View for PublicKey {
    type V = Seq<u8>;

    closed spec fn view(&self) -> Seq<u8> {
        self.bytes@
    }
}

/// The key that the base64 text `text` holds, if it holds one.
pub open spec fn key_from_base64(text: Seq<char>) -> Result<Seq<u8>, CryptographyError> {
    match base64_decoded(text) {
        Some(bytes) => if bytes.len() == PUBLIC_KEY_LEN {
            Ok(bytes)
        } else {
            Err(CryptographyError::InvalidPublicKey)
        },
        None => Err(CryptographyError::Base64DecodeFailed),
    }
}

impl Clone for PublicKey {
    fn clone(&self) -> (copy: Self)
        ensures
            copy@ == self@,
    {
        proof {
            use_type_invariant(self);
        }
        PublicKey { bytes: copy_bytes(self.bytes.as_slice()) }
    }
}

impl PublicKey {
    #[verifier::type_invariant]
    closed spec fn well_formed(self) -> bool {
        self.bytes@.len() == PUBLIC_KEY_LEN
    }

    /// Every key has the fixed encoded length.
    pub fn encoded_len(&self) -> (n: usize)
        ensures
            n == self@.len(),
            n == PUBLIC_KEY_LEN,
    {
        proof {
            use_type_invariant(self);
        }
        self.bytes.len()
    }

    /// Read a key from its byte encoding.
    pub fn from_bytes(bytes: &[u8]) -> (key: Result<PublicKey, CryptographyError>)
        ensures
            key is Ok <==> bytes@.len() == PUBLIC_KEY_LEN,
            key matches Ok(k) ==> k@ == bytes@,
            key matches Err(e) ==> e == CryptographyError::InvalidPublicKey,
    {
        if bytes.len() == PUBLIC_KEY_LEN {
            Ok(PublicKey { bytes: copy_bytes(bytes) })
        } else {
            Err(CryptographyError::InvalidPublicKey)
        }
    }

    /// The byte encoding of the key.
    pub fn to_bytes(&self) -> (bytes: Vec<u8>)
        ensures
            bytes@ == self@,
            bytes@.len() == PUBLIC_KEY_LEN,
    {
        proof {
            use_type_invariant(self);
        }
        copy_bytes(self.bytes.as_slice())
    }

    /// The base64 text of the key's byte encoding.
    pub fn to_base64(&self) -> (text: String)
        ensures
            text@ == base64_encoded(self@),
    {
        base64_encode(self.bytes.as_slice())
    }

    /// Read a key from the base64 text of its byte encoding.
    pub fn from_base64(text: &str) -> (key: Result<PublicKey, CryptographyError>)
        ensures
            key matches Ok(k) ==> key_from_base64(text@) == Ok::<Seq<u8>, CryptographyError>(k@),
            key matches Err(e) ==> key_from_base64(text@) == Err::<Seq<u8>, CryptographyError>(e),
            forall|source: Seq<u8>|
                source.len() == PUBLIC_KEY_LEN && text@ == #[trigger] base64_encoded(source)
                    ==> (key matches Ok(k) && k@ == source),
    {
        let bytes = base64_decode(text)?;
        PublicKey::from_bytes(bytes.as_slice())
    }

    /// Whether two keys have the same encoding.
    pub fn same_as(&self, other: &PublicKey) -> (same: bool)
        ensures
            same == (self@ == other@),
    {
        let n = self.bytes.len();
        if n != other.bytes.len() {
            return false;
        }
        let mut i: usize = 0;
        while i < n
            invariant
                n == self.bytes@.len(),
                n == other.bytes@.len(),
                i <= n,
                forall|j: int| 0 <= j < i ==> self.bytes@[j] == other.bytes@[j],
            decreases n - i,
        {
            if self.bytes[i] != other.bytes[i] {
                return false;
            }
            i = i + 1;
        }
        assert(self.bytes@ =~= other.bytes@);
        true
    }
}

} // verus!
