//! Token that ties a client to the server it connected to.

use vstd::prelude::*;

use crate::bytes::{be_bytes, be_value, u64_to_be_bytes, u64_from_be_bytes, lemma_be_value_of_bytes, lemma_be_bytes_of_value, lemma_be_value_bounded};
use crate::crypto::{CryptographyError, PublicKey, PUBLIC_KEY_LEN};
use crate::time::timestamp;

verus! {

/// Length in bytes of an encoded connection token.
pub const TOKEN_LEN: usize = 41;

/// The bytes of a token: the big-endian auth date followed by the key.
pub open spec fn token_bytes(auth_date: u64, key: Seq<u8>) -> Seq<u8> {
    be_bytes(auth_date) + key
}

/// The token fields that `bytes` hold (to be read only from at least 8 bytes).
pub open spec fn token_of_bytes(bytes: Seq<u8>) -> Result<(u64, Seq<u8>), CryptographyError> {
    if bytes.len() == TOKEN_LEN {
        Ok((be_value(bytes.subrange(0, 8)) as u64, bytes.subrange(8, TOKEN_LEN as int)))
    } else {
        Err(CryptographyError::InvalidPublicKey)
    }
}

/// Write the bytes of a token.
pub fn write_token(auth_date: u64, key: &PublicKey) -> (bytes: Vec<u8>)
    ensures
        bytes@ == token_bytes(auth_date, key@),
        bytes@.len() == TOKEN_LEN,
{
    let mut bytes = u64_to_be_bytes(auth_date);
    let mut key_bytes = key.to_bytes();
    bytes.append(&mut key_bytes);
    bytes
}

/// Read the fields of a token from its bytes.
pub fn read_token(bytes: &[u8]) -> (fields: Result<(u64, PublicKey), CryptographyError>)
    requires
        bytes@.len() >= 8,
    ensures
        fields is Ok <==> token_of_bytes(bytes@) is Ok,
        fields matches Ok((date, key)) ==> token_of_bytes(bytes@) == Ok::<(u64, Seq<u8>), CryptographyError>((date, key@)),
        fields matches Err(e) ==> token_of_bytes(bytes@) == Err::<(u64, Seq<u8>), CryptographyError>(e),
{
    let date = u64_from_be_bytes(&bytes[0..8]);
    let key = PublicKey::from_bytes(&bytes[8..bytes.len()])?;
    proof {
        lemma_be_value_bounded(bytes@.subrange(0, 8));
    }
    Ok((date, key))
}

/// Reading the bytes of a token gives its fields back.
pub proof fn lemma_token_bytes_roundtrip(auth_date: u64, key: Seq<u8>)
    requires
        key.len() == PUBLIC_KEY_LEN,
    ensures
        token_of_bytes(token_bytes(auth_date, key)) == Ok::<(u64, Seq<u8>), CryptographyError>((auth_date, key)),
{
    let b = token_bytes(auth_date, key);
    assert(b.subrange(0, 8) =~= be_bytes(auth_date));
    assert(b.subrange(8, TOKEN_LEN as int) =~= key);
    lemma_be_value_of_bytes(auth_date);
}

/// Writing the fields read from token bytes gives the same bytes back.
pub proof fn lemma_token_fields_roundtrip(bytes: Seq<u8>)
    requires
        token_of_bytes(bytes) is Ok,
    ensures
        token_of_bytes(bytes) matches Ok((date, key)) ==> token_bytes(date, key) == bytes,
{
    lemma_be_bytes_of_value(bytes.subrange(0, 8));
    assert(bytes.subrange(0, 8) + bytes.subrange(8, TOKEN_LEN as int) =~= bytes);
}

/// Information about the server and the time when the client connected to it.
#[derive(Debug, PartialEq, Eq, Hash)]
pub struct ConnectionToken {
    /// Timestamp of the client connection request
    pub auth_date: u64,
    /// Public key of the server
    pub public_key: PublicKey,
}

impl View for ConnectionToken {
    type V = (u64, Seq<u8>);

    open spec fn view(&self) -> (u64, Seq<u8>) {
        (self.auth_date, self.public_key@)
    }
}

impl Clone for ConnectionToken {
    fn clone(&self) -> (copy: Self)
        ensures
            copy@ == self@,
    {
        ConnectionToken { auth_date: self.auth_date, public_key: self.public_key.clone() }
    }
}

impl ConnectionToken {
    /// Token for a connection made at `auth_date` to the server with `public_key`.
    pub fn new(auth_date: u64, public_key: PublicKey) -> (token: Self)
        ensures
            token@ == (auth_date, public_key@),
    {
        ConnectionToken { auth_date, public_key }
    }

    /// Token for a connection made now to the server with `public_key`.
    pub fn now(public_key: PublicKey) -> (token: Self)
        ensures
            token.public_key@ == public_key@,
    {
        Self::new(timestamp(), public_key)
    }

    /// The fixed-size byte encoding of the token.
    pub fn to_bytes(&self) -> (bytes: Vec<u8>)
        ensures
            bytes@ == token_bytes(self.auth_date, self.public_key@),
            bytes@.len() == TOKEN_LEN,
    {
        write_token(self.auth_date, &self.public_key)
    }

    /// Read a token from its byte encoding (at least 8 bytes).
    pub fn from_bytes(bytes: &[u8]) -> (token: Result<Self, CryptographyError>)
        requires
            bytes@.len() >= 8,
        ensures
            token is Ok <==> token_of_bytes(bytes@) is Ok,
            token matches Ok(t) ==> token_of_bytes(bytes@) == Ok::<(u64, Seq<u8>), CryptographyError>(t@),
            token matches Err(e) ==> token_of_bytes(bytes@) == Err::<(u64, Seq<u8>), CryptographyError>(e),
    {
        let (auth_date, public_key) = read_token(bytes)?;
        Ok(ConnectionToken { auth_date, public_key })
    }
}

} // verus!
