//! Certificate with which a client proves its connection to a server.

use vstd::prelude::*;

use super::connection_token::{ConnectionToken, TOKEN_LEN, token_bytes, token_of_bytes, lemma_token_bytes_roundtrip};
use crate::crypto::{copy_bytes, CryptographyError, PublicKey, PUBLIC_KEY_LEN, base64_encode, base64_decode, base64_encoded, base64_decoded};
use crate::rest_api::{AsJson, AsJsonError, JsonError};
use crate::rest_api::json::{Json, JsonValue, field, text_of, get_str, object2, lemma_field_at};

verus! {

/// A connection token signed by the client.
#[derive(Debug, PartialEq, Eq, Hash)]
pub struct ConnectionCertificate {
    pub token: ConnectionToken,
    pub sign: Vec<u8>,
}

impl View for ConnectionCertificate {
    type V = ((u64, Seq<u8>), Seq<u8>);

    open spec fn view(&self) -> ((u64, Seq<u8>), Seq<u8>) {
        (self.token@, self.sign@)
    }
}

impl Clone for ConnectionCertificate {
    fn clone(&self) -> (copy: Self)
        ensures
            copy@ == self@,
    {
        ConnectionCertificate { token: self.token.clone(), sign: copy_bytes(self.sign.as_slice()) }
    }
}

/// The outcome of validating a certificate against the server's key: a token
/// issued for another server is refused, otherwise the signature check decides.
pub open spec fn certificate_validation(
    token_key: Seq<u8>,
    server_key: Seq<u8>,
    signature_check: Result<bool, CryptographyError>,
) -> Result<bool, CryptographyError> {
    if token_key != server_key {
        Ok(false)
    } else {
        signature_check
    }
}

/// The fields of a certificate read from the base64 texts of its token and signature.
#[verifier::opaque]
pub open spec fn certificate_of_texts(token: Seq<char>, sign: Seq<char>) -> Result<
    ((u64, Seq<u8>), Seq<u8>),
    JsonError,
> {
    match base64_decoded(token) {
        None => Err(JsonError::Base64Error),
        Some(token_bytes) => match token_of_bytes(token_bytes) {
            Err(e) => Err(JsonError::CryptographyError(e)),
            Ok(fields) => match base64_decoded(sign) {
                None => Err(JsonError::Base64Error),
                Some(sign_bytes) => Ok((fields, sign_bytes)),
            },
        },
    }
}

impl ConnectionCertificate {
    /// A certificate made of a token and the client's signature of the token's bytes.
    pub fn new(token: ConnectionToken, sign: Vec<u8>) -> (certificate: Self)
        ensures
            certificate@ == (token@, sign@),
    {
        ConnectionCertificate { token, sign }
    }

    /// The bytes that the client signs: the token's byte encoding.
    pub fn signed_bytes(&self) -> (bytes: Vec<u8>)
        ensures
            bytes@ == token_bytes(self.token.auth_date, self.token.public_key@),
    {
        self.token.to_bytes()
    }

    /// Validate the certificate for the server with key `server_public`;
    /// `signature_check` is the outcome of checking `sign` against
    /// `signed_bytes()` with the client's public key.
    pub fn validate(
        &self,
        server_public: &PublicKey,
        signature_check: Result<bool, CryptographyError>,
    ) -> (valid: Result<bool, CryptographyError>)
        ensures
            valid == certificate_validation(
                self.token.public_key@,
                server_public@,
                signature_check,
            ),
    {
        if !self.token.public_key.same_as(server_public) {
            return Ok(false);
        }
        signature_check
    }
}

/// Read a certificate from the base64 texts of its token and its signature.
fn certificate_from_texts(token_text: &str, sign_text: &str) -> (certificate: Result<
    ConnectionCertificate,
    AsJsonError,
>)
    ensures
        certificate is Ok <==> certificate_of_texts(token_text@, sign_text@) is Ok,
        certificate matches Ok(c) ==> certificate_of_texts(token_text@, sign_text@) == Ok::<
            ((u64, Seq<u8>), Seq<u8>),
            JsonError,
        >(c@) && c.token.public_key@.len() == PUBLIC_KEY_LEN,
        certificate matches Err(e) ==> certificate_of_texts(token_text@, sign_text@) == Err::<
            ((u64, Seq<u8>), Seq<u8>),
            JsonError,
        >(e@),
        forall|date: u64, key: Seq<u8>, sign: Seq<u8>|
            key.len() == PUBLIC_KEY_LEN && token_text@ == #[trigger] base64_encoded(
                token_bytes(date, key),
            ) && sign_text@ == #[trigger] base64_encoded(sign) ==> (certificate matches Ok(c)
                && c@ == ((date, key), sign)),
{
    proof {
        reveal(certificate_of_texts);
    }
    let token_raw = match base64_decode(token_text) {
        Ok(b) => b,
        Err(_) => return Err(AsJsonError::Base64Error),
    };
    if token_raw.len() < 8 {
        return Err(AsJsonError::CryptographyError(CryptographyError::InvalidPublicKey));
    }
    let token = match ConnectionToken::from_bytes(token_raw.as_slice()) {
        Ok(t) => t,
        Err(e) => return Err(AsJsonError::CryptographyError(e)),
    };
    let sign = match base64_decode(sign_text) {
        Ok(b) => b,
        Err(_) => return Err(AsJsonError::Base64Error),
    };
    proof {
        reveal(certificate_of_texts);
        assert forall|date: u64, key: Seq<u8>, sign: Seq<u8>|
            key.len() == PUBLIC_KEY_LEN && token_text@ == #[trigger] base64_encoded(
                token_bytes(date, key),
            ) && sign_text@ == #[trigger] base64_encoded(sign) implies token@ == (date, key) by {
            lemma_token_bytes_roundtrip(date, key);
        }
    }
    Ok(ConnectionCertificate { token, sign })
}

impl AsJson for ConnectionCertificate {
    open spec fn json_valid(value: ((u64, Seq<u8>), Seq<u8>)) -> bool {
        value.0.1.len() == PUBLIC_KEY_LEN
    }

    open spec fn json_written(value: ((u64, Seq<u8>), Seq<u8>)) -> Result<JsonValue, JsonError> {
        Ok(
            JsonValue::Object(
                seq![
                    ("token"@, JsonValue::Text(base64_encoded(token_bytes(value.0.0, value.0.1)))),
                    ("sign"@, JsonValue::Text(base64_encoded(value.1))),
                ],
            ),
        )
    }

    open spec fn json_read(json: JsonValue) -> Result<((u64, Seq<u8>), Seq<u8>), JsonError> {
        match text_of(field(json, "token"@)) {
            None => Err(JsonError::FieldNotFound("token"@)),
            Some(token) => match text_of(field(json, "sign"@)) {
                None => Err(JsonError::FieldNotFound("sign"@)),
                Some(sign) => certificate_of_texts(token, sign),
            },
        }
    }

    fn to_json(&self) -> (json: Result<Json, AsJsonError>) {
        let token = base64_encode(self.token.to_bytes().as_slice());
        let sign = base64_encode(self.sign.as_slice());
        Ok(object2("token", Json::String(token), "sign", Json::String(sign)))
    }

    fn from_json(json: &Json) -> (value: Result<Self, AsJsonError>) {
        proof {
            reveal_strlit("token");
            reveal_strlit("sign");
            assert("token"@.len() != "sign"@.len());
            assert forall|v: ((u64, Seq<u8>), Seq<u8>)|
                Self::json_valid(v) && #[trigger] Self::json_written(v) == Ok::<
                    JsonValue,
                    JsonError,
                >(json@) implies (text_of(field(json@, "token"@)) == Some(
                    base64_encoded(token_bytes(v.0.0, v.0.1)),
                ) && text_of(field(json@, "sign"@)) == Some(base64_encoded(v.1))) by {
                let fields = seq![
                    ("token"@, JsonValue::Text(base64_encoded(token_bytes(v.0.0, v.0.1)))),
                    ("sign"@, JsonValue::Text(base64_encoded(v.1))),
                ];
                lemma_field_at(fields, 0);
                lemma_field_at(fields, 1);
            }
        }
        let token_text = match get_str(json, "token") {
            Some(t) => t,
            None => return Err(AsJsonError::FieldNotFound("token")),
        };
        let sign_text = match get_str(json, "sign") {
            Some(s) => s,
            None => return Err(AsJsonError::FieldNotFound("sign")),
        };
        let certificate = certificate_from_texts(token_text, sign_text);
        certificate
    }
}

} // verus!
