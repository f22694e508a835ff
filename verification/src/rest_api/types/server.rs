//! A server of the network: its key and its address.

use vstd::prelude::*;

use crate::crypto::{PublicKey, PUBLIC_KEY_LEN, base64_encoded};
use crate::crypto::public_key::key_from_base64;
use crate::rest_api::{AsJson, AsJsonError, JsonError};
use crate::rest_api::json::{Json, JsonValue, field, text_of, get_str, object2, lemma_field_at};
use crate::text::owned;

verus! {

/// A server of the network.
#[derive(Debug, PartialEq, Eq, Hash)]
pub struct Server {
    pub public_key: PublicKey,
    pub address: String,
}

impl View for Server {
    type V = (Seq<u8>, Seq<char>);

    open spec fn view(&self) -> (Seq<u8>, Seq<char>) {
        (self.public_key@, self.address@)
    }
}

impl Clone for Server {
    fn clone(&self) -> (copy: Self)
        ensures
            copy@ == self@,
    {
        Server { public_key: self.public_key.clone(), address: self.address.clone() }
    }
}

impl Server {
    /// A server with the given key, reachable at `address`.
    pub fn new(public_key: PublicKey, address: &str) -> (server: Self)
        ensures
            server@ == (public_key@, address@),
    {
        Server { public_key, address: owned(address) }
    }
}

impl AsJson for Server {
    open spec fn json_valid(value: (Seq<u8>, Seq<char>)) -> bool {
        value.0.len() == PUBLIC_KEY_LEN
    }

    open spec fn json_written(value: (Seq<u8>, Seq<char>)) -> Result<JsonValue, JsonError> {
        Ok(
            JsonValue::Object(
                seq![
                    ("public_key"@, JsonValue::Text(base64_encoded(value.0))),
                    ("address"@, JsonValue::Text(value.1)),
                ],
            ),
        )
    }

    open spec fn json_read(json: JsonValue) -> Result<(Seq<u8>, Seq<char>), JsonError> {
        match text_of(field(json, "public_key"@)) {
            None => Err(JsonError::FieldNotFound("public_key"@)),
            Some(key) => match text_of(field(json, "address"@)) {
                None => Err(JsonError::FieldNotFound("address"@)),
                Some(address) => match key_from_base64(key) {
                    Err(e) => Err(JsonError::CryptographyError(e)),
                    Ok(key) => Ok((key, address)),
                },
            },
        }
    }

    fn to_json(&self) -> (json: Result<Json, AsJsonError>) {
        Ok(
            object2(
                "public_key",
                Json::String(self.public_key.to_base64()),
                "address",
                Json::text(self.address.as_str()),
            ),
        )
    }

    fn from_json(json: &Json) -> (value: Result<Self, AsJsonError>) {
        proof {
            reveal_strlit("public_key");
            reveal_strlit("address");
            assert("public_key"@.len() != "address"@.len());
            assert forall|v: (Seq<u8>, Seq<char>)|
                Self::json_valid(v) && #[trigger] Self::json_written(v) == Ok::<
                    JsonValue,
                    JsonError,
                >(json@) implies (text_of(field(json@, "public_key"@)) == Some(
                    base64_encoded(v.0),
                ) && text_of(field(json@, "address"@)) == Some(v.1)) by {
                let fields = seq![
                    ("public_key"@, JsonValue::Text(base64_encoded(v.0))),
                    ("address"@, JsonValue::Text(v.1)),
                ];
                lemma_field_at(fields, 0);
                lemma_field_at(fields, 1);
            }
        }
        let key_text = match get_str(json, "public_key") {
            Some(t) => t,
            None => return Err(AsJsonError::FieldNotFound("public_key")),
        };
        let address = match get_str(json, "address") {
            Some(t) => t,
            None => return Err(AsJsonError::FieldNotFound("address")),
        };
        let public_key = match PublicKey::from_base64(key_text) {
            Ok(k) => k,
            Err(e) => return Err(AsJsonError::CryptographyError(e)),
        };
        Ok(Server { public_key, address: owned(address) })
    }
}

} // verus!
