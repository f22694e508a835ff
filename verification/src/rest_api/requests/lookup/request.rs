//! Body of a request to look a client up.

use vstd::prelude::*;

use crate::crypto::{PublicKey, PUBLIC_KEY_LEN, base64_encoded};
use crate::crypto::public_key::key_from_base64;
use crate::rest_api::{AsJson, AsJsonError, JsonError};
use crate::rest_api::json::{Json, JsonValue, field, text_of, get_str, object2, lemma_field_at};
use crate::rest_api::types::ClientType;
use crate::rest_api::types::client_type::{client_type_name, client_type_of_name, lemma_client_type_name_roundtrip};

verus! {

/// Body of a lookup request: the key of the client looked for, and optionally its kind.
#[derive(Debug, Clone, PartialEq, Eq, Hash)]
pub struct LookupRequestBody {
    pub public_key: PublicKey,
    pub client_type: Option<ClientType>,
}

impl View for LookupRequestBody {
    type V = (Seq<u8>, Option<ClientType>);

    open spec fn view(&self) -> Self::V {
        (self.public_key@, self.client_type)
    }
}

/// The JSON value of an optional client type: its name, or `null`.
pub open spec fn opt_client_type_json(client_type: Option<ClientType>) -> JsonValue {
    match client_type {
        Some(t) => JsonValue::Text(client_type_name(t)),
        None => JsonValue::Null,
    }
}

impl LookupRequestBody {
    /// A body looking for the client with `client_public`, of kind `client_type` if given.
    pub fn new(client_public: PublicKey, client_type: Option<ClientType>) -> (body: Self)
        ensures
            body@ == (client_public@, client_type),
    {
        LookupRequestBody { public_key: client_public, client_type }
    }
}

impl AsJson for LookupRequestBody {
    open spec fn json_valid(value: Self::V) -> bool {
        value.0.len() == PUBLIC_KEY_LEN
    }

    open spec fn json_written(value: Self::V) -> Result<JsonValue, JsonError> {
        Ok(
            JsonValue::Object(
                seq![
                    ("public_key"@, JsonValue::Text(base64_encoded(value.0))),
                    ("type"@, opt_client_type_json(value.1)),
                ],
            ),
        )
    }

    open spec fn json_read(json: JsonValue) -> Result<Self::V, JsonError> {
        match text_of(field(json, "public_key"@)) {
            None => Err(JsonError::FieldNotFound("public_key"@)),
            Some(key) => match key_from_base64(key) {
                Err(e) => Err(JsonError::CryptographyError(e)),
                Ok(key) => match text_of(field(json, "type"@)) {
                    None => Ok((key, None)),
                    Some(name) => match client_type_of_name(name) {
                        None => Err(JsonError::FieldValueInvalid("Invalid client type value"@)),
                        Some(t) => Ok((key, Some(t))),
                    },
                },
            },
        }
    }

    fn to_json(&self) -> (json: Result<Json, AsJsonError>) {
        let client_type = match self.client_type {
            Some(t) => Json::String(t.to_string()),
            None => Json::Null,
        };
        Ok(
            object2(
                "public_key",
                Json::String(self.public_key.to_base64()),
                "type",
                client_type,
            ),
        )
    }

    fn from_json(json: &Json) -> (value: Result<Self, AsJsonError>) {
        proof {
            reveal_strlit("public_key");
            reveal_strlit("type");
            assert("public_key"@.len() != "type"@.len());
            assert forall|v: Self::V|
                Self::json_valid(v) && #[trigger] Self::json_written(v) == Ok::<
                    JsonValue,
                    JsonError,
                >(json@) implies (text_of(field(json@, "public_key"@)) == Some(
                    base64_encoded(v.0),
                ) && field(json@, "type"@) == Some(opt_client_type_json(v.1)) && (v.1 matches Some(
                    t,
                ) ==> client_type_of_name(client_type_name(t)) == Some(t))) by {
                let fields = Self::json_written(v)->Ok_0->Object_0;
                lemma_field_at(fields, 0);
                lemma_field_at(fields, 1);
                if v.1 is Some {
                    lemma_client_type_name_roundtrip(v.1->Some_0);
                }
            }
        }
        let public_key = match get_str(json, "public_key") {
            Some(t) => match PublicKey::from_base64(t) {
                Ok(k) => k,
                Err(e) => return Err(AsJsonError::CryptographyError(e)),
            },
            None => return Err(AsJsonError::FieldNotFound("public_key")),
        };
        let client_type = match get_str(json, "type") {
            Some(name) => match ClientType::from_str(name) {
                Ok(t) => Some(t),
                Err(_) => return Err(AsJsonError::FieldValueInvalid("Invalid client type value")),
            },
            None => None,
        };
        Ok(LookupRequestBody { public_key, client_type })
    }
}

} // verus!
