//! Description of a client: its kind and optional address.

use vstd::prelude::*;

use super::client_type::{ClientType, client_type_name, client_type_of_name, lemma_client_type_name_roundtrip};
use crate::rest_api::{AsJson, AsJsonError, JsonError};
use crate::rest_api::json::{Json, JsonValue, field, text_of, get_str, object2, lemma_field_at};
use crate::text::owned;

verus! {

/// Information about a client of the network.
#[derive(Debug, PartialEq, Eq, Hash)]
pub struct ClientInfo {
    pub client_type: ClientType,
    pub address: Option<String>,
}

/// The view of an optional text.
pub open spec fn opt_text(text: Option<String>) -> Option<Seq<char>> {
    match text {
        Some(s) => Some(s@),
        None => None,
    }
}

impl View for ClientInfo {
    type V = (ClientType, Option<Seq<char>>);

    open spec fn view(&self) -> (ClientType, Option<Seq<char>>) {
        (self.client_type, opt_text(self.address))
    }
}

impl Clone for ClientInfo {
    fn clone(&self) -> (copy: Self)
        ensures
            copy@ == self@,
    {
        let address = match &self.address {
            Some(a) => Some(a.clone()),
            None => None,
        };
        ClientInfo { client_type: self.client_type, address }
    }
}

impl Default for ClientInfo {
    fn default() -> (info: Self)
        ensures
            info@ == (ClientType::Thin, None::<Seq<char>>),
    {
        ClientInfo { client_type: ClientType::Thin, address: None }
    }
}

impl ClientInfo {
    /// Information about a client of the given kind with an optional address.
    pub fn new(client_type: ClientType, address: Option<&str>) -> (info: Self)
        ensures
            info.client_type == client_type,
            info.address is Some <==> address is Some,
            address matches Some(a) ==> opt_text(info.address) == Some(a@),
    {
        let address = match address {
            Some(a) => Some(owned(a)),
            None => None,
        };
        ClientInfo { client_type, address }
    }

    /// A thin client, which has no address.
    pub fn thin() -> (info: Self)
        ensures
            info@ == (ClientType::Thin, None::<Seq<char>>),
    {
        ClientInfo { client_type: ClientType::Thin, address: None }
    }

    /// A thick client reachable at `address`.
    pub fn thick(address: &str) -> (info: Self)
        ensures
            info@ == (ClientType::Thick, Some(address@)),
    {
        ClientInfo { client_type: ClientType::Thick, address: Some(owned(address)) }
    }

    /// A server acting as a client, reachable at `address`.
    pub fn server(address: &str) -> (info: Self)
        ensures
            info@ == (ClientType::Server, Some(address@)),
    {
        ClientInfo { client_type: ClientType::Server, address: Some(owned(address)) }
    }

    /// A file client located at `address`.
    pub fn file(address: &str) -> (info: Self)
        ensures
            info@ == (ClientType::File, Some(address@)),
    {
        ClientInfo { client_type: ClientType::File, address: Some(owned(address)) }
    }
}

} // verus!

verus! {

/// The JSON value of an optional text: the text, or `null`.
pub open spec fn opt_text_json(text: Option<Seq<char>>) -> JsonValue {
    match text {
        Some(t) => JsonValue::Text(t),
        None => JsonValue::Null,
    }
}

impl AsJson for ClientInfo {
    open spec fn json_valid(value: (ClientType, Option<Seq<char>>)) -> bool {
        true
    }

    open spec fn json_written(value: (ClientType, Option<Seq<char>>)) -> Result<JsonValue, JsonError> {
        Ok(
            JsonValue::Object(
                seq![
                    ("type"@, JsonValue::Text(client_type_name(value.0))),
                    ("address"@, opt_text_json(value.1)),
                ],
            ),
        )
    }

    open spec fn json_read(json: JsonValue) -> Result<(ClientType, Option<Seq<char>>), JsonError> {
        match text_of(field(json, "type"@)) {
            None => Err(JsonError::FieldNotFound("type"@)),
            Some(name) => match client_type_of_name(name) {
                None => Err(
                    JsonError::FieldValueInvalid("client type field contains unknown value"@),
                ),
                Some(client_type) => Ok((client_type, text_of(field(json, "address"@)))),
            },
        }
    }

    fn to_json(&self) -> (json: Result<Json, AsJsonError>) {
        let address = match &self.address {
            Some(a) => Json::text(a.as_str()),
            None => Json::Null,
        };
        Ok(object2("type", Json::String(self.client_type.to_string()), "address", address))
    }

    fn from_json(json: &Json) -> (value: Result<Self, AsJsonError>) {
        let client_type = match get_str(json, "type") {
            Some(name) => match ClientType::from_str(name) {
                Ok(t) => t,
                Err(_) => {
                    return Err(
                        AsJsonError::FieldValueInvalid("client type field contains unknown value"),
                    )
                },
            },
            None => return Err(AsJsonError::FieldNotFound("type")),
        };
        let address = match get_str(json, "address") {
            Some(a) => Some(owned(a)),
            None => None,
        };
        proof {
            reveal_strlit("type");
            reveal_strlit("address");
            assert("type"@.len() != "address"@.len());
            assert forall|v: (ClientType, Option<Seq<char>>)|
                Self::json_valid(v) && #[trigger] Self::json_written(v) == Ok::<
                    JsonValue,
                    JsonError,
                >(json@) implies (client_type == v.0 && opt_text(address) == v.1) by {
                let fields = seq![
                    ("type"@, JsonValue::Text(client_type_name(v.0))),
                    ("address"@, opt_text_json(v.1)),
                ];
                lemma_field_at(fields, 0);
                lemma_field_at(fields, 1);
                lemma_client_type_name_roundtrip(v.0);
            }
        }
        Ok(ClientInfo { client_type, address })
    }
}

} // verus!
