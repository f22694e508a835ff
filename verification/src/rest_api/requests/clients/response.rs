//! The clients that a server knows.

use vstd::prelude::*;

use crate::rest_api::{AsJson, AsJsonError, JsonError, views, docs, json_list, read_list, all_valid, list_to_json, list_from_json};
use crate::rest_api::json::{Json, JsonValue, field, number_of, items_of, get_u64, get_array, array, object2, lemma_field_at};
use crate::STANDARD_VERSION;
use crate::rest_api::types::Client;

verus! {

/// Response listing the clients connected to a server.
#[derive(Debug, Clone, PartialEq, Eq, Hash)]
pub struct ClientsResponse {
    pub standard: u64,
    pub clients: Vec<Client>,
}

impl View for ClientsResponse {
    type V = (u64, Seq<<Client as View>::V>);

    open spec fn view(&self) -> Self::V {
        (self.standard, views(self.clients@))
    }
}

impl ClientsResponse {
    /// A response of the current standard listing `clients`.
    pub fn new(clients: Vec<Client>) -> (response: Self)
        ensures
            response@ == (STANDARD_VERSION, views(clients@)),
    {
        ClientsResponse { standard: STANDARD_VERSION, clients }
    }
}

impl AsJson for ClientsResponse {
    open spec fn json_valid(value: Self::V) -> bool {
        all_valid::<Client>(value.1)
    }

    open spec fn json_written(value: Self::V) -> Result<JsonValue, JsonError> {
        if value.0 != 1 {
            Err(JsonError::InvalidStandard(value.0))
        } else {
            match json_list::<Client>(value.1) {
                Err(e) => Err(e),
                Ok(items) => Ok(
                    JsonValue::Object(
                        seq![
                            ("standard"@, JsonValue::Number(value.0)),
                            ("clients"@, JsonValue::Array(items)),
                        ],
                    ),
                ),
            }
        }
    }

    open spec fn json_read(json: JsonValue) -> Result<Self::V, JsonError> {
        match number_of(field(json, "standard"@)) {
            None => Err(JsonError::FieldNotFound("standard"@)),
            Some(standard) => if standard != 1 {
                Err(JsonError::InvalidStandard(standard))
            } else {
                match items_of(field(json, "clients"@)) {
                    None => Err(JsonError::FieldNotFound("clients"@)),
                    Some(items) => match read_list::<Client>(items) {
                        Err(e) => Err(e),
                        Ok(values) => Ok((standard, values)),
                    },
                }
            },
        }
    }

    fn to_json(&self) -> (json: Result<Json, AsJsonError>) {
        if self.standard != 1 {
            return Err(AsJsonError::InvalidStandard(self.standard));
        }
        let items = match list_to_json(&self.clients) {
            Ok(items) => items,
            Err(e) => return Err(e),
        };
        Ok(object2("standard", Json::Number(self.standard), "clients", array(items)))
    }

    fn from_json(json: &Json) -> (value: Result<Self, AsJsonError>) {
        proof {
            reveal_strlit("standard");
            reveal_strlit("clients");
            assert("standard"@.len() != "clients"@.len());
            assert forall|v: Self::V|
                Self::json_valid(v) && #[trigger] Self::json_written(v) == Ok::<
                    JsonValue,
                    JsonError,
                >(json@) implies (number_of(field(json@, "standard"@)) == Some(v.0) && v.0 == 1
                && items_of(field(json@, "clients"@)) == Some(json_list::<Client>(v.1)->Ok_0)
                && json_list::<Client>(v.1) is Ok) by {
                let fields = Self::json_written(v)->Ok_0->Object_0;
                lemma_field_at(fields, 0);
                lemma_field_at(fields, 1);
            }
        }
        let standard = match get_u64(json, "standard") {
            Some(n) => n,
            None => return Err(AsJsonError::FieldNotFound("standard")),
        };
        if standard != 1 {
            return Err(AsJsonError::InvalidStandard(standard));
        }
        let items = match get_array(json, "clients") {
            Some(items) => items,
            None => return Err(AsJsonError::FieldNotFound("clients")),
        };
        proof {
            assert(docs(items@) =~= Seq::new(items@.len(), |i: int| items@[i]@));
        }
        let clients = match list_from_json::<Client>(items) {
            Ok(v) => v,
            Err(e) => return Err(e),
        };
        Ok(ClientsResponse { standard, clients })
    }
}

} // verus!
