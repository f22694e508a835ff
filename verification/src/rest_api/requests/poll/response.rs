//! Body of the answer to a poll request.

use vstd::prelude::*;

use crate::rest_api::{AsJson, AsJsonError, JsonError, views, docs, json_list, read_list, all_valid, list_to_json, list_from_json};
use crate::rest_api::json::{Json, JsonValue, field, number_of, items_of, get_u64, get_array, array, object2, lemma_field_at};
use crate::rest_api::types::MessageInfo;

verus! {

/// The messages taken from a channel and how many are left in it.
#[derive(Debug, Clone, PartialEq, Eq, Hash)]
pub struct PollResponseBody {
    pub messages: Vec<MessageInfo>,
    pub remaining: u64,
}

impl View for PollResponseBody {
    type V = (Seq<<MessageInfo as View>::V>, u64);

    open spec fn view(&self) -> Self::V {
        (views(self.messages@), self.remaining)
    }
}

impl PollResponseBody {
    /// A body giving `messages`, with `remaining` more left.
    pub fn new(messages: Vec<MessageInfo>, remaining: u64) -> (body: Self)
        ensures
            body@ == (views(messages@), remaining),
    {
        PollResponseBody { messages, remaining }
    }
}

impl AsJson for PollResponseBody {
    open spec fn json_valid(value: Self::V) -> bool {
        all_valid::<MessageInfo>(value.0)
    }

    open spec fn json_written(value: Self::V) -> Result<JsonValue, JsonError> {
        match json_list::<MessageInfo>(value.0) {
            Err(e) => Err(e),
            Ok(items) => Ok(
                JsonValue::Object(
                    seq![
                        ("messages"@, JsonValue::Array(items)),
                        ("remaining"@, JsonValue::Number(value.1)),
                    ],
                ),
            ),
        }
    }

    open spec fn json_read(json: JsonValue) -> Result<Self::V, JsonError> {
        match items_of(field(json, "messages"@)) {
            None => Err(JsonError::FieldNotFound("messages"@)),
            Some(items) => match read_list::<MessageInfo>(items) {
                Err(e) => Err(e),
                Ok(messages) => match number_of(field(json, "remaining"@)) {
                    None => Err(JsonError::FieldNotFound("remaining"@)),
                    Some(remaining) => Ok((messages, remaining)),
                },
            },
        }
    }

    fn to_json(&self) -> (json: Result<Json, AsJsonError>) {
        let items = match list_to_json(&self.messages) {
            Ok(items) => items,
            Err(e) => return Err(e),
        };
        Ok(object2("messages", array(items), "remaining", Json::Number(self.remaining)))
    }

    fn from_json(json: &Json) -> (value: Result<Self, AsJsonError>) {
        proof {
            reveal_strlit("messages");
            reveal_strlit("remaining");
            assert("messages"@.len() != "remaining"@.len());
            assert forall|v: Self::V|
                Self::json_valid(v) && #[trigger] Self::json_written(v) == Ok::<
                    JsonValue,
                    JsonError,
                >(json@) implies (json_list::<MessageInfo>(v.0) is Ok && items_of(
                    field(json@, "messages"@),
                ) == Some(json_list::<MessageInfo>(v.0)->Ok_0) && number_of(
                    field(json@, "remaining"@),
                ) == Some(v.1)) by {
                let fields = Self::json_written(v)->Ok_0->Object_0;
                lemma_field_at(fields, 0);
                lemma_field_at(fields, 1);
            }
        }
        let items = match get_array(json, "messages") {
            Some(items) => items,
            None => return Err(AsJsonError::FieldNotFound("messages")),
        };
        proof {
            assert(docs(items@) =~= Seq::new(items@.len(), |i: int| items@[i]@));
        }
        let messages = match list_from_json::<MessageInfo>(items) {
            Ok(v) => v,
            Err(e) => return Err(e),
        };
        let remaining = match get_u64(json, "remaining") {
            Some(n) => n,
            None => return Err(AsJsonError::FieldNotFound("remaining")),
        };
        Ok(PollResponseBody { messages, remaining })
    }
}

} // verus!
