//! Body of a request to poll the messages of a channel.

use vstd::prelude::*;

use crate::rest_api::{AsJson, AsJsonError, JsonError};
use crate::rest_api::json::{Json, JsonValue, field, text_of, number_of, get_str, object2, lemma_field_at};
use crate::text::owned;

verus! {

/// Body of a poll request: the channel, and at most how many messages to take.
#[derive(Debug, Clone, PartialEq, Eq, Hash)]
pub struct PollRequestBody {
    pub channel: String,
    pub limit: Option<u64>,
}

impl View for PollRequestBody {
    type V = (Seq<char>, Option<u64>);

    open spec fn view(&self) -> Self::V {
        (self.channel@, self.limit)
    }
}

/// The JSON value of an optional limit: the number, or `null`.
pub open spec fn opt_number_json(limit: Option<u64>) -> JsonValue {
    match limit {
        Some(n) => JsonValue::Number(n),
        None => JsonValue::Null,
    }
}

impl PollRequestBody {
    /// A body polling `channel`, taking at most `limit` messages if given.
    pub fn new(channel: &str, limit: Option<u64>) -> (body: Self)
        ensures
            body@ == (channel@, limit),
    {
        PollRequestBody { channel: owned(channel), limit }
    }
}

impl AsJson for PollRequestBody {
    open spec fn json_valid(value: Self::V) -> bool {
        true
    }

    open spec fn json_written(value: Self::V) -> Result<JsonValue, JsonError> {
        Ok(
            JsonValue::Object(
                seq![("channel"@, JsonValue::Text(value.0)), ("limit"@, opt_number_json(value.1))],
            ),
        )
    }

    /// A missing or ill-typed limit is reported under the name `channel`.
    open spec fn json_read(json: JsonValue) -> Result<Self::V, JsonError> {
        match text_of(field(json, "channel"@)) {
            None => Err(JsonError::FieldNotFound("channel"@)),
            Some(channel) => match field(json, "limit"@) {
                None => Err(JsonError::FieldNotFound("channel"@)),
                Some(JsonValue::Null) => Ok((channel, None)),
                Some(limit) => match number_of(Some(limit)) {
                    None => Err(JsonError::FieldValueInvalid("channel"@)),
                    Some(n) => Ok((channel, Some(n))),
                },
            },
        }
    }

    fn to_json(&self) -> (json: Result<Json, AsJsonError>) {
        let limit = match self.limit {
            Some(n) => Json::Number(n),
            None => Json::Null,
        };
        Ok(object2("channel", Json::text(self.channel.as_str()), "limit", limit))
    }

    fn from_json(json: &Json) -> (value: Result<Self, AsJsonError>) {
        proof {
            reveal_strlit("channel");
            reveal_strlit("limit");
            assert("channel"@.len() != "limit"@.len());
            assert forall|v: Self::V|
                Self::json_valid(v) && #[trigger] Self::json_written(v) == Ok::<
                    JsonValue,
                    JsonError,
                >(json@) implies (text_of(field(json@, "channel"@)) == Some(v.0) && field(
                    json@,
                    "limit"@,
                ) == Some(opt_number_json(v.1))) by {
                let fields = Self::json_written(v)->Ok_0->Object_0;
                lemma_field_at(fields, 0);
                lemma_field_at(fields, 1);
            }
        }
        let channel = match get_str(json, "channel") {
            Some(t) => owned(t),
            None => return Err(AsJsonError::FieldNotFound("channel")),
        };
        let limit = match json.get("limit") {
            Some(value) => if value.is_null() {
                None
            } else {
                match value.as_u64() {
                    Some(n) => Some(n),
                    None => return Err(AsJsonError::FieldValueInvalid("channel")),
                }
            },
            None => return Err(AsJsonError::FieldNotFound("channel")),
        };
        Ok(PollRequestBody { channel, limit })
    }
}

} // verus!
