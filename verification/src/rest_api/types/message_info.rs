//! A received message together with its sender, channel and arrival time.

use vstd::prelude::*;

use super::message::Message;
use super::sender::Sender;
use crate::rest_api::{AsJson, AsJsonError, JsonError, written_doc};
use crate::rest_api::json::{Json, JsonValue, field, text_of, number_of, get_str, get_u64, object4, lemma_field_at};
use crate::text::owned;
use crate::time::timestamp;

verus! {

/// A message stored for its receiver.
#[derive(Debug, Clone, PartialEq, Eq, Hash)]
pub struct MessageInfo {
    pub sender: Sender,
    pub channel: String,
    pub message: Message,
    pub received_at: u64,
}

impl View for MessageInfo {
    type V = (<Sender as View>::V, Seq<char>, <Message as View>::V, u64);

    open spec fn view(&self) -> Self::V {
        (self.sender@, self.channel@, self.message@, self.received_at)
    }
}

impl MessageInfo {
    /// A message received at `received_at` on `channel`.
    pub fn new(sender: Sender, channel: &str, message: Message, received_at: u64) -> (info: Self)
        ensures
            info@ == (sender@, channel@, message@, received_at),
    {
        MessageInfo { sender, channel: owned(channel), message, received_at }
    }

    /// A message received now on `channel`.
    pub fn now(sender: Sender, channel: &str, message: Message) -> (info: Self)
        ensures
            info.sender@ == sender@,
            info.channel@ == channel@,
            info.message@ == message@,
    {
        Self::new(sender, channel, message, timestamp())
    }
}

impl AsJson for MessageInfo {
    open spec fn json_valid(value: Self::V) -> bool {
        Sender::json_valid(value.0) && Message::json_valid(value.2)
    }

    open spec fn json_written(value: Self::V) -> Result<JsonValue, JsonError> {
        match Sender::json_written(value.0) {
            Err(e) => Err(e),
            Ok(sender) => match Message::json_written(value.2) {
                Err(e) => Err(e),
                Ok(message) => Ok(
                    JsonValue::Object(
                        seq![
                            ("sender"@, sender),
                            ("channel"@, JsonValue::Text(value.1)),
                            ("message"@, message),
                            ("received_at"@, JsonValue::Number(value.3)),
                        ],
                    ),
                ),
            },
        }
    }

    open spec fn json_read(json: JsonValue) -> Result<Self::V, JsonError> {
        match field(json, "sender"@) {
            None => Err(JsonError::FieldNotFound("sender"@)),
            Some(sender) => match Sender::json_read(sender) {
                Err(e) => Err(e),
                Ok(sender) => match text_of(field(json, "channel"@)) {
                    None => Err(JsonError::FieldNotFound("channel"@)),
                    Some(channel) => match field(json, "message"@) {
                        None => Err(JsonError::FieldNotFound("message"@)),
                        Some(message) => match Message::json_read(message) {
                            Err(e) => Err(e),
                            Ok(message) => match number_of(field(json, "received_at"@)) {
                                None => Err(JsonError::FieldNotFound("received_at"@)),
                                Some(received_at) => Ok((sender, channel, message, received_at)),
                            },
                        },
                    },
                },
            },
        }
    }

    fn to_json(&self) -> (json: Result<Json, AsJsonError>) {
        let sender = match self.sender.to_json() {
            Ok(j) => j,
            Err(e) => return Err(e),
        };
        let message = match self.message.to_json() {
            Ok(j) => j,
            Err(e) => return Err(e),
        };
        Ok(
            object4(
                "sender",
                sender,
                "channel",
                Json::text(self.channel.as_str()),
                "message",
                message,
                "received_at",
                Json::Number(self.received_at),
            ),
        )
    }

    fn from_json(json: &Json) -> (value: Result<Self, AsJsonError>) {
        proof {
            reveal_strlit("sender");
            reveal_strlit("channel");
            reveal_strlit("message");
            reveal_strlit("received_at");
            assert("sender"@.len() != "channel"@.len());
            assert("sender"@.len() != "message"@.len());
            assert("sender"@.len() != "received_at"@.len());
            assert("channel"@[0] != "message"@[0]);
            assert("channel"@.len() != "received_at"@.len());
            assert("message"@.len() != "received_at"@.len());
            assert forall|v: Self::V|
                Self::json_valid(v) && #[trigger] Self::json_written(v) == Ok::<
                    JsonValue,
                    JsonError,
                >(json@) implies (field(json@, "sender"@) == written_doc(
                    Sender::json_written(v.0),
                ) && text_of(field(json@, "channel"@)) == Some(v.1) && field(json@, "message"@)
                    == written_doc(Message::json_written(v.2)) && number_of(
                    field(json@, "received_at"@),
                ) == Some(v.3)) by {
                let fields = Self::json_written(v)->Ok_0->Object_0;
                lemma_field_at(fields, 0);
                lemma_field_at(fields, 1);
                lemma_field_at(fields, 2);
                lemma_field_at(fields, 3);
            }
        }
        let sender = match json.get("sender") {
            Some(j) => match Sender::from_json(j) {
                Ok(s) => s,
                Err(e) => return Err(e),
            },
            None => return Err(AsJsonError::FieldNotFound("sender")),
        };
        let channel = match get_str(json, "channel") {
            Some(t) => owned(t),
            None => return Err(AsJsonError::FieldNotFound("channel")),
        };
        let message = match json.get("message") {
            Some(j) => match Message::from_json(j) {
                Ok(m) => m,
                Err(e) => return Err(e),
            },
            None => return Err(AsJsonError::FieldNotFound("message")),
        };
        let received_at = match get_u64(json, "received_at") {
            Some(n) => n,
            None => return Err(AsJsonError::FieldNotFound("received_at")),
        };
        Ok(MessageInfo { sender, channel, message, received_at })
    }
}

} // verus!
