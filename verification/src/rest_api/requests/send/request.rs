//! Body of a request to send a message.

use vstd::prelude::*;

use crate::crypto::{PublicKey, PUBLIC_KEY_LEN, base64_encoded};
use crate::crypto::public_key::key_from_base64;
use crate::rest_api::{AsJson, AsJsonError, JsonError, written_doc};
use crate::rest_api::json::{Json, JsonValue, field, text_of, get_str, object1, object4, lemma_field_at};
use crate::rest_api::types::{Message, Sender};
use crate::text::owned;

verus! {

/// Body of a send request: who sends, to whom, on which channel, and what.
#[derive(Debug, Clone, PartialEq, Eq, Hash)]
pub struct SendRequestBody {
    pub sender: Sender,
    pub receiver_public: PublicKey,
    pub channel: String,
    pub message: Message,
}

impl View for SendRequestBody {
    type V = (<Sender as View>::V, Seq<u8>, Seq<char>, <Message as View>::V);

    open spec fn view(&self) -> Self::V {
        (self.sender@, self.receiver_public@, self.channel@, self.message@)
    }
}

impl SendRequestBody {
    /// A body sending `message` from `sender` to the client with `receiver_public` on `channel`.
    pub fn new(sender: Sender, receiver_public: PublicKey, channel: &str, message: Message) -> (body: Self)
        ensures
            body@ == (sender@, receiver_public@, channel@, message@),
    {
        SendRequestBody { sender, receiver_public, channel: owned(channel), message }
    }
}

impl AsJson for SendRequestBody {
    open spec fn json_valid(value: Self::V) -> bool {
        Sender::json_valid(value.0) && value.1.len() == PUBLIC_KEY_LEN && Message::json_valid(value.3)
    }

    open spec fn json_written(value: Self::V) -> Result<JsonValue, JsonError> {
        match Sender::json_written(value.0) {
            Err(e) => Err(e),
            Ok(sender) => match Message::json_written(value.3) {
                Err(e) => Err(e),
                Ok(message) => Ok(
                    JsonValue::Object(
                        seq![
                            ("sender"@, sender),
                            (
                                "receiver"@,
                                JsonValue::Object(
                                    seq![("public_key"@, JsonValue::Text(base64_encoded(value.1)))],
                                ),
                            ),
                            ("channel"@, JsonValue::Text(value.2)),
                            ("message"@, message),
                        ],
                    ),
                ),
            },
        }
    }

    open spec fn json_read(json: JsonValue) -> Result<Self::V, JsonError> {
        match field(json, "receiver"@) {
            None => Err(JsonError::FieldNotFound("receiver"@)),
            Some(receiver) => match field(json, "sender"@) {
                None => Err(JsonError::FieldNotFound("sender"@)),
                Some(sender) => match Sender::json_read(sender) {
                    Err(e) => Err(e),
                    Ok(sender) => match text_of(field(receiver, "public_key"@)) {
                        None => Err(JsonError::FieldNotFound("receiver.public_key"@)),
                        Some(key) => match key_from_base64(key) {
                            Err(e) => Err(JsonError::CryptographyError(e)),
                            Ok(key) => match text_of(field(json, "channel"@)) {
                                None => Err(JsonError::FieldNotFound("channel"@)),
                                Some(channel) => match field(json, "message"@) {
                                    None => Err(JsonError::FieldNotFound("message"@)),
                                    Some(message) => match Message::json_read(message) {
                                        Err(e) => Err(e),
                                        Ok(message) => Ok((sender, key, channel, message)),
                                    },
                                },
                            },
                        },
                    },
                },
            },
        }
    }

    fn to_json(&self) -> (json: Result<Json, AsJsonError>) {
        let sender = match self.sender.to_json() {
            Ok(j) => j,
            Err(e) => return Err(e),
        };
        let receiver = object1("public_key", Json::String(self.receiver_public.to_base64()));
        let message = match self.message.to_json() {
            Ok(j) => j,
            Err(e) => return Err(e),
        };
        Ok(
            object4(
                "sender",
                sender,
                "receiver",
                receiver,
                "channel",
                Json::text(self.channel.as_str()),
                "message",
                message,
            ),
        )
    }

    fn from_json(json: &Json) -> (value: Result<Self, AsJsonError>) {
        proof {
            reveal_strlit("sender");
            reveal_strlit("receiver");
            reveal_strlit("channel");
            reveal_strlit("message");
            reveal_strlit("public_key");
            assert("sender"@.len() != "receiver"@.len());
            assert("sender"@.len() != "channel"@.len());
            assert("sender"@.len() != "message"@.len());
            assert("receiver"@.len() != "channel"@.len());
            assert("receiver"@.len() != "message"@.len());
            assert("channel"@[0] != "message"@[0]);
            assert forall|v: Self::V|
                Self::json_valid(v) && #[trigger] Self::json_written(v) == Ok::<
                    JsonValue,
                    JsonError,
                >(json@) implies ({
                    &&& field(json@, "sender"@) == written_doc(Sender::json_written(v.0))
                    &&& field(json@, "receiver"@) == Some(
                        JsonValue::Object(seq![("public_key"@, JsonValue::Text(base64_encoded(v.1)))]),
                    )
                    &&& text_of(field(field(json@, "receiver"@)->Some_0, "public_key"@)) == Some(
                        base64_encoded(v.1),
                    )
                    &&& text_of(field(json@, "channel"@)) == Some(v.2)
                    &&& field(json@, "message"@) == written_doc(Message::json_written(v.3))
                }) by {
                let fields = Self::json_written(v)->Ok_0->Object_0;
                lemma_field_at(fields, 0);
                lemma_field_at(fields, 1);
                lemma_field_at(fields, 2);
                lemma_field_at(fields, 3);
                lemma_field_at(seq![("public_key"@, JsonValue::Text(base64_encoded(v.1)))], 0);
            }
        }
        let receiver = match json.get("receiver") {
            Some(r) => r,
            None => return Err(AsJsonError::FieldNotFound("receiver")),
        };
        let sender = match json.get("sender") {
            Some(j) => match Sender::from_json(j) {
                Ok(s) => s,
                Err(e) => return Err(e),
            },
            None => return Err(AsJsonError::FieldNotFound("sender")),
        };
        let receiver_public = match get_str(receiver, "public_key") {
            Some(t) => match PublicKey::from_base64(t) {
                Ok(k) => k,
                Err(e) => return Err(AsJsonError::CryptographyError(e)),
            },
            None => return Err(AsJsonError::FieldNotFound("receiver.public_key")),
        };
        let channel = match get_str(json, "channel") {
            Some(t) => owned(t),
            None => return Err(AsJsonError::FieldNotFound("channel")),
        };
        let message = match json.get("message") {
            Some(j) => match Message::from_json(j) {
                Ok(m) => m,
                Err(e) => return Err(e),
            },
            None => return Err(AsJsonError::FieldNotFound("message")),
        };
        Ok(SendRequestBody { sender, receiver_public, channel, message })
    }
}

} // verus!
