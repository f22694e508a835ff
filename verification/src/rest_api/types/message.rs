//! A message as it travels: encoded content, encoded signature and their encoding.

use vstd::prelude::*;

use super::message_encoding::{MessageEncoding, message_encoding_text, message_encoding_of_text, lemma_message_encoding_text_roundtrip};
use super::messages_error::MessagesError;
use crate::crypto::{CryptographyError, cryptography_error_text};
use crate::rest_api::{AsJson, AsJsonError, JsonError};
use crate::rest_api::json::{Json, JsonValue, field, text_of, get_str, object3, lemma_field_at};
use crate::text::owned;

verus! {

/// Message body.
#[derive(Debug, Clone, PartialEq, Eq, Hash)]
pub struct Message {
    pub content: String,
    pub sign: String,
    pub encoding: MessageEncoding,
}

impl View for Message {
    type V = (Seq<char>, Seq<char>, MessageEncoding);

    open spec fn view(&self) -> Self::V {
        (self.content@, self.sign@, self.encoding)
    }
}

/// The text of the error that refuses the encoding named `text`, which failed
/// with `error` (`None` for a text of the wrong shape).
pub open spec fn encoding_refusal(text: Seq<char>, error: Option<CryptographyError>) -> Seq<char> {
    "Field 'encoding' contained invalid message encoding format: '"@ + match error {
        None => "Wrong message encoding format provided: '"@ + text + "'"@,
        Some(c) => cryptography_error_text(c),
    } + "'"@
}

/// Describe the refusal of the encoding named `text`.
fn describe_refusal(text: &str, error: &MessagesError) -> (description: String)
    ensures
        error matches MessagesError::WrongMessageEncodingFormat(t) && t@ == text@ ==> description@
            == encoding_refusal(text@, None),
        error matches MessagesError::CryptographyError(c) ==> description@ == encoding_refusal(
            text@,
            Some(*c),
        ),
{
    let mut description = owned("Field 'encoding' contained invalid message encoding format: '");
    match error {
        MessagesError::CryptographyError(c) => description.append(c.describe()),
        _ => {
            description.append("Wrong message encoding format provided: '");
            description.append(text);
            description.append("'");
        },
    }
    description.append("'");
    description
}

impl Message {
    /// A message from its already encoded content and signature.
    pub fn new(content: &str, sign: &str, encoding: MessageEncoding) -> (message: Self)
        ensures
            message@ == (content@, sign@, encoding),
    {
        Message { content: owned(content), sign: owned(sign), encoding }
    }
}

impl AsJson for Message {
    open spec fn json_valid(value: Self::V) -> bool {
        true
    }

    open spec fn json_written(value: Self::V) -> Result<JsonValue, JsonError> {
        Ok(
            JsonValue::Object(
                seq![
                    ("content"@, JsonValue::Text(value.0)),
                    ("sign"@, JsonValue::Text(value.1)),
                    ("encoding"@, JsonValue::Text(message_encoding_text(value.2))),
                ],
            ),
        )
    }

    /// A refused encoding text is reported as `Other` with a description.
    open spec fn json_read(json: JsonValue) -> Result<Self::V, JsonError> {
        match text_of(field(json, "content"@)) {
            None => Err(JsonError::FieldNotFound("content"@)),
            Some(content) => match text_of(field(json, "sign"@)) {
                None => Err(JsonError::FieldNotFound("sign"@)),
                Some(sign) => match text_of(field(json, "encoding"@)) {
                    None => Err(JsonError::FieldNotFound("encoding"@)),
                    Some(text) => match message_encoding_of_text(text) {
                        Ok(encoding) => Ok((content, sign, encoding)),
                        Err(e) => Err(JsonError::Other(encoding_refusal(text, e))),
                    },
                },
            },
        }
    }

    fn to_json(&self) -> (json: Result<Json, AsJsonError>) {
        Ok(
            object3(
                "content",
                Json::text(self.content.as_str()),
                "sign",
                Json::text(self.sign.as_str()),
                "encoding",
                Json::String(self.encoding.to_string()),
            ),
        )
    }

    fn from_json(json: &Json) -> (value: Result<Self, AsJsonError>) {
        proof {
            reveal_strlit("content");
            reveal_strlit("sign");
            reveal_strlit("encoding");
            assert("content"@.len() != "sign"@.len());
            assert("content"@.len() != "encoding"@.len());
            assert("sign"@.len() != "encoding"@.len());
            assert forall|v: Self::V|
                Self::json_valid(v) && #[trigger] Self::json_written(v) == Ok::<
                    JsonValue,
                    JsonError,
                >(json@) implies (text_of(field(json@, "content"@)) == Some(v.0) && text_of(
                    field(json@, "sign"@),
                ) == Some(v.1) && text_of(field(json@, "encoding"@)) == Some(
                    message_encoding_text(v.2),
                ) && message_encoding_of_text(message_encoding_text(v.2)) == Ok::<
                    MessageEncoding,
                    Option<CryptographyError>,
                >(v.2)) by {
                let fields = Self::json_written(v)->Ok_0->Object_0;
                lemma_field_at(fields, 0);
                lemma_field_at(fields, 1);
                lemma_field_at(fields, 2);
                lemma_message_encoding_text_roundtrip(v.2);
            }
        }
        let content = match get_str(json, "content") {
            Some(t) => owned(t),
            None => return Err(AsJsonError::FieldNotFound("content")),
        };
        let sign = match get_str(json, "sign") {
            Some(t) => owned(t),
            None => return Err(AsJsonError::FieldNotFound("sign")),
        };
        let encoding = match get_str(json, "encoding") {
            Some(t) => match MessageEncoding::from_str(t) {
                Ok(e) => e,
                Err(e) => return Err(AsJsonError::Other(describe_refusal(t, &e))),
            },
            None => return Err(AsJsonError::FieldNotFound("encoding")),
        };
        Ok(Message { content, sign, encoding })
    }
}

} // verus!
