//! A message as the first protocol version carries it.

use vstd::prelude::*;

use super::SendError;
use super::message_encoding::{MessageEncoding, message_encoded, message_encodable, message_encode_error, message_decoded, message_encoding_name, message_encoding_of_name, lemma_message_encoding_name_roundtrip};
use crate::crypto::CryptographyError;
use crate::rest_api::{AsJson, AsJsonError, JsonError};
use crate::rest_api::json::{Json, JsonValue, field, text_of, get_str, object3, lemma_field_at};
use crate::text::owned;

verus! {

/// Message body: encoded content, encoded signature and their encoding.
#[derive(Debug, Clone, PartialEq, Eq, Hash)]
pub struct Message {
    pub content: String,
    pub sign: String,
    pub encoding: MessageEncoding,
}

impl View for Message {
    type V = (Seq<char>, Seq<char>, MessageEncoding);

    open spec fn view(&self) -> Self::V {
        (self.content@, self.sign@, self.encoding)
    }
}

/// What `read` gives for a message: its content and its signature, decoded.
pub open spec fn message_opened(m: (Seq<char>, Seq<char>, MessageEncoding), secret: Seq<u8>) -> Result<
    (Seq<u8>, Seq<u8>),
    SendError,
> {
    match message_decoded(m.2, secret, m.0) {
        Err(e) => Err(e),
        Ok(content) => match message_decoded(m.2, secret, m.1) {
            Err(e) => Err(e),
            Ok(sign) => Ok((content, sign)),
        },
    }
}

/// The text of the error that refuses the encoding name `name`.
pub open spec fn encoding_refusal(name: Seq<char>) -> Seq<char> {
    "Field 'encoding' contained invalid message encoding format: 'Wrong message encoding format provided: '"@
        + name + "''"@
}

/// Describe the refusal of the encoding name `name`.
fn describe_refusal(name: &str) -> (description: String)
    ensures
        description@ == encoding_refusal(name@),
{
    let mut description = owned(
        "Field 'encoding' contained invalid message encoding format: 'Wrong message encoding format provided: '",
    );
    description.append(name);
    description.append("''");
    description
}

impl Message {
    /// A message from its already encoded content and signature.
    pub fn new(content: &str, sign: &str, encoding: MessageEncoding) -> (message: Self)
        ensures
            message@ == (content@, sign@, encoding),
    {
        Message { content: owned(content), sign: owned(sign), encoding }
    }

    /// Build a message: `data` and its signature `sign` are compressed, encrypted
    /// with the shared secret `secret` and encoded by `encoding`.
    pub fn create(secret: &[u8; 32], data: &[u8], sign: &[u8], encoding: MessageEncoding) -> (message: Result<Self, SendError>)
        ensures
            message is Ok <==> message_encoded(encoding, secret@, data@) is Some && message_encoded(
                encoding,
                secret@,
                sign@,
            ) is Some,
            message matches Ok(m) ==> m@ == (
                message_encoded(encoding, secret@, data@)->Some_0,
                message_encoded(encoding, secret@, sign@)->Some_0,
                encoding,
            ),
            message matches Err(e) ==> e == (if message_encoded(encoding, secret@, data@) is None {
                message_encode_error(encoding, secret@, data@)
            } else {
                message_encode_error(encoding, secret@, sign@)
            }),
            message_encodable(encoding, data@) && message_encodable(encoding, sign@) ==> message is Ok,
    {
        let content = encoding.forward(data, secret)?;
        let sign = encoding.forward(sign, secret)?;
        Ok(Message { content, sign, encoding })
    }

    /// Decode the content and the signature with the shared secret `secret`.
    /// Reading a message that `create` built with the same secret gives its data
    /// and signature back.
    pub fn read(&self, secret: &[u8; 32]) -> (parts: Result<(Vec<u8>, Vec<u8>), SendError>)
        ensures
            parts matches Ok((content, sign)) ==> message_opened(self@, secret@) == Ok::<
                (Seq<u8>, Seq<u8>),
                SendError,
            >((content@, sign@)),
            parts matches Err(e) ==> message_opened(self@, secret@) == Err::<(Seq<u8>, Seq<u8>), SendError>(e),
            forall|data: Seq<u8>, sign: Seq<u8>|
                #[trigger] message_encoded(self.encoding, secret@, data) == Some(self.content@)
                    && #[trigger] message_encoded(self.encoding, secret@, sign) == Some(self.sign@)
                    ==> (parts matches Ok((c, s)) && c@ == data && s@ == sign),
    {
        let content = self.encoding.backward(self.content.as_str(), secret)?;
        let sign = self.encoding.backward(self.sign.as_str(), secret)?;
        Ok((content, sign))
    }

    /// Accept decoded content whose signature check came out as `signature_check`:
    /// a signature that does not match refuses the message.
    pub fn accept(content: Vec<u8>, signature_check: Result<bool, CryptographyError>) -> (accepted: Result<Vec<u8>, SendError>)
        ensures
            signature_check matches Err(e) ==> accepted == Err::<Vec<u8>, SendError>(SendError::CryptographyError(e)),
            signature_check == Ok::<bool, CryptographyError>(false) ==> accepted == Err::<Vec<u8>, SendError>(SendError::InvalidMessageSignature),
            signature_check == Ok::<bool, CryptographyError>(true) ==> (accepted matches Ok(c) && c@ == content@),
    {
        match signature_check {
            Err(e) => Err(SendError::CryptographyError(e)),
            Ok(false) => Err(SendError::InvalidMessageSignature),
            Ok(true) => Ok(content),
        }
    }
}

impl AsJson for Message {
    open spec fn json_valid(value: Self::V) -> bool {
        true
    }

    open spec fn json_written(value: Self::V) -> Result<JsonValue, JsonError> {
        Ok(
            JsonValue::Object(
                seq![
                    ("content"@, JsonValue::Text(value.0)),
                    ("sign"@, JsonValue::Text(value.1)),
                    ("encoding"@, JsonValue::Text(message_encoding_name(value.2))),
                ],
            ),
        )
    }

    /// A refused encoding name is reported as `Other` with a description.
    open spec fn json_read(json: JsonValue) -> Result<Self::V, JsonError> {
        match text_of(field(json, "content"@)) {
            None => Err(JsonError::FieldNotFound("content"@)),
            Some(content) => match text_of(field(json, "sign"@)) {
                None => Err(JsonError::FieldNotFound("sign"@)),
                Some(sign) => match text_of(field(json, "encoding"@)) {
                    None => Err(JsonError::FieldNotFound("encoding"@)),
                    Some(name) => match message_encoding_of_name(name) {
                        Some(encoding) => Ok((content, sign, encoding)),
                        None => Err(JsonError::Other(encoding_refusal(name))),
                    },
                },
            },
        }
    }

    fn to_json(&self) -> (json: Result<Json, AsJsonError>) {
        Ok(
            object3(
                "content",
                Json::text(self.content.as_str()),
                "sign",
                Json::text(self.sign.as_str()),
                "encoding",
                Json::text(self.encoding.to_str()),
            ),
        )
    }

    fn from_json(json: &Json) -> (value: Result<Self, AsJsonError>) {
        proof {
            reveal_strlit("content");
            reveal_strlit("sign");
            reveal_strlit("encoding");
            assert("content"@.len() != "sign"@.len());
            assert("content"@.len() != "encoding"@.len());
            assert("sign"@.len() != "encoding"@.len());
            assert forall|v: Self::V|
                Self::json_valid(v) && #[trigger] Self::json_written(v) == Ok::<
                    JsonValue,
                    JsonError,
                >(json@) implies (text_of(field(json@, "content"@)) == Some(v.0) && text_of(
                    field(json@, "sign"@),
                ) == Some(v.1) && text_of(field(json@, "encoding"@)) == Some(
                    message_encoding_name(v.2),
                ) && message_encoding_of_name(message_encoding_name(v.2)) == Some(v.2)) by {
                let fields = Self::json_written(v)->Ok_0->Object_0;
                lemma_field_at(fields, 0);
                lemma_field_at(fields, 1);
                lemma_field_at(fields, 2);
                lemma_message_encoding_name_roundtrip(v.2);
            }
        }
        let content = match get_str(json, "content") {
            Some(t) => owned(t),
            None => return Err(AsJsonError::FieldNotFound("content")),
        };
        let sign = match get_str(json, "sign") {
            Some(t) => owned(t),
            None => return Err(AsJsonError::FieldNotFound("sign")),
        };
        let encoding = match get_str(json, "encoding") {
            Some(t) => match MessageEncoding::from_str(t) {
                Ok(e) => e,
                Err(_) => return Err(AsJsonError::Other(describe_refusal(t))),
            },
            None => return Err(AsJsonError::FieldNotFound("encoding")),
        };
        Ok(Message { content, sign, encoding })
    }
}

} // verus!
