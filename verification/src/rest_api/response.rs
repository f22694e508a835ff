//! Header of the responses to the protocol's `POST` requests.

use vstd::prelude::*;

use super::{AsJson, AsJsonError, JsonError, ValidationError, written_doc};
use super::json::{Json, JsonValue, field, text_of, number_of, get_str, get_u64, object1, object3, object5, lemma_field_at};
use super::request::{MIN_PROOF_SEED, proof_validation, header_of_texts, proof_bytes};
use crate::bytes::be_bytes;
use super::status::{ResponseStatus, status_code, status_of_code, status_is_success, lemma_status_code_roundtrip};
use crate::crypto::{CryptographyError, PublicKey, PUBLIC_KEY_LEN, base64_encode, base64_decode, base64_encoded};
use crate::text::owned;
use crate::STANDARD_VERSION;

verus! {

/// Protocol's REST API response header.
#[derive(Debug, Clone, PartialEq, Eq, Hash)]
pub enum Response<T> {
    Success {
        standard: u64,
        status: ResponseStatus,
        public_key: PublicKey,
        proof_sign: Vec<u8>,
        response: T,
    },
    Error { standard: u64, status: ResponseStatus, reason: String },
}

/// The mathematical value of a response header.
pub enum ResponseView<V> {
    Success { standard: u64, status: ResponseStatus, key: Seq<u8>, sign: Seq<u8>, body: V },
    Error { standard: u64, status: ResponseStatus, reason: Seq<char> },
}

impl<T: View> View for Response<T> {
    type V = ResponseView<T::V>;

    open spec fn view(&self) -> ResponseView<T::V> {
        match self {
            Response::Success { standard, status, public_key, proof_sign, response } => {
                ResponseView::Success {
                    standard: *standard,
                    status: *status,
                    key: public_key@,
                    sign: proof_sign@,
                    body: response@,
                }
            },
            Response::Error { standard, status, reason } => ResponseView::Error {
                standard: *standard,
                status: *status,
                reason: reason@,
            },
        }
    }
}

/// The standard version of a response header.
pub open spec fn response_standard<V>(r: ResponseView<V>) -> u64 {
    match r {
        ResponseView::Success { standard, .. } => standard,
        ResponseView::Error { standard, .. } => standard,
    }
}

/// The status of a response header.
pub open spec fn response_status<V>(r: ResponseView<V>) -> ResponseStatus {
    match r {
        ResponseView::Success { status, .. } => status,
        ResponseView::Error { status, .. } => status,
    }
}

impl<T> Response<T> {
    /// A successful response of the current standard; `proof` is the responder's
    /// signature of the request's proof seed.
    pub fn success(status: ResponseStatus, public_key: PublicKey, proof: Vec<u8>, response: T) -> (r: Self)
        ensures
            r matches Response::Success { standard, status: s, public_key: k, proof_sign, response: body }
                && standard == STANDARD_VERSION && s == status && k@ == public_key@ && proof_sign@
                == proof@ && body == response,
    {
        Response::Success {
            standard: STANDARD_VERSION,
            status,
            public_key,
            proof_sign: proof,
            response,
        }
    }

    /// What checking the response's proof takes, for a request whose proof seed
    /// was `proof_seed`: the responder's key, the bytes that it signed (the seed
    /// as eight big-endian bytes) and the signature. Error responses carry no proof.
    pub fn proof_to_check(&self, proof_seed: u64) -> (check: Option<(&PublicKey, Vec<u8>, &Vec<u8>)>)
        ensures
            match self {
                Response::Success { public_key, proof_sign, .. } => check matches Some((k, b, s))
                    && k@ == public_key@ && b@ == be_bytes(proof_seed) && s@ == proof_sign@,
                Response::Error { .. } => check is None,
            },
    {
        match self {
            Response::Success { public_key, proof_sign, .. } => Some((public_key, proof_bytes(proof_seed), proof_sign)),
            Response::Error { .. } => None,
        }
    }

    /// An error response of the current standard explaining itself by `reason`.
    pub fn error(status: ResponseStatus, reason: &str) -> (r: Self)
        ensures
            r matches Response::Error { standard, status: s, reason: text } && standard
                == STANDARD_VERSION && s == status && text@ == reason@,
    {
        Response::Error { standard: STANDARD_VERSION, status, reason: owned(reason) }
    }

    /// The `standard` field of the header.
    pub fn standard(&self) -> (standard: u64)
        ensures
            standard == (match self {
                Response::Success { standard, .. } => *standard,
                Response::Error { standard, .. } => *standard,
            }),
    {
        match self {
            Response::Success { standard, .. } => *standard,
            Response::Error { standard, .. } => *standard,
        }
    }

    /// The `status` field of the header.
    pub fn status(&self) -> (status: ResponseStatus)
        ensures
            status == (match self {
                Response::Success { status, .. } => *status,
                Response::Error { status, .. } => *status,
            }),
    {
        match self {
            Response::Success { status, .. } => *status,
            Response::Error { status, .. } => *status,
        }
    }

    /// Validate that the response was sent by the server it names, for a request
    /// whose proof seed was `proof_seed`; `signature_check` is the outcome of checking
    /// `proof_sign` against `proof_bytes(proof_seed)` with `public_key`. Error
    /// responses are always valid.
    pub fn validate(&self, proof_seed: u64, signature_check: Result<bool, CryptographyError>) -> (valid: Result<
        bool,
        ValidationError,
    >)
        ensures
            self is Success ==> valid == proof_validation(proof_seed, signature_check),
            self is Error ==> valid == Ok::<bool, ValidationError>(true),
    {
        match self {
            Response::Success { .. } => {
                if proof_seed < MIN_PROOF_SEED {
                    return Err(ValidationError::InvalidSeed);
                }
                match signature_check {
                    Ok(valid) => Ok(valid),
                    Err(e) => Err(ValidationError::CryptographyError(e)),
                }
            },
            Response::Error { .. } => Ok(true),
        }
    }
}

/// The JSON object of a successful response around the document of its body.
pub open spec fn success_object(
    standard: u64,
    status: ResponseStatus,
    key: Seq<u8>,
    sign: Seq<u8>,
    body: JsonValue,
) -> JsonValue {
    JsonValue::Object(
        seq![
            ("standard"@, JsonValue::Number(standard)),
            ("status"@, JsonValue::Number(status_code(status))),
            ("public_key"@, JsonValue::Text(base64_encoded(key))),
            ("proof"@, JsonValue::Object(seq![("sign"@, JsonValue::Text(base64_encoded(sign)))])),
            ("response"@, body),
        ],
    )
}

/// The JSON object of an error response.
pub open spec fn error_object(standard: u64, status: ResponseStatus, reason: Seq<char>) -> JsonValue {
    JsonValue::Object(
        seq![
            ("standard"@, JsonValue::Number(standard)),
            ("status"@, JsonValue::Number(status_code(status))),
            ("reason"@, JsonValue::Text(reason)),
        ],
    )
}

/// What the fields after `standard` and `status` of a successful response read as.
pub open spec fn success_read<T: AsJson>(json: JsonValue, standard: u64, status: ResponseStatus) -> Result<
    ResponseView<T::V>,
    JsonError,
> {
    match text_of(field(json, "public_key"@)) {
        None => Err(JsonError::FieldNotFound("public_key"@)),
        Some(key) => match field(json, "proof"@) {
            None => Err(JsonError::FieldNotFound("proof"@)),
            Some(proof) => match text_of(field(proof, "sign"@)) {
                None => Err(JsonError::FieldNotFound("proof.sign"@)),
                Some(sign) => match field(json, "response"@) {
                    None => Err(JsonError::FieldNotFound("response"@)),
                    Some(body) => match header_of_texts(key, sign) {
                        Err(e) => Err(e),
                        Ok((key, sign)) => match T::json_read(body) {
                            Err(e) => Err(e),
                            Ok(body) => Ok(ResponseView::Success { standard, status, key, sign, body }),
                        },
                    },
                },
            },
        },
    }
}

impl<T: AsJson> AsJson for Response<T> {
    /// A value reads back as it was written when its variant agrees with its status.
    open spec fn json_valid(value: ResponseView<T::V>) -> bool {
        match value {
            ResponseView::Success { status, key, body, .. } => status_is_success(status)
                && key.len() == PUBLIC_KEY_LEN && T::json_valid(body),
            ResponseView::Error { status, .. } => !status_is_success(status),
        }
    }

    open spec fn json_written(value: ResponseView<T::V>) -> Result<JsonValue, JsonError> {
        match value {
            ResponseView::Success { standard, status, key, sign, body } => if standard != 1 {
                Err(JsonError::InvalidStandard(standard))
            } else {
                match T::json_written(body) {
                    Err(e) => Err(e),
                    Ok(body) => Ok(success_object(standard, status, key, sign, body)),
                }
            },
            ResponseView::Error { standard, status, reason } => if standard != 1 {
                Err(JsonError::InvalidStandard(standard))
            } else {
                Ok(error_object(standard, status, reason))
            },
        }
    }

    open spec fn json_read(json: JsonValue) -> Result<ResponseView<T::V>, JsonError> {
        match number_of(field(json, "standard"@)) {
            None => Err(JsonError::FieldNotFound("standard"@)),
            Some(standard) => if standard != 1 {
                Err(JsonError::InvalidStandard(standard))
            } else {
                match field(json, "status"@) {
                    None => Err(JsonError::FieldNotFound("status"@)),
                    Some(status) => match number_of(Some(status)) {
                        None => Err(JsonError::FieldValueInvalid("status"@)),
                        Some(code) => match status_of_code(code) {
                            None => Err(JsonError::FieldValueInvalid("status"@)),
                            Some(status) => if status_is_success(status) {
                                success_read::<T>(json, standard, status)
                            } else {
                                match text_of(field(json, "reason"@)) {
                                    None => Err(JsonError::FieldNotFound("reason"@)),
                                    Some(reason) => Ok(
                                        ResponseView::Error { standard, status, reason },
                                    ),
                                }
                            },
                        },
                    },
                }
            },
        }
    }

    fn to_json(&self) -> (json: Result<Json, AsJsonError>) {
        match self {
            Response::Success { standard, status, public_key, proof_sign, response } => {
                if *standard != 1 {
                    return Err(AsJsonError::InvalidStandard(*standard));
                }
                let body = match response.to_json() {
                    Ok(j) => j,
                    Err(e) => return Err(e),
                };
                Ok(
                    object5(
                        "standard",
                        Json::Number(*standard),
                        "status",
                        Json::Number(status.to_code()),
                        "public_key",
                        Json::String(public_key.to_base64()),
                        "proof",
                        object1("sign", Json::String(base64_encode(proof_sign.as_slice()))),
                        "response",
                        body,
                    ),
                )
            },
            Response::Error { standard, status, reason } => {
                if *standard != 1 {
                    return Err(AsJsonError::InvalidStandard(*standard));
                }
                Ok(
                    object3(
                        "standard",
                        Json::Number(*standard),
                        "status",
                        Json::Number(status.to_code()),
                        "reason",
                        Json::text(reason.as_str()),
                    ),
                )
            },
        }
    }

    fn from_json(json: &Json) -> (value: Result<Self, AsJsonError>) {
        proof {
            reveal_strlit("standard");
            reveal_strlit("status");
            reveal_strlit("public_key");
            reveal_strlit("proof");
            reveal_strlit("response");
            reveal_strlit("reason");
            reveal_strlit("sign");
            assert("standard"@.len() != "status"@.len());
            assert("standard"@.len() != "public_key"@.len());
            assert("standard"@.len() != "proof"@.len());
            assert("standard"@[0] != "response"@[0]);
            assert("standard"@[0] != "reason"@[0]);
            assert("status"@.len() != "public_key"@.len());
            assert("status"@.len() != "proof"@.len());
            assert("status"@.len() != "response"@.len());
            assert("status"@[0] != "reason"@[0]);
            assert("public_key"@.len() != "proof"@.len());
            assert("public_key"@.len() != "response"@.len());
            assert("proof"@.len() != "response"@.len());
            assert forall|v: ResponseView<T::V>|
                Self::json_valid(v) && #[trigger] Self::json_written(v) == Ok::<
                    JsonValue,
                    JsonError,
                >(json@) implies ({
                    &&& number_of(field(json@, "standard"@)) == Some(response_standard(v))
                    &&& response_standard(v) == 1
                    &&& field(json@, "status"@) == Some(
                        JsonValue::Number(status_code(response_status(v))),
                    )
                    &&& status_of_code(status_code(response_status(v))) == Some(
                        response_status(v),
                    )
                    &&& (v matches ResponseView::Success { key, sign, body, .. } ==> {
                        &&& text_of(field(json@, "public_key"@)) == Some(base64_encoded(key))
                        &&& field(json@, "proof"@) == Some(
                            JsonValue::Object(seq![("sign"@, JsonValue::Text(base64_encoded(sign)))]),
                        )
                        &&& text_of(field(field(json@, "proof"@)->Some_0, "sign"@)) == Some(
                            base64_encoded(sign),
                        )
                        &&& field(json@, "response"@) == written_doc(T::json_written(body))
                    })
                    &&& (v matches ResponseView::Error { reason, .. } ==> text_of(
                        field(json@, "reason"@),
                    ) == Some(reason))
                }) by {
                lemma_status_code_roundtrip(response_status(v));
                let fields = Self::json_written(v)->Ok_0->Object_0;
                lemma_field_at(fields, 0);
                lemma_field_at(fields, 1);
                lemma_field_at(fields, 2);
                if v is Success {
                    lemma_field_at(fields, 3);
                    lemma_field_at(fields, 4);
                    lemma_field_at(seq![("sign"@, JsonValue::Text(base64_encoded(v->sign)))], 0);
                }
            }
        }
        let standard = match get_u64(json, "standard") {
            Some(n) => n,
            None => return Err(AsJsonError::FieldNotFound("standard")),
        };
        if standard != 1 {
            return Err(AsJsonError::InvalidStandard(standard));
        }
        let status = match json.get("status") {
            Some(s) => s,
            None => return Err(AsJsonError::FieldNotFound("status")),
        };
        let status = match status.as_u64() {
            Some(code) => match ResponseStatus::from_code(code) {
                Some(s) => s,
                None => return Err(AsJsonError::FieldValueInvalid("status")),
            },
            None => return Err(AsJsonError::FieldValueInvalid("status")),
        };
        if status.is_success() {
            let key_text = match get_str(json, "public_key") {
                Some(t) => t,
                None => return Err(AsJsonError::FieldNotFound("public_key")),
            };
            let proof = match json.get("proof") {
                Some(p) => p,
                None => return Err(AsJsonError::FieldNotFound("proof")),
            };
            let sign_text = match get_str(proof, "sign") {
                Some(t) => t,
                None => return Err(AsJsonError::FieldNotFound("proof.sign")),
            };
            let body = match json.get("response") {
                Some(b) => b,
                None => return Err(AsJsonError::FieldNotFound("response")),
            };
            let (public_key, proof_sign) = match super::request::header_from_texts(
                key_text,
                sign_text,
            ) {
                Ok(h) => h,
                Err(e) => return Err(e),
            };
            let response = match T::from_json(body) {
                Ok(r) => r,
                Err(e) => return Err(e),
            };
            Ok(Response::Success { standard, status, public_key, proof_sign, response })
        } else {
            let reason = match get_str(json, "reason") {
                Some(t) => t,
                None => return Err(AsJsonError::FieldNotFound("reason")),
            };
            Ok(Response::Error { standard, status, reason: owned(reason) })
        }
    }
}

} // verus!
