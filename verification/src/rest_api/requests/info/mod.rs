//! Information that a server gives about itself.

use vstd::prelude::*;

use crate::crypto::{CryptographyError, PublicKey, PUBLIC_KEY_LEN, base64_encode, base64_encoded};
use crate::rest_api::{AsJson, AsJsonError, JsonError, ValidationError};
use crate::rest_api::json::{Json, JsonValue, field, text_of, number_of, get_str, get_u64, object1, object2, object3, lemma_field_at};
use crate::rest_api::request::{MIN_PROOF_SEED, proof_validation, header_of_texts, header_from_texts, proof_bytes};
use crate::bytes::be_bytes;
use crate::STANDARD_VERSION;

verus! {

/// A server's description of itself, with a signed proof seed.
#[derive(Debug, Clone, PartialEq, Eq, Hash)]
pub struct InfoResponse {
    pub standard: u64,
    pub public_key: PublicKey,
    pub proof_seed: u64,
    pub proof_sign: Vec<u8>,
}

impl View for InfoResponse {
    type V = (u64, Seq<u8>, u64, Seq<u8>);

    open spec fn view(&self) -> Self::V {
        (self.standard, self.public_key@, self.proof_seed, self.proof_sign@)
    }
}

impl InfoResponse {
    /// The description of the server with `public_key`; `proof_seed` is a random
    /// seed of at least `2^63` and `proof_sign` the server's signature of
    /// `proof_bytes(proof_seed)`.
    pub fn new(public_key: PublicKey, proof_seed: u64, proof_sign: Vec<u8>) -> (info: Self)
        requires
            proof_seed >= MIN_PROOF_SEED,
        ensures
            info@ == (STANDARD_VERSION, public_key@, proof_seed, proof_sign@),
    {
        InfoResponse { standard: STANDARD_VERSION, public_key, proof_seed, proof_sign }
    }

    /// What checking the proof takes: the server's key, the bytes that it signed
    /// (the proof seed as eight big-endian bytes) and the signature.
    pub fn proof_to_check(&self) -> (check: (&PublicKey, Vec<u8>, &Vec<u8>))
        ensures
            check.0@ == self.public_key@,
            check.1@ == be_bytes(self.proof_seed),
            check.2@ == self.proof_sign@,
    {
        (&self.public_key, proof_bytes(self.proof_seed), &self.proof_sign)
    }

    /// Validate the proof; `signature_check` is the outcome of checking
    /// `proof_sign` against `proof_bytes(proof_seed)` with `public_key`.
    pub fn validate(&self, signature_check: Result<bool, CryptographyError>) -> (valid: Result<
        bool,
        ValidationError,
    >)
        ensures
            valid == proof_validation(self.proof_seed, signature_check),
    {
        if self.proof_seed < MIN_PROOF_SEED {
            return Err(ValidationError::InvalidSeed);
        }
        match signature_check {
            Ok(valid) => Ok(valid),
            Err(e) => Err(ValidationError::CryptographyError(e)),
        }
    }
}

impl AsJson for InfoResponse {
    open spec fn json_valid(value: Self::V) -> bool {
        value.1.len() == PUBLIC_KEY_LEN
    }

    open spec fn json_written(value: Self::V) -> Result<JsonValue, JsonError> {
        if value.0 != 1 {
            Err(JsonError::InvalidStandard(value.0))
        } else {
            Ok(
                JsonValue::Object(
                    seq![
                        ("standard"@, JsonValue::Number(value.0)),
                        (
                            "server"@,
                            JsonValue::Object(
                                seq![("public_key"@, JsonValue::Text(base64_encoded(value.1)))],
                            ),
                        ),
                        (
                            "proof"@,
                            JsonValue::Object(
                                seq![
                                    ("seed"@, JsonValue::Number(value.2)),
                                    ("sign"@, JsonValue::Text(base64_encoded(value.3))),
                                ],
                            ),
                        ),
                    ],
                ),
            )
        }
    }

    open spec fn json_read(json: JsonValue) -> Result<Self::V, JsonError> {
        match number_of(field(json, "standard"@)) {
            None => Err(JsonError::FieldNotFound("standard"@)),
            Some(standard) => if standard != 1 {
                Err(JsonError::InvalidStandard(standard))
            } else {
                match field(json, "server"@) {
                    None => Err(JsonError::FieldNotFound("server"@)),
                    Some(server) => match text_of(field(server, "public_key"@)) {
                        None => Err(JsonError::FieldNotFound("server.public_key"@)),
                        Some(key) => match field(json, "proof"@) {
                            None => Err(JsonError::FieldNotFound("proof"@)),
                            Some(proof) => match number_of(field(proof, "seed"@)) {
                                None => Err(JsonError::FieldNotFound("proof.seed"@)),
                                Some(seed) => match text_of(field(proof, "sign"@)) {
                                    None => Err(JsonError::FieldNotFound("proof.sign"@)),
                                    Some(sign) => match header_of_texts(key, sign) {
                                        Err(e) => Err(e),
                                        Ok((key, sign)) => Ok((standard, key, seed, sign)),
                                    },
                                },
                            },
                        },
                    },
                }
            },
        }
    }

    fn to_json(&self) -> (json: Result<Json, AsJsonError>) {
        if self.standard != 1 {
            return Err(AsJsonError::InvalidStandard(self.standard));
        }
        Ok(
            object3(
                "standard",
                Json::Number(self.standard),
                "server",
                object1("public_key", Json::String(self.public_key.to_base64())),
                "proof",
                object2(
                    "seed",
                    Json::Number(self.proof_seed),
                    "sign",
                    Json::String(base64_encode(self.proof_sign.as_slice())),
                ),
            ),
        )
    }

    fn from_json(json: &Json) -> (value: Result<Self, AsJsonError>) {
        proof {
            reveal_strlit("standard");
            reveal_strlit("server");
            reveal_strlit("proof");
            reveal_strlit("public_key");
            reveal_strlit("seed");
            reveal_strlit("sign");
            assert("standard"@.len() != "server"@.len());
            assert("standard"@.len() != "proof"@.len());
            assert("server"@.len() != "proof"@.len());
            assert("seed"@[1] != "sign"@[1]);
            assert forall|v: Self::V|
                Self::json_valid(v) && #[trigger] Self::json_written(v) == Ok::<
                    JsonValue,
                    JsonError,
                >(json@) implies ({
                    &&& number_of(field(json@, "standard"@)) == Some(v.0)
                    &&& v.0 == 1
                    &&& field(json@, "server"@) is Some
                    &&& text_of(field(field(json@, "server"@)->Some_0, "public_key"@)) == Some(
                        base64_encoded(v.1),
                    )
                    &&& field(json@, "proof"@) is Some
                    &&& number_of(field(field(json@, "proof"@)->Some_0, "seed"@)) == Some(v.2)
                    &&& text_of(field(field(json@, "proof"@)->Some_0, "sign"@)) == Some(
                        base64_encoded(v.3),
                    )
                }) by {
                let fields = Self::json_written(v)->Ok_0->Object_0;
                lemma_field_at(fields, 0);
                lemma_field_at(fields, 1);
                lemma_field_at(fields, 2);
                lemma_field_at(seq![("public_key"@, JsonValue::Text(base64_encoded(v.1)))], 0);
                let proof_fields = seq![
                    ("seed"@, JsonValue::Number(v.2)),
                    ("sign"@, JsonValue::Text(base64_encoded(v.3))),
                ];
                lemma_field_at(proof_fields, 0);
                lemma_field_at(proof_fields, 1);
            }
        }
        let standard = match get_u64(json, "standard") {
            Some(n) => n,
            None => return Err(AsJsonError::FieldNotFound("standard")),
        };
        if standard != 1 {
            return Err(AsJsonError::InvalidStandard(standard));
        }
        let server = match json.get("server") {
            Some(s) => s,
            None => return Err(AsJsonError::FieldNotFound("server")),
        };
        let key_text = match get_str(server, "public_key") {
            Some(t) => t,
            None => return Err(AsJsonError::FieldNotFound("server.public_key")),
        };
        let proof = match json.get("proof") {
            Some(p) => p,
            None => return Err(AsJsonError::FieldNotFound("proof")),
        };
        let proof_seed = match get_u64(proof, "seed") {
            Some(n) => n,
            None => return Err(AsJsonError::FieldNotFound("proof.seed")),
        };
        let sign_text = match get_str(proof, "sign") {
            Some(t) => t,
            None => return Err(AsJsonError::FieldNotFound("proof.sign")),
        };
        let (public_key, proof_sign) = match header_from_texts(key_text, sign_text) {
            Ok(h) => h,
            Err(e) => return Err(e),
        };
        Ok(InfoResponse { standard, public_key, proof_seed, proof_sign })
    }
}

} // verus!
