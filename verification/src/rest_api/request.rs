//! Header of the protocol's `POST` requests.

use vstd::prelude::*;

use super::{AsJson, AsJsonError, JsonError, ValidationError, written_doc};
use super::json::{Json, JsonValue, field, text_of, number_of, get_str, get_u64, object2, object4, lemma_field_at};
use crate::bytes::{be_bytes, u64_to_be_bytes};
use crate::crypto::{CryptographyError, PublicKey, PUBLIC_KEY_LEN, base64_encode, base64_decode, base64_encoded, base64_decoded};
use crate::crypto::public_key::key_from_base64;
use crate::STANDARD_VERSION;

verus! {

/// Smallest proof seed that a header may carry (`2^63`).
pub const MIN_PROOF_SEED: u64 = 0x8000_0000_0000_0000;

/// Protocol's REST API request header: the sender's key, a proof seed signed by
/// the sender, and the request's body.
#[derive(Debug, Clone, PartialEq, Eq, Hash)]
pub struct Request<T> {
    pub standard: u64,
    pub public_key: PublicKey,
    pub proof_seed: u64,
    pub proof_sign: Vec<u8>,
    pub request: T,
}

impl<T: View> View for Request<T> {
    type V = (u64, Seq<u8>, u64, Seq<u8>, T::V);

    open spec fn view(&self) -> Self::V {
        (self.standard, self.public_key@, self.proof_seed, self.proof_sign@, self.request@)
    }
}

/// The outcome of validating a header with proof seed `seed`: a seed below
/// `2^63` is refused, otherwise the signature check decides.
pub open spec fn proof_validation(seed: u64, signature_check: Result<bool, CryptographyError>) -> Result<
    bool,
    ValidationError,
> {
    if seed < MIN_PROOF_SEED {
        Err(ValidationError::InvalidSeed)
    } else {
        match signature_check {
            Ok(valid) => Ok(valid),
            Err(e) => Err(ValidationError::CryptographyError(e)),
        }
    }
}

/// The bytes that a proof signature covers: the seed as eight big-endian bytes.
pub fn proof_bytes(seed: u64) -> (bytes: Vec<u8>)
    ensures
        bytes@ == be_bytes(seed),
{
    u64_to_be_bytes(seed)
}

/// The proof seed drawn from a random number: its highest bit is set, so that it
/// is at least `2^63`; a number that is already that large is kept.
pub fn proof_seed_from(random: u64) -> (seed: u64)
    ensures
        seed == random | MIN_PROOF_SEED,
        seed >= MIN_PROOF_SEED,
        random >= MIN_PROOF_SEED ==> seed == random,
{
    let seed = random | MIN_PROOF_SEED;
    assert(seed >= 0x8000_0000_0000_0000u64 && (random >= 0x8000_0000_0000_0000u64 ==> seed == random))
        by (bit_vector)
        requires
            seed == random | 0x8000_0000_0000_0000u64,
    ;
    seed
}

impl<T> Request<T> {
    /// What checking the header's proof takes: the sender's key, the bytes that
    /// it signed (the proof seed as eight big-endian bytes) and the signature.
    pub fn proof_to_check(&self) -> (check: (&PublicKey, Vec<u8>, &Vec<u8>))
        ensures
            check.0@ == self.public_key@,
            check.1@ == be_bytes(self.proof_seed),
            check.2@ == self.proof_sign@,
    {
        (&self.public_key, proof_bytes(self.proof_seed), &self.proof_sign)
    }

    /// A request of the current standard from the sender with `public_key`;
    /// `proof_seed` is a random seed of at least `2^63` and `proof_sign` the
    /// sender's signature of `proof_bytes(proof_seed)`.
    pub fn new(public_key: PublicKey, proof_seed: u64, proof_sign: Vec<u8>, request: T) -> (r: Self)
        requires
            proof_seed >= MIN_PROOF_SEED,
        ensures
            r.standard == STANDARD_VERSION,
            r.public_key@ == public_key@,
            r.proof_seed == proof_seed,
            r.proof_sign@ == proof_sign@,
            r.request == request,
    {
        Request { standard: STANDARD_VERSION, public_key, proof_seed, proof_sign, request }
    }

    /// Validate the header; `signature_check` is the outcome of checking
    /// `proof_sign` against `proof_bytes(proof_seed)` with `public_key`.
    pub fn validate(&self, signature_check: Result<bool, CryptographyError>) -> (valid: Result<
        bool,
        ValidationError,
    >)
        ensures
            valid == proof_validation(self.proof_seed, signature_check),
    {
        if self.proof_seed < MIN_PROOF_SEED {
            return Err(ValidationError::InvalidSeed);
        }
        match signature_check {
            Ok(valid) => Ok(valid),
            Err(e) => Err(ValidationError::CryptographyError(e)),
        }
    }
}

/// The JSON object of a request header around the document of its body.
pub open spec fn request_object(
    standard: u64,
    key: Seq<u8>,
    seed: u64,
    sign: Seq<u8>,
    body: JsonValue,
) -> JsonValue {
    JsonValue::Object(
        seq![
            ("standard"@, JsonValue::Number(standard)),
            ("public_key"@, JsonValue::Text(base64_encoded(key))),
            (
                "proof"@,
                JsonValue::Object(
                    seq![("seed"@, JsonValue::Number(seed)), ("sign"@, JsonValue::Text(base64_encoded(sign)))],
                ),
            ),
            ("request"@, body),
        ],
    )
}

/// The header fields read from the texts of the key and the signature.
pub open spec fn header_of_texts(key: Seq<char>, sign: Seq<char>) -> Result<(Seq<u8>, Seq<u8>), JsonError> {
    match key_from_base64(key) {
        Err(e) => Err(JsonError::CryptographyError(e)),
        Ok(key) => match base64_decoded(sign) {
            None => Err(JsonError::Base64Error),
            Some(sign) => Ok((key, sign)),
        },
    }
}

/// Read the key and the signature of a header from their base64 texts.
pub(crate) fn header_from_texts(key_text: &str, sign_text: &str) -> (header: Result<(PublicKey, Vec<u8>), AsJsonError>)
    ensures
        header is Ok <==> header_of_texts(key_text@, sign_text@) is Ok,
        header matches Ok((k, s)) ==> header_of_texts(key_text@, sign_text@) == Ok::<
            (Seq<u8>, Seq<u8>),
            JsonError,
        >((k@, s@)),
        header matches Err(e) ==> header_of_texts(key_text@, sign_text@) == Err::<
            (Seq<u8>, Seq<u8>),
            JsonError,
        >(e@),
        forall|key: Seq<u8>, sign: Seq<u8>|
            key.len() == PUBLIC_KEY_LEN && key_text@ == #[trigger] base64_encoded(key) && sign_text@
                == #[trigger] base64_encoded(sign) ==> (header matches Ok((k, s)) && k@ == key && s@
                == sign),
{
    let public_key = match PublicKey::from_base64(key_text) {
        Ok(k) => k,
        Err(e) => return Err(AsJsonError::CryptographyError(e)),
    };
    let sign = match base64_decode(sign_text) {
        Ok(s) => s,
        Err(_) => return Err(AsJsonError::Base64Error),
    };
    Ok((public_key, sign))
}

impl<T: AsJson> AsJson for Request<T> {
    open spec fn json_valid(value: Self::V) -> bool {
        value.1.len() == PUBLIC_KEY_LEN && T::json_valid(value.4)
    }

    open spec fn json_written(value: Self::V) -> Result<JsonValue, JsonError> {
        if value.0 != 1 {
            Err(JsonError::InvalidStandard(value.0))
        } else {
            match T::json_written(value.4) {
                Err(e) => Err(e),
                Ok(body) => Ok(request_object(value.0, value.1, value.2, value.3, body)),
            }
        }
    }

    open spec fn json_read(json: JsonValue) -> Result<Self::V, JsonError> {
        match number_of(field(json, "standard"@)) {
            None => Err(JsonError::FieldNotFound("standard"@)),
            Some(standard) => if standard != 1 {
                Err(JsonError::InvalidStandard(standard))
            } else {
                match text_of(field(json, "public_key"@)) {
                    None => Err(JsonError::FieldNotFound("public_key"@)),
                    Some(key) => match field(json, "proof"@) {
                        None => Err(JsonError::FieldNotFound("proof"@)),
                        Some(proof) => match number_of(field(proof, "seed"@)) {
                            None => Err(JsonError::FieldNotFound("proof.seed"@)),
                            Some(seed) => match text_of(field(proof, "sign"@)) {
                                None => Err(JsonError::FieldNotFound("proof.sign"@)),
                                Some(sign) => match field(json, "request"@) {
                                    None => Err(JsonError::FieldNotFound("request"@)),
                                    Some(body) => match header_of_texts(key, sign) {
                                        Err(e) => Err(e),
                                        Ok((key, sign)) => match T::json_read(body) {
                                            Err(e) => Err(e),
                                            Ok(body) => Ok((standard, key, seed, sign, body)),
                                        },
                                    },
                                },
                            },
                        },
                    },
                }
            },
        }
    }

    fn to_json(&self) -> (json: Result<Json, AsJsonError>) {
        if self.standard != 1 {
            return Err(AsJsonError::InvalidStandard(self.standard));
        }
        let key = Json::String(self.public_key.to_base64());
        let proof = object2(
            "seed",
            Json::Number(self.proof_seed),
            "sign",
            Json::String(base64_encode(self.proof_sign.as_slice())),
        );
        let body = match self.request.to_json() {
            Ok(j) => j,
            Err(e) => return Err(e),
        };
        Ok(
            object4(
                "standard",
                Json::Number(self.standard),
                "public_key",
                key,
                "proof",
                proof,
                "request",
                body,
            ),
        )
    }

    fn from_json(json: &Json) -> (value: Result<Self, AsJsonError>) {
        proof {
            reveal_strlit("standard");
            reveal_strlit("public_key");
            reveal_strlit("proof");
            reveal_strlit("request");
            reveal_strlit("seed");
            reveal_strlit("sign");
            assert("standard"@.len() != "public_key"@.len());
            assert("standard"@.len() != "proof"@.len());
            assert("standard"@.len() != "request"@.len());
            assert("public_key"@.len() != "proof"@.len());
            assert("public_key"@.len() != "request"@.len());
            assert("proof"@.len() != "request"@.len());
            assert("seed"@[1] != "sign"@[1]);
            assert forall|v: Self::V|
                Self::json_valid(v) && #[trigger] Self::json_written(v) == Ok::<
                    JsonValue,
                    JsonError,
                >(json@) implies ({
                    &&& number_of(field(json@, "standard"@)) == Some(v.0)
                    &&& v.0 == 1
                    &&& text_of(field(json@, "public_key"@)) == Some(base64_encoded(v.1))
                    &&& field(json@, "proof"@) == Some(
                        JsonValue::Object(
                            seq![
                                ("seed"@, JsonValue::Number(v.2)),
                                ("sign"@, JsonValue::Text(base64_encoded(v.3))),
                            ],
                        ),
                    )
                    &&& field(json@, "request"@) == written_doc(T::json_written(v.4))
                    &&& number_of(field(field(json@, "proof"@)->Some_0, "seed"@)) == Some(v.2)
                    &&& text_of(field(field(json@, "proof"@)->Some_0, "sign"@)) == Some(
                        base64_encoded(v.3),
                    )
                }) by {
                let fields = Self::json_written(v)->Ok_0->Object_0;
                lemma_field_at(fields, 0);
                lemma_field_at(fields, 1);
                lemma_field_at(fields, 2);
                lemma_field_at(fields, 3);
                let proof_fields = seq![
                    ("seed"@, JsonValue::Number(v.2)),
                    ("sign"@, JsonValue::Text(base64_encoded(v.3))),
                ];
                lemma_field_at(proof_fields, 0);
                lemma_field_at(proof_fields, 1);
            }
        }
        let standard = match get_u64(json, "standard") {
            Some(n) => n,
            None => return Err(AsJsonError::FieldNotFound("standard")),
        };
        if standard != 1 {
            return Err(AsJsonError::InvalidStandard(standard));
        }
        let key_text = match get_str(json, "public_key") {
            Some(t) => t,
            None => return Err(AsJsonError::FieldNotFound("public_key")),
        };
        let proof = match json.get("proof") {
            Some(p) => p,
            None => return Err(AsJsonError::FieldNotFound("proof")),
        };
        let proof_seed = match get_u64(proof, "seed") {
            Some(n) => n,
            None => return Err(AsJsonError::FieldNotFound("proof.seed")),
        };
        let sign_text = match get_str(proof, "sign") {
            Some(t) => t,
            None => return Err(AsJsonError::FieldNotFound("proof.sign")),
        };
        let body = match json.get("request") {
            Some(b) => b,
            None => return Err(AsJsonError::FieldNotFound("request")),
        };
        let (public_key, proof_sign) = match header_from_texts(key_text, sign_text) {
            Ok(h) => h,
            Err(e) => return Err(e),
        };
        let request = match T::from_json(body) {
            Ok(r) => r,
            Err(e) => return Err(e),
        };
        Ok(Request { standard, public_key, proof_seed, proof_sign, request })
    }
}

} // verus!
