//! A client of the network as servers describe it.

use vstd::prelude::*;

use super::client_info::ClientInfo;
use super::connection_certificate::ConnectionCertificate;
use crate::crypto::{PublicKey, PUBLIC_KEY_LEN, base64_encoded};
use crate::crypto::public_key::key_from_base64;
use crate::rest_api::{AsJson, AsJsonError, JsonError, written_doc};
use crate::rest_api::json::{Json, JsonValue, field, text_of, get_str, object3, lemma_field_at};

verus! {

/// A client: its key, the certificate of its connection and its description.
#[derive(Debug, PartialEq, Eq, Hash)]
pub struct Client {
    pub public_key: PublicKey,
    pub certificate: ConnectionCertificate,
    pub info: ClientInfo,
}

impl View for Client {
    type V = (Seq<u8>, <ConnectionCertificate as View>::V, <ClientInfo as View>::V);

    open spec fn view(&self) -> Self::V {
        (self.public_key@, self.certificate@, self.info@)
    }
}

impl Clone for Client {
    fn clone(&self) -> (copy: Self)
        ensures
            copy@ == self@,
    {
        Client { public_key: self.public_key.clone(), certificate: self.certificate.clone(), info: self.info.clone() }
    }
}

impl Client {
    /// A client with the given key, certificate and description.
    pub fn new(public_key: PublicKey, certificate: ConnectionCertificate, info: ClientInfo) -> (client: Self)
        ensures
            client@ == (public_key@, certificate@, info@),
    {
        Client { public_key, certificate, info }
    }
}

/// The JSON object of a client, from the documents of its parts.
pub open spec fn client_object(key: Seq<u8>, certificate: JsonValue, info: JsonValue) -> JsonValue {
    JsonValue::Object(
        seq![
            ("public_key"@, JsonValue::Text(base64_encoded(key))),
            ("certificate"@, certificate),
            ("client"@, info),
        ],
    )
}

impl AsJson for Client {
    open spec fn json_valid(value: Self::V) -> bool {
        &&& value.0.len() == PUBLIC_KEY_LEN
        &&& ConnectionCertificate::json_valid(value.1)
        &&& ClientInfo::json_valid(value.2)
    }

    open spec fn json_written(value: Self::V) -> Result<JsonValue, JsonError> {
        match ConnectionCertificate::json_written(value.1) {
            Err(e) => Err(e),
            Ok(certificate) => match ClientInfo::json_written(value.2) {
                Err(e) => Err(e),
                Ok(info) => Ok(client_object(value.0, certificate, info)),
            },
        }
    }

    open spec fn json_read(json: JsonValue) -> Result<Self::V, JsonError> {
        match text_of(field(json, "public_key"@)) {
            None => Err(JsonError::FieldNotFound("public_key"@)),
            Some(key) => match field(json, "certificate"@) {
                None => Err(JsonError::FieldNotFound("certificate"@)),
                Some(certificate) => match field(json, "client"@) {
                    None => Err(JsonError::FieldNotFound("client"@)),
                    Some(info) => match key_from_base64(key) {
                        Err(e) => Err(JsonError::CryptographyError(e)),
                        Ok(key) => match ConnectionCertificate::json_read(certificate) {
                            Err(e) => Err(e),
                            Ok(certificate) => match ClientInfo::json_read(info) {
                                Err(e) => Err(e),
                                Ok(info) => Ok((key, certificate, info)),
                            },
                        },
                    },
                },
            },
        }
    }

    fn to_json(&self) -> (json: Result<Json, AsJsonError>) {
        let certificate = match self.certificate.to_json() {
            Ok(j) => j,
            Err(e) => return Err(e),
        };
        let info = match self.info.to_json() {
            Ok(j) => j,
            Err(e) => return Err(e),
        };
        Ok(
            object3(
                "public_key",
                Json::String(self.public_key.to_base64()),
                "certificate",
                certificate,
                "client",
                info,
            ),
        )
    }

    fn from_json(json: &Json) -> (value: Result<Self, AsJsonError>) {
        proof {
            reveal_strlit("public_key");
            reveal_strlit("certificate");
            reveal_strlit("client");
            assert("public_key"@.len() != "certificate"@.len());
            assert("public_key"@.len() != "client"@.len());
            assert("certificate"@.len() != "client"@.len());
            assert forall|v: Self::V|
                Self::json_valid(v) && #[trigger] Self::json_written(v) == Ok::<
                    JsonValue,
                    JsonError,
                >(json@) implies (text_of(field(json@, "public_key"@)) == Some(
                    base64_encoded(v.0),
                ) && field(json@, "certificate"@) == written_doc(ConnectionCertificate::json_written(v.1)) && field(json@, "client"@) == written_doc(ClientInfo::json_written(v.2))) by {
                let fields = client_object(
                    v.0,
                    ConnectionCertificate::json_written(v.1)->Ok_0,
                    ClientInfo::json_written(v.2)->Ok_0,
                )->Object_0;
                lemma_field_at(fields, 0);
                lemma_field_at(fields, 1);
                lemma_field_at(fields, 2);
            }
        }
        let key_text = match get_str(json, "public_key") {
            Some(t) => t,
            None => return Err(AsJsonError::FieldNotFound("public_key")),
        };
        let certificate = match json.get("certificate") {
            Some(j) => j,
            None => return Err(AsJsonError::FieldNotFound("certificate")),
        };
        let info = match json.get("client") {
            Some(j) => j,
            None => return Err(AsJsonError::FieldNotFound("client")),
        };
        let public_key = match PublicKey::from_base64(key_text) {
            Ok(k) => k,
            Err(e) => return Err(AsJsonError::CryptographyError(e)),
        };
        let certificate = match ConnectionCertificate::from_json(certificate) {
            Ok(c) => c,
            Err(e) => return Err(e),
        };
        let info = match ClientInfo::from_json(info) {
            Ok(i) => i,
            Err(e) => return Err(e),
        };
        Ok(Client { public_key, certificate, info })
    }
}

} // verus!
