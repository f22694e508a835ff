//! Body of a connection request.

use vstd::prelude::*;

use crate::rest_api::{AsJson, AsJsonError, JsonError, written_doc};
use crate::rest_api::json::{Json, JsonValue, field, object2, lemma_field_at};
use crate::rest_api::types::{ClientInfo, ConnectionCertificate};

verus! {

/// Body of a connection request: the client's certificate and description.
#[derive(Debug, Clone, PartialEq, Eq, Hash)]
pub struct ConnectRequestBody {
    pub certificate: ConnectionCertificate,
    pub client: ClientInfo,
}

impl View for ConnectRequestBody {
    type V = (<ConnectionCertificate as View>::V, <ClientInfo as View>::V);

    open spec fn view(&self) -> Self::V {
        (self.certificate@, self.client@)
    }
}

impl ConnectRequestBody {
    /// A body carrying the client's signed certificate and its description.
    pub fn new(certificate: ConnectionCertificate, client: ClientInfo) -> (body: Self)
        ensures
            body@ == (certificate@, client@),
    {
        ConnectRequestBody { certificate, client }
    }

    /// A body made of an existing certificate.
    pub fn from_certificate(client: ClientInfo, certificate: ConnectionCertificate) -> (body: Self)
        ensures
            body@ == (certificate@, client@),
    {
        ConnectRequestBody { certificate, client }
    }
}

impl AsJson for ConnectRequestBody {
    open spec fn json_valid(value: Self::V) -> bool {
        ConnectionCertificate::json_valid(value.0) && ClientInfo::json_valid(value.1)
    }

    open spec fn json_written(value: Self::V) -> Result<JsonValue, JsonError> {
        match ConnectionCertificate::json_written(value.0) {
            Err(e) => Err(e),
            Ok(certificate) => match ClientInfo::json_written(value.1) {
                Err(e) => Err(e),
                Ok(client) => Ok(
                    JsonValue::Object(seq![("certificate"@, certificate), ("client"@, client)]),
                ),
            },
        }
    }

    open spec fn json_read(json: JsonValue) -> Result<Self::V, JsonError> {
        match field(json, "certificate"@) {
            None => Err(JsonError::FieldNotFound("certificate"@)),
            Some(certificate) => match field(json, "client"@) {
                None => Err(JsonError::FieldNotFound("client"@)),
                Some(client) => match ConnectionCertificate::json_read(certificate) {
                    Err(e) => Err(e),
                    Ok(certificate) => match ClientInfo::json_read(client) {
                        Err(e) => Err(e),
                        Ok(client) => Ok((certificate, client)),
                    },
                },
            },
        }
    }

    fn to_json(&self) -> (json: Result<Json, AsJsonError>) {
        let certificate = match self.certificate.to_json() {
            Ok(j) => j,
            Err(e) => return Err(e),
        };
        let client = match self.client.to_json() {
            Ok(j) => j,
            Err(e) => return Err(e),
        };
        Ok(object2("certificate", certificate, "client", client))
    }

    fn from_json(json: &Json) -> (value: Result<Self, AsJsonError>) {
        proof {
            reveal_strlit("certificate");
            reveal_strlit("client");
            assert("certificate"@.len() != "client"@.len());
            assert forall|v: Self::V|
                Self::json_valid(v) && #[trigger] Self::json_written(v) == Ok::<
                    JsonValue,
                    JsonError,
                >(json@) implies (field(json@, "certificate"@) == written_doc(
                    ConnectionCertificate::json_written(v.0),
                ) && field(json@, "client"@) == written_doc(ClientInfo::json_written(v.1))) by {
                let fields = Self::json_written(v)->Ok_0->Object_0;
                lemma_field_at(fields, 0);
                lemma_field_at(fields, 1);
            }
        }
        let certificate = match json.get("certificate") {
            Some(j) => j,
            None => return Err(AsJsonError::FieldNotFound("certificate")),
        };
        let client = match json.get("client") {
            Some(j) => j,
            None => return Err(AsJsonError::FieldNotFound("client")),
        };
        let certificate = match ConnectionCertificate::from_json(certificate) {
            Ok(c) => c,
            Err(e) => return Err(e),
        };
        let client = match ClientInfo::from_json(client) {
            Ok(c) => c,
            Err(e) => return Err(e),
        };
        Ok(ConnectRequestBody { certificate, client })
    }
}

} // verus!
