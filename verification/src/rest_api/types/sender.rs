//! The sender of a message: the client and the server it is connected to.

use vstd::prelude::*;

use super::client::Client;
use super::server::Server;
use crate::rest_api::{AsJson, AsJsonError, JsonError, written_doc};
use crate::rest_api::json::{Json, JsonValue, field, object2, lemma_field_at};

verus! {

/// The sender of a message.
#[derive(Debug, Clone, PartialEq, Eq, Hash)]
pub struct Sender {
    pub client: Client,
    pub server: Server,
}

impl View for Sender {
    type V = (<Client as View>::V, <Server as View>::V);

    open spec fn view(&self) -> Self::V {
        (self.client@, self.server@)
    }
}

impl Sender {
    /// The sender made of a client and its server.
    pub fn new(client: Client, server: Server) -> (sender: Self)
        ensures
            sender@ == (client@, server@),
    {
        Sender { client, server }
    }
}

impl AsJson for Sender {
    open spec fn json_valid(value: Self::V) -> bool {
        Client::json_valid(value.0) && Server::json_valid(value.1)
    }

    open spec fn json_written(value: Self::V) -> Result<JsonValue, JsonError> {
        match Client::json_written(value.0) {
            Err(e) => Err(e),
            Ok(client) => match Server::json_written(value.1) {
                Err(e) => Err(e),
                Ok(server) => Ok(JsonValue::Object(seq![("client"@, client), ("server"@, server)])),
            },
        }
    }

    open spec fn json_read(json: JsonValue) -> Result<Self::V, JsonError> {
        match field(json, "client"@) {
            None => Err(JsonError::FieldNotFound("client"@)),
            Some(client) => match Client::json_read(client) {
                Err(e) => Err(e),
                Ok(client) => match field(json, "server"@) {
                    None => Err(JsonError::FieldNotFound("server"@)),
                    Some(server) => match Server::json_read(server) {
                        Err(e) => Err(e),
                        Ok(server) => Ok((client, server)),
                    },
                },
            },
        }
    }

    fn to_json(&self) -> (json: Result<Json, AsJsonError>) {
        let client = match self.client.to_json() {
            Ok(j) => j,
            Err(e) => return Err(e),
        };
        let server = match self.server.to_json() {
            Ok(j) => j,
            Err(e) => return Err(e),
        };
        Ok(object2("client", client, "server", server))
    }

    fn from_json(json: &Json) -> (value: Result<Self, AsJsonError>) {
        proof {
            reveal_strlit("client");
            reveal_strlit("server");
            assert("client"@[0] != "server"@[0]);
            assert forall|v: Self::V|
                Self::json_valid(v) && #[trigger] Self::json_written(v) == Ok::<
                    JsonValue,
                    JsonError,
                >(json@) implies (field(json@, "client"@) == written_doc(
                    Client::json_written(v.0),
                ) && field(json@, "server"@) == written_doc(Server::json_written(v.1))) by {
                let fields = seq![
                    ("client"@, Client::json_written(v.0)->Ok_0),
                    ("server"@, Server::json_written(v.1)->Ok_0),
                ];
                lemma_field_at(fields, 0);
                lemma_field_at(fields, 1);
            }
        }
        let client = match json.get("client") {
            Some(j) => match Client::from_json(j) {
                Ok(c) => c,
                Err(e) => return Err(e),
            },
            None => return Err(AsJsonError::FieldNotFound("client")),
        };
        let server = match json.get("server") {
            Some(j) => match Server::from_json(j) {
                Ok(s) => s,
                Err(e) => return Err(e),
            },
            None => return Err(AsJsonError::FieldNotFound("server")),
        };
        Ok(Sender { client, server })
    }
}

} // verus!
