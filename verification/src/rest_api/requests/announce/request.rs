//! Body of a request announcing a client or a server to another server.

use vstd::prelude::*;

use crate::rest_api::{AsJson, AsJsonError, JsonError, written_doc};
use crate::rest_api::json::{Json, JsonValue, field, text_of, get_str, object2, object3, lemma_field_at};
use crate::rest_api::types::{Client, Server};
use crate::text::text_eq;

verus! {

/// What is announced: a client with its server, or a server.
#[derive(Debug, Clone, PartialEq, Eq, Hash)]
pub enum AnnounceRequestBody {
    Client { client: Client, server: Server },
    Server { server: Server },
}

/// The mathematical value of an announcement.
pub enum AnnounceView {
    Client { client: <Client as View>::V, server: <Server as View>::V },
    Server { server: <Server as View>::V },
}

impl View for AnnounceRequestBody {
    type V = AnnounceView;

    open spec fn view(&self) -> AnnounceView {
        match self {
            AnnounceRequestBody::Client { client, server } => AnnounceView::Client {
                client: client@,
                server: server@,
            },
            AnnounceRequestBody::Server { server } => AnnounceView::Server { server: server@ },
        }
    }
}

impl AnnounceRequestBody {
    /// Announce `client`, connected to `server`.
    pub fn client(client: Client, server: Server) -> (body: Self)
        ensures
            body@ == (AnnounceView::Client { client: client@, server: server@ }),
    {
        AnnounceRequestBody::Client { client, server }
    }

    /// Announce `server`.
    pub fn server(server: Server) -> (body: Self)
        ensures
            body@ == (AnnounceView::Server { server: server@ }),
    {
        AnnounceRequestBody::Server { server }
    }
}

impl AsJson for AnnounceRequestBody {
    open spec fn json_valid(value: AnnounceView) -> bool {
        match value {
            AnnounceView::Client { client, server } => Client::json_valid(client)
                && Server::json_valid(server),
            AnnounceView::Server { server } => Server::json_valid(server),
        }
    }

    open spec fn json_written(value: AnnounceView) -> Result<JsonValue, JsonError> {
        match value {
            AnnounceView::Client { client, server } => match Client::json_written(client) {
                Err(e) => Err(e),
                Ok(client) => match Server::json_written(server) {
                    Err(e) => Err(e),
                    Ok(server) => Ok(
                        JsonValue::Object(
                            seq![
                                ("announce"@, JsonValue::Text("client"@)),
                                ("client"@, client),
                                ("server"@, server),
                            ],
                        ),
                    ),
                },
            },
            AnnounceView::Server { server } => match Server::json_written(server) {
                Err(e) => Err(e),
                Ok(server) => Ok(
                    JsonValue::Object(
                        seq![("announce"@, JsonValue::Text("server"@)), ("server"@, server)],
                    ),
                ),
            },
        }
    }

    open spec fn json_read(json: JsonValue) -> Result<AnnounceView, JsonError> {
        match text_of(field(json, "announce"@)) {
            None => Err(JsonError::FieldNotFound("announce"@)),
            Some(announce) => if announce == "client"@ {
                match field(json, "client"@) {
                    None => Err(JsonError::FieldNotFound("client"@)),
                    Some(client) => match Client::json_read(client) {
                        Err(e) => Err(e),
                        Ok(client) => match field(json, "server"@) {
                            None => Err(JsonError::FieldNotFound("server"@)),
                            Some(server) => match Server::json_read(server) {
                                Err(e) => Err(e),
                                Ok(server) => Ok(AnnounceView::Client { client, server }),
                            },
                        },
                    },
                }
            } else if announce == "server"@ {
                match field(json, "server"@) {
                    None => Err(JsonError::FieldNotFound("server"@)),
                    Some(server) => match Server::json_read(server) {
                        Err(e) => Err(e),
                        Ok(server) => Ok(AnnounceView::Server { server }),
                    },
                }
            } else {
                Err(JsonError::FieldValueInvalid("Field 'disposition' contains invalid format"@))
            },
        }
    }

    fn to_json(&self) -> (json: Result<Json, AsJsonError>) {
        match self {
            AnnounceRequestBody::Client { client, server } => {
                let client = match client.to_json() {
                    Ok(j) => j,
                    Err(e) => return Err(e),
                };
                let server = match server.to_json() {
                    Ok(j) => j,
                    Err(e) => return Err(e),
                };
                Ok(object3("announce", Json::text("client"), "client", client, "server", server))
            },
            AnnounceRequestBody::Server { server } => {
                let server = match server.to_json() {
                    Ok(j) => j,
                    Err(e) => return Err(e),
                };
                Ok(object2("announce", Json::text("server"), "server", server))
            },
        }
    }

    fn from_json(json: &Json) -> (value: Result<Self, AsJsonError>) {
        proof {
            reveal_strlit("announce");
            reveal_strlit("client");
            reveal_strlit("server");
            assert("announce"@.len() != "client"@.len());
            assert("announce"@.len() != "server"@.len());
            assert("client"@[0] != "server"@[0]);
            assert forall|v: AnnounceView|
                Self::json_valid(v) && #[trigger] Self::json_written(v) == Ok::<
                    JsonValue,
                    JsonError,
                >(json@) implies ({
                    &&& text_of(field(json@, "announce"@)) == Some(
                        match v {
                            AnnounceView::Client { .. } => "client"@,
                            AnnounceView::Server { .. } => "server"@,
                        },
                    )
                    &&& (v matches AnnounceView::Client { client, server } ==> {
                        &&& field(json@, "client"@) == written_doc(Client::json_written(client))
                        &&& field(json@, "server"@) == written_doc(Server::json_written(server))
                    })
                    &&& (v matches AnnounceView::Server { server } ==> field(json@, "server"@)
                        == written_doc(Server::json_written(server)))
                }) by {
                let fields = Self::json_written(v)->Ok_0->Object_0;
                lemma_field_at(fields, 0);
                lemma_field_at(fields, 1);
                if v is Client {
                    lemma_field_at(fields, 2);
                }
            }
        }
        let announce = match get_str(json, "announce") {
            Some(t) => t,
            None => return Err(AsJsonError::FieldNotFound("announce")),
        };
        if text_eq(announce, "client") {
            let client = match json.get("client") {
                Some(j) => match Client::from_json(j) {
                    Ok(c) => c,
                    Err(e) => return Err(e),
                },
                None => return Err(AsJsonError::FieldNotFound("client")),
            };
            let server = match json.get("server") {
                Some(j) => match Server::from_json(j) {
                    Ok(s) => s,
                    Err(e) => return Err(e),
                },
                None => return Err(AsJsonError::FieldNotFound("server")),
            };
            Ok(AnnounceRequestBody::Client { client, server })
        } else if text_eq(announce, "server") {
            let server = match json.get("server") {
                Some(j) => match Server::from_json(j) {
                    Ok(s) => s,
                    Err(e) => return Err(e),
                },
                None => return Err(AsJsonError::FieldNotFound("server")),
            };
            Ok(AnnounceRequestBody::Server { server })
        } else {
            Err(AsJsonError::FieldValueInvalid("Field 'disposition' contains invalid format"))
        }
    }
}

} // verus!
