//! Body of the answer to a lookup request.

use vstd::prelude::*;

use crate::rest_api::{AsJson, AsJsonError, JsonError, written_doc, views, docs, json_list, read_list, all_valid, list_to_json, list_from_json};
use crate::rest_api::json::{Json, JsonValue, field, text_of, bool_of, items_of, get_str, get_bool, get_array, array, object1, object2, object3, lemma_field_at};
use crate::rest_api::types::{Client, Server};
use crate::text::text_eq;

verus! {

/// Where a looked up client was found: on this server, on another server, or
/// nowhere known, with servers that may know more.
#[derive(Debug, Clone, PartialEq, Eq, Hash)]
pub enum LookupResponseBody {
    Local { client: Client, available: bool },
    Remote { client: Client, server: Server, available: bool },
    Hint { servers: Vec<Server> },
}

/// The mathematical value of a lookup answer.
pub enum LookupView {
    Local { client: <Client as View>::V, available: bool },
    Remote { client: <Client as View>::V, server: <Server as View>::V, available: bool },
    Hint { servers: Seq<<Server as View>::V> },
}

impl View for LookupResponseBody {
    type V = LookupView;

    open spec fn view(&self) -> LookupView {
        match self {
            LookupResponseBody::Local { client, available } => LookupView::Local {
                client: client@,
                available: *available,
            },
            LookupResponseBody::Remote { client, server, available } => LookupView::Remote {
                client: client@,
                server: server@,
                available: *available,
            },
            LookupResponseBody::Hint { servers } => LookupView::Hint { servers: views(servers@) },
        }
    }
}

impl LookupResponseBody {
    /// The client is connected to this server.
    pub fn local(client: Client, available: bool) -> (body: Self)
        ensures
            body@ == (LookupView::Local { client: client@, available }),
    {
        LookupResponseBody::Local { client, available }
    }

    /// The client is connected to `server`.
    pub fn remote(client: Client, server: Server, available: bool) -> (body: Self)
        ensures
            body@ == (LookupView::Remote { client: client@, server: server@, available }),
    {
        LookupResponseBody::Remote { client, server, available }
    }

    /// The client is not known here; `servers` may know it.
    pub fn hint(servers: Vec<Server>) -> (body: Self)
        ensures
            body@ == (LookupView::Hint { servers: views(servers@) }),
    {
        LookupResponseBody::Hint { servers }
    }
}

/// The object of a lookup answer: its disposition and its result.
pub open spec fn lookup_object(disposition: Seq<char>, result: JsonValue) -> JsonValue {
    JsonValue::Object(seq![("disposition"@, JsonValue::Text(disposition)), ("result"@, result)])
}

/// What the result of a lookup answer reads as, given its disposition.
pub open spec fn lookup_result_read(disposition: Seq<char>, result: JsonValue) -> Result<LookupView, JsonError> {
    if disposition == "local"@ {
        match field(result, "client"@) {
            None => Err(JsonError::FieldNotFound("result.client"@)),
            Some(client) => match Client::json_read(client) {
                Err(e) => Err(e),
                Ok(client) => match bool_of(field(result, "available"@)) {
                    None => Err(JsonError::FieldNotFound("result.available"@)),
                    Some(available) => Ok(LookupView::Local { client, available }),
                },
            },
        }
    } else if disposition == "remote"@ {
        match field(result, "client"@) {
            None => Err(JsonError::FieldNotFound("result.client"@)),
            Some(client) => match field(result, "server"@) {
                None => Err(JsonError::FieldNotFound("result.server"@)),
                Some(server) => match Client::json_read(client) {
                    Err(e) => Err(e),
                    Ok(client) => match Server::json_read(server) {
                        Err(e) => Err(e),
                        Ok(server) => match bool_of(field(result, "available"@)) {
                            None => Err(JsonError::FieldNotFound("result.available"@)),
                            Some(available) => Ok(LookupView::Remote { client, server, available }),
                        },
                    },
                },
            },
        }
    } else if disposition == "hint"@ {
        match items_of(field(result, "servers"@)) {
            None => Err(JsonError::FieldNotFound("result.servers"@)),
            Some(items) => match read_list::<Server>(items) {
                Err(e) => Err(e),
                Ok(servers) => Ok(LookupView::Hint { servers }),
            },
        }
    } else {
        Err(JsonError::FieldValueInvalid("Field 'disposition' contains invalid format"@))
    }
}

impl AsJson for LookupResponseBody {
    open spec fn json_valid(value: LookupView) -> bool {
        match value {
            LookupView::Local { client, .. } => Client::json_valid(client),
            LookupView::Remote { client, server, .. } => Client::json_valid(client)
                && Server::json_valid(server),
            LookupView::Hint { servers } => all_valid::<Server>(servers),
        }
    }

    open spec fn json_written(value: LookupView) -> Result<JsonValue, JsonError> {
        match value {
            LookupView::Local { client, available } => match Client::json_written(client) {
                Err(e) => Err(e),
                Ok(client) => Ok(
                    lookup_object(
                        "local"@,
                        JsonValue::Object(
                            seq![("client"@, client), ("available"@, JsonValue::Bool(available))],
                        ),
                    ),
                ),
            },
            LookupView::Remote { client, server, available } => match Client::json_written(client) {
                Err(e) => Err(e),
                Ok(client) => match Server::json_written(server) {
                    Err(e) => Err(e),
                    Ok(server) => Ok(
                        lookup_object(
                            "remote"@,
                            JsonValue::Object(
                                seq![
                                    ("client"@, client),
                                    ("server"@, server),
                                    ("available"@, JsonValue::Bool(available)),
                                ],
                            ),
                        ),
                    ),
                },
            },
            LookupView::Hint { servers } => match json_list::<Server>(servers) {
                Err(e) => Err(e),
                Ok(items) => Ok(
                    lookup_object(
                        "hint"@,
                        JsonValue::Object(seq![("servers"@, JsonValue::Array(items))]),
                    ),
                ),
            },
        }
    }

    open spec fn json_read(json: JsonValue) -> Result<LookupView, JsonError> {
        match text_of(field(json, "disposition"@)) {
            None => Err(JsonError::FieldNotFound("disposition"@)),
            Some(disposition) => match field(json, "result"@) {
                None => Err(JsonError::FieldNotFound("result"@)),
                Some(result) => lookup_result_read(disposition, result),
            },
        }
    }

    fn to_json(&self) -> (json: Result<Json, AsJsonError>) {
        match self {
            LookupResponseBody::Local { client, available } => {
                let client = match client.to_json() {
                    Ok(j) => j,
                    Err(e) => return Err(e),
                };
                Ok(
                    object2(
                        "disposition",
                        Json::text("local"),
                        "result",
                        object2("client", client, "available", Json::Bool(*available)),
                    ),
                )
            },
            LookupResponseBody::Remote { client, server, available } => {
                let client = match client.to_json() {
                    Ok(j) => j,
                    Err(e) => return Err(e),
                };
                let server = match server.to_json() {
                    Ok(j) => j,
                    Err(e) => return Err(e),
                };
                Ok(
                    object2(
                        "disposition",
                        Json::text("remote"),
                        "result",
                        object3("client", client, "server", server, "available", Json::Bool(*available)),
                    ),
                )
            },
            LookupResponseBody::Hint { servers } => {
                let items = match list_to_json(servers) {
                    Ok(items) => items,
                    Err(e) => return Err(e),
                };
                Ok(
                    object2(
                        "disposition",
                        Json::text("hint"),
                        "result",
                        object1("servers", array(items)),
                    ),
                )
            },
        }
    }

    fn from_json(json: &Json) -> (value: Result<Self, AsJsonError>) {
        proof {
            reveal_strlit("disposition");
            reveal_strlit("result");
            reveal_strlit("local");
            reveal_strlit("remote");
            reveal_strlit("hint");
            reveal_strlit("client");
            reveal_strlit("server");
            reveal_strlit("available");
            reveal_strlit("servers");
            assert("disposition"@.len() != "result"@.len());
            assert("local"@.len() != "remote"@.len());
            assert("local"@.len() != "hint"@.len());
            assert("remote"@.len() != "hint"@.len());
            assert("client"@[0] != "server"@[0]);
            assert("client"@.len() != "available"@.len());
            assert("server"@.len() != "available"@.len());
            assert forall|v: LookupView|
                Self::json_valid(v) && #[trigger] Self::json_written(v) == Ok::<
                    JsonValue,
                    JsonError,
                >(json@) implies ({
                    &&& field(json@, "disposition"@) is Some
                    &&& field(json@, "result"@) is Some
                    &&& text_of(field(json@, "disposition"@)) == Some(
                        match v {
                            LookupView::Local { .. } => "local"@,
                            LookupView::Remote { .. } => "remote"@,
                            LookupView::Hint { .. } => "hint"@,
                        },
                    )
                    &&& (v matches LookupView::Local { client, available } ==> {
                        &&& field(field(json@, "result"@)->Some_0, "client"@) == written_doc(
                            Client::json_written(client),
                        )
                        &&& bool_of(field(field(json@, "result"@)->Some_0, "available"@)) == Some(
                            available,
                        )
                    })
                    &&& (v matches LookupView::Remote { client, server, available } ==> {
                        &&& field(field(json@, "result"@)->Some_0, "client"@) == written_doc(
                            Client::json_written(client),
                        )
                        &&& field(field(json@, "result"@)->Some_0, "server"@) == written_doc(
                            Server::json_written(server),
                        )
                        &&& bool_of(field(field(json@, "result"@)->Some_0, "available"@)) == Some(
                            available,
                        )
                    })
                    &&& (v matches LookupView::Hint { servers } ==> {
                        &&& json_list::<Server>(servers) is Ok
                        &&& items_of(field(field(json@, "result"@)->Some_0, "servers"@)) == Some(
                            json_list::<Server>(servers)->Ok_0,
                        )
                    })
                }) by {
                let fields = Self::json_written(v)->Ok_0->Object_0;
                lemma_field_at(fields, 0);
                lemma_field_at(fields, 1);
                let result = fields[1].1->Object_0;
                match v {
                    LookupView::Local { .. } => {
                        lemma_field_at(result, 0);
                        lemma_field_at(result, 1);
                    },
                    LookupView::Remote { .. } => {
                        lemma_field_at(result, 0);
                        lemma_field_at(result, 1);
                        lemma_field_at(result, 2);
                    },
                    LookupView::Hint { .. } => {
                        lemma_field_at(result, 0);
                    },
                }
            }
        }
        let disposition = match get_str(json, "disposition") {
            Some(t) => t,
            None => return Err(AsJsonError::FieldNotFound("disposition")),
        };
        let result = match json.get("result") {
            Some(r) => r,
            None => return Err(AsJsonError::FieldNotFound("result")),
        };
        if text_eq(disposition, "local") {
            let client = match result.get("client") {
                Some(c) => c,
                None => return Err(AsJsonError::FieldNotFound("result.client")),
            };
            let client = match Client::from_json(client) {
                Ok(c) => c,
                Err(e) => return Err(e),
            };
            let available = match get_bool(result, "available") {
                Some(b) => b,
                None => return Err(AsJsonError::FieldNotFound("result.available")),
            };
            Ok(LookupResponseBody::Local { client, available })
        } else if text_eq(disposition, "remote") {
            let client = match result.get("client") {
                Some(c) => c,
                None => return Err(AsJsonError::FieldNotFound("result.client")),
            };
            let server = match result.get("server") {
                Some(s) => s,
                None => return Err(AsJsonError::FieldNotFound("result.server")),
            };
            let client = match Client::from_json(client) {
                Ok(c) => c,
                Err(e) => return Err(e),
            };
            let server = match Server::from_json(server) {
                Ok(s) => s,
                Err(e) => return Err(e),
            };
            let available = match get_bool(result, "available") {
                Some(b) => b,
                None => return Err(AsJsonError::FieldNotFound("result.available")),
            };
            Ok(LookupResponseBody::Remote { client, server, available })
        } else if text_eq(disposition, "hint") {
            let items = match get_array(result, "servers") {
                Some(items) => items,
                None => return Err(AsJsonError::FieldNotFound("result.servers")),
            };
            proof {
                assert(docs(items@) =~= Seq::new(items@.len(), |i: int| items@[i]@));
            }
            let servers = match list_from_json::<Server>(items) {
                Ok(v) => v,
                Err(e) => return Err(e),
            };
            Ok(LookupResponseBody::Hint { servers })
        } else {
            Err(AsJsonError::FieldValueInvalid("Field 'disposition' contains invalid format"))
        }
    }
}

} // verus!
