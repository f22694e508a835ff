//! Kind of a network participant.

use vstd::prelude::*;

use crate::text::{text_eq, owned};

verus! {

/// Kind of a client of the network.
#[derive(Debug, Clone, Copy, PartialEq, Eq, Hash, Structural)]
pub enum ClientType {
    Thin,
    Thick,
    Server,
    File,
}

/// The name under which each client type is written.
pub open spec fn client_type_name(client_type: ClientType) -> Seq<char> {
    match client_type {
        ClientType::Thin => seq!['t', 'h', 'i', 'n'],
        ClientType::Thick => seq!['t', 'h', 'i', 'c', 'k'],
        ClientType::Server => seq!['s', 'e', 'r', 'v', 'e', 'r'],
        ClientType::File => seq!['f', 'i', 'l', 'e'],
    }
}

/// The client type written under `name`, if any.
pub open spec fn client_type_of_name(name: Seq<char>) -> Option<ClientType> {
    if name == client_type_name(ClientType::Thin) {
        Some(ClientType::Thin)
    } else if name == client_type_name(ClientType::Thick) {
        Some(ClientType::Thick)
    } else if name == client_type_name(ClientType::Server) {
        Some(ClientType::Server)
    } else if name == client_type_name(ClientType::File) {
        Some(ClientType::File)
    } else {
        None
    }
}

impl Default for ClientType {
    fn default() -> (client_type: Self)
        ensures
            client_type == ClientType::Thin,
    {
        ClientType::Thin
    }
}

impl ClientType {
    /// Read a client type from its name.
    pub fn from_str(name: &str) -> (client_type: Result<Self, ()>)
        ensures
            client_type is Ok <==> client_type_of_name(name@) is Some,
            client_type matches Ok(t) ==> client_type_of_name(name@) == Some(t),
    {
        proof {
            reveal_strlit("thin");
            reveal_strlit("thick");
            reveal_strlit("server");
            reveal_strlit("file");
            assert("thin"@ =~= client_type_name(ClientType::Thin));
            assert("thick"@ =~= client_type_name(ClientType::Thick));
            assert("server"@ =~= client_type_name(ClientType::Server));
            assert("file"@ =~= client_type_name(ClientType::File));
        }
        if text_eq(name, "thin") {
            Ok(Self::Thin)
        } else if text_eq(name, "thick") {
            Ok(Self::Thick)
        } else if text_eq(name, "server") {
            Ok(Self::Server)
        } else if text_eq(name, "file") {
            Ok(Self::File)
        } else {
            Err(())
        }
    }

    /// The name of the client type.
    pub fn as_str(&self) -> (name: &'static str)
        ensures
            name@ == client_type_name(*self),
    {
        proof {
            reveal_strlit("thin");
            reveal_strlit("thick");
            reveal_strlit("server");
            reveal_strlit("file");
            assert("thin"@ =~= client_type_name(ClientType::Thin));
            assert("thick"@ =~= client_type_name(ClientType::Thick));
            assert("server"@ =~= client_type_name(ClientType::Server));
            assert("file"@ =~= client_type_name(ClientType::File));
        }
        match self {
            Self::Thin => "thin",
            Self::Thick => "thick",
            Self::Server => "server",
            Self::File => "file",
        }
    }

    /// The name of the client type as an owned string.
    pub fn to_string(&self) -> (name: String)
        ensures
            name@ == client_type_name(*self),
    {
        owned(self.as_str())
    }
}

/// Reading the name of a client type gives the client type back.
pub proof fn lemma_client_type_name_roundtrip(client_type: ClientType)
    ensures
        client_type_of_name(client_type_name(client_type)) == Some(client_type),
{
    assert(client_type_name(ClientType::Thin) != client_type_name(ClientType::Thick));
    assert(client_type_name(ClientType::Thin)[3] != client_type_name(ClientType::Server)[3]);
    assert(client_type_name(ClientType::Thin)[0] != client_type_name(ClientType::File)[0]);
    assert(client_type_name(ClientType::Thick)[0] != client_type_name(ClientType::Server)[0]);
    assert(client_type_name(ClientType::Thick)[0] != client_type_name(ClientType::File)[0]);
    assert(client_type_name(ClientType::Server)[0] != client_type_name(ClientType::File)[0]);
}

/// A name that stands for a client type is that client type's name.
pub proof fn lemma_name_client_type_roundtrip(name: Seq<char>)
    ensures
        client_type_of_name(name) matches Some(t) ==> client_type_name(t) == name,
{
}

} // verus!
