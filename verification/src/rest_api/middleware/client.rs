//! A client connected to a server, and the search for other clients.

use vstd::prelude::*;

use std::collections::VecDeque;

use super::MiddlewareError;
use crate::crypto::PublicKey;
use crate::rest_api::ValidationError;
use crate::rest_api::response::Response;
use crate::rest_api::requests::{ConnectResponse, LookupResponse, LookupResponseBody};
use crate::rest_api::types::{Client, ClientInfo, ConnectionCertificate, Server};
use crate::text::{owned, text_eq};

verus! {

/// What a client makes of a server's answer: a failed validation, a refused
/// signature and an error response are failures, a success gives its body.
pub open spec fn outcome_of<T>(valid: Result<bool, ValidationError>, response: Response<T>) -> Result<T, MiddlewareError> {
    match valid {
        Err(e) => Err(MiddlewareError::SignatureValidationError(e)),
        Ok(false) => Err(MiddlewareError::InvalidProofSeedSignature),
        Ok(true) => match response {
            Response::Success { response, .. } => Ok(response),
            Response::Error { status, reason, .. } => Err(
                MiddlewareError::RequestFailed { status, reason },
            ),
        },
    }
}

/// Whether a validated answer may be used: a failed validation and a refused
/// signature are failures.
pub open spec fn validation_outcome_of(valid: Result<bool, ValidationError>) -> Result<(), MiddlewareError> {
    match valid {
        Err(e) => Err(MiddlewareError::SignatureValidationError(e)),
        Ok(false) => Err(MiddlewareError::InvalidProofSeedSignature),
        Ok(true) => Ok(()),
    }
}

/// Whether an answer validated as `valid` may be used.
pub fn validation_outcome(valid: Result<bool, ValidationError>) -> (outcome: Result<(), MiddlewareError>)
    ensures
        outcome == validation_outcome_of(valid),
{
    match valid {
        Err(e) => Err(MiddlewareError::SignatureValidationError(e)),
        Ok(false) => Err(MiddlewareError::InvalidProofSeedSignature),
        Ok(true) => Ok(()),
    }
}

/// The outcome of a request whose response was validated as `valid`.
pub fn response_outcome<T>(valid: Result<bool, ValidationError>, response: Response<T>) -> (outcome: Result<T, MiddlewareError>)
    ensures
        outcome == outcome_of(valid, response),
{
    match valid {
        Err(e) => Err(MiddlewareError::SignatureValidationError(e)),
        Ok(false) => Err(MiddlewareError::InvalidProofSeedSignature),
        Ok(true) => match response {
            Response::Success { response, .. } => Ok(response),
            Response::Error { status, reason, .. } => Err(
                MiddlewareError::RequestFailed { status, reason },
            ),
        },
    }
}

/// A client connected to a server: its own key and description, the server, and
/// the certificate of the connection.
#[derive(Debug, Clone, PartialEq, Eq, Hash)]
pub struct ConnectedClient {
    public_key: PublicKey,
    info: ClientInfo,
    connected_server: Server,
    connection_certificate: ConnectionCertificate,
}

impl ConnectedClient {
    /// The client's key.
    pub closed spec fn spec_public_key(&self) -> Seq<u8> {
        self.public_key@
    }

    /// The client's description.
    pub closed spec fn spec_info(&self) -> (crate::rest_api::types::ClientType, Option<Seq<char>>) {
        self.info@
    }

    /// The server the client is connected to.
    pub closed spec fn spec_server(&self) -> (Seq<u8>, Seq<char>) {
        self.connected_server@
    }

    /// The certificate of the connection.
    pub closed spec fn spec_certificate(&self) -> ((u64, Seq<u8>), Seq<u8>) {
        self.connection_certificate@
    }

    /// Finish connecting the client with `public_key` and `info` to the server
    /// with `server_public` at `server_address`, given the server's answer to the
    /// connection request that carried `certificate`, validated as `valid`.
    pub fn connected(
        public_key: PublicKey,
        info: ClientInfo,
        server_public: PublicKey,
        server_address: &str,
        certificate: ConnectionCertificate,
        valid: Result<bool, ValidationError>,
        response: ConnectResponse,
    ) -> (client: Result<Self, MiddlewareError>)
        ensures
            outcome_of(valid, response.0) is Err ==> client == Err::<Self, MiddlewareError>(
                outcome_of(valid, response.0)->Err_0,
            ),
            outcome_of(valid, response.0) is Ok ==> (client matches Ok(c) && c.spec_public_key()
                == public_key@ && c.spec_info() == info@ && c.spec_server() == (
                server_public@,
                server_address@,
            ) && c.spec_certificate() == certificate@),
    {
        match response_outcome(valid, response.0) {
            Err(e) => Err(e),
            Ok(_) => Ok(
                ConnectedClient {
                    public_key,
                    info,
                    connected_server: Server::new(server_public, server_address),
                    connection_certificate: certificate,
                },
            ),
        }
    }

    /// The server the client is connected to.
    pub fn connected_server(&self) -> (server: &Server)
        ensures
            server@ == self.spec_server(),
    {
        &self.connected_server
    }

    /// The certificate of the connection.
    pub fn connection_certificate(&self) -> (certificate: &ConnectionCertificate)
        ensures
            certificate@ == self.spec_certificate(),
    {
        &self.connection_certificate
    }

    /// The record that describes this client to servers.
    pub fn get_client(&self) -> (client: Client)
        ensures
            client@ == (self.spec_public_key(), self.spec_certificate(), self.spec_info()),
    {
        Client::new(
            self.public_key.clone(),
            self.connection_certificate.clone(),
            self.info.clone(),
        )
    }
}

/// The texts of some strings.
pub open spec fn texts(s: Seq<String>) -> Seq<Seq<char>> {
    Seq::new(s.len(), |i: int| s[i]@)
}

/// The addresses of some servers, in order.
pub open spec fn addresses(servers: Seq<Server>) -> Seq<Seq<char>> {
    Seq::new(servers.len(), |i: int| servers[i].address@)
}

/// The next server to ask and the queue left after it: servers already asked are
/// dropped from the front of the queue, and the first other one is taken.
pub open spec fn next_pick(queue: Seq<Seq<char>>, used: Seq<Seq<char>>) -> (Option<Seq<char>>, Seq<Seq<char>>)
    decreases queue.len(),
{
    if queue.len() == 0 {
        (None, queue)
    } else if used.contains(queue[0]) {
        next_pick(queue.drop_first(), used)
    } else {
        (Some(queue[0]), queue.drop_first())
    }
}

/// The servers asked after the server at `address` answered: it is added unless
/// it is there already, so that no server is listed twice.
pub open spec fn marked(used: Seq<Seq<char>>, address: Seq<char>) -> Seq<Seq<char>> {
    if used.contains(address) {
        used
    } else {
        used.push(address)
    }
}

/// A server that was asked is never picked again, whatever is queued.
pub proof fn lemma_asked_not_picked(queue: Seq<Seq<char>>, used: Seq<Seq<char>>, address: Seq<char>)
    requires
        used.contains(address),
    ensures
        next_pick(queue, used).0 != Some(address),
    decreases queue.len(),
{
    if queue.len() > 0 && used.contains(queue[0]) {
        lemma_asked_not_picked(queue.drop_first(), used, address);
    }
}

/// Marking a server as asked keeps every server asked before, adds it, and keeps
/// the list free of repeats.
pub proof fn lemma_marked(used: Seq<Seq<char>>, address: Seq<char>)
    ensures
        marked(used, address).contains(address),
        forall|a: Seq<char>| used.contains(a) ==> marked(used, address).contains(a),
        used.no_duplicates() ==> marked(used, address).no_duplicates(),
{
    if !used.contains(address) {
        assert(used.push(address)[used.len() as int] == address);
        assert forall|a: Seq<char>| used.contains(a) implies used.push(address).contains(a) by {
            let i = choose|i: int| 0 <= i < used.len() && used[i] == a;
            assert(used.push(address)[i] == a);
        }
    }
}

/// Each pick makes progress: the queue left is never longer, and when a server
/// is picked the queue left is shorter and the server was not asked before, so
/// marking it makes the list of asked servers one longer. When nothing is
/// picked, every queued server was asked.
pub proof fn lemma_pick_progress(queue: Seq<Seq<char>>, used: Seq<Seq<char>>)
    ensures
        next_pick(queue, used).1.len() <= queue.len(),
        next_pick(queue, used).0 matches Some(a) ==> next_pick(queue, used).1.len() < queue.len()
            && !used.contains(a) && marked(used, a).len() == used.len() + 1,
        next_pick(queue, used).0 is None ==> forall|i: int| 0 <= i < queue.len() ==> used.contains(
            #[trigger] queue[i],
        ),
    decreases queue.len(),
{
    if queue.len() > 0 && used.contains(queue[0]) {
        let rest = queue.drop_first();
        lemma_pick_progress(rest, used);
        if next_pick(queue, used).0 is None {
            assert forall|i: int| 0 <= i < queue.len() implies used.contains(#[trigger] queue[i]) by {
                if i > 0 {
                    assert(queue[i] == rest[i - 1]);
                }
            }
        }
    }
}

/// A search asks at most as many servers as there are addresses: servers asked,
/// listed without repeats and all within a finite set of addresses, are no more
/// than the set holds. With the progress of each pick, a search over finitely
/// many addresses ends.
pub proof fn lemma_asked_bounded(used: Seq<Seq<char>>, all: Set<Seq<char>>)
    requires
        used.no_duplicates(),
        all.finite(),
        forall|i: int| 0 <= i < used.len() ==> all.contains(#[trigger] used[i]),
    ensures
        used.len() <= all.len(),
{
    used.unique_seq_to_set();
    assert(used.to_set().subset_of(all));
    vstd::set_lib::lemma_len_subset(used.to_set(), all);
}

/// What a lookup found: a client, the server it is connected to, and whether it is available.
pub enum LookupStep {
    Found { client: Client, server: Server, available: bool },
    Continue,
}

/// The state of a breadth-first search for a client through servers: the
/// servers still to ask, in order, and the servers already asked.
pub struct LookupSearch {
    queue: VecDeque<String>,
    used: Vec<String>,
}

impl LookupSearch {
    /// No server is listed twice among those asked.
    #[verifier::type_invariant]
    spec fn asked_once(self) -> bool {
        texts(self.used@).no_duplicates()
    }
}

impl View for LookupSearch {
    type V = (Seq<Seq<char>>, Seq<Seq<char>>);

    closed spec fn view(&self) -> Self::V {
        (texts(self.queue@), texts(self.used@))
    }
}

impl LookupSearch {
    /// A search that starts at the server at `address`.
    pub fn new(address: &str) -> (search: Self)
        ensures
            search@ == (seq![address@], Seq::<Seq<char>>::empty()),
            search@.1.no_duplicates(),
    {
        let mut queue: VecDeque<String> = VecDeque::new();
        queue.push_back(owned(address));
        let used: Vec<String> = Vec::new();
        proof {
            assert(texts(used@) =~= Seq::<Seq<char>>::empty());
        }
        let search = LookupSearch { queue, used };
        proof {
            assert(texts(search.queue@) =~= seq![address@]);
            assert(texts(search.used@) =~= Seq::<Seq<char>>::empty());
        }
        search
    }

    /// Whether the server at `address` was already asked.
    fn is_used(&self, address: &String) -> (used: bool)
        ensures
            used == self@.1.contains(address@),
    {
        let mut i: usize = 0;
        while i < self.used.len()
            invariant
                i <= self.used@.len(),
                forall|j: int| 0 <= j < i ==> self.used@[j]@ != address@,
            decreases self.used@.len() - i,
        {
            if text_eq(self.used[i].as_str(), address.as_str()) {
                proof {
                    assert(texts(self.used@)[i as int] == address@);
                }
                return true;
            }
            i = i + 1;
        }
        proof {
            if texts(self.used@).contains(address@) {
                let j = choose|j: int| 0 <= j < texts(self.used@).len() && texts(self.used@)[j] == address@;
                assert(self.used@[j]@ == address@);
            }
        }
        false
    }

    /// The next server to ask, if any is left; servers already asked are skipped.
    pub fn next_server(&mut self) -> (address: Option<String>)
        ensures
            next_pick(old(self)@.0, old(self)@.1) == (
                match address {
                    Some(a) => Some(a@),
                    None => None::<Seq<char>>,
                },
                final(self)@.0,
            ),
            final(self)@.1 == old(self)@.1,
            final(self)@.1.no_duplicates(),
            address matches Some(a) ==> !old(self)@.1.contains(a@),
    {
        proof {
            use_type_invariant(&*self);
        }
        let mut queue: VecDeque<String> = VecDeque::new();
        std::mem::swap(&mut queue, &mut self.queue);
        let mut picked: Option<String> = None;
        loop
            invariant_except_break
                self@.1 == old(self)@.1,
                picked is None,
                next_pick(old(self)@.0, old(self)@.1) == next_pick(texts(queue@), self@.1),
            ensures
                self@.1 == old(self)@.1,
                next_pick(old(self)@.0, old(self)@.1) == (
                    match picked {
                        Some(a) => Some(a@),
                        None => None::<Seq<char>>,
                    },
                    texts(queue@),
                ),
            decreases queue@.len(),
        {
            let ghost before = queue@;
            match queue.pop_front() {
                Some(address) => {
                    proof {
                        assert(texts(before).drop_first() =~= texts(queue@));
                    }
                    if !self.is_used(&address) {
                        proof {
                            assert(texts(before)[0] == address@);
                        }
                        picked = Some(address);
                        break;
                    }
                },
                None => {
                    proof {
                        assert(texts(queue@).len() == 0);
                    }
                    break;
                },
            }
        }
        std::mem::swap(&mut queue, &mut self.queue);
        proof {
            lemma_pick_progress(old(self)@.0, old(self)@.1);
        }
        picked
    }

    /// Take in the answer of the server at `address`, validated as `valid`.
    /// A failed validation stops the search; a refused signature or an error
    /// answer moves on (the latter marking the server as asked); a found client
    /// ends the search; a hint queues the hinted servers behind the others and
    /// marks the server as asked. No server is listed twice among those asked.
    pub fn on_response(
        &mut self,
        address: String,
        valid: Result<bool, ValidationError>,
        response: LookupResponse,
    ) -> (step: Result<LookupStep, MiddlewareError>)
        ensures
            valid matches Err(e) ==> (step == Err::<LookupStep, MiddlewareError>(
                MiddlewareError::SignatureValidationError(e),
            ) && final(self)@ == old(self)@),
            valid == Ok::<bool, ValidationError>(false) ==> (step matches Ok(LookupStep::Continue)
                && final(self)@ == old(self)@),
            valid == Ok::<bool, ValidationError>(true) ==> (match response.0 {
                Response::Error { .. } => (step matches Ok(LookupStep::Continue) && final(self)@
                    == (old(self)@.0, marked(old(self)@.1, address@))),
                Response::Success { public_key, response: body, .. } => (match body {
                    LookupResponseBody::Local { client, available } => (step matches Ok(
                        LookupStep::Found { client: c, server: s, available: a },
                    ) && c@ == client@ && s@ == (public_key@, address@) && a == available
                        && final(self)@ == old(self)@),
                    LookupResponseBody::Remote { client, server, available } => (step matches Ok(
                        LookupStep::Found { client: c, server: s, available: a },
                    ) && c@ == client@ && s@ == server@ && a == available && final(self)@
                        == old(self)@),
                    LookupResponseBody::Hint { servers } => (step matches Ok(
                        LookupStep::Continue,
                    ) && final(self)@ == (
                        old(self)@.0 + addresses(servers@),
                        marked(old(self)@.1, address@),
                    )),
                }),
            }),
            final(self)@.1.no_duplicates(),
    {
        proof {
            use_type_invariant(&*self);
        }
        match valid {
            Err(e) => return Err(MiddlewareError::SignatureValidationError(e)),
            Ok(false) => return Ok(LookupStep::Continue),
            Ok(true) => {},
        }
        match response.0 {
            Response::Success { public_key, response: body, .. } => match body {
                LookupResponseBody::Local { client, available } => {
                    let server = Server::new(public_key, address.as_str());
                    return Ok(LookupStep::Found { client, server, available });
                },
                LookupResponseBody::Remote { client, server, available } => {
                    return Ok(LookupStep::Found { client, server, available });
                },
                LookupResponseBody::Hint { servers } => {
                    let mut queue: VecDeque<String> = VecDeque::new();
                    std::mem::swap(&mut queue, &mut self.queue);
                    let ghost queue0 = queue@;
                    let mut i: usize = 0;
                    while i < servers.len()
                        invariant
                            i <= servers@.len(),
                            texts(queue@) == texts(queue0) + addresses(servers@).take(i as int),
                        decreases servers@.len() - i,
                    {
                        let ghost q = queue@;
                        queue.push_back(servers[i].address.clone());
                        proof {
                            assert(texts(queue@) =~= texts(q).push(servers@[i as int].address@));
                            assert(addresses(servers@).take(i + 1) =~= addresses(servers@).take(
                                i as int,
                            ).push(servers@[i as int].address@));
                        }
                        i = i + 1;
                    }
                    proof {
                        assert(addresses(servers@).take(i as int) =~= addresses(servers@));
                    }
                    std::mem::swap(&mut queue, &mut self.queue);
                },
            },
            Response::Error { .. } => {},
        }
        if !self.is_used(&address) {
            let mut used: Vec<String> = Vec::new();
            proof {
                assert(texts(used@) =~= Seq::<Seq<char>>::empty());
            }
            std::mem::swap(&mut used, &mut self.used);
            let ghost used0 = used@;
            proof {
                lemma_marked(texts(used0), address@);
            }
            used.push(address);
            proof {
                assert(texts(used@) =~= texts(used0).push(address@));
            }
            std::mem::swap(&mut used, &mut self.used);
        }
        Ok(LookupStep::Continue)
    }
}

} // verus!
