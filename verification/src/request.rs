//! Requests that wait for their response.
//!
//! A request is answered in two steps. The call that makes it returns at once
//! with the identifier of a response object; the response itself arrives
//! later, addressed to that identifier. The correlator keeps the identifiers
//! that are waited on, so that each response is taken once and a response
//! that nothing waits on is seen for what it is.

use vstd::prelude::*;
use vstd::string::*;

use crate::assoc::{has_key, index_of_key, lemma_entry_found, Assoc};
use crate::device::DeviceType;
use crate::error::{BrokerError, Error, ProtocolError, StateError};
use crate::options::{CreateSession, SelectedDevices};
use crate::path::ObjectPath;
use crate::session::{SessionHandle, SessionState};
use crate::token::{token_view, HandleToken};
use crate::wire::{Dict, ValueView};

verus! {

/// How the broker says an interaction ended.
#[derive(Clone, Copy, Debug, PartialEq, Eq, Structural)]
pub enum ResponseStatus {
    /// The request was carried out.
    Success,
    /// The user cancelled the interaction.
    Cancelled,
    /// The interaction ended in some other way.
    Other,
}

impl ResponseStatus {
    /// The status that a wire number stands for, if any.
    pub open spec fn spec_from_code(code: u32) -> Option<ResponseStatus> {
        if code == 0 {
            Some(ResponseStatus::Success)
        } else if code == 1 {
            Some(ResponseStatus::Cancelled)
        } else if code == 2 {
            Some(ResponseStatus::Other)
        } else {
            None
        }
    }

    pub fn from_code(code: u32) -> (status: Option<ResponseStatus>)
        ensures
            status == Self::spec_from_code(code),
    {
        if code == 0 {
            Some(ResponseStatus::Success)
        } else if code == 1 {
            Some(ResponseStatus::Cancelled)
        } else if code == 2 {
            Some(ResponseStatus::Other)
        } else {
            None
        }
    }
}

/// The requests that are answered by a response.
#[derive(Clone, Copy, Debug, PartialEq, Eq, Structural)]
pub enum RequestKind {
    /// A request to create a session.
    CreateSession,
    /// A request to select the devices of a session.
    SelectDevices,
    /// A request to start a session.
    Start,
}

/// What a response says, once it is read.
#[derive(Debug, PartialEq, Eq)]
pub enum Response {
    /// The session that was created, in its first state.
    SessionCreated(SessionHandle),
    /// The selection of devices was acknowledged.
    DevicesSelected,
    /// The session was started, with these device classes granted.
    Started(SelectedDevices),
}

impl Response {
    /// The session that the response speaks of. A response that speaks of
    /// anything else is not one to a request to create a session.
    pub fn into_session(self) -> (result: Result<SessionHandle, Error>)
        ensures
            match self {
                Response::SessionCreated(session) => result == Ok::<SessionHandle, Error>(session),
                _ => result == Err::<SessionHandle, Error>(
                    Error::Protocol(ProtocolError::UnexpectedResponse),
                ),
            },
    {
        match self {
            Response::SessionCreated(session) => Ok(session),
            _ => Err(Error::Protocol(ProtocolError::UnexpectedResponse)),
        }
    }
}

/// What a response says: the path of the new session by its characters, the
/// granted device classes as a set.
pub enum ResponseView {
    SessionCreated(Seq<char>),
    DevicesSelected,
    Started(Set<DeviceType>),
}

/// What the response to a request of a kind says, given its status and its
/// dictionary. A status other than success is the broker's refusal, whatever
/// the dictionary holds.
pub open spec fn spec_response(
    kind: RequestKind,
    status: u32,
    payload: Map<Seq<char>, ValueView>,
) -> Result<ResponseView, Error> {
    match ResponseStatus::spec_from_code(status) {
        None => Err(Error::Protocol(ProtocolError::UnknownStatus)),
        Some(ResponseStatus::Cancelled) => Err(Error::Broker(BrokerError::Cancelled)),
        Some(ResponseStatus::Other) => Err(Error::Broker(BrokerError::Other)),
        Some(ResponseStatus::Success) => match kind {
            RequestKind::CreateSession => match CreateSession::spec_decode(payload) {
                Ok(path) => Ok(ResponseView::SessionCreated(path)),
                Err(e) => Err(e),
            },
            RequestKind::SelectDevices => Ok(ResponseView::DevicesSelected),
            RequestKind::Start => match SelectedDevices::spec_decode(payload) {
                Ok(devices) => Ok(ResponseView::Started(devices)),
                Err(e) => Err(e),
            },
        },
    }
}

/// Whether a response that was read is the one that was to be read.
pub open spec fn response_is(result: Result<Response, Error>, expected: Result<ResponseView, Error>) -> bool {
    match expected {
        Ok(ResponseView::SessionCreated(path)) => result matches Ok(Response::SessionCreated(session))
            && session.spec_path()@ == path && session.spec_state() == SessionState::Created
            && session.spec_granted() == Set::<DeviceType>::empty(),
        Ok(ResponseView::DevicesSelected) => result matches Ok(Response::DevicesSelected),
        Ok(ResponseView::Started(devices)) => result matches Ok(Response::Started(selected))
            && selected.devices@ == devices,
        Err(e) => result matches Err(x) && x == e,
    }
}

/// Reads the response to a request of a kind from its status and its
/// dictionary.
pub fn read_response(kind: RequestKind, status: u32, payload: &Dict) -> (result: Result<
    Response,
    Error,
>)
    ensures
        response_is(result, spec_response(kind, status, payload@)),
{
    match ResponseStatus::from_code(status) {
        None => Err(Error::Protocol(ProtocolError::UnknownStatus)),
        Some(ResponseStatus::Cancelled) => Err(Error::Broker(BrokerError::Cancelled)),
        Some(ResponseStatus::Other) => Err(Error::Broker(BrokerError::Other)),
        Some(ResponseStatus::Success) => match kind {
            RequestKind::CreateSession => match CreateSession::decode(payload) {
                Ok(created) => Ok(Response::SessionCreated(SessionHandle::new(created.session_handle))),
                Err(e) => Err(e),
            },
            RequestKind::SelectDevices => Ok(Response::DevicesSelected),
            RequestKind::Start => match SelectedDevices::decode(payload) {
                Ok(selected) => Ok(Response::Started(selected)),
                Err(e) => Err(e),
            },
        },
    }
}

/// A request that was sent and whose response is waited on.
#[derive(Debug, PartialEq, Eq)]
pub struct PendingRequest {
    path: ObjectPath,
    kind: RequestKind,
}

impl PendingRequest {
    /// The identifier of the response object.
    pub closed spec fn spec_path(&self) -> ObjectPath {
        self.path
    }

    /// The kind of the request.
    pub closed spec fn spec_kind(&self) -> RequestKind {
        self.kind
    }

    /// The identifier of the response object.
    pub fn path(&self) -> (path: &ObjectPath)
        ensures
            *path == self.spec_path(),
    {
        &self.path
    }

    /// The kind of the request.
    pub fn kind(&self) -> (kind: RequestKind)
        ensures
            kind == self.spec_kind(),
    {
        self.kind
    }
}

/// What the correlator keeps of a pending request.
#[derive(Debug)]
pub struct Pending {
    pub kind: RequestKind,
    pub token: Option<HandleToken>,
}

/// What the correlator keeps of a pending request, the token by its
/// characters.
pub struct PendingView {
    pub kind: RequestKind,
    pub token: Option<Seq<char>>,
}

impl View for Pending {
    type V = PendingView;

    open spec fn view(&self) -> PendingView {
        PendingView { kind: self.kind, token: token_view(self.token) }
    }
}

/// Whether some pending request was named by the token.
pub open spec fn token_pending(m: Map<Seq<char>, PendingView>, token: Seq<char>) -> bool {
    exists|id: Seq<char>| m.contains_key(id) && (#[trigger] m[id]).token == Some(token)
}

/// No two pending requests were named by the same token.
pub open spec fn tokens_distinct(m: Map<Seq<char>, PendingView>) -> bool {
    forall|a: Seq<char>, b: Seq<char>|
        m.contains_key(a) && m.contains_key(b) && a != b && (#[trigger] m[a]).token is Some ==> m[a].token
            != (#[trigger] m[b]).token
}

/// The pending requests after one more is registered, or why it is refused:
/// its response identifier is waited on already, or its token names a pending
/// request.
pub open spec fn spec_register(
    m: Map<Seq<char>, PendingView>,
    id: Seq<char>,
    kind: RequestKind,
    token: Option<Seq<char>>,
) -> Result<Map<Seq<char>, PendingView>, Error> {
    if m.contains_key(id) {
        Err(Error::State(StateError::ResponseIdInUse))
    } else if token matches Some(t) && token_pending(m, t) {
        Err(Error::State(StateError::TokenInUse))
    } else {
        Ok(m.insert(id, PendingView { kind, token }))
    }
}

/// The pending requests after a response arrived, and what the response says.
/// A response that nothing waits on breaks the protocol. A response that is
/// waited on ends the wait, whatever it says.
pub open spec fn spec_resolve(
    m: Map<Seq<char>, PendingView>,
    id: Seq<char>,
    status: u32,
    payload: Map<Seq<char>, ValueView>,
) -> (Map<Seq<char>, PendingView>, Result<ResponseView, Error>) {
    if m.contains_key(id) {
        (m.remove(id), spec_response(m[id].kind, status, payload))
    } else {
        (m, Err(Error::Protocol(ProtocolError::UnexpectedResponse)))
    }
}

/// A response is taken once: after a response for an identifier, whatever it
/// said, the identifier is no longer waited on, and a second response for it
/// breaks the protocol and changes nothing.
pub proof fn lemma_resolves_once(
    m: Map<Seq<char>, PendingView>,
    id: Seq<char>,
    status: u32,
    payload: Map<Seq<char>, ValueView>,
    again_status: u32,
    again_payload: Map<Seq<char>, ValueView>,
)
    ensures
        !spec_resolve(m, id, status, payload).0.contains_key(id),
        spec_resolve(spec_resolve(m, id, status, payload).0, id, again_status, again_payload) == (
            spec_resolve(m, id, status, payload).0,
            Err::<ResponseView, Error>(Error::Protocol(ProtocolError::UnexpectedResponse)),
        ),
{
}

/// A request that was registered is answered by the first response for its
/// identifier, read as a response to a request of its kind, and the pending
/// requests are then what they were before.
pub proof fn lemma_registered_resolves(
    m: Map<Seq<char>, PendingView>,
    id: Seq<char>,
    kind: RequestKind,
    token: Option<Seq<char>>,
    status: u32,
    payload: Map<Seq<char>, ValueView>,
)
    requires
        spec_register(m, id, kind, token) is Ok,
    ensures
        spec_resolve(spec_register(m, id, kind, token)->Ok_0, id, status, payload) == (
            m,
            spec_response(kind, status, payload),
        ),
{
    assert(m.insert(id, PendingView { kind, token }).remove(id) =~= m);
}

/// Tokens stay distinct: with none pending they are, and registering a
/// request or taking one away keeps them so.
pub proof fn lemma_tokens_stay_distinct(
    m: Map<Seq<char>, PendingView>,
    id: Seq<char>,
    kind: RequestKind,
    token: Option<Seq<char>>,
)
    requires
        tokens_distinct(m),
    ensures
        tokens_distinct(Map::<Seq<char>, PendingView>::empty()),
        spec_register(m, id, kind, token) matches Ok(after) ==> tokens_distinct(after),
        tokens_distinct(m.remove(id)),
{
    if let Ok(after) = spec_register(m, id, kind, token) {
        assert forall|a: Seq<char>, b: Seq<char>|
            after.contains_key(a) && after.contains_key(b) && a != b && (
            #[trigger] after[a]).token is Some implies after[a].token != (
        #[trigger] after[b]).token by {
            if a == id {
                assert(m.contains_key(b));
                if after[a].token == m[b].token {
                    assert(token_pending(m, token->Some_0));
                }
            } else if b == id {
                assert(m.contains_key(a));
                if after[b].token == m[a].token {
                    assert(token_pending(m, token->Some_0));
                }
            } else {
                assert(m[a].token != m[b].token);
            }
        }
    }
    let less = m.remove(id);
    assert forall|a: Seq<char>, b: Seq<char>|
        less.contains_key(a) && less.contains_key(b) && a != b && (#[trigger] less[a]).token is Some implies less[a].token
            != (#[trigger] less[b]).token by {
        assert(m[a].token != m[b].token);
    }
}

/// The requests that wait for their response, by the identifier of the
/// response object.
#[derive(Debug)]
pub struct Correlator {
    pending: Assoc<Pending>,
}

impl View for Correlator {
    type V = Map<Seq<char>, PendingView>;

    closed spec fn view(&self) -> Map<Seq<char>, PendingView> {
        self.pending@.map_values(|p: Pending| p@)
    }
}

impl Correlator {
    /// No two pending requests were named by the same token.
    #[verifier::type_invariant]
    pub closed spec fn wf(self) -> bool {
        tokens_distinct(self@)
    }

    /// At every moment, no two pending requests were named by the same
    /// token.
    pub proof fn lemma_tokens_distinct(self)
        requires
            self.wf(),
        ensures
            tokens_distinct(self@),
    {
    }

    /// The correlator with nothing pending.
    pub fn new() -> (correlator: Correlator)
        ensures
            correlator@ == Map::<Seq<char>, PendingView>::empty(),
            tokens_distinct(correlator@),
    {
        let correlator = Correlator { pending: Assoc::new() };
        assert(correlator@ =~= Map::<Seq<char>, PendingView>::empty());
        correlator
    }

    /// Whether a response for the identifier is waited on.
    pub fn is_pending(&self, response_id: &ObjectPath) -> (pending: bool)
        ensures
            pending == self@.contains_key(response_id@),
    {
        let key = response_id.as_str().to_owned();
        self.pending.contains_key(&key)
    }

    /// The number of pending requests.
    pub fn len(&self) -> (n: usize)
        ensures
            n == self@.len(),
            self@.dom().finite(),
    {
        let n = self.pending.len();
        proof {
            assert(self@.dom() =~= self.pending@.dom());
        }
        n
    }

    /// Whether some pending request was named by the token.
    pub fn token_in_use(&self, token: &HandleToken) -> (used: bool)
        ensures
            used == token_pending(self@, token@),
            tokens_distinct(self@),
    {
        proof {
            use_type_invariant(self);
            use_type_invariant(&self.pending);
            self.pending.lemma_entries();
        }
        let n = self.pending.len();
        let mut i: usize = 0;
        while i < n
            invariant
                i <= n,
                n == self.pending.spec_entries().len(),
                self.pending.wf(),
                tokens_distinct(self@),
                forall|j: int|
                    0 <= j < i ==> (#[trigger] self.pending.spec_entries()[j]).value@.token != Some(
                        token@,
                    ),
            decreases n - i,
        {
            if let Some(entry) = self.pending.entry(i) {
                let same = match &entry.value.token {
                    Some(t) => t.same_as(token),
                    None => false,
                };
                if same {
                    assert(self@[entry.key@].token == Some(token@));
                    return true;
                }
            }
            i += 1;
        }
        proof {
            let entries = self.pending.spec_entries();
            assert forall|id: Seq<char>| self@.contains_key(id) implies (#[trigger] self@[id]).token
                != Some(token@) by {
                assert(has_key(entries, id));
                let j = index_of_key(entries, id);
                lemma_entry_found(entries, j);
            }
        }
        false
    }

    /// Registers a request that was sent: from now on a response for the
    /// identifier is waited on. The request is refused, and nothing changes,
    /// where the identifier is waited on already or the token names a pending
    /// request.
    pub fn register(
        &mut self,
        response_id: ObjectPath,
        kind: RequestKind,
        token: Option<HandleToken>,
    ) -> (result: Result<PendingRequest, Error>)
        ensures
            match spec_register(old(self)@, response_id@, kind, token_view(token)) {
                Ok(after) => result matches Ok(request) && request.spec_path() == response_id
                    && request.spec_kind() == kind && final(self)@ == after,
                Err(e) => result matches Err(x) && x == e && final(self)@ == old(self)@,
            },
            tokens_distinct(final(self)@),
    {
        proof {
            use_type_invariant(&*self);
        }
        if self.is_pending(&response_id) {
            return Err(Error::State(StateError::ResponseIdInUse));
        }
        let used = match &token {
            Some(t) => self.token_in_use(t),
            None => false,
        };
        if used {
            return Err(Error::State(StateError::TokenInUse));
        }
        let key = response_id.as_str().to_owned();
        let pending = Pending { kind, token };
        proof {
            lemma_tokens_stay_distinct(self@, response_id@, kind, pending@.token);
        }
        // The requests are taken out while they change, so that the invariant
        // holds of `self` at every step.
        let mut all: Assoc<Pending> = Assoc::new();
        core::mem::swap(&mut self.pending, &mut all);
        all.insert(key, pending);
        proof {
            assert(all@.map_values(|p: Pending| p@) =~= old(self)@.insert(
                response_id@,
                pending@,
            ));
        }
        self.pending = all;
        Ok(PendingRequest { path: response_id, kind })
    }

    /// Takes the response that arrived for an identifier. Where a request
    /// waits on it, the wait ends and the response is read as one to a request
    /// of that kind. Where nothing waits on it, the response breaks the
    /// protocol and nothing changes.
    pub fn resolve(&mut self, response_id: &ObjectPath, status: u32, payload: &Dict) -> (result:
        Result<Response, Error>)
        ensures
            final(self)@ == spec_resolve(old(self)@, response_id@, status, payload@).0,
            response_is(result, spec_resolve(old(self)@, response_id@, status, payload@).1),
            !final(self)@.contains_key(response_id@),
            tokens_distinct(final(self)@),
    {
        proof {
            use_type_invariant(&*self);
            lemma_tokens_stay_distinct(self@, response_id@, RequestKind::Start, None);
        }
        let key = response_id.as_str().to_owned();
        let mut all: Assoc<Pending> = Assoc::new();
        core::mem::swap(&mut self.pending, &mut all);
        let taken = all.remove(&key);
        proof {
            assert(all@.map_values(|p: Pending| p@) =~= old(self)@.remove(response_id@));
        }
        self.pending = all;
        match taken {
            Some(pending) => read_response(pending.kind, status, payload),
            None => {
                proof {
                    assert(old(self)@.remove(response_id@) =~= old(self)@);
                }
                Err(Error::Protocol(ProtocolError::UnexpectedResponse))
            },
        }
    }

    /// Gives up the wait for a response, so that nothing is kept of a request
    /// whose caller has gone. Tells whether there was such a wait.
    pub fn abandon(&mut self, response_id: &ObjectPath) -> (waited: bool)
        ensures
            waited == old(self)@.contains_key(response_id@),
            final(self)@ == old(self)@.remove(response_id@),
            tokens_distinct(final(self)@),
    {
        proof {
            use_type_invariant(&*self);
            lemma_tokens_stay_distinct(self@, response_id@, RequestKind::Start, None);
        }
        let key = response_id.as_str().to_owned();
        let mut all: Assoc<Pending> = Assoc::new();
        core::mem::swap(&mut self.pending, &mut all);
        let taken = all.remove(&key);
        proof {
            assert(all@.map_values(|p: Pending| p@) =~= old(self)@.remove(response_id@));
        }
        self.pending = all;
        taken.is_some()
    }
}

} // verus!
