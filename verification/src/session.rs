//! The session: what the broker made for the caller, and how far the caller
//! has come with it.

use vstd::prelude::*;

use crate::device::{DeviceSet, DeviceType};
use crate::error::{Error, ProtocolError, StateError};
use crate::path::ObjectPath;
use crate::request::Response;

verus! {

/// How far a session has come.
#[derive(Clone, Copy, Debug, PartialEq, Eq, Structural)]
pub enum SessionState {
    /// The session exists and no device has been granted.
    Created,
    /// The broker has acknowledged a selection of devices.
    DevicesSelected,
    /// The broker has started the session and granted a set of devices.
    Active,
    /// The session is over.
    Closed,
}

/// What can happen to a session.
#[derive(Clone, Copy, Debug, PartialEq, Eq, Structural)]
pub enum SessionEvent {
    /// A selection of devices was acknowledged.
    DevicesSelected,
    /// The session was started.
    Started,
    /// The session was closed.
    Closed,
}

impl SessionState {
    /// The place of the state in the order in which a session passes through
    /// the states.
    pub open spec fn rank(self) -> nat {
        match self {
            SessionState::Created => 0,
            SessionState::DevicesSelected => 1,
            SessionState::Active => 2,
            SessionState::Closed => 3,
        }
    }

    /// Whether a selection of devices, or a start, may be asked for: the
    /// session is neither started nor closed.
    pub open spec fn open_for_requests(self) -> bool {
        self == SessionState::Created || self == SessionState::DevicesSelected
    }

    /// Why a selection of devices, or a start, is refused in this state, if it
    /// is.
    pub open spec fn request_refusal(self) -> Option<StateError> {
        match self {
            SessionState::Created => None,
            SessionState::DevicesSelected => None,
            SessionState::Active => Some(StateError::AlreadyStarted),
            SessionState::Closed => Some(StateError::SessionClosed),
        }
    }

    /// The state after an event, or why the event cannot happen in this
    /// state.
    pub open spec fn next(self, event: SessionEvent) -> Result<SessionState, StateError> {
        match (self, event) {
            (SessionState::Closed, _) => Err(StateError::SessionClosed),
            (_, SessionEvent::Closed) => Ok(SessionState::Closed),
            (SessionState::Active, _) => Err(StateError::AlreadyStarted),
            (_, SessionEvent::DevicesSelected) => Ok(SessionState::DevicesSelected),
            (_, SessionEvent::Started) => Ok(SessionState::Active),
        }
    }

    /// A session only moves forward, and a closed session does not move at
    /// all.
    pub proof fn lemma_forward_only(self, event: SessionEvent)
        ensures
            self.next(event) matches Ok(after) ==> self.rank() <= after.rank(),
            self == SessionState::Closed ==> self.next(event) is Err,
    {
    }

    /// A request is refused exactly in the states that are not open for
    /// requests, and there an acknowledgement of it cannot happen either.
    pub proof fn lemma_refusal(self)
        ensures
            self.request_refusal() is None <==> self.open_for_requests(),
            self.request_refusal() matches Some(e) ==> self.next(SessionEvent::DevicesSelected)
                == Err::<SessionState, StateError>(e) && self.next(SessionEvent::Started)
                == Err::<SessionState, StateError>(e),
    {
    }
}

/// A session of the broker, owned by the caller that created it.
#[derive(Debug, PartialEq, Eq)]
pub struct SessionHandle {
    path: ObjectPath,
    state: SessionState,
    granted: DeviceSet,
}

impl SessionHandle {
    /// The identifier that the broker gave the session.
    pub closed spec fn spec_path(&self) -> ObjectPath {
        self.path
    }

    /// How far the session has come.
    pub closed spec fn spec_state(&self) -> SessionState {
        self.state
    }

    /// The device classes that were granted. There are none before the
    /// session is started, and none after it is closed.
    pub closed spec fn spec_granted(&self) -> Set<DeviceType> {
        if self.state == SessionState::Active {
            self.granted@
        } else {
            Set::empty()
        }
    }

    /// Whether an event of the device class may be sent: the session is
    /// active and the class is granted.
    pub open spec fn permits(&self, device: DeviceType) -> bool {
        self.spec_state() == SessionState::Active && self.spec_granted().contains(device)
    }

    /// Why an event of the device class is refused, if it is.
    pub open spec fn notify_refusal(&self, device: DeviceType) -> Option<StateError> {
        match self.spec_state() {
            SessionState::Closed => Some(StateError::SessionClosed),
            SessionState::Active => if self.spec_granted().contains(device) {
                None
            } else {
                Some(StateError::DeviceNotGranted)
            },
            _ => Some(StateError::NotActive),
        }
    }

    /// The handle of a session that the broker has just created. A handle
    /// comes out of the response to a request to create a session, and out of
    /// nothing else.
    pub(crate) fn new(path: ObjectPath) -> (session: SessionHandle)
        ensures
            session.spec_path() == path,
            session.spec_state() == SessionState::Created,
            session.spec_granted() == Set::<DeviceType>::empty(),
    {
        SessionHandle { path, state: SessionState::Created, granted: DeviceSet::empty() }
    }

    /// The identifier that the broker gave the session.
    pub fn path(&self) -> (path: &ObjectPath)
        ensures
            *path == self.spec_path(),
    {
        &self.path
    }

    /// How far the session has come.
    pub fn state(&self) -> (state: SessionState)
        ensures
            state == self.spec_state(),
    {
        self.state
    }

    /// The device classes that were granted.
    pub fn granted(&self) -> (granted: DeviceSet)
        ensures
            granted@ == self.spec_granted(),
    {
        match self.state {
            SessionState::Active => self.granted,
            _ => DeviceSet::empty(),
        }
    }

    /// Tells whether a selection of devices, or a start, may be asked for.
    pub fn check_request(&self) -> (result: Result<(), Error>)
        ensures
            match self.spec_state().request_refusal() {
                None => result is Ok,
                Some(e) => result == Err::<(), Error>(Error::State(e)),
            },
    {
        match self.state {
            SessionState::Created => Ok(()),
            SessionState::DevicesSelected => Ok(()),
            SessionState::Active => Err(Error::State(StateError::AlreadyStarted)),
            SessionState::Closed => Err(Error::State(StateError::SessionClosed)),
        }
    }

    /// Tells whether an event of the device class may be sent.
    pub fn check_notify(&self, device: DeviceType) -> (result: Result<(), Error>)
        ensures
            match self.notify_refusal(device) {
                None => result is Ok,
                Some(e) => result == Err::<(), Error>(Error::State(e)),
            },
            result is Ok <==> self.permits(device),
    {
        match self.state {
            SessionState::Closed => Err(Error::State(StateError::SessionClosed)),
            SessionState::Active => if self.granted.contains(device) {
                Ok(())
            } else {
                Err(Error::State(StateError::DeviceNotGranted))
            },
            _ => Err(Error::State(StateError::NotActive)),
        }
    }

    /// What an event does to a session. Where the event can happen, the
    /// session is in the next state with the given device classes granted;
    /// where it cannot, the session refuses and stays as it is. The path
    /// never changes.
    pub open spec fn moved(
        before: SessionHandle,
        after: SessionHandle,
        event: SessionEvent,
        granted: Set<DeviceType>,
        result: Result<(), Error>,
    ) -> bool {
        &&& after.spec_path() == before.spec_path()
        &&& before.spec_state().rank() <= after.spec_state().rank()
        &&& match before.spec_state().next(event) {
            Ok(state) => result is Ok && after.spec_state() == state && after.spec_granted()
                == granted,
            Err(e) => result == Err::<(), Error>(Error::State(e)) && after == before,
        }
    }

    /// Records that the broker acknowledged a selection of devices. A session
    /// that is started or closed refuses and stays as it is.
    pub fn devices_selected(&mut self) -> (result: Result<(), Error>)
        ensures
            Self::moved(
                *old(self),
                *final(self),
                SessionEvent::DevicesSelected,
                Set::<DeviceType>::empty(),
                result,
            ),
    {
        match self.state {
            SessionState::Created | SessionState::DevicesSelected => {
                self.state = SessionState::DevicesSelected;
                Ok(())
            },
            SessionState::Active => Err(Error::State(StateError::AlreadyStarted)),
            SessionState::Closed => Err(Error::State(StateError::SessionClosed)),
        }
    }

    /// Records that the broker started the session and which device classes
    /// it granted. A session that is started or closed refuses and stays as
    /// it is.
    pub fn started(&mut self, granted: DeviceSet) -> (result: Result<(), Error>)
        ensures
            Self::moved(*old(self), *final(self), SessionEvent::Started, granted@, result),
    {
        match self.state {
            SessionState::Created | SessionState::DevicesSelected => {
                self.state = SessionState::Active;
                self.granted = granted;
                Ok(())
            },
            SessionState::Active => Err(Error::State(StateError::AlreadyStarted)),
            SessionState::Closed => Err(Error::State(StateError::SessionClosed)),
        }
    }

    /// Records that the session was closed. A closed session refuses and
    /// stays as it is.
    pub fn close(&mut self) -> (result: Result<(), Error>)
        ensures
            Self::moved(
                *old(self),
                *final(self),
                SessionEvent::Closed,
                Set::<DeviceType>::empty(),
                result,
            ),
    {
        match self.state {
            SessionState::Closed => Err(Error::State(StateError::SessionClosed)),
            _ => {
                self.state = SessionState::Closed;
                self.granted = DeviceSet::empty();
                Ok(())
            },
        }
    }

    /// Records what a response to a request for this session says: the
    /// acknowledgement of a selection of devices, or the start of the session
    /// with the granted device classes. A response that speaks of a new
    /// session is none for this one: it is refused and the session stays as
    /// it is.
    pub fn advance(&mut self, response: &Response) -> (result: Result<(), Error>)
        ensures
            match *response {
                Response::SessionCreated(_) => result == Err::<(), Error>(
                    Error::Protocol(ProtocolError::UnexpectedResponse),
                ) && *final(self) == *old(self),
                Response::DevicesSelected => Self::moved(
                    *old(self),
                    *final(self),
                    SessionEvent::DevicesSelected,
                    Set::<DeviceType>::empty(),
                    result,
                ),
                Response::Started(selected) => Self::moved(
                    *old(self),
                    *final(self),
                    SessionEvent::Started,
                    selected.devices@,
                    result,
                ),
            },
    {
        match response {
            Response::SessionCreated(_) => Err(Error::Protocol(ProtocolError::UnexpectedResponse)),
            Response::DevicesSelected => self.devices_selected(),
            Response::Started(selected) => self.started(selected.devices),
        }
    }
}

} // verus!
