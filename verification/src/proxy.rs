//! The remote desktop interface of the broker, seen from the caller.
//!
//! Each operation decides on plain values. An operation that asks the broker
//! for something hands back the call to send, or refuses before anything is
//! sent. What the transport brought back is handed in by the caller: the
//! immediate reply to a request, and later its response.

use vstd::prelude::*;
use vstd::string::*;

use crate::device::{flags_of, valid_device_bits, Axis, DeviceSet, DeviceType, KeyState};
use crate::error::{Error, ProtocolError, StateError};
use crate::event::InputEvent;
use crate::options::{CreateRemoteOptions, SelectDevicesOptions, StartRemoteOptions};
use crate::path::{is_object_path, ObjectPath};
use crate::request::{
    response_is, spec_register, spec_resolve, token_pending, tokens_distinct, Correlator,
    PendingRequest, PendingView, RequestKind, Response,
};
use crate::session::{SessionEvent, SessionHandle, SessionState};
use crate::token::HandleToken;
use crate::window::WindowIdentifier;
use crate::wire::{Dict, Double};

verus! {

/// The name of the interface.
pub const INTERFACE: &'static str = "org.freedesktop.portal.RemoteDesktop";

/// The object path of the interface.
pub const PATH: &'static str = "/org/freedesktop/portal/desktop";

/// The bus name of the broker.
pub const DESTINATION: &'static str = "org.freedesktop.portal.Desktop";

/// The property that holds the device classes that the broker offers.
pub const PROPERTY_AVAILABLE_DEVICE_TYPES: &'static str = "AvailableDeviceTypes";

/// The property that holds the version of the interface.
pub const PROPERTY_VERSION: &'static str = "version";

/// A call that is answered by a response.
#[derive(Debug, PartialEq, Eq)]
#[allow(inconsistent_fields)]
pub enum Request {
    /// Create a session.
    CreateSession { options: CreateRemoteOptions },
    /// Select the device classes to control in a session.
    SelectDevices { session: ObjectPath, options: SelectDevicesOptions },
    /// Start a session.
    Start { session: ObjectPath, parent_window: WindowIdentifier, options: StartRemoteOptions },
}

impl Request {
    /// The kind of the request.
    pub open spec fn spec_kind(&self) -> RequestKind {
        match self {
            Request::CreateSession { .. } => RequestKind::CreateSession,
            Request::SelectDevices { .. } => RequestKind::SelectDevices,
            Request::Start { .. } => RequestKind::Start,
        }
    }

    /// The name of the call.
    pub open spec fn spec_member(&self) -> Seq<char> {
        match self {
            Request::CreateSession { .. } => "CreateSession"@,
            Request::SelectDevices { .. } => "SelectDevices"@,
            Request::Start { .. } => "Start"@,
        }
    }

    /// The token that names the request, if its options set one.
    pub open spec fn spec_token(&self) -> Option<Seq<char>> {
        match self {
            Request::CreateSession { options } => options@.handle_token,
            Request::SelectDevices { options, .. } => options@.handle_token,
            Request::Start { options, .. } => options@.handle_token,
        }
    }

    /// The kind of the request.
    pub fn kind(&self) -> (kind: RequestKind)
        ensures
            kind == self.spec_kind(),
    {
        match self {
            Request::CreateSession { .. } => RequestKind::CreateSession,
            Request::SelectDevices { .. } => RequestKind::SelectDevices,
            Request::Start { .. } => RequestKind::Start,
        }
    }

    /// The name of the call.
    pub fn member(&self) -> (name: &'static str)
        ensures
            name@ == self.spec_member(),
    {
        match self {
            Request::CreateSession { .. } => "CreateSession",
            Request::SelectDevices { .. } => "SelectDevices",
            Request::Start { .. } => "Start",
        }
    }

    /// The token that names the request, if its options set one.
    pub fn token(&self) -> (token: Option<&HandleToken>)
        ensures
            match token {
                Some(t) => self.spec_token() == Some(t@),
                None => self.spec_token() is None,
            },
    {
        match self {
            Request::CreateSession { options } => options.token(),
            Request::SelectDevices { options, .. } => options.token(),
            Request::Start { options, .. } => options.token(),
        }
    }
}

/// A call that carries one input event. It is answered by nothing but the
/// word that it was delivered.
#[derive(Debug)]
pub struct Notification {
    /// The session that the event is for.
    pub session: ObjectPath,
    /// Options of the call, passed on as they were given.
    pub options: Dict,
    /// The event.
    pub event: InputEvent,
}

impl Notification {
    /// The name of the call.
    pub fn member(&self) -> (name: &'static str)
        ensures
            name@ == self.event.spec_member(),
    {
        self.event.member()
    }
}

/// Why a request is refused before it is sent, if it is: first for the state
/// of its session, then for a token that names a pending request.
pub open spec fn spec_refusal(
    pending: Map<Seq<char>, PendingView>,
    session: Option<StateError>,
    token: Option<Seq<char>>,
) -> Option<Error> {
    if let Some(e) = session {
        Some(Error::State(e))
    } else if token matches Some(t) && token_pending(pending, t) {
        Some(Error::State(StateError::TokenInUse))
    } else {
        None
    }
}

/// The call that carries an event for a session, or why the event is refused:
/// the session is closed, it is not active, or the device class of the event
/// is not granted.
pub open spec fn spec_notify(session: &SessionHandle, options: Dict, event: InputEvent) -> Result<
    Notification,
    Error,
> {
    match session.notify_refusal(event.spec_device()) {
        Some(e) => Err(Error::State(e)),
        None => Ok(Notification { session: session.spec_path(), options, event }),
    }
}

/// The pending requests after the immediate reply to a request came, or why
/// nothing is pending for it: the call failed, the reply is no object path, or
/// the request cannot be registered.
pub open spec fn spec_request_sent(
    pending: Map<Seq<char>, PendingView>,
    kind: RequestKind,
    token: Option<Seq<char>>,
    reply: Result<Seq<char>, Error>,
) -> Result<Map<Seq<char>, PendingView>, Error> {
    match reply {
        Err(e) => Err(e),
        Ok(text) => if is_object_path(text) {
            spec_register(pending, text, kind, token)
        } else {
            Err(Error::Protocol(ProtocolError::InvalidObjectPath))
        },
    }
}

/// What the immediate reply to a request says, the identifier by its
/// characters.
pub open spec fn reply_view(reply: Result<&str, Error>) -> Result<Seq<char>, Error> {
    match reply {
        Ok(text) => Ok(text@),
        Err(e) => Err(e),
    }
}

/// The device classes that a property read brought, or why there are none:
/// the read failed, or the number has a bit outside the three classes.
pub open spec fn spec_available(reply: Result<u32, Error>) -> Result<Set<DeviceType>, Error> {
    match reply {
        Err(e) => Err(e),
        Ok(raw) => if valid_device_bits(raw) {
            Ok(flags_of(raw))
        } else {
            Err(Error::Protocol(ProtocolError::InvalidDeviceBits))
        },
    }
}

/// Requests out of order are refused: once a session is started or closed, a
/// selection of devices and a start are refused for it, with the reason that
/// its state gives, whatever is pending and whatever token they carry.
pub proof fn lemma_out_of_order_refused(
    pending: Map<Seq<char>, PendingView>,
    before: SessionState,
    event: SessionEvent,
    token: Option<Seq<char>>,
)
    requires
        event == SessionEvent::Started || event == SessionEvent::Closed,
        before.next(event) is Ok,
    ensures
        before.next(event)->Ok_0.request_refusal() matches Some(e) && spec_refusal(
            pending,
            before.next(event)->Ok_0.request_refusal(),
            token,
        ) == Some(Error::State(e)),
{
}

/// An event is carried exactly when its session is active and the device
/// class of the event is granted; before the start, after the close, and for
/// any other class it is refused.
pub proof fn lemma_notify_needs_grant(session: &SessionHandle, options: Dict, event: InputEvent)
    ensures
        spec_notify(session, options, event) is Ok <==> session.permits(event.spec_device()),
        session.spec_state() != SessionState::Active ==> spec_notify(session, options, event)
            is Err,
{
}

/// The interface that lets an application create remote desktop sessions,
/// with the requests of this connection that wait for their response.
#[derive(Debug)]
pub struct RemoteDesktopProxy {
    correlator: Correlator,
}

impl View for RemoteDesktopProxy {
    type V = Map<Seq<char>, PendingView>;

    closed spec fn view(&self) -> Map<Seq<char>, PendingView> {
        self.correlator@
    }
}

impl RemoteDesktopProxy {
    /// The interface on a new connection: nothing is pending.
    pub fn new() -> (proxy: RemoteDesktopProxy)
        ensures
            proxy@ == Map::<Seq<char>, PendingView>::empty(),
            tokens_distinct(proxy@),
    {
        RemoteDesktopProxy { correlator: Correlator::new() }
    }

    fn refusal(&self, session: Option<&SessionHandle>, token: Option<&HandleToken>) -> (refused:
        Option<Error>)
        ensures
            refused == spec_refusal(
                self@,
                match session {
                    Some(s) => s.spec_state().request_refusal(),
                    None => None,
                },
                match token {
                    Some(t) => Some(t@),
                    None => None,
                },
            ),
    {
        if let Some(s) = session {
            if let Err(e) = s.check_request() {
                return Some(e);
            }
        }
        if let Some(t) = token {
            if self.correlator.token_in_use(t) {
                return Some(Error::State(StateError::TokenInUse));
            }
        }
        None
    }

    /// Create a remote desktop session.
    ///
    /// Hands back the call to send. The call is refused where the handle
    /// token of the options names a pending request.
    pub fn create_session(&self, options: CreateRemoteOptions) -> (result: Result<Request, Error>)
        ensures
            match spec_refusal(self@, None, options@.handle_token) {
                Some(e) => result == Err::<Request, Error>(e),
                None => result == Ok::<Request, Error>(Request::CreateSession { options }),
            },
    {
        match self.refusal(None, options.token()) {
            Some(e) => Err(e),
            None => Ok(Request::CreateSession { options }),
        }
    }

    /// Select input devices to remote control.
    ///
    /// Hands back the call to send. The call is refused where the session is
    /// started or closed, and where the handle token of the options names a
    /// pending request.
    pub fn select_devices(&self, session: &SessionHandle, options: SelectDevicesOptions) -> (result:
        Result<Request, Error>)
        ensures
            match spec_refusal(
                self@,
                session.spec_state().request_refusal(),
                options@.handle_token,
            ) {
                Some(e) => result == Err::<Request, Error>(e),
                None => result == Ok::<Request, Error>(
                    Request::SelectDevices { session: session.spec_path(), options },
                ),
            },
    {
        match self.refusal(Some(session), options.token()) {
            Some(e) => Err(e),
            None => Ok(Request::SelectDevices { session: session.path().clone(), options }),
        }
    }

    /// Start the remote desktop session.
    ///
    /// Hands back the call to send. The call is refused where the session is
    /// started or closed, and where the handle token of the options names a
    /// pending request. The broker decides whether it starts a session for
    /// which no devices were selected.
    pub fn start(
        &self,
        session: &SessionHandle,
        parent_window: WindowIdentifier,
        options: StartRemoteOptions,
    ) -> (result: Result<Request, Error>)
        ensures
            match spec_refusal(
                self@,
                session.spec_state().request_refusal(),
                options@.handle_token,
            ) {
                Some(e) => result == Err::<Request, Error>(e),
                None => result == Ok::<Request, Error>(
                    Request::Start { session: session.spec_path(), parent_window, options },
                ),
            },
    {
        match self.refusal(Some(session), options.token()) {
            Some(e) => Err(e),
            None => Ok(
                Request::Start { session: session.path().clone(), parent_window, options },
            ),
        }
    }

    /// Takes the immediate reply to a request that was sent: the identifier
    /// of the response object, or the failure of the call. With an identifier
    /// the request is registered, and its response is waited on from now on.
    pub fn request_sent(&mut self, request: &Request, reply: Result<&str, Error>) -> (result:
        Result<PendingRequest, Error>)
        ensures
            match spec_request_sent(
                old(self)@,
                request.spec_kind(),
                request.spec_token(),
                reply_view(reply),
            ) {
                Ok(after) => result matches Ok(pending) && reply_view(reply) == Ok::<
                    Seq<char>,
                    Error,
                >(pending.spec_path()@) && pending.spec_kind() == request.spec_kind() && final(self)@ == after,
                Err(e) => result matches Err(x) && x == e && final(self)@ == old(self)@,
            },
            tokens_distinct(final(self)@),
    {
        let text = match reply {
            Ok(text) => text,
            Err(e) => {
                proof {
                    use_type_invariant(&self.correlator);
                    self.correlator.lemma_tokens_distinct();
                }
                return Err(e);
            },
        };
        let response_id = match ObjectPath::new(text) {
            Some(path) => path,
            None => {
                proof {
                    use_type_invariant(&self.correlator);
                    self.correlator.lemma_tokens_distinct();
                }
                return Err(Error::Protocol(ProtocolError::InvalidObjectPath));
            },
        };
        let token = match request.token() {
            Some(t) => Some(t.clone()),
            None => None,
        };
        self.correlator.register(response_id, request.kind(), token)
    }

    /// Takes the response that arrived for an identifier. Where a request
    /// waits on it, the wait ends and the response is read as one to a request
    /// of that kind; a status other than success is the broker's refusal.
    /// Where nothing waits on it, as for a second response to one request,
    /// the response breaks the protocol and nothing changes.
    pub fn response_received(&mut self, response_id: &ObjectPath, status: u32, payload: &Dict) -> (result:
        Result<Response, Error>)
        ensures
            final(self)@ == spec_resolve(old(self)@, response_id@, status, payload@).0,
            response_is(result, spec_resolve(old(self)@, response_id@, status, payload@).1),
            !final(self)@.contains_key(response_id@),
            tokens_distinct(final(self)@),
    {
        self.correlator.resolve(response_id, status, payload)
    }

    /// Gives up the wait for a response. Tells whether there was such a wait.
    pub fn abandon(&mut self, response_id: &ObjectPath) -> (waited: bool)
        ensures
            waited == old(self)@.contains_key(response_id@),
            final(self)@ == old(self)@.remove(response_id@),
            tokens_distinct(final(self)@),
    {
        self.correlator.abandon(response_id)
    }

    /// Whether a response for the identifier is waited on.
    pub fn is_pending(&self, response_id: &ObjectPath) -> (pending: bool)
        ensures
            pending == self@.contains_key(response_id@),
    {
        self.correlator.is_pending(response_id)
    }

    /// The call that carries an event for a session. The event is refused
    /// where the session is not active or the device class of the event is
    /// not granted.
    pub fn notify(&self, session: &SessionHandle, options: Dict, event: InputEvent) -> (result:
        Result<Notification, Error>)
        ensures
            result == spec_notify(session, options, event),
    {
        match session.check_notify(event.device()) {
            Err(e) => Err(e),
            Ok(()) => Ok(Notification { session: session.path().clone(), options, event }),
        }
    }

    /// Notify keyboard code.
    /// May only be called if keyboard access was granted when the session was
    /// started.
    pub fn notify_keyboard_keycode(
        &self,
        session: &SessionHandle,
        options: Dict,
        keycode: i32,
        state: KeyState,
    ) -> (result: Result<Notification, Error>)
        ensures
            result == spec_notify(session, options, InputEvent::KeyCode { keycode, state }),
    {
        self.notify(session, options, InputEvent::KeyCode { keycode, state })
    }

    /// Notify keyboard symbol.
    /// May only be called if keyboard access was granted when the session was
    /// started.
    pub fn notify_keyboard_keysym(
        &self,
        session: &SessionHandle,
        options: Dict,
        keysym: i32,
        state: KeyState,
    ) -> (result: Result<Notification, Error>)
        ensures
            result == spec_notify(session, options, InputEvent::KeySym { keysym, state }),
    {
        self.notify(session, options, InputEvent::KeySym { keysym, state })
    }

    /// Notify about a new touch up event.
    /// May only be called if touchscreen access was granted when the session
    /// was started.
    pub fn notify_touch_up(&self, session: &SessionHandle, options: Dict, slot: u32) -> (result:
        Result<Notification, Error>)
        ensures
            result == spec_notify(session, options, InputEvent::TouchUp { slot }),
    {
        self.notify(session, options, InputEvent::TouchUp { slot })
    }

    /// Notify about a new touch down event.
    /// The position is that of the new touch point in the logical coordinate
    /// space of the stream.
    /// May only be called if touchscreen access was granted when the session
    /// was started.
    pub fn notify_touch_down(
        &self,
        session: &SessionHandle,
        options: Dict,
        stream: u32,
        slot: u32,
        x: Double,
        y: Double,
    ) -> (result: Result<Notification, Error>)
        ensures
            result == spec_notify(session, options, InputEvent::TouchDown { stream, slot, x, y }),
    {
        self.notify(session, options, InputEvent::TouchDown { stream, slot, x, y })
    }

    /// Notify about a new touch motion event.
    /// The position is where the touch point moved to in the logical
    /// coordinate space of the stream.
    /// May only be called if touchscreen access was granted when the session
    /// was started.
    pub fn notify_touch_motion(
        &self,
        session: &SessionHandle,
        options: Dict,
        stream: u32,
        slot: u32,
        x: Double,
        y: Double,
    ) -> (result: Result<Notification, Error>)
        ensures
            result == spec_notify(session, options, InputEvent::TouchMotion { stream, slot, x, y }),
    {
        self.notify(session, options, InputEvent::TouchMotion { stream, slot, x, y })
    }

    /// Notify about a new absolute pointer motion event.
    /// The position is the new pointer position in the logical coordinate
    /// space of the stream.
    /// May only be called if pointer access was granted when the session was
    /// started.
    pub fn notify_pointer_motion_absolute(
        &self,
        session: &SessionHandle,
        options: Dict,
        stream: u32,
        x: Double,
        y: Double,
    ) -> (result: Result<Notification, Error>)
        ensures
            result == spec_notify(
                session,
                options,
                InputEvent::PointerMotionAbsolute { stream, x, y },
            ),
    {
        self.notify(session, options, InputEvent::PointerMotionAbsolute { stream, x, y })
    }

    /// Notify about a new relative pointer motion event.
    /// The vector is the movement of the pointer in the logical coordinate
    /// space of the stream.
    /// May only be called if pointer access was granted when the session was
    /// started.
    pub fn notify_pointer_motion(
        &self,
        session: &SessionHandle,
        options: Dict,
        dx: Double,
        dy: Double,
    ) -> (result: Result<Notification, Error>)
        ensures
            result == spec_notify(session, options, InputEvent::PointerMotion { dx, dy }),
    {
        self.notify(session, options, InputEvent::PointerMotion { dx, dy })
    }

    /// Notify pointer button.
    /// The button is given by its code in the host's input-event convention.
    /// May only be called if pointer access was granted when the session was
    /// started.
    pub fn notify_pointer_button(
        &self,
        session: &SessionHandle,
        options: Dict,
        button: i32,
        state: KeyState,
    ) -> (result: Result<Notification, Error>)
        ensures
            result == spec_notify(session, options, InputEvent::PointerButton { button, state }),
    {
        self.notify(session, options, InputEvent::PointerButton { button, state })
    }

    /// Notify pointer axis discrete.
    /// May only be called if pointer access was granted when the session was
    /// started.
    pub fn notify_pointer_axis_discrete(
        &self,
        session: &SessionHandle,
        options: Dict,
        axis: Axis,
        steps: i32,
    ) -> (result: Result<Notification, Error>)
        ensures
            result == spec_notify(
                session,
                options,
                InputEvent::PointerAxisDiscrete { axis, steps },
            ),
    {
        self.notify(session, options, InputEvent::PointerAxisDiscrete { axis, steps })
    }

    /// Notify pointer axis.
    /// The axis movement from a smooth scroll device, such as a touchpad.
    /// May only be called if pointer access was granted when the session was
    /// started.
    pub fn notify_pointer_axis(
        &self,
        session: &SessionHandle,
        options: Dict,
        dx: Double,
        dy: Double,
    ) -> (result: Result<Notification, Error>)
        ensures
            result == spec_notify(session, options, InputEvent::PointerAxis { dx, dy }),
    {
        self.notify(session, options, InputEvent::PointerAxis { dx, dy })
    }

    /// Available source types.
    ///
    /// Takes what the read of the property brought: the number of the device
    /// set, or the failure of the read, which is handed on as it is.
    pub fn available_device_types(&self, reply: Result<u32, Error>) -> (result: Result<
        DeviceSet,
        Error,
    >)
        ensures
            match spec_available(reply) {
                Ok(devices) => result matches Ok(set) && set@ == devices,
                Err(e) => result matches Err(x) && x == e,
            },
    {
        match reply {
            Ok(raw) => DeviceSet::from_bits(raw),
            Err(e) => Err(e),
        }
    }

}

} // verus!
