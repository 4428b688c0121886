use remote_desktop::request::read_response;
use remote_desktop::{
    DeviceSet, DeviceType, Dict, Error, ObjectPath, ProtocolError, RequestKind, Response,
    SelectedDevices, SessionHandle, SessionState, StateError, Value,
};

fn created(path: &str) -> SessionHandle {
    let mut payload = Dict::new();
    payload.insert("session_handle", Value::Path(ObjectPath::new(path).unwrap()));
    match read_response(RequestKind::CreateSession, 0, &payload) {
        Ok(Response::SessionCreated(session)) => session,
        _ => panic!("not a session"),
    }
}

fn session() -> SessionHandle {
    created("/session/s1")
}

#[test]
fn new_session_is_created_with_nothing_granted() {
    let session = session();
    assert_eq!(session.path().as_str(), "/session/s1");
    assert_eq!(session.state(), SessionState::Created);
    assert_eq!(session.granted(), DeviceSet::empty());
}

#[test]
fn session_moves_forward_through_its_states() {
    let mut session = session();
    assert_eq!(session.devices_selected(), Ok(()));
    assert_eq!(session.state(), SessionState::DevicesSelected);
    assert_eq!(session.devices_selected(), Ok(()));
    assert_eq!(session.state(), SessionState::DevicesSelected);
    assert_eq!(session.started(DeviceSet::from_flag(DeviceType::Pointer)), Ok(()));
    assert_eq!(session.state(), SessionState::Active);
    assert_eq!(session.granted(), DeviceSet::from_flag(DeviceType::Pointer));
    assert_eq!(session.close(), Ok(()));
    assert_eq!(session.state(), SessionState::Closed);
    assert_eq!(session.granted(), DeviceSet::empty());
    assert_eq!(session.path().as_str(), "/session/s1");
}

#[test]
fn session_may_be_started_without_a_selection() {
    let mut session = session();
    assert_eq!(session.started(DeviceSet::all()), Ok(()));
    assert_eq!(session.state(), SessionState::Active);
    assert_eq!(session.granted(), DeviceSet::all());
}

#[test]
fn active_session_refuses_to_go_back() {
    let mut session = session();
    session.started(DeviceSet::from_flag(DeviceType::Keyboard)).unwrap();
    assert_eq!(session.devices_selected(), Err(Error::State(StateError::AlreadyStarted)));
    assert_eq!(session.started(DeviceSet::all()), Err(Error::State(StateError::AlreadyStarted)));
    assert_eq!(session.state(), SessionState::Active);
    assert_eq!(session.granted(), DeviceSet::from_flag(DeviceType::Keyboard));
    assert_eq!(session.check_request(), Err(Error::State(StateError::AlreadyStarted)));
}

#[test]
fn closed_session_refuses_everything() {
    let mut session = session();
    assert_eq!(session.close(), Ok(()));
    let closed = Err(Error::State(StateError::SessionClosed));
    assert_eq!(session.devices_selected(), closed);
    assert_eq!(session.started(DeviceSet::all()), closed);
    assert_eq!(session.close(), closed);
    assert_eq!(session.check_request(), closed);
    assert_eq!(session.check_notify(DeviceType::Keyboard), closed);
    assert_eq!(session.state(), SessionState::Closed);
}

#[test]
fn events_need_an_active_session_and_a_granted_class() {
    let mut session = session();
    let not_active = Err(Error::State(StateError::NotActive));
    assert_eq!(session.check_notify(DeviceType::Pointer), not_active);
    session.devices_selected().unwrap();
    assert_eq!(session.check_notify(DeviceType::Pointer), not_active);
    session.started(DeviceType::Pointer | DeviceType::Touchscreen).unwrap();
    assert_eq!(session.check_notify(DeviceType::Pointer), Ok(()));
    assert_eq!(session.check_notify(DeviceType::Touchscreen), Ok(()));
    assert_eq!(
        session.check_notify(DeviceType::Keyboard),
        Err(Error::State(StateError::DeviceNotGranted))
    );
}

#[test]
fn responses_advance_the_session() {
    let mut session = session();
    assert_eq!(session.advance(&Response::DevicesSelected), Ok(()));
    assert_eq!(session.state(), SessionState::DevicesSelected);
    let granted = DeviceType::Keyboard | DeviceType::Touchscreen;
    assert_eq!(session.advance(&Response::Started(SelectedDevices { devices: granted })), Ok(()));
    assert_eq!(session.state(), SessionState::Active);
    assert_eq!(session.granted(), granted);
    assert_eq!(
        session.advance(&Response::DevicesSelected),
        Err(Error::State(StateError::AlreadyStarted))
    );
    assert_eq!(session.granted(), granted);
}

#[test]
fn response_for_a_new_session_does_not_advance_another() {
    let mut first = session();
    let other = created("/session/s2");
    assert_eq!(
        first.advance(&Response::SessionCreated(other)),
        Err(Error::Protocol(ProtocolError::UnexpectedResponse))
    );
    assert_eq!(first.state(), SessionState::Created);
    assert_eq!(first.path().as_str(), "/session/s1");
}
