use remote_desktop::request::read_response;
use remote_desktop::{
    BrokerError, Correlator, DeviceSet, DeviceType, Dict, Error, HandleToken, ObjectPath,
    ProtocolError, RequestKind, Response, ResponseStatus, SelectedDevices, SessionState,
    StateError, Value,
};

fn path(text: &str) -> ObjectPath {
    ObjectPath::new(text).unwrap()
}

fn token(text: &str) -> HandleToken {
    HandleToken::new(text).unwrap()
}

fn devices(raw: u32) -> Dict {
    let mut dict = Dict::new();
    dict.insert("devices", Value::U32(raw));
    dict
}

#[test]
fn response_status_codes() {
    assert_eq!(ResponseStatus::from_code(0), Some(ResponseStatus::Success));
    assert_eq!(ResponseStatus::from_code(1), Some(ResponseStatus::Cancelled));
    assert_eq!(ResponseStatus::from_code(2), Some(ResponseStatus::Other));
    assert_eq!(ResponseStatus::from_code(3), None);
}

#[test]
fn broker_refusals_are_not_read_as_data() {
    let payload = devices(7);
    assert_eq!(
        read_response(RequestKind::Start, 1, &payload),
        Err(Error::Broker(BrokerError::Cancelled))
    );
    assert_eq!(
        read_response(RequestKind::Start, 2, &payload),
        Err(Error::Broker(BrokerError::Other))
    );
    assert_eq!(
        read_response(RequestKind::SelectDevices, 1, &Dict::new()),
        Err(Error::Broker(BrokerError::Cancelled))
    );
    assert_eq!(
        read_response(RequestKind::CreateSession, 2, &Dict::new()),
        Err(Error::Broker(BrokerError::Other))
    );
}

#[test]
fn unknown_status_breaks_the_protocol() {
    assert_eq!(
        read_response(RequestKind::SelectDevices, 3, &Dict::new()),
        Err(Error::Protocol(ProtocolError::UnknownStatus))
    );
    assert_eq!(
        read_response(RequestKind::Start, u32::MAX, &devices(1)),
        Err(Error::Protocol(ProtocolError::UnknownStatus))
    );
}

#[test]
fn start_response_carries_the_granted_set() {
    assert_eq!(
        read_response(RequestKind::Start, 0, &devices(2)),
        Ok(Response::Started(SelectedDevices {
            devices: DeviceSet::from_flag(DeviceType::Pointer)
        }))
    );
    assert_eq!(
        read_response(RequestKind::Start, 0, &devices(0)),
        Ok(Response::Started(SelectedDevices { devices: DeviceSet::empty() }))
    );
}

#[test]
fn start_response_outside_the_mask_breaks_the_protocol() {
    assert_eq!(
        read_response(RequestKind::Start, 0, &devices(8)),
        Err(Error::Protocol(ProtocolError::InvalidDeviceBits))
    );
    assert_eq!(
        read_response(RequestKind::Start, 0, &devices(0x10 | 2)),
        Err(Error::Protocol(ProtocolError::InvalidDeviceBits))
    );
    assert_eq!(
        read_response(RequestKind::Start, 0, &Dict::new()),
        Err(Error::Protocol(ProtocolError::MissingField))
    );
}

#[test]
fn create_session_response_makes_a_created_session() {
    let mut payload = Dict::new();
    payload.insert("session_handle", Value::Str("/session/s1".to_string()));
    match read_response(RequestKind::CreateSession, 0, &payload).unwrap() {
        Response::SessionCreated(session) => {
            assert_eq!(session.path(), &path("/session/s1"));
            assert_eq!(session.state(), SessionState::Created);
            assert_eq!(session.granted(), DeviceSet::empty());
        }
        _ => panic!("not a session"),
    }
}

#[test]
fn select_devices_response_is_an_acknowledgement() {
    assert_eq!(
        read_response(RequestKind::SelectDevices, 0, &devices(9)),
        Ok(Response::DevicesSelected)
    );
}

#[test]
fn correlator_resolves_each_request_once() {
    let mut correlator = Correlator::new();
    assert_eq!(correlator.len(), 0);
    let request = correlator.register(path("/request/1"), RequestKind::Start, None).unwrap();
    assert_eq!(request.path().as_str(), "/request/1");
    assert_eq!(request.kind(), RequestKind::Start);
    assert!(correlator.is_pending(&path("/request/1")));
    assert_eq!(correlator.len(), 1);

    let first = correlator.resolve(&path("/request/1"), 0, &devices(3));
    assert_eq!(
        first,
        Ok(Response::Started(SelectedDevices {
            devices: DeviceType::Keyboard | DeviceType::Pointer
        }))
    );
    assert!(!correlator.is_pending(&path("/request/1")));
    assert_eq!(correlator.len(), 0);

    let second = correlator.resolve(&path("/request/1"), 0, &devices(3));
    assert_eq!(second, Err(Error::Protocol(ProtocolError::UnexpectedResponse)));
    assert_eq!(correlator.len(), 0);
}

#[test]
fn correlator_ends_the_wait_on_a_refusal_too() {
    let mut correlator = Correlator::new();
    correlator.register(path("/request/1"), RequestKind::SelectDevices, None).unwrap();
    assert_eq!(
        correlator.resolve(&path("/request/1"), 1, &Dict::new()),
        Err(Error::Broker(BrokerError::Cancelled))
    );
    assert!(!correlator.is_pending(&path("/request/1")));
    assert_eq!(
        correlator.resolve(&path("/request/1"), 0, &Dict::new()),
        Err(Error::Protocol(ProtocolError::UnexpectedResponse))
    );
}

#[test]
fn correlator_matches_by_identifier_not_by_order() {
    let mut correlator = Correlator::new();
    correlator.register(path("/request/a"), RequestKind::SelectDevices, None).unwrap();
    correlator.register(path("/request/b"), RequestKind::Start, None).unwrap();
    assert_eq!(
        correlator.resolve(&path("/request/b"), 0, &devices(4)),
        Ok(Response::Started(SelectedDevices {
            devices: DeviceSet::from_flag(DeviceType::Touchscreen)
        }))
    );
    assert!(correlator.is_pending(&path("/request/a")));
    assert_eq!(
        correlator.resolve(&path("/request/a"), 0, &devices(4)),
        Ok(Response::DevicesSelected)
    );
    assert_eq!(
        correlator.resolve(&path("/request/c"), 0, &Dict::new()),
        Err(Error::Protocol(ProtocolError::UnexpectedResponse))
    );
}

#[test]
fn correlator_refuses_an_identifier_that_is_waited_on() {
    let mut correlator = Correlator::new();
    correlator.register(path("/request/1"), RequestKind::Start, None).unwrap();
    assert_eq!(
        correlator.register(path("/request/1"), RequestKind::SelectDevices, None),
        Err(Error::State(StateError::ResponseIdInUse))
    );
    assert_eq!(correlator.len(), 1);
    assert_eq!(
        correlator.resolve(&path("/request/1"), 0, &devices(1)),
        Ok(Response::Started(SelectedDevices {
            devices: DeviceSet::from_flag(DeviceType::Keyboard)
        }))
    );
}

#[test]
fn pending_tokens_are_distinct() {
    let mut correlator = Correlator::new();
    correlator.register(path("/request/1"), RequestKind::Start, Some(token("t"))).unwrap();
    assert!(correlator.token_in_use(&token("t")));
    assert!(!correlator.token_in_use(&token("u")));
    assert_eq!(
        correlator.register(path("/request/2"), RequestKind::Start, Some(token("t"))),
        Err(Error::State(StateError::TokenInUse))
    );
    assert!(!correlator.is_pending(&path("/request/2")));
    correlator.register(path("/request/2"), RequestKind::Start, Some(token("u"))).unwrap();
    correlator.register(path("/request/3"), RequestKind::Start, None).unwrap();
    correlator.register(path("/request/4"), RequestKind::Start, None).unwrap();
    assert_eq!(correlator.len(), 4);
}

#[test]
fn token_is_free_again_once_its_request_is_over() {
    let mut correlator = Correlator::new();
    correlator.register(path("/request/1"), RequestKind::SelectDevices, Some(token("t"))).unwrap();
    correlator.resolve(&path("/request/1"), 0, &Dict::new()).unwrap();
    assert!(!correlator.token_in_use(&token("t")));
    correlator.register(path("/request/2"), RequestKind::SelectDevices, Some(token("t"))).unwrap();
    assert!(correlator.abandon(&path("/request/2")));
    assert!(!correlator.token_in_use(&token("t")));
    correlator.register(path("/request/3"), RequestKind::SelectDevices, Some(token("t"))).unwrap();
}

#[test]
fn abandoned_wait_leaves_nothing_behind() {
    let mut correlator = Correlator::new();
    correlator.register(path("/request/1"), RequestKind::Start, None).unwrap();
    assert!(correlator.abandon(&path("/request/1")));
    assert!(!correlator.is_pending(&path("/request/1")));
    assert_eq!(correlator.len(), 0);
    assert!(!correlator.abandon(&path("/request/1")));
    assert_eq!(
        correlator.resolve(&path("/request/1"), 0, &devices(1)),
        Err(Error::Protocol(ProtocolError::UnexpectedResponse))
    );
}


#[test]
fn only_a_created_session_is_taken_for_one() {
    let mut payload = Dict::new();
    payload.insert("session_handle", Value::Path(path("/session/s1")));
    let session = read_response(RequestKind::CreateSession, 0, &payload)
        .unwrap()
        .into_session()
        .unwrap();
    assert_eq!(session.path().as_str(), "/session/s1");
    assert_eq!(
        Response::DevicesSelected.into_session(),
        Err(Error::Protocol(ProtocolError::UnexpectedResponse))
    );
    assert_eq!(
        Response::Started(SelectedDevices { devices: DeviceSet::all() }).into_session(),
        Err(Error::Protocol(ProtocolError::UnexpectedResponse))
    );
}
