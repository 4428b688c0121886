use remote_desktop::{
    CreateRemoteOptions, CreateSession, DeviceSet, DeviceType, Dict, Error, HandleToken,
    ObjectPath, ProtocolError, SelectDevicesOptions, SelectedDevices, StartRemoteOptions, Value,
};

fn token(text: &str) -> HandleToken {
    HandleToken::new(text).unwrap()
}

#[test]
fn dict_keeps_the_last_value_of_a_key() {
    let mut dict = Dict::new();
    assert_eq!(dict.len(), 0);
    assert_eq!(dict.get("a"), None);
    dict.insert("a", Value::U32(1));
    dict.insert("b", Value::Bool(true));
    dict.insert("a", Value::I32(-3));
    assert_eq!(dict.len(), 2);
    assert_eq!(dict.get("a"), Some(&Value::I32(-3)));
    assert_eq!(dict.get("b"), Some(&Value::Bool(true)));
    assert_eq!(dict.get("c"), None);
    assert_eq!(dict.entry_at(0), Some(("a", &Value::I32(-3))));
    assert_eq!(dict.entry_at(1), Some(("b", &Value::Bool(true))));
    assert_eq!(dict.entry_at(2), None);
}

#[test]
fn unset_fields_are_left_out_of_the_dictionary() {
    assert_eq!(CreateRemoteOptions::default().encode().len(), 0);
    assert_eq!(SelectDevicesOptions::default().encode().len(), 0);
    assert_eq!(StartRemoteOptions::default().encode().len(), 0);

    let dict = CreateRemoteOptions::default().session_handle_token(token("s1")).encode();
    assert_eq!(dict.len(), 1);
    assert_eq!(dict.get("handle_token"), None);
    assert_eq!(dict.get("session_handle_token"), Some(&Value::Str("s1".to_string())));
}

#[test]
fn create_options_encode_both_tokens() {
    let options = CreateRemoteOptions::default()
        .handle_token(token("h"))
        .session_handle_token(token("s"));
    assert_eq!(options.token(), Some(&token("h")));
    let dict = options.encode();
    assert_eq!(dict.len(), 2);
    assert_eq!(dict.get("handle_token"), Some(&Value::Str("h".to_string())));
    assert_eq!(dict.get("session_handle_token"), Some(&Value::Str("s".to_string())));
    assert_eq!(CreateRemoteOptions::decode(&dict), Ok(options));
}

#[test]
fn builders_replace_a_field_that_was_set() {
    let options = StartRemoteOptions::default().handle_token(token("a")).handle_token(token("b"));
    assert_eq!(options.token(), Some(&token("b")));
    assert_eq!(StartRemoteOptions::default().token(), None);
}

#[test]
fn select_devices_options_round_trip() {
    let options =
        SelectDevicesOptions::default().types(DeviceType::Keyboard | DeviceType::Pointer);
    let dict = options.encode();
    assert_eq!(dict.len(), 1);
    assert_eq!(dict.get("types"), Some(&Value::U32(3)));
    let decoded = SelectDevicesOptions::decode(&dict).unwrap();
    assert_eq!(decoded, options);
    assert_eq!(
        decoded,
        SelectDevicesOptions::default().types(DeviceType::Pointer | DeviceType::Keyboard)
    );
    assert_ne!(decoded, SelectDevicesOptions::default().types(DeviceSet::all()));
    assert_ne!(
        decoded,
        SelectDevicesOptions::default().types(DeviceSet::from_flag(DeviceType::Keyboard))
    );
}

#[test]
fn select_devices_options_round_trip_with_token() {
    let options = SelectDevicesOptions::default()
        .handle_token(token("pick"))
        .types(DeviceSet::from_flag(DeviceType::Touchscreen));
    let dict = options.encode();
    assert_eq!(dict.get("handle_token"), Some(&Value::Str("pick".to_string())));
    assert_eq!(dict.get("types"), Some(&Value::U32(4)));
    assert_eq!(SelectDevicesOptions::decode(&dict), Ok(options));
}

#[test]
fn start_options_round_trip() {
    let options = StartRemoteOptions::default().handle_token(token("go"));
    assert_eq!(StartRemoteOptions::decode(&options.encode()), Ok(options));
    assert_eq!(
        StartRemoteOptions::decode(&Dict::new()),
        Ok(StartRemoteOptions::default())
    );
}

#[test]
fn decode_passes_over_unknown_keys() {
    let mut dict = Dict::new();
    dict.insert("other", Value::Bool(false));
    dict.insert("types", Value::U32(1));
    assert_eq!(
        SelectDevicesOptions::decode(&dict),
        Ok(SelectDevicesOptions::default().types(DeviceSet::from_flag(DeviceType::Keyboard)))
    );
}

#[test]
fn decode_refuses_a_value_of_the_wrong_type() {
    let mut dict = Dict::new();
    dict.insert("handle_token", Value::U32(1));
    let refused = Error::Protocol(ProtocolError::WrongType);
    assert_eq!(CreateRemoteOptions::decode(&dict), Err(refused));
    assert_eq!(SelectDevicesOptions::decode(&dict), Err(refused));
    assert_eq!(StartRemoteOptions::decode(&dict), Err(refused));

    let mut dict = Dict::new();
    dict.insert("types", Value::Str("3".to_string()));
    assert_eq!(SelectDevicesOptions::decode(&dict), Err(refused));

    let mut dict = Dict::new();
    dict.insert("devices", Value::I32(3));
    assert_eq!(SelectedDevices::decode(&dict), Err(refused));

    let mut dict = Dict::new();
    dict.insert("session_handle", Value::U32(3));
    assert_eq!(CreateSession::decode(&dict), Err(refused));
}

#[test]
fn decode_refuses_a_string_that_is_no_token() {
    let mut dict = Dict::new();
    dict.insert("session_handle_token", Value::Str("not a token".to_string()));
    assert_eq!(
        CreateRemoteOptions::decode(&dict),
        Err(Error::Protocol(ProtocolError::InvalidToken))
    );
}

#[test]
fn decode_refuses_device_bits_outside_the_mask() {
    let refused = Error::Protocol(ProtocolError::InvalidDeviceBits);
    let mut dict = Dict::new();
    dict.insert("types", Value::U32(8));
    assert_eq!(SelectDevicesOptions::decode(&dict), Err(refused));
    let mut dict = Dict::new();
    dict.insert("devices", Value::U32(15));
    assert_eq!(SelectedDevices::decode(&dict), Err(refused));
}

#[test]
fn selected_devices_round_trip() {
    let selected = SelectedDevices { devices: DeviceType::Pointer | DeviceType::Touchscreen };
    let dict = selected.encode();
    assert_eq!(dict.get("devices"), Some(&Value::U32(6)));
    assert_eq!(SelectedDevices::decode(&dict), Ok(selected));
    assert_eq!(SelectedDevices::default().devices, DeviceSet::empty());
}

#[test]
fn selected_devices_must_be_there() {
    assert_eq!(
        SelectedDevices::decode(&Dict::new()),
        Err(Error::Protocol(ProtocolError::MissingField))
    );
}

#[test]
fn session_handle_is_read_from_a_path_or_a_string() {
    let path = ObjectPath::new("/session/s1").unwrap();
    let mut dict = Dict::new();
    dict.insert("session_handle", Value::Path(path.clone()));
    assert_eq!(CreateSession::decode(&dict), Ok(CreateSession { session_handle: path.clone() }));
    let mut dict = Dict::new();
    dict.insert("session_handle", Value::Str("/session/s1".to_string()));
    assert_eq!(CreateSession::decode(&dict), Ok(CreateSession { session_handle: path }));
}

#[test]
fn session_handle_must_be_there_and_be_a_path() {
    assert_eq!(
        CreateSession::decode(&Dict::new()),
        Err(Error::Protocol(ProtocolError::MissingField))
    );
    let mut dict = Dict::new();
    dict.insert("session_handle", Value::Str("/session/".to_string()));
    assert_eq!(
        CreateSession::decode(&dict),
        Err(Error::Protocol(ProtocolError::InvalidObjectPath))
    );
    let mut dict = Dict::new();
    dict.insert("session_handle", Value::Str("session".to_string()));
    assert_eq!(
        CreateSession::decode(&dict),
        Err(Error::Protocol(ProtocolError::InvalidObjectPath))
    );
}
