use remote_desktop::{Axis, DeviceSet, DeviceType, Error, KeyState, ProtocolError};

#[test]
fn key_state_codes() {
    assert_eq!(KeyState::Pressed.code(), 0);
    assert_eq!(KeyState::Released.code(), 1);
    assert_eq!(KeyState::from_code(0), Some(KeyState::Pressed));
    assert_eq!(KeyState::from_code(1), Some(KeyState::Released));
    assert_eq!(KeyState::from_code(2), None);
}

#[test]
fn axis_codes() {
    assert_eq!(Axis::Vertical.code(), 0);
    assert_eq!(Axis::Horizontal.code(), 1);
    assert_eq!(Axis::from_code(0), Some(Axis::Vertical));
    assert_eq!(Axis::from_code(1), Some(Axis::Horizontal));
    assert_eq!(Axis::from_code(7), None);
}

#[test]
fn device_type_bits() {
    assert_eq!(DeviceType::Keyboard.bit(), 1);
    assert_eq!(DeviceType::Pointer.bit(), 2);
    assert_eq!(DeviceType::Touchscreen.bit(), 4);
}

#[test]
fn device_set_of_flags_has_the_sum_of_their_bits() {
    assert_eq!(DeviceSet::empty().bits(), 0);
    assert_eq!(DeviceSet::from_flag(DeviceType::Pointer).bits(), 2);
    assert_eq!((DeviceType::Keyboard | DeviceType::Pointer).bits(), 3);
    assert_eq!((DeviceType::Keyboard | DeviceType::Touchscreen).bits(), 5);
    assert_eq!((DeviceType::Keyboard | DeviceType::Pointer | DeviceType::Touchscreen).bits(), 7);
    assert_eq!(DeviceSet::all().bits(), 7);
    assert_eq!(DeviceSet::default(), DeviceSet::empty());
}

#[test]
fn device_set_order_is_irrelevant() {
    assert_eq!(
        DeviceType::Keyboard | DeviceType::Pointer,
        DeviceType::Pointer | DeviceType::Keyboard
    );
    assert_eq!(
        DeviceSet::empty().with(DeviceType::Touchscreen).with(DeviceType::Keyboard),
        DeviceSet::empty().with(DeviceType::Keyboard).with(DeviceType::Touchscreen)
    );
    assert_eq!(
        DeviceSet::from_flag(DeviceType::Pointer).with(DeviceType::Pointer),
        DeviceSet::from_flag(DeviceType::Pointer)
    );
}

#[test]
fn device_set_from_bits_reads_each_flag() {
    let set = DeviceSet::from_bits(6).unwrap();
    assert!(!set.contains(DeviceType::Keyboard));
    assert!(set.contains(DeviceType::Pointer));
    assert!(set.contains(DeviceType::Touchscreen));
    assert_eq!(set.bits(), 6);
}

#[test]
fn device_set_round_trips_every_valid_number() {
    let mut raw: u32 = 0;
    while raw <= 7 {
        assert_eq!(DeviceSet::from_bits(raw).unwrap().bits(), raw);
        raw += 1;
    }
}

#[test]
fn device_set_refuses_bits_outside_the_mask() {
    let refused = Err(Error::Protocol(ProtocolError::InvalidDeviceBits));
    assert_eq!(DeviceSet::from_bits(8), refused);
    assert_eq!(DeviceSet::from_bits(9), refused);
    assert_eq!(DeviceSet::from_bits(0x8000_0001), refused);
    assert_eq!(DeviceSet::from_bits(u32::MAX), refused);
}

#[test]
fn device_set_algebra() {
    let keyboard_pointer = DeviceType::Keyboard | DeviceType::Pointer;
    let pointer_touch = DeviceType::Pointer | DeviceType::Touchscreen;
    assert_eq!(keyboard_pointer.union(pointer_touch), DeviceSet::all());
    assert_eq!(keyboard_pointer | pointer_touch, DeviceSet::all());
    assert_eq!(
        keyboard_pointer.intersection(pointer_touch),
        DeviceSet::from_flag(DeviceType::Pointer)
    );
    assert!(DeviceSet::from_flag(DeviceType::Pointer).is_subset(keyboard_pointer));
    assert!(!keyboard_pointer.is_subset(pointer_touch));
    assert!(DeviceSet::empty().is_subset(DeviceSet::empty()));
    assert!(keyboard_pointer.is_subset(DeviceSet::all()));
    assert!(DeviceSet::empty().is_empty());
    assert!(!keyboard_pointer.is_empty());
    assert!(DeviceSet::from_flag(DeviceType::Keyboard).intersection(pointer_touch).is_empty());
}
