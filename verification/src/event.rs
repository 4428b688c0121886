//! The input events that a caller streams against an active session.

use vstd::prelude::*;
use vstd::string::*;

use crate::device::{Axis, DeviceType, KeyState};
use crate::wire::Double;

verus! {

/// One input event. Key codes, key symbols and buttons are the numbers of the
/// host's input-event convention; coordinates are in the logical space of the
/// stream that they name. None of them is read here.
#[derive(Clone, Copy, Debug, PartialEq, Eq, Structural)]
pub enum InputEvent {
    /// A key, by its code, was pressed or released.
    KeyCode { keycode: i32, state: KeyState },
    /// A key, by its symbol, was pressed or released.
    KeySym { keysym: i32, state: KeyState },
    /// A touch point left the screen.
    TouchUp { slot: u32 },
    /// A touch point appeared.
    TouchDown { stream: u32, slot: u32, x: Double, y: Double },
    /// A touch point moved.
    TouchMotion { stream: u32, slot: u32, x: Double, y: Double },
    /// The pointer moved to a position.
    PointerMotionAbsolute { stream: u32, x: Double, y: Double },
    /// The pointer moved by a vector.
    PointerMotion { dx: Double, dy: Double },
    /// A pointer button was pressed or released.
    PointerButton { button: i32, state: KeyState },
    /// A wheel was turned by a number of steps.
    PointerAxisDiscrete { axis: Axis, steps: i32 },
    /// A smooth scroll.
    PointerAxis { dx: Double, dy: Double },
}

impl InputEvent {
    /// The device class that the event belongs to.
    pub open spec fn spec_device(self) -> DeviceType {
        match self {
            InputEvent::KeyCode { .. } => DeviceType::Keyboard,
            InputEvent::KeySym { .. } => DeviceType::Keyboard,
            InputEvent::TouchUp { .. } => DeviceType::Touchscreen,
            InputEvent::TouchDown { .. } => DeviceType::Touchscreen,
            InputEvent::TouchMotion { .. } => DeviceType::Touchscreen,
            InputEvent::PointerMotionAbsolute { .. } => DeviceType::Pointer,
            InputEvent::PointerMotion { .. } => DeviceType::Pointer,
            InputEvent::PointerButton { .. } => DeviceType::Pointer,
            InputEvent::PointerAxisDiscrete { .. } => DeviceType::Pointer,
            InputEvent::PointerAxis { .. } => DeviceType::Pointer,
        }
    }

    /// The name of the call that carries the event.
    pub open spec fn spec_member(self) -> Seq<char> {
        match self {
            InputEvent::KeyCode { .. } => "NotifyKeyboardKeycode"@,
            InputEvent::KeySym { .. } => "NotifyKeyboardKeysym"@,
            InputEvent::TouchUp { .. } => "NotifyTouchUp"@,
            InputEvent::TouchDown { .. } => "NotifyTouchDown"@,
            InputEvent::TouchMotion { .. } => "NotifyTouchMotion"@,
            InputEvent::PointerMotionAbsolute { .. } => "NotifyPointerMotionAbsolute"@,
            InputEvent::PointerMotion { .. } => "NotifyPointerMotion"@,
            InputEvent::PointerButton { .. } => "NotifyPointerButton"@,
            InputEvent::PointerAxisDiscrete { .. } => "NotifyPointerAxisDiscrete"@,
            InputEvent::PointerAxis { .. } => "NotifyPointerAxis"@,
        }
    }

    /// A number for each kind of event.
    pub open spec fn kind(self) -> nat {
        match self {
            InputEvent::KeyCode { .. } => 0,
            InputEvent::KeySym { .. } => 1,
            InputEvent::TouchUp { .. } => 2,
            InputEvent::TouchDown { .. } => 3,
            InputEvent::TouchMotion { .. } => 4,
            InputEvent::PointerMotionAbsolute { .. } => 5,
            InputEvent::PointerMotion { .. } => 6,
            InputEvent::PointerButton { .. } => 7,
            InputEvent::PointerAxisDiscrete { .. } => 8,
            InputEvent::PointerAxis { .. } => 9,
        }
    }

    #[verifier::when_used_as_spec(spec_device)]
    pub fn device(self) -> (device: DeviceType)
        ensures
            device == self.spec_device(),
    {
        match self {
            InputEvent::KeyCode { .. } => DeviceType::Keyboard,
            InputEvent::KeySym { .. } => DeviceType::Keyboard,
            InputEvent::TouchUp { .. } => DeviceType::Touchscreen,
            InputEvent::TouchDown { .. } => DeviceType::Touchscreen,
            InputEvent::TouchMotion { .. } => DeviceType::Touchscreen,
            InputEvent::PointerMotionAbsolute { .. } => DeviceType::Pointer,
            InputEvent::PointerMotion { .. } => DeviceType::Pointer,
            InputEvent::PointerButton { .. } => DeviceType::Pointer,
            InputEvent::PointerAxisDiscrete { .. } => DeviceType::Pointer,
            InputEvent::PointerAxis { .. } => DeviceType::Pointer,
        }
    }

    /// The name of the call that carries the event.
    pub fn member(self) -> (name: &'static str)
        ensures
            name@ == self.spec_member(),
    {
        match self {
            InputEvent::KeyCode { .. } => "NotifyKeyboardKeycode",
            InputEvent::KeySym { .. } => "NotifyKeyboardKeysym",
            InputEvent::TouchUp { .. } => "NotifyTouchUp",
            InputEvent::TouchDown { .. } => "NotifyTouchDown",
            InputEvent::TouchMotion { .. } => "NotifyTouchMotion",
            InputEvent::PointerMotionAbsolute { .. } => "NotifyPointerMotionAbsolute",
            InputEvent::PointerMotion { .. } => "NotifyPointerMotion",
            InputEvent::PointerButton { .. } => "NotifyPointerButton",
            InputEvent::PointerAxisDiscrete { .. } => "NotifyPointerAxisDiscrete",
            InputEvent::PointerAxis { .. } => "NotifyPointerAxis",
        }
    }

    /// Each kind of event has a call name of its own: two events that are
    /// carried by the same call are of the same kind.
    pub proof fn lemma_member_names_differ(a: InputEvent, b: InputEvent)
        requires
            a.spec_member() == b.spec_member(),
        ensures
            a.kind() == b.kind(),
    {
        reveal_strlit("NotifyKeyboardKeycode");
        reveal_strlit("NotifyKeyboardKeysym");
        reveal_strlit("NotifyTouchUp");
        reveal_strlit("NotifyTouchDown");
        reveal_strlit("NotifyTouchMotion");
        reveal_strlit("NotifyPointerMotionAbsolute");
        reveal_strlit("NotifyPointerMotion");
        reveal_strlit("NotifyPointerButton");
        reveal_strlit("NotifyPointerAxisDiscrete");
        reveal_strlit("NotifyPointerAxis");
        assert("NotifyKeyboardKeycode"@.len() == 21);
        assert("NotifyKeyboardKeysym"@.len() == 20);
        assert("NotifyTouchUp"@.len() == 13);
        assert("NotifyTouchDown"@.len() == 15);
        assert("NotifyTouchMotion"@.len() == 17);
        assert("NotifyPointerMotionAbsolute"@.len() == 27);
        assert("NotifyPointerMotion"@.len() == 19);
        assert("NotifyPointerButton"@.len() == 19);
        assert("NotifyPointerAxisDiscrete"@.len() == 25);
        assert("NotifyPointerAxis"@.len() == 17);
        assert("NotifyTouchMotion"@[6] == 'T');
        assert("NotifyPointerAxis"@[6] == 'P');
        assert("NotifyPointerMotion"@[13] == 'M');
        assert("NotifyPointerButton"@[13] == 'B');
    }
}

} // verus!
