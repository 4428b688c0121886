//! Device classes, key states and scroll axes, with their wire codes.

use vstd::prelude::*;

use crate::error::{Error, ProtocolError};

verus! {

/// The state of a key or of a pointer button.
#[derive(Clone, Copy, Debug, PartialEq, Eq, Structural)]
pub enum KeyState {
    /// The key is pressed.
    Pressed,
    /// The key is released.
    Released,
}

impl KeyState {
    /// The number that stands for this state on the wire.
    pub open spec fn spec_code(self) -> u32 {
        match self {
            KeyState::Pressed => 0,
            KeyState::Released => 1,
        }
    }

    /// The state that a wire number stands for, if any.
    pub open spec fn spec_from_code(code: u32) -> Option<KeyState> {
        if code == 0 {
            Some(KeyState::Pressed)
        } else if code == 1 {
            Some(KeyState::Released)
        } else {
            None
        }
    }

    #[verifier::when_used_as_spec(spec_code)]
    pub fn code(self) -> (code: u32)
        ensures
            code == self.spec_code(),
    {
        match self {
            KeyState::Pressed => 0,
            KeyState::Released => 1,
        }
    }

    pub fn from_code(code: u32) -> (state: Option<KeyState>)
        ensures
            state == Self::spec_from_code(code),
    {
        if code == 0 {
            Some(KeyState::Pressed)
        } else if code == 1 {
            Some(KeyState::Released)
        } else {
            None
        }
    }

    /// Reading back the code of a state gives that state, and a code that can
    /// be read is the code of what was read.
    pub proof fn lemma_code_round_trip(state: KeyState, code: u32)
        ensures
            Self::spec_from_code(state.spec_code()) == Some(state),
            Self::spec_from_code(code) matches Some(s) ==> s.spec_code() == code,
    {
    }
}

/// A scroll axis.
#[derive(Clone, Copy, Debug, PartialEq, Eq, Structural)]
pub enum Axis {
    /// The vertical axis.
    Vertical,
    /// The horizontal axis.
    Horizontal,
}

impl Axis {
    /// The number that stands for this axis on the wire.
    pub open spec fn spec_code(self) -> u32 {
        match self {
            Axis::Vertical => 0,
            Axis::Horizontal => 1,
        }
    }

    /// The axis that a wire number stands for, if any.
    pub open spec fn spec_from_code(code: u32) -> Option<Axis> {
        if code == 0 {
            Some(Axis::Vertical)
        } else if code == 1 {
            Some(Axis::Horizontal)
        } else {
            None
        }
    }

    #[verifier::when_used_as_spec(spec_code)]
    pub fn code(self) -> (code: u32)
        ensures
            code == self.spec_code(),
    {
        match self {
            Axis::Vertical => 0,
            Axis::Horizontal => 1,
        }
    }

    pub fn from_code(code: u32) -> (axis: Option<Axis>)
        ensures
            axis == Self::spec_from_code(code),
    {
        if code == 0 {
            Some(Axis::Vertical)
        } else if code == 1 {
            Some(Axis::Horizontal)
        } else {
            None
        }
    }

    /// Reading back the code of an axis gives that axis, and a code that can
    /// be read is the code of what was read.
    pub proof fn lemma_code_round_trip(axis: Axis, code: u32)
        ensures
            Self::spec_from_code(axis.spec_code()) == Some(axis),
            Self::spec_from_code(code) matches Some(a) ==> a.spec_code() == code,
    {
    }
}

/// A class of input device.
#[derive(Clone, Copy, Debug, PartialEq, Eq, Structural)]
pub enum DeviceType {
    /// A keyboard.
    Keyboard,
    /// A mouse pointer.
    Pointer,
    /// A touchscreen.
    Touchscreen,
}

impl DeviceType {
    /// The bit that stands for this class in a device set on the wire.
    pub open spec fn spec_bit(self) -> u32 {
        match self {
            DeviceType::Keyboard => 1,
            DeviceType::Pointer => 2,
            DeviceType::Touchscreen => 4,
        }
    }

    #[verifier::when_used_as_spec(spec_bit)]
    pub fn bit(self) -> (bit: u32)
        ensures
            bit == self.spec_bit(),
    {
        match self {
            DeviceType::Keyboard => 1,
            DeviceType::Pointer => 2,
            DeviceType::Touchscreen => 4,
        }
    }
}

/// The bits of the three device classes together.
pub const DEVICE_MASK: u32 = 7;

/// Whether a wire number has no bit outside the three device classes.
pub open spec fn valid_device_bits(raw: u32) -> bool {
    raw & !DEVICE_MASK == 0
}

/// The classes whose bit is set in a wire number.
pub open spec fn flags_of(raw: u32) -> Set<DeviceType> {
    Set::new(|d: DeviceType| raw & d.spec_bit() != 0)
}

/// The wire number of a set of classes: the sum of their bits.
pub open spec fn bits_of(flags: Set<DeviceType>) -> u32 {
    let k: u32 = if flags.contains(DeviceType::Keyboard) { 1 } else { 0 };
    let p: u32 = if flags.contains(DeviceType::Pointer) { 2 } else { 0 };
    let t: u32 = if flags.contains(DeviceType::Touchscreen) { 4 } else { 0 };
    (k + p + t) as u32
}

/// A wire number is valid exactly when it is at most the mask.
pub proof fn lemma_valid_device_bits(raw: u32)
    ensures
        valid_device_bits(raw) <==> raw <= DEVICE_MASK,
{
    assert((raw & !7u32 == 0) <==> raw <= 7u32) by (bit_vector);
}

/// Which of the eight valid numbers have each of the three bits.
proof fn lemma_bit_tests(raw: u32)
    by (bit_vector)
    requires
        raw <= 7,
    ensures
        (raw & 1 != 0) <==> (raw == 1 || raw == 3 || raw == 5 || raw == 7),
        (raw & 2 != 0) <==> (raw == 2 || raw == 3 || raw == 6 || raw == 7),
        (raw & 4 != 0) <==> (raw == 4 || raw == 5 || raw == 6 || raw == 7),
{
}

/// Encoding a set of classes and decoding the number gives the same set, with
/// no class added and none missing; the number is always valid.
pub proof fn lemma_flags_of_bits_of(flags: Set<DeviceType>)
    ensures
        valid_device_bits(bits_of(flags)),
        flags_of(bits_of(flags)) == flags,
{
    let raw = bits_of(flags);
    lemma_valid_device_bits(raw);
    lemma_bit_tests(raw);
    assert forall|d: DeviceType| flags_of(raw).contains(d) == flags.contains(d) by {
        match d {
            DeviceType::Keyboard => {},
            DeviceType::Pointer => {},
            DeviceType::Touchscreen => {},
        }
    }
    assert(flags_of(raw) =~= flags);
}

/// Decoding a valid number and encoding the set gives the same number.
pub proof fn lemma_bits_of_flags_of(raw: u32)
    requires
        valid_device_bits(raw),
    ensures
        bits_of(flags_of(raw)) == raw,
{
    lemma_valid_device_bits(raw);
    lemma_bit_tests(raw);
    assert(flags_of(raw).contains(DeviceType::Keyboard) == (raw & 1u32 != 0));
    assert(flags_of(raw).contains(DeviceType::Pointer) == (raw & 2u32 != 0));
    assert(flags_of(raw).contains(DeviceType::Touchscreen) == (raw & 4u32 != 0));
}

/// A set of device classes, held as the number that it has on the wire.
#[derive(Clone, Copy, Debug, PartialEq, Eq, Structural)]
pub struct DeviceSet {
    bits: u32,
}

impl View for DeviceSet {
    type V = Set<DeviceType>;

    closed spec fn view(&self) -> Set<DeviceType> {
        flags_of(self.bits)
    }
}

impl DeviceSet {
    /// No bit outside the three device classes is ever set.
    #[verifier::type_invariant]
    pub closed spec fn wf(self) -> bool {
        valid_device_bits(self.bits)
    }

    /// The set without any class.
    pub fn empty() -> (set: DeviceSet)
        ensures
            set@ == Set::<DeviceType>::empty(),
    {
        proof {
            assert(0u32 & !7u32 == 0) by (bit_vector);
            assert forall|d: DeviceType| !flags_of(0).contains(d) by {
                let m = d.spec_bit();
                assert(0u32 & m == 0) by (bit_vector);
            }
            assert(flags_of(0) =~= Set::<DeviceType>::empty());
        }
        DeviceSet { bits: 0 }
    }

    /// The set of all three classes.
    pub fn all() -> (set: DeviceSet)
        ensures
            set@ == Set::<DeviceType>::full(),
    {
        proof {
            lemma_valid_device_bits(7);
            lemma_bit_tests(7);
            assert forall|d: DeviceType| flags_of(7).contains(d) by {
                match d {
                    DeviceType::Keyboard => {},
                    DeviceType::Pointer => {},
                    DeviceType::Touchscreen => {},
                }
            }
            assert(flags_of(7) =~= Set::<DeviceType>::full());
        }
        DeviceSet { bits: DEVICE_MASK }
    }

    /// The set of one class.
    pub closed spec fn spec_from_flag(device: DeviceType) -> DeviceSet {
        DeviceSet { bits: device.spec_bit() }
    }

    /// This set with the class added.
    pub closed spec fn spec_with(self, device: DeviceType) -> DeviceSet {
        DeviceSet { bits: self.bits | device.spec_bit() }
    }

    /// The classes that are in this set or in the other.
    pub closed spec fn spec_union(self, other: DeviceSet) -> DeviceSet {
        DeviceSet { bits: self.bits | other.bits }
    }

    /// The set of one class.
    pub fn from_flag(device: DeviceType) -> (set: DeviceSet)
        ensures
            set == Self::spec_from_flag(device),
            set@ == Set::<DeviceType>::empty().insert(device),
    {
        let bits = device.bit();
        proof {
            lemma_valid_device_bits(bits);
            lemma_bit_tests(bits);
            assert forall|d: DeviceType|
                flags_of(bits).contains(d) == Set::<DeviceType>::empty().insert(device).contains(
                    d,
                ) by {
                match d {
                    DeviceType::Keyboard => {},
                    DeviceType::Pointer => {},
                    DeviceType::Touchscreen => {},
                }
            }
            assert(flags_of(bits) =~= Set::<DeviceType>::empty().insert(device));
        }
        DeviceSet { bits }
    }

    /// Reads a set from its wire number. A number with a bit outside the three
    /// device classes is refused.
    pub fn from_bits(raw: u32) -> (result: Result<DeviceSet, Error>)
        ensures
            valid_device_bits(raw) ==> (result matches Ok(set) && set@ == flags_of(raw)),
            !valid_device_bits(raw) ==> result == Err::<DeviceSet, Error>(
                Error::Protocol(ProtocolError::InvalidDeviceBits),
            ),
    {
        if raw & !DEVICE_MASK == 0 {
            Ok(DeviceSet { bits: raw })
        } else {
            Err(Error::Protocol(ProtocolError::InvalidDeviceBits))
        }
    }

    /// The wire number of this set.
    pub fn bits(self) -> (raw: u32)
        ensures
            raw == bits_of(self@),
            valid_device_bits(raw),
    {
        proof {
            use_type_invariant(&self);
            lemma_bits_of_flags_of(self.bits);
        }
        self.bits
    }

    /// Whether the class is in the set.
    pub fn contains(self, device: DeviceType) -> (found: bool)
        ensures
            found == self@.contains(device),
    {
        self.bits & device.bit() != 0
    }

    /// Whether the set has no class.
    pub fn is_empty(self) -> (none: bool)
        ensures
            none == (self@ == Set::<DeviceType>::empty()),
    {
        proof {
            use_type_invariant(&self);
            lemma_valid_device_bits(self.bits);
            lemma_bit_tests(self.bits);
            if self.bits == 0 {
                assert(self@ =~= Set::<DeviceType>::empty());
            } else {
                assert(self@.contains(DeviceType::Keyboard) || self@.contains(DeviceType::Pointer)
                    || self@.contains(DeviceType::Touchscreen));
            }
        }
        self.bits == 0
    }

    /// This set with the class added.
    pub fn with(self, device: DeviceType) -> (set: DeviceSet)
        ensures
            set == self.spec_with(device),
            set@ == self@.insert(device),
    {
        let bits = self.bits | device.bit();
        proof {
            use_type_invariant(&self);
            let a = self.bits;
            let b = device.spec_bit();
            assert(a & !7u32 == 0 && (b == 1 || b == 2 || b == 4) ==> (a | b) & !7u32 == 0)
                by (bit_vector);
            assert forall|d: DeviceType|
                flags_of(bits).contains(d) == self@.insert(device).contains(d) by {
                let m = d.spec_bit();
                assert(((a | b) & m != 0) <==> ((a & m != 0) || (b & m != 0))) by (bit_vector);
                assert((b == 1 || b == 2 || b == 4) && (m == 1 || m == 2 || m == 4) ==> ((b & m
                    != 0) <==> b == m)) by (bit_vector);
            }
            assert(flags_of(bits) =~= self@.insert(device));
        }
        DeviceSet { bits }
    }

    /// The classes that are in this set or in the other.
    pub fn union(self, other: DeviceSet) -> (set: DeviceSet)
        ensures
            set == self.spec_union(other),
            set@ == self@.union(other@),
    {
        let bits = self.bits | other.bits;
        proof {
            use_type_invariant(&self);
            use_type_invariant(&other);
            let a = self.bits;
            let b = other.bits;
            assert(a & !7u32 == 0 && b & !7u32 == 0 ==> (a | b) & !7u32 == 0) by (bit_vector);
            assert forall|d: DeviceType|
                flags_of(bits).contains(d) == self@.union(other@).contains(d) by {
                let m = d.spec_bit();
                assert(((a | b) & m != 0) <==> ((a & m != 0) || (b & m != 0))) by (bit_vector);
            }
            assert(flags_of(bits) =~= self@.union(other@));
        }
        DeviceSet { bits }
    }

    /// The classes that are in this set and in the other.
    pub fn intersection(self, other: DeviceSet) -> (set: DeviceSet)
        ensures
            set@ == self@.intersect(other@),
    {
        let bits = self.bits & other.bits;
        proof {
            use_type_invariant(&self);
            let a = self.bits;
            let b = other.bits;
            assert(a & !7u32 == 0 ==> (a & b) & !7u32 == 0) by (bit_vector);
            assert forall|d: DeviceType|
                flags_of(bits).contains(d) == self@.intersect(other@).contains(d) by {
                let m = d.spec_bit();
                assert((m == 1 || m == 2 || m == 4) ==> (((a & b) & m != 0) <==> ((a & m != 0) && (
                b & m != 0)))) by (bit_vector);
            }
            assert(flags_of(bits) =~= self@.intersect(other@));
        }
        DeviceSet { bits }
    }

    /// Whether every class of this set is in the other.
    pub fn is_subset(self, other: DeviceSet) -> (within: bool)
        ensures
            within == self@.subset_of(other@),
    {
        proof {
            use_type_invariant(&self);
            let a = self.bits;
            let b = other.bits;
            assert(a & !7u32 == 0 ==> ((a & !b == 0) <==> ((a & 1 != 0 ==> b & 1 != 0) && (a & 2
                != 0 ==> b & 2 != 0) && (a & 4 != 0 ==> b & 4 != 0)))) by (bit_vector);
            if a & !b == 0 {
                assert forall|d: DeviceType| self@.contains(d) implies other@.contains(d) by {
                    match d {
                        DeviceType::Keyboard => {},
                        DeviceType::Pointer => {},
                        DeviceType::Touchscreen => {},
                    }
                }
            } else {
                assert((self@.contains(DeviceType::Keyboard) && !other@.contains(
                    DeviceType::Keyboard)) || (self@.contains(DeviceType::Pointer)
                    && !other@.contains(DeviceType::Pointer)) || (self@.contains(
                    DeviceType::Touchscreen) && !other@.contains(DeviceType::Touchscreen)));
            }
        }
        self.bits & !other.bits == 0
    }

    /// Two sets with the same classes are the same value.
    pub proof fn lemma_view_injective(a: DeviceSet, b: DeviceSet)
        requires
            a.wf(),
            b.wf(),
            a@ == b@,
        ensures
            a == b,
    {
        lemma_bits_of_flags_of(a.bits);
        lemma_bits_of_flags_of(b.bits);
    }
}

impl core::ops::BitOr for DeviceType {
    type Output = DeviceSet;

    /// The set of the two classes.
    fn bitor(self, other: DeviceType) -> (set: DeviceSet)
        ensures
            set@ == Set::<DeviceType>::empty().insert(self).insert(other),
    {
        DeviceSet::from_flag(self).with(other)
    }
}

impl vstd::std_specs::ops::BitOrSpecImpl for DeviceType {
    open spec fn obeys_bitor_spec() -> bool {
        true
    }

    open spec fn bitor_req(self, other: DeviceType) -> bool {
        true
    }

    open spec fn bitor_spec(self, other: DeviceType) -> DeviceSet {
        DeviceSet::spec_from_flag(self).spec_with(other)
    }
}

impl core::ops::BitOr<DeviceType> for DeviceSet {
    type Output = DeviceSet;

    /// This set with the class added.
    fn bitor(self, device: DeviceType) -> (set: DeviceSet)
        ensures
            set@ == self@.insert(device),
    {
        self.with(device)
    }
}

impl vstd::std_specs::ops::BitOrSpecImpl<DeviceType> for DeviceSet {
    open spec fn obeys_bitor_spec() -> bool {
        true
    }

    open spec fn bitor_req(self, device: DeviceType) -> bool {
        true
    }

    open spec fn bitor_spec(self, device: DeviceType) -> DeviceSet {
        self.spec_with(device)
    }
}

impl core::ops::BitOr for DeviceSet {
    type Output = DeviceSet;

    /// The classes that are in this set or in the other.
    fn bitor(self, other: DeviceSet) -> (set: DeviceSet)
        ensures
            set@ == self@.union(other@),
    {
        self.union(other)
    }
}

impl vstd::std_specs::ops::BitOrSpecImpl for DeviceSet {
    open spec fn obeys_bitor_spec() -> bool {
        true
    }

    open spec fn bitor_req(self, other: DeviceSet) -> bool {
        true
    }

    open spec fn bitor_spec(self, other: DeviceSet) -> DeviceSet {
        self.spec_union(other)
    }
}

impl Default for DeviceSet {
    /// The empty set.
    fn default() -> (set: DeviceSet)
        ensures
            set@ == Set::<DeviceType>::empty(),
    {
        DeviceSet::empty()
    }
}

} // verus!
