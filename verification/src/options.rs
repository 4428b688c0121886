//! The optional parameters of each request and the records that responses
//! carry, with the dictionaries that stand for them on the wire.
//!
//! A field that is not set has no key in the dictionary, so that the broker
//! applies its own default.

use vstd::prelude::*;
use vstd::string::*;

use crate::device::{
    bits_of, flags_of, lemma_flags_of_bits_of, valid_device_bits, DeviceSet, DeviceType,
};
use crate::error::{Error, ProtocolError};
use crate::path::{is_object_path, ObjectPath};
use crate::token::{is_token, token_view, HandleToken};
use crate::wire::{Dict, Value, ValueView};

verus! {

/// The key of the token that names a request.
pub open spec fn key_handle_token() -> Seq<char> {
    "handle_token"@
}

/// The key of the token that names a session-to-be.
pub open spec fn key_session_handle_token() -> Seq<char> {
    "session_handle_token"@
}

/// The key of the device classes that a caller asks for.
pub open spec fn key_types() -> Seq<char> {
    "types"@
}

/// The key of the device classes that the broker granted.
pub open spec fn key_devices() -> Seq<char> {
    "devices"@
}

/// The key of the identifier of a new session.
pub open spec fn key_session_handle() -> Seq<char> {
    "session_handle"@
}

/// The keys of one record differ from each other.
proof fn lemma_keys_differ()
    ensures
        key_handle_token() != key_session_handle_token(),
        key_handle_token() != key_types(),
{
    reveal_strlit("handle_token");
    reveal_strlit("session_handle_token");
    reveal_strlit("types");
    assert(key_handle_token().len() == 12);
    assert(key_session_handle_token().len() == 20);
    assert(key_types().len() == 5);
}

/// An optional token under a key: absent, a string that is a token, or
/// something that cannot be read as one.
pub open spec fn spec_token_field(m: Map<Seq<char>, ValueView>, key: Seq<char>) -> Result<
    Option<Seq<char>>,
    Error,
> {
    if !m.contains_key(key) {
        Ok(None)
    } else {
        match m[key] {
            ValueView::Str(s) => if is_token(s) {
                Ok(Some(s))
            } else {
                Err(Error::Protocol(ProtocolError::InvalidToken))
            },
            _ => Err(Error::Protocol(ProtocolError::WrongType)),
        }
    }
}

/// A device set under a key: absent, a number within the three classes, or
/// something that cannot be read as one.
pub open spec fn spec_devices_field(m: Map<Seq<char>, ValueView>, key: Seq<char>) -> Result<
    Option<Set<DeviceType>>,
    Error,
> {
    if !m.contains_key(key) {
        Ok(None)
    } else {
        match m[key] {
            ValueView::U32(raw) => if valid_device_bits(raw) {
                Ok(Some(flags_of(raw)))
            } else {
                Err(Error::Protocol(ProtocolError::InvalidDeviceBits))
            },
            _ => Err(Error::Protocol(ProtocolError::WrongType)),
        }
    }
}

/// An object path under a key: absent, a path, a string that is a path, or
/// something that cannot be read as one.
pub open spec fn spec_path_field(m: Map<Seq<char>, ValueView>, key: Seq<char>) -> Result<
    Option<Seq<char>>,
    Error,
> {
    if !m.contains_key(key) {
        Ok(None)
    } else {
        match m[key] {
            ValueView::Path(p) => Ok(Some(p)),
            ValueView::Str(s) => if is_object_path(s) {
                Ok(Some(s))
            } else {
                Err(Error::Protocol(ProtocolError::InvalidObjectPath))
            },
            _ => Err(Error::Protocol(ProtocolError::WrongType)),
        }
    }
}

/// The map with the token under the key, if there is a token.
pub open spec fn put_token(
    m: Map<Seq<char>, ValueView>,
    key: Seq<char>,
    token: Option<Seq<char>>,
) -> Map<Seq<char>, ValueView> {
    match token {
        Some(t) => m.insert(key, ValueView::Str(t)),
        None => m,
    }
}

/// The map with the device set under the key, if there is a set.
pub open spec fn put_devices(
    m: Map<Seq<char>, ValueView>,
    key: Seq<char>,
    devices: Option<Set<DeviceType>>,
) -> Map<Seq<char>, ValueView> {
    match devices {
        Some(d) => m.insert(key, ValueView::U32(bits_of(d))),
        None => m,
    }
}

/// An optional token is absent or a token.
pub open spec fn token_ok(token: Option<Seq<char>>) -> bool {
    token matches Some(t) ==> is_token(t)
}

/// Tells what holds of every token that a record carries.
fn recall_validity(token: &Option<HandleToken>)
    ensures
        token_ok(token_view(*token)),
{
    if let Some(t) = token {
        proof {
            use_type_invariant(t);
            t.lemma_is_token();
        }
    }
}

fn token_field(dict: &Dict, key: &str) -> (result: Result<Option<HandleToken>, Error>)
    ensures
        match spec_token_field(dict@, key@) {
            Ok(Some(s)) => result matches Ok(Some(t)) && t@ == s,
            Ok(None) => result matches Ok(None),
            Err(e) => result matches Err(x) && x == e,
        },
{
    match dict.get(key) {
        None => Ok(None),
        Some(Value::Str(s)) => match HandleToken::new(s.as_str()) {
            Some(token) => Ok(Some(token)),
            None => Err(Error::Protocol(ProtocolError::InvalidToken)),
        },
        Some(_) => Err(Error::Protocol(ProtocolError::WrongType)),
    }
}

fn devices_field(dict: &Dict, key: &str) -> (result: Result<Option<DeviceSet>, Error>)
    ensures
        match spec_devices_field(dict@, key@) {
            Ok(Some(s)) => result matches Ok(Some(d)) && d@ == s,
            Ok(None) => result matches Ok(None),
            Err(e) => result matches Err(x) && x == e,
        },
{
    match dict.get(key) {
        None => Ok(None),
        Some(Value::U32(raw)) => match DeviceSet::from_bits(*raw) {
            Ok(set) => Ok(Some(set)),
            Err(e) => Err(e),
        },
        Some(_) => Err(Error::Protocol(ProtocolError::WrongType)),
    }
}

fn path_field(dict: &Dict, key: &str) -> (result: Result<Option<ObjectPath>, Error>)
    ensures
        match spec_path_field(dict@, key@) {
            Ok(Some(s)) => result matches Ok(Some(p)) && p@ == s,
            Ok(None) => result matches Ok(None),
            Err(e) => result matches Err(x) && x == e,
        },
{
    match dict.get(key) {
        None => Ok(None),
        Some(Value::Path(p)) => Ok(Some(p.clone())),
        Some(Value::Str(s)) => match ObjectPath::new(s.as_str()) {
            Some(path) => Ok(Some(path)),
            None => Err(Error::Protocol(ProtocolError::InvalidObjectPath)),
        },
        Some(_) => Err(Error::Protocol(ProtocolError::WrongType)),
    }
}

fn put_token_field(dict: &mut Dict, key: &str, token: &Option<HandleToken>)
    ensures
        final(dict)@ == put_token(old(dict)@, key@, token_view(*token)),
{
    match token {
        Some(t) => {
            dict.insert(key, Value::Str(t.as_str().to_owned()));
        },
        None => {},
    }
}

/// What the options of a request to create a session are.
pub struct CreateRemoteOptionsView {
    pub handle_token: Option<Seq<char>>,
    pub session_handle_token: Option<Seq<char>>,
}

/// The options of a request to create a session.
#[derive(Debug, PartialEq, Eq)]
pub struct CreateRemoteOptions {
    /// A string that will be used as the last element of the handle.
    handle_token: Option<HandleToken>,
    /// A string that will be used as the last element of the session handle.
    session_handle_token: Option<HandleToken>,
}

impl View for CreateRemoteOptions {
    type V = CreateRemoteOptionsView;

    closed spec fn view(&self) -> CreateRemoteOptionsView {
        CreateRemoteOptionsView {
            handle_token: token_view(self.handle_token),
            session_handle_token: token_view(self.session_handle_token),
        }
    }
}

impl Default for CreateRemoteOptions {
    /// The options with no field set.
    fn default() -> (options: CreateRemoteOptions)
        ensures
            options@ == (CreateRemoteOptionsView { handle_token: None, session_handle_token: None }),
    {
        CreateRemoteOptions { handle_token: None, session_handle_token: None }
    }
}

impl CreateRemoteOptions {
    /// The dictionary of the options: one key for each field that is set.
    pub open spec fn spec_encode(v: CreateRemoteOptionsView) -> Map<Seq<char>, ValueView> {
        put_token(
            put_token(Map::empty(), key_handle_token(), v.handle_token),
            key_session_handle_token(),
            v.session_handle_token,
        )
    }

    /// The options that a dictionary stands for.
    pub open spec fn spec_decode(m: Map<Seq<char>, ValueView>) -> Result<
        CreateRemoteOptionsView,
        Error,
    > {
        match spec_token_field(m, key_handle_token()) {
            Err(e) => Err(e),
            Ok(handle_token) => match spec_token_field(m, key_session_handle_token()) {
                Err(e) => Err(e),
                Ok(session_handle_token) => Ok(
                    CreateRemoteOptionsView { handle_token, session_handle_token },
                ),
            },
        }
    }

    /// Sets the handle token.
    pub fn handle_token(self, handle_token: HandleToken) -> (options: Self)
        ensures
            options@ == (CreateRemoteOptionsView {
                handle_token: Some(handle_token@),
                session_handle_token: self@.session_handle_token,
            }),
    {
        CreateRemoteOptions {
            handle_token: Some(handle_token),
            session_handle_token: self.session_handle_token,
        }
    }

    /// Sets the session handle token.
    pub fn session_handle_token(self, session_handle_token: HandleToken) -> (options: Self)
        ensures
            options@ == (CreateRemoteOptionsView {
                handle_token: self@.handle_token,
                session_handle_token: Some(session_handle_token@),
            }),
    {
        CreateRemoteOptions {
            handle_token: self.handle_token,
            session_handle_token: Some(session_handle_token),
        }
    }

    /// The token that names the request, if one is set.
    pub fn token(&self) -> (token: Option<&HandleToken>)
        ensures
            match token {
                Some(t) => self@.handle_token == Some(t@),
                None => self@.handle_token is None,
            },
            token_ok(self@.handle_token),
    {
        recall_validity(&self.handle_token);
        self.handle_token.as_ref()
    }

    /// The dictionary that stands for the options on the wire. Read back, it
    /// gives these options.
    pub fn encode(&self) -> (dict: Dict)
        ensures
            dict@ == Self::spec_encode(self@),
            Self::spec_decode(dict@) == Ok::<CreateRemoteOptionsView, Error>(self@),
    {
        let mut dict = Dict::new();
        put_token_field(&mut dict, "handle_token", &self.handle_token);
        put_token_field(&mut dict, "session_handle_token", &self.session_handle_token);
        recall_validity(&self.handle_token);
        recall_validity(&self.session_handle_token);
        proof {
            Self::lemma_round_trip(self@);
        }
        dict
    }

    /// Reads the options from a dictionary. Keys other than those of the
    /// fields are passed over.
    pub fn decode(dict: &Dict) -> (result: Result<CreateRemoteOptions, Error>)
        ensures
            match Self::spec_decode(dict@) {
                Ok(v) => result matches Ok(options) && options@ == v,
                Err(e) => result matches Err(x) && x == e,
            },
    {
        let handle_token = match token_field(dict, "handle_token") {
            Ok(t) => t,
            Err(e) => {
                return Err(e);
            },
        };
        let session_handle_token = match token_field(dict, "session_handle_token") {
            Ok(t) => t,
            Err(e) => {
                return Err(e);
            },
        };
        Ok(CreateRemoteOptions { handle_token, session_handle_token })
    }

    /// Encoding options and decoding the dictionary gives the options back.
    pub proof fn lemma_round_trip(v: CreateRemoteOptionsView)
        requires
            token_ok(v.handle_token),
            token_ok(v.session_handle_token),
        ensures
            Self::spec_decode(Self::spec_encode(v)) == Ok::<CreateRemoteOptionsView, Error>(v),
    {
        lemma_keys_differ();
    }
}

/// What the options of a request to select devices are.
pub struct SelectDevicesOptionsView {
    pub handle_token: Option<Seq<char>>,
    pub types: Option<Set<DeviceType>>,
}

/// The options of a request to select devices.
#[derive(Debug, PartialEq, Eq)]
pub struct SelectDevicesOptions {
    /// A string that will be used as the last element of the handle.
    handle_token: Option<HandleToken>,
    /// The device types to request remote controlling of. Default is all.
    types: Option<DeviceSet>,
}

impl View for SelectDevicesOptions {
    type V = SelectDevicesOptionsView;

    closed spec fn view(&self) -> SelectDevicesOptionsView {
        SelectDevicesOptionsView {
            handle_token: token_view(self.handle_token),
            types: match self.types {
                Some(d) => Some(d@),
                None => None,
            },
        }
    }
}

impl Default for SelectDevicesOptions {
    /// The options with no field set.
    fn default() -> (options: SelectDevicesOptions)
        ensures
            options@ == (SelectDevicesOptionsView { handle_token: None, types: None }),
    {
        SelectDevicesOptions { handle_token: None, types: None }
    }
}

impl SelectDevicesOptions {
    /// The dictionary of the options: one key for each field that is set.
    pub open spec fn spec_encode(v: SelectDevicesOptionsView) -> Map<Seq<char>, ValueView> {
        put_devices(
            put_token(Map::empty(), key_handle_token(), v.handle_token),
            key_types(),
            v.types,
        )
    }

    /// The options that a dictionary stands for.
    pub open spec fn spec_decode(m: Map<Seq<char>, ValueView>) -> Result<
        SelectDevicesOptionsView,
        Error,
    > {
        match spec_token_field(m, key_handle_token()) {
            Err(e) => Err(e),
            Ok(handle_token) => match spec_devices_field(m, key_types()) {
                Err(e) => Err(e),
                Ok(types) => Ok(SelectDevicesOptionsView { handle_token, types }),
            },
        }
    }

    /// Sets the handle token.
    pub fn handle_token(self, handle_token: HandleToken) -> (options: Self)
        ensures
            options@ == (SelectDevicesOptionsView {
                handle_token: Some(handle_token@),
                types: self@.types,
            }),
    {
        SelectDevicesOptions { handle_token: Some(handle_token), types: self.types }
    }

    /// Sets the device types to request remote controlling of.
    pub fn types(self, types: DeviceSet) -> (options: Self)
        ensures
            options@ == (SelectDevicesOptionsView {
                handle_token: self@.handle_token,
                types: Some(types@),
            }),
    {
        SelectDevicesOptions { handle_token: self.handle_token, types: Some(types) }
    }

    /// The token that names the request, if one is set.
    pub fn token(&self) -> (token: Option<&HandleToken>)
        ensures
            match token {
                Some(t) => self@.handle_token == Some(t@),
                None => self@.handle_token is None,
            },
            token_ok(self@.handle_token),
    {
        recall_validity(&self.handle_token);
        self.handle_token.as_ref()
    }

    /// The dictionary that stands for the options on the wire. Read back, it
    /// gives these options.
    pub fn encode(&self) -> (dict: Dict)
        ensures
            dict@ == Self::spec_encode(self@),
            Self::spec_decode(dict@) == Ok::<SelectDevicesOptionsView, Error>(self@),
    {
        let mut dict = Dict::new();
        put_token_field(&mut dict, "handle_token", &self.handle_token);
        match self.types {
            Some(types) => {
                dict.insert("types", Value::U32(types.bits()));
            },
            None => {},
        }
        recall_validity(&self.handle_token);
        proof {
            Self::lemma_round_trip(self@);
        }
        dict
    }

    /// Reads the options from a dictionary. Keys other than those of the
    /// fields are passed over.
    pub fn decode(dict: &Dict) -> (result: Result<SelectDevicesOptions, Error>)
        ensures
            match Self::spec_decode(dict@) {
                Ok(v) => result matches Ok(options) && options@ == v,
                Err(e) => result matches Err(x) && x == e,
            },
    {
        let handle_token = match token_field(dict, "handle_token") {
            Ok(t) => t,
            Err(e) => {
                return Err(e);
            },
        };
        let types = match devices_field(dict, "types") {
            Ok(t) => t,
            Err(e) => {
                return Err(e);
            },
        };
        Ok(SelectDevicesOptions { handle_token, types })
    }

    /// Encoding options and decoding the dictionary gives the options back:
    /// the same token, and the same device classes with none added and none
    /// missing.
    pub proof fn lemma_round_trip(v: SelectDevicesOptionsView)
        requires
            token_ok(v.handle_token),
        ensures
            Self::spec_decode(Self::spec_encode(v)) == Ok::<SelectDevicesOptionsView, Error>(v),
    {
        lemma_keys_differ();
        if let Some(d) = v.types {
            lemma_flags_of_bits_of(d);
        }
    }
}

/// What the options of a request to start a session are.
pub struct StartRemoteOptionsView {
    pub handle_token: Option<Seq<char>>,
}

/// The options of a request to start a session.
#[derive(Debug, PartialEq, Eq)]
pub struct StartRemoteOptions {
    /// A string that will be used as the last element of the handle.
    handle_token: Option<HandleToken>,
}

impl View for StartRemoteOptions {
    type V = StartRemoteOptionsView;

    closed spec fn view(&self) -> StartRemoteOptionsView {
        StartRemoteOptionsView {
            handle_token: token_view(self.handle_token),
        }
    }
}

impl Default for StartRemoteOptions {
    /// The options with no field set.
    fn default() -> (options: StartRemoteOptions)
        ensures
            options@ == (StartRemoteOptionsView { handle_token: None }),
    {
        StartRemoteOptions { handle_token: None }
    }
}

impl StartRemoteOptions {
    /// The dictionary of the options: one key for each field that is set.
    pub open spec fn spec_encode(v: StartRemoteOptionsView) -> Map<Seq<char>, ValueView> {
        put_token(Map::empty(), key_handle_token(), v.handle_token)
    }

    /// The options that a dictionary stands for.
    pub open spec fn spec_decode(m: Map<Seq<char>, ValueView>) -> Result<
        StartRemoteOptionsView,
        Error,
    > {
        match spec_token_field(m, key_handle_token()) {
            Err(e) => Err(e),
            Ok(handle_token) => Ok(StartRemoteOptionsView { handle_token }),
        }
    }

    /// Sets the handle token.
    pub fn handle_token(self, handle_token: HandleToken) -> (options: Self)
        ensures
            options@ == (StartRemoteOptionsView { handle_token: Some(handle_token@) }),
    {
        StartRemoteOptions { handle_token: Some(handle_token) }
    }

    /// The token that names the request, if one is set.
    pub fn token(&self) -> (token: Option<&HandleToken>)
        ensures
            match token {
                Some(t) => self@.handle_token == Some(t@),
                None => self@.handle_token is None,
            },
            token_ok(self@.handle_token),
    {
        recall_validity(&self.handle_token);
        self.handle_token.as_ref()
    }

    /// The dictionary that stands for the options on the wire. Read back, it
    /// gives these options.
    pub fn encode(&self) -> (dict: Dict)
        ensures
            dict@ == Self::spec_encode(self@),
            Self::spec_decode(dict@) == Ok::<StartRemoteOptionsView, Error>(self@),
    {
        let mut dict = Dict::new();
        put_token_field(&mut dict, "handle_token", &self.handle_token);
        recall_validity(&self.handle_token);
        proof {
            Self::lemma_round_trip(self@);
        }
        dict
    }

    /// Reads the options from a dictionary. Keys other than those of the
    /// fields are passed over.
    pub fn decode(dict: &Dict) -> (result: Result<StartRemoteOptions, Error>)
        ensures
            match Self::spec_decode(dict@) {
                Ok(v) => result matches Ok(options) && options@ == v,
                Err(e) => result matches Err(x) && x == e,
            },
    {
        match token_field(dict, "handle_token") {
            Ok(handle_token) => Ok(StartRemoteOptions { handle_token }),
            Err(e) => Err(e),
        }
    }

    /// Encoding options and decoding the dictionary gives the options back.
    pub proof fn lemma_round_trip(v: StartRemoteOptionsView)
        requires
            token_ok(v.handle_token),
        ensures
            Self::spec_decode(Self::spec_encode(v)) == Ok::<StartRemoteOptionsView, Error>(v),
    {
    }
}

/// The response to a request to start a session: the device classes that the
/// broker granted.
#[derive(Clone, Copy, Debug, PartialEq, Eq, Structural)]
pub struct SelectedDevices {
    /// The selected devices.
    pub devices: DeviceSet,
}

impl Default for SelectedDevices {
    /// No device class.
    fn default() -> (selected: SelectedDevices)
        ensures
            selected.devices@ == Set::<DeviceType>::empty(),
    {
        SelectedDevices { devices: DeviceSet::empty() }
    }
}

impl SelectedDevices {
    /// The dictionary of a granted set.
    pub open spec fn spec_encode(devices: Set<DeviceType>) -> Map<Seq<char>, ValueView> {
        put_devices(Map::empty(), key_devices(), Some(devices))
    }

    /// The granted set that a dictionary stands for. The set must be there,
    /// and a number with a bit outside the three device classes is refused.
    pub open spec fn spec_decode(m: Map<Seq<char>, ValueView>) -> Result<Set<DeviceType>, Error> {
        match spec_devices_field(m, key_devices()) {
            Err(e) => Err(e),
            Ok(None) => Err(Error::Protocol(ProtocolError::MissingField)),
            Ok(Some(devices)) => Ok(devices),
        }
    }

    /// The dictionary that stands for the response on the wire. Read back,
    /// it gives this response.
    pub fn encode(&self) -> (dict: Dict)
        ensures
            dict@ == Self::spec_encode(self.devices@),
            Self::spec_decode(dict@) == Ok::<Set<DeviceType>, Error>(self.devices@),
    {
        let mut dict = Dict::new();
        dict.insert("devices", Value::U32(self.devices.bits()));
        proof {
            Self::lemma_round_trip(self.devices@);
        }
        dict
    }

    /// Reads the response from a dictionary.
    pub fn decode(dict: &Dict) -> (result: Result<SelectedDevices, Error>)
        ensures
            match Self::spec_decode(dict@) {
                Ok(devices) => result matches Ok(selected) && selected.devices@ == devices,
                Err(e) => result matches Err(x) && x == e,
            },
    {
        match devices_field(dict, "devices") {
            Ok(Some(devices)) => Ok(SelectedDevices { devices }),
            Ok(None) => Err(Error::Protocol(ProtocolError::MissingField)),
            Err(e) => Err(e),
        }
    }

    /// Encoding a granted set and decoding the dictionary gives the set back.
    pub proof fn lemma_round_trip(devices: Set<DeviceType>)
        ensures
            Self::spec_decode(Self::spec_encode(devices)) == Ok::<Set<DeviceType>, Error>(devices),
    {
        lemma_flags_of_bits_of(devices);
    }

    /// Whatever can be read from a dictionary is a set of the three device
    /// classes, and it is read from a number that has no other bit.
    pub proof fn lemma_decoded_within_mask(m: Map<Seq<char>, ValueView>)
        requires
            Self::spec_decode(m) is Ok,
        ensures
            m.contains_key(key_devices()),
            m[key_devices()] matches ValueView::U32(raw) && valid_device_bits(raw)
                && Self::spec_decode(m) == Ok::<Set<DeviceType>, Error>(flags_of(raw)),
    {
    }

    /// A number with a bit outside the three device classes is never read as
    /// a granted set: the dictionary that holds it breaks the protocol.
    pub proof fn lemma_outside_mask_refused(m: Map<Seq<char>, ValueView>, raw: u32)
        requires
            m.contains_key(key_devices()),
            m[key_devices()] == ValueView::U32(raw),
            !valid_device_bits(raw),
        ensures
            Self::spec_decode(m) == Err::<Set<DeviceType>, Error>(
                Error::Protocol(ProtocolError::InvalidDeviceBits),
            ),
    {
    }
}

/// The response to a request to create a session: the identifier of the
/// session.
#[derive(Debug, PartialEq, Eq)]
pub struct CreateSession {
    /// The object path of the new session.
    pub session_handle: ObjectPath,
}

impl CreateSession {
    /// The session identifier that a dictionary stands for. It must be there,
    /// as an object path or as a string that is one.
    pub open spec fn spec_decode(m: Map<Seq<char>, ValueView>) -> Result<Seq<char>, Error> {
        match spec_path_field(m, key_session_handle()) {
            Err(e) => Err(e),
            Ok(None) => Err(Error::Protocol(ProtocolError::MissingField)),
            Ok(Some(path)) => Ok(path),
        }
    }

    /// Reads the response from a dictionary.
    pub fn decode(dict: &Dict) -> (result: Result<CreateSession, Error>)
        ensures
            match Self::spec_decode(dict@) {
                Ok(path) => result matches Ok(created) && created.session_handle@ == path,
                Err(e) => result matches Err(x) && x == e,
            },
    {
        match path_field(dict, "session_handle") {
            Ok(Some(session_handle)) => Ok(CreateSession { session_handle }),
            Ok(None) => Err(Error::Protocol(ProtocolError::MissingField)),
            Err(e) => Err(e),
        }
    }
}

} // verus!
