//! Client-side protocol logic for remote control of input devices through a
//! desktop broker.
//!
//! A caller creates a session, asks for device classes, starts the session
//! and then streams input events against it. Every operation here is a
//! decision on plain values: it says which call to send, how a reply is to be
//! read, and when a call must be refused before it leaves the process. The
//! transport that carries the calls is not part of this crate.

mod assoc;
pub mod device;
pub mod error;
pub mod event;
pub mod options;
pub mod path;
pub mod proxy;
pub mod request;
pub mod session;
pub mod token;
pub mod window;
pub mod wire;

pub use device::{Axis, DeviceSet, DeviceType, KeyState};
pub use error::{BrokerError, Error, ProtocolError, StateError, TransportError};
pub use event::InputEvent;
pub use options::{
    CreateRemoteOptions, CreateSession, SelectDevicesOptions, SelectedDevices, StartRemoteOptions,
};
pub use path::ObjectPath;
pub use proxy::{Notification, RemoteDesktopProxy, Request};
pub use request::{Correlator, PendingRequest, RequestKind, Response, ResponseStatus};
pub use session::{SessionEvent, SessionHandle, SessionState};
pub use token::HandleToken;
pub use window::WindowIdentifier;
pub use wire::{Dict, Double, Value};
