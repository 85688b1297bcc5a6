//! Client-side session layer for desktop notifications over a session
//! message bus.
//!
//! The library models the calls a notification client exchanges with the
//! well-known notification service: showing or replacing a notification,
//! closing it, querying capabilities and server information, and waiting
//! for the action / close signals a server emits for a shown notification.
//!
//! The bus transport itself (opening a connection, framing a method call,
//! reading the signal stream) is not performed here: every operation is
//! expressed as the request value it puts on the wire and as the effect a
//! server's reply or signal has on the session state, so that the whole
//! decision layer is verified. A thin unverified rim drives a real bus
//! client with these values.

use vstd::prelude::*;

pub mod legacy;
pub mod modern;
pub mod notification;
pub mod protocol;
pub mod session;

pub use session::Backend;
pub use session::HandleView;
pub use session::NotificationHandle;
pub use session::NotificationHandleInner;
pub use session::capabilities_backend;
pub use session::get_capabilities;
pub use session::get_server_information;
pub use session::handle_action;
pub use session::lemma_backend_wire_equivalence;
pub use session::lemma_show_then_server_information;
pub use session::lemma_update_idempotent;
pub use session::select_backend;
pub use session::show_notification;
pub use session::show_request;
pub use session::stop_server;

pub use legacy::DbusNotificationHandle;
pub use modern::ZbusNotificationHandle;

pub use protocol::BusRequest;
pub use protocol::BusSignal;
pub use protocol::NotifyRequest;
pub use protocol::NotifyRequestView;
pub use protocol::close_marker;
pub use protocol::first_action;
pub use protocol::match_signal;
pub use protocol::method_name;
pub use protocol::notification_namespace;
pub use protocol::notification_objectpath;
pub use notification::Notification;
pub use notification::NotificationView;
pub use notification::ServerInformation;
pub use notification::ServerInformationView;

verus! {

/// How a bus operation fails, as the caller sees it.
///
/// `Bus` stands for a connection that could not be opened or a call the
/// remote answered with an error reply; `Decode` for a reply that arrived
/// but whose body was not of the expected type.
#[derive(Clone, Copy, Debug, PartialEq, Eq, Structural)]
pub enum Error {
    Bus,
    Decode,
}

} // verus!
