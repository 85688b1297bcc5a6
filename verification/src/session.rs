//! The public face of the session layer: one handle type that hides which
//! backend variant showed a notification, and the dispatcher that picks a
//! variant at runtime.
//!
//! Exactly two variants exist. The default is the legacy backend; the
//! modern one is taken only when the caller's environment asks for it.
//! Every operation on the facade is a single dispatch on the variant tag,
//! which is fixed for the lifetime of a handle.

use vstd::prelude::*;

use crate::Error;
use crate::legacy;
use crate::legacy::DbusNotificationHandle;
use crate::modern;
use crate::modern::ZbusNotificationHandle;
use crate::notification::Notification;
use crate::notification::NotificationView;
use crate::notification::ServerInformation;
use crate::protocol::BusRequest;
use crate::protocol::BusSignal;
use crate::protocol::NotifyRequest;
use crate::protocol::action_view;
use crate::protocol::first_match;
use crate::protocol::replace_target;

verus! {

/// The backend variant a session operation goes through.
#[derive(Clone, Copy, Debug, PartialEq, Eq, Structural)]
pub enum Backend {
    Legacy,
    Modern,
}

/// The variant a handle was produced by, together with that variant's
/// handle value.
pub enum NotificationHandleInner {
    Dbus(DbusNotificationHandle),
    Zbus(ZbusNotificationHandle),
}

/// A handle to a shown notification, whatever backend showed it.
///
/// The handle stands for the server-assigned identifier, the snapshot that
/// was sent, and the still-open connection the send went over; that
/// connection belongs exclusively to the handle's owner and must outlive
/// the handle for signal delivery to work.
pub struct NotificationHandle {
    pub inner: NotificationHandleInner,
}

/// The mathematical value of a [`NotificationHandle`]: which variant
/// produced it, the identifier it is bound to, and the snapshot it stores.
#[verifier::ext_equal]
pub struct HandleView {
    pub backend: Backend,
    pub id: u32,
    pub notification: NotificationView,
}

impl View for NotificationHandle {
    type V = HandleView;

    open spec fn view(&self) -> HandleView {
        match self.inner {
            NotificationHandleInner::Dbus(h) => HandleView {
                backend: Backend::Legacy,
                id: h.id,
                notification: h.notification@,
            },
            NotificationHandleInner::Zbus(h) => HandleView {
                backend: Backend::Modern,
                id: h.id,
                notification: h.notification@,
            },
        }
    }
}

/// The handle delivered when a backend's send is answered with `id`.
pub open spec fn shown_handle(backend: Backend, id: u32, n: NotificationView) -> HandleView {
    HandleView { backend: backend, id: id, notification: n }
}

/// The handle after an update answered by `reply`: on success it carries
/// the returned identifier, on failure it is untouched; the snapshot and
/// the variant never change.
pub open spec fn updated_handle(h: HandleView, reply: Result<u32, Error>) -> HandleView {
    match reply {
        Ok(id) => HandleView { backend: h.backend, id: id, notification: h.notification },
        Err(_) => h,
    }
}

impl NotificationHandle {
    /// Wraps a handle of the legacy backend.
    pub fn for_dbus(id: u32, notification: Notification) -> (r: NotificationHandle)
        ensures
            r@ == shown_handle(Backend::Legacy, id, notification@),
    {
        let r = NotificationHandle {
            inner: NotificationHandleInner::Dbus(DbusNotificationHandle::new(id, notification)),
        };
        proof {
            assert(r@ =~= shown_handle(Backend::Legacy, id, notification@));
        }
        r
    }

    /// Wraps a handle of the modern backend.
    pub fn for_zbus(id: u32, notification: Notification) -> (r: NotificationHandle)
        ensures
            r@ == shown_handle(Backend::Modern, id, notification@),
    {
        let r = NotificationHandle {
            inner: NotificationHandleInner::Zbus(ZbusNotificationHandle::new(id, notification)),
        };
        proof {
            assert(r@ =~= shown_handle(Backend::Modern, id, notification@));
        }
        r
    }

    /// The action the observed signal stream delivers for this handle:
    /// the earliest signal carrying this handle's identifier decides, every
    /// other signal is ignored. `None` asks the owner to keep reading
    /// signals; the wait has no timeout of its own. The handle is spent:
    /// its connection is given over to the wait.
    pub fn wait_for_action(self, signals: &Vec<BusSignal>) -> (r: Option<String>)
        ensures
            action_view(r) == first_match(self@.id, signals@),
    {
        match self.inner {
            NotificationHandleInner::Dbus(inner) => inner.wait_for_action(signals),
            NotificationHandleInner::Zbus(inner) => inner.wait_for_action(signals),
        }
    }

    /// Closes the shown notification: the handle is spent, and the
    /// returned request must be issued for its identifier.
    pub fn close(self) -> (r: BusRequest)
        ensures
            r == BusRequest::CloseNotification(self@.id),
    {
        match self.inner {
            NotificationHandleInner::Dbus(inner) => inner.close(),
            NotificationHandleInner::Zbus(inner) => inner.close(),
        }
    }

    /// Whether the wait on the signal stream ended in the notification
    /// being closed: `Some(true)` exactly when the earliest signal for this
    /// handle is the synthetic close marker — only then may a close
    /// callback run — `Some(false)` when it is any other action, `None`
    /// while no signal concerns this handle.
    pub fn on_close(self, signals: &Vec<BusSignal>) -> (r: Option<bool>)
        ensures
            r == match first_match(self@.id, signals@) {
                Some(action) => Some(action == "__closed"@),
                None => None::<bool>,
            },
            r == Some(true) ==> first_match(self@.id, signals@) == Some("__closed"@),
    {
        match self.inner {
            NotificationHandleInner::Dbus(inner) => inner.on_close(signals),
            NotificationHandleInner::Zbus(inner) => inner.on_close(signals),
        }
    }

    /// The `Notify` arguments that re-sending the stored snapshot puts on
    /// the wire, marshalled by this handle's own variant: the stored
    /// identifier is the replace target, so the server replaces the
    /// notification instead of duplicating it.
    pub fn update_request(&self) -> (r: NotifyRequest)
        ensures
            r@ == match self@.backend {
                Backend::Legacy => legacy::wire_of(self@.notification, self@.id),
                Backend::Modern => modern::wire_of(self@.notification, self@.id),
            },
    {
        match &self.inner {
            NotificationHandleInner::Dbus(inner) => inner.update_request(),
            NotificationHandleInner::Zbus(inner) => inner.update_request(),
        }
    }

    /// Applies the server's answer to a re-send: on success the handle
    /// adopts the returned identifier, on failure it keeps the one it had;
    /// snapshot and variant stay as they are either way.
    pub fn update(&mut self, reply: Result<u32, Error>) -> (r: Result<(), Error>)
        ensures
            final(self)@ == updated_handle(old(self)@, reply),
            match reply {
                Ok(_) => r == Ok::<(), Error>(()),
                Err(e) => r == Err::<(), Error>(e),
            },
    {
        let r = match &mut self.inner {
            NotificationHandleInner::Dbus(inner) => inner.update(reply),
            NotificationHandleInner::Zbus(inner) => inner.update(reply),
        };
        proof {
            assert(self@ =~= updated_handle(old(self)@, reply));
        }
        r
    }

    /// The identifier the server knows this notification under.
    pub fn id(&self) -> (r: u32)
        ensures
            r == self@.id,
    {
        match &self.inner {
            NotificationHandleInner::Dbus(inner) => inner.id,
            NotificationHandleInner::Zbus(inner) => inner.id,
        }
    }

    /// Read access to the stored snapshot.
    pub fn notification(&self) -> (r: &Notification)
        ensures
            r@ == self@.notification,
    {
        match &self.inner {
            NotificationHandleInner::Dbus(inner) => &inner.notification,
            NotificationHandleInner::Zbus(inner) => &inner.notification,
        }
    }

    /// Replaces the stored snapshot, so that the next update re-sends the
    /// new fields; identifier and variant stay as they are.
    pub fn set_notification(&mut self, notification: Notification)
        ensures
            final(self)@.backend == old(self)@.backend,
            final(self)@.id == old(self)@.id,
            final(self)@.notification == notification@,
    {
        match &mut self.inner {
            NotificationHandleInner::Dbus(inner) => {
                inner.notification = notification;
            },
            NotificationHandleInner::Zbus(inner) => {
                inner.notification = notification;
            },
        }
    }
}

/// The variant a send goes through: the legacy backend by default, the
/// modern one exactly when the caller's environment asks for it.
pub fn select_backend(modern_requested: bool) -> (r: Backend)
    ensures
        r == if modern_requested {
            Backend::Modern
        } else {
            Backend::Legacy
        },
{
    if modern_requested {
        Backend::Modern
    } else {
        Backend::Legacy
    }
}

/// The variant a capability query goes through: always the legacy backend,
/// whatever the environment asks for. Kept deliberately: the switch
/// governs sends and server-information queries only.
pub fn capabilities_backend(_modern_requested: bool) -> (r: Backend)
    ensures
        r == Backend::Legacy,
{
    Backend::Legacy
}

/// The `Notify` arguments that showing `notification` through `backend`
/// puts on the wire.
pub fn show_request(notification: &Notification, backend: Backend) -> (r: NotifyRequest)
    ensures
        r@ == match backend {
            Backend::Legacy => legacy::wire_of(notification@, replace_target(notification@.id)),
            Backend::Modern => modern::wire_of(notification@, replace_target(notification@.id)),
        },
{
    match backend {
        Backend::Legacy => legacy::notify_request(notification),
        Backend::Modern => modern::notify_request(notification),
    }
}

/// Binds the outcome of a send through `backend` — the call described by
/// [`show_request`] — to the facade handle: the server's identifier with
/// the snapshot that was sent, or the failure as it occurred.
pub fn show_notification(
    notification: &Notification,
    backend: Backend,
    reply: Result<u32, Error>,
) -> (r: Result<NotificationHandle, Error>)
    ensures
        match reply {
            Ok(id) => r matches Ok(h) && h@ == shown_handle(backend, id, notification@),
            Err(e) => r == Err::<NotificationHandle, Error>(e),
        },
{
    match backend {
        Backend::Legacy => match legacy::connect_and_send_notification(notification, reply) {
            Ok(h) => {
                let r = NotificationHandle { inner: NotificationHandleInner::Dbus(h) };
                proof {
                    assert(r@ =~= shown_handle(backend, reply->Ok_0, notification@));
                }
                Ok(r)
            },
            Err(e) => Err(e),
        },
        Backend::Modern => match modern::connect_and_send_notification(notification, reply) {
            Ok(h) => {
                let r = NotificationHandle { inner: NotificationHandleInner::Zbus(h) };
                proof {
                    assert(r@ =~= shown_handle(backend, reply->Ok_0, notification@));
                }
                Ok(r)
            },
            Err(e) => Err(e),
        },
    }
}

/// Passes a `GetCapabilities` answer through to the caller: the server's
/// capability strings exactly as advertised, in the server's order,
/// neither sorted nor filtered. Routed through the legacy backend alone,
/// as [`capabilities_backend`] says.
pub fn get_capabilities(reply: Result<Vec<String>, Error>) -> (r: Result<Vec<String>, Error>)
    ensures
        match reply {
            Ok(capabilities) => r matches Ok(c) && c@ == capabilities@,
            Err(e) => r == Err::<Vec<String>, Error>(e),
        },
{
    legacy::get_capabilities(reply)
}

/// Decodes a `GetServerInformation` answer through the selected variant:
/// the reply's four strings become name, vendor, version and specification
/// version, in that order, whichever variant carried the call.
pub fn get_server_information(
    backend: Backend,
    reply: Result<(String, String, String, String), Error>,
) -> (r: Result<ServerInformation, Error>)
    ensures
        match reply {
            Ok(t) => r matches Ok(info) && info@.name == t.0@ && info@.vendor == t.1@
                && info@.version == t.2@ && info@.spec_version == t.3@,
            Err(e) => r == Err::<ServerInformation, Error>(e),
        },
{
    match backend {
        Backend::Legacy => legacy::get_server_information(reply),
        Backend::Modern => modern::get_server_information(reply),
    }
}

/// The stop hook of a privately run development server: the request to
/// issue. Not part of the real service contract.
pub fn stop_server() -> (r: BusRequest)
    ensures
        r == BusRequest::Stop,
{
    legacy::stop_server()
}

/// The action the observed signal stream delivers for `id`, with a close
/// reported as the synthetic marker: the earliest signal carrying `id`
/// decides, every other signal is ignored.
pub fn handle_action(id: u32, signals: &Vec<BusSignal>) -> (r: Option<String>)
    ensures
        action_view(r) == first_match(id, signals@),
{
    legacy::handle_action(id, signals)
}

/// Law: for one notification payload and one replace target, the two
/// backends put the same `Notify` argument tuple on the wire.
pub proof fn lemma_backend_wire_equivalence(n: NotificationView, replace_id: u32)
    ensures
        legacy::wire_of(n, replace_id) == modern::wire_of(n, replace_id),
{
    assert(legacy::wire_of(n, replace_id) =~= modern::wire_of(n, replace_id));
}

/// Law: an update is idempotent in the identifier. A server that preserves
/// identifiers on replace answers every re-send of a handle with the same
/// identifier `id`; under such answers the first update delivers `id`, and
/// a second update with no intervening field change leaves the handle
/// exactly as the first left it.
pub proof fn lemma_update_idempotent(h: HandleView, id: u32)
    ensures
        updated_handle(h, Ok(id)).id == id,
        updated_handle(updated_handle(h, Ok(id)), Ok(id)) == updated_handle(h, Ok(id)),
{
    assert(updated_handle(updated_handle(h, Ok(id)), Ok(id)) =~= updated_handle(h, Ok(id)));
}

/// Law: showing a notification and then immediately querying the server's
/// information does not alter the delivered identifier. The query takes no
/// handle and its result is a function of its own reply alone, so the
/// handle that the show delivered still reports the server-assigned
/// identifier afterwards.
pub proof fn lemma_show_then_server_information(backend: Backend, id: u32, n: NotificationView)
    ensures
        shown_handle(backend, id, n).id == id,
{
}

} // verus!
