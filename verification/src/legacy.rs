//! The legacy bus-client backend: the default variant the session layer
//! selects, and the only one routed to for capability queries and the
//! development-server stop hook.
//!
//! The backend owns the session logic of its variant: how a notification
//! marshals into a `Notify` argument tuple, what a handle remembers, and
//! how replies and signals drive it. The unverified rim performs the calls
//! these functions describe, on a connection it opens per send and hands
//! over to the handle's owner for the handle's whole lifetime.

use vstd::prelude::*;

use crate::Error;
use crate::notification::Notification;
use crate::notification::NotificationView;
use crate::notification::ServerInformation;
use crate::protocol::BusRequest;
use crate::protocol::BusSignal;
use crate::protocol::NotifyRequest;
use crate::protocol::NotifyRequestView;
use crate::protocol::action_view;
use crate::protocol::close_marker;
use crate::protocol::first_action;
use crate::protocol::first_match;
use crate::protocol::replace_target;

verus! {

/// The argument tuple this backend sends for a notification, given the
/// identifier to replace.
pub open spec fn wire_of(n: NotificationView, replace_id: u32) -> NotifyRequestView {
    NotifyRequestView {
        appname: n.appname,
        replace_id: replace_id,
        icon: n.icon,
        summary: n.summary,
        body: n.body,
        actions: n.actions,
        hints: n.hints,
        timeout: n.timeout,
    }
}

/// Marshals a snapshot into this backend's `Notify` arguments, replacing
/// `replace_id`.
fn marshal(notification: &Notification, replace_id: u32) -> (r: NotifyRequest)
    ensures
        r@ == wire_of(notification@, replace_id),
{
    let snapshot = notification.clone();
    let r = NotifyRequest {
        appname: snapshot.appname,
        replace_id: replace_id,
        icon: snapshot.icon,
        summary: snapshot.summary,
        body: snapshot.body,
        actions: snapshot.actions,
        hints: snapshot.hints,
        timeout: snapshot.timeout,
    };
    proof {
        assert(r@ =~= wire_of(notification@, replace_id));
    }
    r
}

/// The `Notify` arguments that showing `notification` puts on the wire:
/// the previously assigned identifier is replaced, a fresh one requested
/// otherwise.
pub fn notify_request(notification: &Notification) -> (r: NotifyRequest)
    ensures
        r@ == wire_of(notification@, replace_target(notification@.id)),
{
    let replace_id = match notification.id {
        Some(i) => i,
        None => 0,
    };
    marshal(notification, replace_id)
}

/// A live notification shown through this backend: the server-assigned
/// identifier together with the snapshot that produced it.
///
/// The connection that issued the `Notify` call belongs exclusively to the
/// owner of this handle and must stay open as long as the handle lives:
/// the action and close signals for the identifier arrive on it.
pub struct DbusNotificationHandle {
    pub id: u32,
    pub notification: Notification,
}

impl DbusNotificationHandle {
    /// Binds a handle to the identifier the server assigned and the
    /// snapshot that was sent.
    pub fn new(id: u32, notification: Notification) -> (r: DbusNotificationHandle)
        ensures
            r.id == id,
            r.notification == notification,
    {
        DbusNotificationHandle { id, notification }
    }

    /// The action the observed signal stream delivers for this handle:
    /// the earliest signal carrying this handle's identifier decides, every
    /// other signal is ignored. `None` asks the owner to keep reading
    /// signals; the wait has no timeout of its own.
    pub fn wait_for_action(self, signals: &Vec<BusSignal>) -> (r: Option<String>)
        ensures
            action_view(r) == first_match(self.id, signals@),
    {
        first_action(self.id, signals)
    }

    /// Closes the shown notification: the handle is spent, and the
    /// returned request must be issued for its identifier.
    pub fn close(self) -> (r: BusRequest)
        ensures
            r == BusRequest::CloseNotification(self.id),
    {
        BusRequest::CloseNotification(self.id)
    }

    /// Whether the wait on the signal stream ended in the notification
    /// being closed: `Some(true)` exactly when the earliest signal for this
    /// handle is the synthetic close marker — only then may a close
    /// callback run — `Some(false)` when it is any other action, `None`
    /// while no signal concerns this handle.
    pub fn on_close(self, signals: &Vec<BusSignal>) -> (r: Option<bool>)
        ensures
            r == match first_match(self.id, signals@) {
                Some(action) => Some(action == "__closed"@),
                None => None::<bool>,
            },
            r == Some(true) ==> first_match(self.id, signals@) == Some("__closed"@),
    {
        match self.wait_for_action(signals) {
            Some(action) => {
                let marker = close_marker().to_owned();
                Some(action == marker)
            },
            None => None,
        }
    }

    /// The `Notify` arguments that re-sending the stored snapshot puts on
    /// the wire: the stored identifier is passed as the replace target, so
    /// the server replaces the notification instead of duplicating it.
    pub fn update_request(&self) -> (r: NotifyRequest)
        ensures
            r@ == wire_of(self.notification@, self.id),
    {
        marshal(&self.notification, self.id)
    }

    /// Applies the server's answer to a re-send: on success the handle
    /// adopts the returned identifier, on failure it keeps the one it had,
    /// and the snapshot stays as it is either way.
    pub fn update(&mut self, reply: Result<u32, Error>) -> (r: Result<(), Error>)
        ensures
            final(self).notification == old(self).notification,
            match reply {
                Ok(id) => final(self).id == id && r == Ok::<(), Error>(()),
                Err(e) => final(self).id == old(self).id && r == Err::<(), Error>(e),
            },
    {
        match reply {
            Ok(id) => {
                self.id = id;
                Ok(())
            },
            Err(e) => Err(e),
        }
    }
}

/// Binds the outcome of this backend's send — a fresh connection, then the
/// `Notify` call described by [`notify_request`] — to a handle: the
/// server's identifier with the snapshot that was sent, or the failure as
/// it occurred.
pub fn connect_and_send_notification(
    notification: &Notification,
    reply: Result<u32, Error>,
) -> (r: Result<DbusNotificationHandle, Error>)
    ensures
        match reply {
            Ok(id) => r matches Ok(h) && h.id == id && h.notification@ == notification@,
            Err(e) => r == Err::<DbusNotificationHandle, Error>(e),
        },
{
    match reply {
        Ok(id) => Ok(DbusNotificationHandle::new(id, notification.clone())),
        Err(e) => Err(e),
    }
}

/// Passes a `GetCapabilities` answer through to the caller: the server's
/// capability strings exactly as advertised, in the server's order,
/// neither sorted nor filtered.
pub fn get_capabilities(reply: Result<Vec<String>, Error>) -> (r: Result<Vec<String>, Error>)
    ensures
        match reply {
            Ok(capabilities) => r matches Ok(c) && c@ == capabilities@,
            Err(e) => r == Err::<Vec<String>, Error>(e),
        },
{
    reply
}

/// Decodes a `GetServerInformation` answer: the reply's four strings
/// become name, vendor, version and specification version, in that order.
pub fn get_server_information(
    reply: Result<(String, String, String, String), Error>,
) -> (r: Result<ServerInformation, Error>)
    ensures
        match reply {
            Ok(t) => r matches Ok(info) && info@.name == t.0@ && info@.vendor == t.1@
                && info@.version == t.2@ && info@.spec_version == t.3@,
            Err(e) => r == Err::<ServerInformation, Error>(e),
        },
{
    match reply {
        Ok(t) => Ok(
            ServerInformation { name: t.0, vendor: t.1, version: t.2, spec_version: t.3 },
        ),
        Err(e) => Err(e),
    }
}

/// The stop hook of a privately run development server: the request to
/// issue. Not part of the real service contract.
pub fn stop_server() -> (r: BusRequest)
    ensures
        r == BusRequest::Stop,
{
    BusRequest::Stop
}

/// The action the observed signal stream delivers for `id`, with a close
/// reported as the synthetic marker: the earliest signal carrying `id`
/// decides, every other signal is ignored.
pub fn handle_action(id: u32, signals: &Vec<BusSignal>) -> (r: Option<String>)
    ensures
        action_view(r) == first_match(id, signals@),
{
    first_action(id, signals)
}

} // verus!
