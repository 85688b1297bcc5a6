//! The wire-level surface of the notification service: the method calls a
//! client issues, and the signals a server emits for shown notifications.
//!
//! Requests are plain values; the unverified rim serialises them onto a bus
//! connection. Signals arrive from the rim as plain values; the functions
//! here decide which of them concern a given notification identifier.

use vstd::prelude::*;

use crate::notification::pair_views;
use crate::notification::string_views;

verus! {

/// The positional arguments of one `Notify` call: show a new notification
/// (`replace_id` zero) or replace the one the server knows under
/// `replace_id`.
pub struct NotifyRequest {
    pub appname: String,
    pub replace_id: u32,
    pub icon: String,
    pub summary: String,
    pub body: String,
    pub actions: Vec<String>,
    pub hints: Vec<(String, String)>,
    pub timeout: i32,
}

/// The mathematical value of a [`NotifyRequest`]: the argument tuple as it
/// goes onto the wire.
#[verifier::ext_equal]
pub struct NotifyRequestView {
    pub appname: Seq<char>,
    pub replace_id: u32,
    pub icon: Seq<char>,
    pub summary: Seq<char>,
    pub body: Seq<char>,
    pub actions: Seq<Seq<char>>,
    pub hints: Seq<(Seq<char>, Seq<char>)>,
    pub timeout: i32,
}

impl View for NotifyRequest {
    type V = NotifyRequestView;

    open spec fn view(&self) -> NotifyRequestView {
        NotifyRequestView {
            appname: self.appname@,
            replace_id: self.replace_id,
            icon: self.icon@,
            summary: self.summary@,
            body: self.body@,
            actions: string_views(self.actions@),
            hints: pair_views(self.hints@),
            timeout: self.timeout,
        }
    }
}

/// One method call against the notification service.
///
/// `Stop` is strictly internal: it addresses a privately run development
/// server, not the real service contract.
pub enum BusRequest {
    Notify(NotifyRequest),
    CloseNotification(u32),
    GetCapabilities,
    GetServerInformation,
    Stop,
}

/// One signal observed on the connection that sent a notification.
///
/// `NotificationClosed` carries the server's reason code; the session layer
/// re-exposes it to callers as the synthetic action name `"__closed"`.
pub enum BusSignal {
    ActionInvoked { id: u32, action: String },
    NotificationClosed { id: u32, reason: u32 },
}

/// The identifier a notification request asks the server to replace:
/// the previously assigned identifier, or zero for a fresh notification.
pub open spec fn replace_target(id: Option<u32>) -> u32 {
    match id {
        Some(i) => i,
        None => 0,
    }
}

/// The notification identifier a signal carries.
pub open spec fn signal_id(signal: BusSignal) -> u32 {
    match signal {
        BusSignal::ActionInvoked { id, action } => id,
        BusSignal::NotificationClosed { id, reason } => id,
    }
}

/// The action name a signal stands for: the invoked action itself, or the
/// synthetic close marker when the server closed the notification.
pub open spec fn signal_action(signal: BusSignal) -> Seq<char> {
    match signal {
        BusSignal::ActionInvoked { id, action } => action@,
        BusSignal::NotificationClosed { id, reason } => "__closed"@,
    }
}

/// The action delivered for `id` by the earliest signal that carries `id`;
/// `None` while no observed signal does.
pub open spec fn first_match(id: u32, signals: Seq<BusSignal>) -> Option<Seq<char>>
    decreases signals.len(),
{
    if signals.len() == 0 {
        None
    } else if signal_id(signals[0]) == id {
        Some(signal_action(signals[0]))
    } else {
        first_match(id, signals.skip(1))
    }
}

/// The view of an optionally delivered action name.
pub open spec fn action_view(r: Option<String>) -> Option<Seq<char>> {
    match r {
        Some(s) => Some(s@),
        None => None,
    }
}

/// Signals addressed to other identifiers never change what a wait
/// delivers: inserting a signal that carries a different identifier
/// anywhere into the observed stream leaves the first match as it was.
pub proof fn lemma_first_match_ignores_foreign(
    id: u32,
    signals: Seq<BusSignal>,
    k: int,
    foreign: BusSignal,
)
    requires
        0 <= k <= signals.len(),
        signal_id(foreign) != id,
    ensures
        first_match(id, signals.insert(k, foreign)) == first_match(id, signals),
    decreases signals.len(),
{
    let extended = signals.insert(k, foreign);
    if k == 0 {
        assert(extended[0] == foreign);
        assert(extended.skip(1) =~= signals);
    } else {
        assert(extended[0] == signals[0]);
        if signal_id(signals[0]) != id {
            assert(extended.skip(1) =~= signals.skip(1).insert(k - 1, foreign));
            lemma_first_match_ignores_foreign(id, signals.skip(1), k - 1, foreign);
        }
    }
}

/// A delivered action always originates from a signal that carries the
/// asked identifier: a wait can never be triggered by an unrelated
/// notification alone.
pub proof fn lemma_first_match_from_own_signal(id: u32, signals: Seq<BusSignal>)
    requires
        first_match(id, signals) is Some,
    ensures
        exists|k: int|
            0 <= k < signals.len() && signal_id(signals[k]) == id && signal_action(signals[k])
                == first_match(id, signals)->Some_0,
    decreases signals.len(),
{
    if signal_id(signals[0]) == id {
        assert(signal_action(signals[0]) == first_match(id, signals)->Some_0);
    } else {
        lemma_first_match_from_own_signal(id, signals.skip(1));
        let k = choose|k: int|
            0 <= k < signals.skip(1).len() && signal_id(signals.skip(1)[k]) == id && signal_action(
                signals.skip(1)[k],
            ) == first_match(id, signals.skip(1))->Some_0;
        assert(signals.skip(1)[k] == signals[k + 1]);
        assert(signal_id(signals[k + 1]) == id && signal_action(signals[k + 1]) == first_match(
            id,
            signals,
        )->Some_0);
    }
}

/// The well-known bus name of the notification service, which also names
/// its method interface.
pub fn notification_namespace() -> (r: &'static str)
    ensures
        r@ == "org.freedesktop.Notifications"@,
{
    "org.freedesktop.Notifications"
}

/// The well-known object path the notification service is reached under.
pub fn notification_objectpath() -> (r: &'static str)
    ensures
        r@ == "/org/freedesktop/Notifications"@,
{
    "/org/freedesktop/Notifications"
}

/// The synthetic action name under which a `NotificationClosed` signal is
/// reported to callers.
pub fn close_marker() -> (r: &'static str)
    ensures
        r@ == "__closed"@,
{
    "__closed"
}

/// The method name a request is invoked under on the service interface.
pub fn method_name(request: &BusRequest) -> (r: &'static str)
    ensures
        r@ == match *request {
            BusRequest::Notify(_) => "Notify"@,
            BusRequest::CloseNotification(_) => "CloseNotification"@,
            BusRequest::GetCapabilities => "GetCapabilities"@,
            BusRequest::GetServerInformation => "GetServerInformation"@,
            BusRequest::Stop => "Stop"@,
        },
{
    match request {
        BusRequest::Notify(_) => "Notify",
        BusRequest::CloseNotification(_) => "CloseNotification",
        BusRequest::GetCapabilities => "GetCapabilities",
        BusRequest::GetServerInformation => "GetServerInformation",
        BusRequest::Stop => "Stop",
    }
}

/// The action a single signal delivers for `id`: its action name (with a
/// close reported as the synthetic marker) when the signal carries `id`,
/// and nothing when it concerns another notification.
pub fn match_signal(id: u32, signal: &BusSignal) -> (r: Option<String>)
    ensures
        action_view(r) == if signal_id(*signal) == id {
            Some(signal_action(*signal))
        } else {
            None::<Seq<char>>
        },
{
    match signal {
        BusSignal::ActionInvoked { id: signal_id, action } => {
            if *signal_id == id {
                Some(action.clone())
            } else {
                None
            }
        },
        BusSignal::NotificationClosed { id: signal_id, reason: _ } => {
            if *signal_id == id {
                Some(close_marker().to_owned())
            } else {
                None
            }
        },
    }
}

/// The action delivered for `id` by the earliest matching signal of an
/// observed stream, or `None` while no signal concerns `id` and the wait
/// must go on.
pub fn first_action(id: u32, signals: &Vec<BusSignal>) -> (r: Option<String>)
    ensures
        action_view(r) == first_match(id, signals@),
{
    let n = signals.len();
    let mut i: usize = 0;
    proof {
        assert(signals@.skip(0) =~= signals@);
    }
    while i < n
        invariant
            n == signals@.len(),
            i <= n,
            first_match(id, signals@) == first_match(id, signals@.skip(i as int)),
        decreases n - i,
    {
        proof {
            assert(signals@.skip(i as int)[0] == signals@[i as int]);
        }
        let matched = match_signal(id, &signals[i]);
        if matched.is_some() {
            return matched;
        }
        proof {
            assert(signals@.skip(i as int).skip(1) =~= signals@.skip(i as int + 1));
        }
        i = i + 1;
    }
    proof {
        assert(signals@.skip(n as int) =~= Seq::<BusSignal>::empty());
    }
    None
}

} // verus!
