use notify_rust::Backend;
use notify_rust::BusRequest;
use notify_rust::BusSignal;
use notify_rust::Notification;
use notify_rust::first_action;
use notify_rust::match_signal;
use notify_rust::method_name;
use notify_rust::notification_namespace;
use notify_rust::notification_objectpath;
use notify_rust::show_request;

fn notify_request() -> BusRequest {
    let n = Notification {
        appname: "t".to_owned(),
        icon: "".to_owned(),
        summary: "hi".to_owned(),
        body: "".to_owned(),
        actions: Vec::new(),
        hints: Vec::new(),
        timeout: -1,
        id: None,
    };
    BusRequest::Notify(show_request(&n, Backend::Legacy))
}

#[test]
fn the_service_is_reached_under_its_well_known_names() {
    assert_eq!(notification_namespace(), "org.freedesktop.Notifications");
    assert_eq!(notification_objectpath(), "/org/freedesktop/Notifications");
}

#[test]
fn every_request_is_invoked_under_its_method_name() {
    assert_eq!(method_name(&notify_request()), "Notify");
    assert_eq!(method_name(&BusRequest::CloseNotification(5)), "CloseNotification");
    assert_eq!(method_name(&BusRequest::GetCapabilities), "GetCapabilities");
    assert_eq!(method_name(&BusRequest::GetServerInformation), "GetServerInformation");
    assert_eq!(method_name(&BusRequest::Stop), "Stop");
}

#[test]
fn a_single_signal_is_matched_by_identifier() {
    let ours = BusSignal::ActionInvoked {
        id: 11,
        action: "open".to_owned(),
    };
    assert_eq!(match_signal(11, &ours), Some("open".to_owned()));
    assert_eq!(match_signal(12, &ours), None);

    let closed = BusSignal::NotificationClosed { id: 11, reason: 2 };
    assert_eq!(match_signal(11, &closed), Some("__closed".to_owned()));
    assert_eq!(match_signal(12, &closed), None);
}

#[test]
fn an_empty_stream_delivers_nothing() {
    let signals: Vec<BusSignal> = Vec::new();
    assert_eq!(first_action(11, &signals), None);
}
