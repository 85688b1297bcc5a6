use notify_rust::Backend;
use notify_rust::BusRequest;
use notify_rust::BusSignal;
use notify_rust::Error;
use notify_rust::Notification;
use notify_rust::close_marker;
use notify_rust::get_capabilities;
use notify_rust::get_server_information;
use notify_rust::handle_action;
use notify_rust::select_backend;
use notify_rust::show_notification;
use notify_rust::show_request;
use notify_rust::stop_server;

fn sample_notification() -> Notification {
    Notification {
        appname: "t".to_owned(),
        icon: "".to_owned(),
        summary: "hi".to_owned(),
        body: "".to_owned(),
        actions: Vec::new(),
        hints: Vec::new(),
        timeout: -1,
        id: None,
    }
}

fn rich_notification() -> Notification {
    Notification {
        appname: "mailer".to_owned(),
        icon: "mail-unread".to_owned(),
        summary: "New mail".to_owned(),
        body: "Two unread messages".to_owned(),
        actions: vec!["open".to_owned(), "dismiss".to_owned()],
        hints: vec![("urgency".to_owned(), "1".to_owned())],
        timeout: 5000,
        id: None,
    }
}

#[test]
fn show_assigns_delivered_identifier() {
    let n = sample_notification();
    let handle = show_notification(&n, Backend::Legacy, Ok(1)).unwrap();
    assert_ne!(handle.id(), 0);
    assert_eq!(handle.id(), 1);
}

#[test]
fn show_then_server_information_keeps_identifier() {
    let n = rich_notification();
    let handle = show_notification(&n, Backend::Legacy, Ok(7)).unwrap();
    let info = get_server_information(
        Backend::Legacy,
        Ok((
            "demo".to_owned(),
            "vendor".to_owned(),
            "1.0".to_owned(),
            "1.2".to_owned(),
        )),
    )
    .unwrap();
    assert_eq!(info.name, "demo");
    assert_eq!(handle.id(), 7);
}

#[test]
fn update_is_idempotent_in_identifier() {
    let n = rich_notification();
    let mut handle = show_notification(&n, Backend::Legacy, Ok(9)).unwrap();
    // A server that preserves identifiers on replace answers each
    // re-send of this handle with the identifier it already has.
    let first = handle.update(Ok(handle.id()));
    assert!(first.is_ok());
    let id_after_first = handle.id();
    let second = handle.update(Ok(handle.id()));
    assert!(second.is_ok());
    assert_eq!(id_after_first, 9);
    assert_eq!(handle.id(), id_after_first);
}

#[test]
fn failed_update_keeps_identifier_and_surfaces_error() {
    let n = rich_notification();
    let mut handle = show_notification(&n, Backend::Modern, Ok(12)).unwrap();
    let r = handle.update(Err(Error::Bus));
    assert_eq!(r, Err(Error::Bus));
    assert_eq!(handle.id(), 12);
}

#[test]
fn on_close_reports_only_the_close_marker() {
    let n = sample_notification();
    let handle = show_notification(&n, Backend::Legacy, Ok(3)).unwrap();
    let signals = vec![
        BusSignal::ActionInvoked {
            id: 3,
            action: "open".to_owned(),
        },
    ];
    // The first signal for this handle is an ordinary action: a close
    // callback must not run.
    assert_eq!(handle.on_close(&signals), Some(false));

    let handle = show_notification(&n, Backend::Legacy, Ok(4)).unwrap();
    let signals = vec![BusSignal::NotificationClosed { id: 4, reason: 2 }];
    assert_eq!(handle.on_close(&signals), Some(true));
}

#[test]
fn on_close_keeps_waiting_without_a_matching_signal() {
    let n = sample_notification();
    let handle = show_notification(&n, Backend::Modern, Ok(5)).unwrap();
    let signals = vec![BusSignal::NotificationClosed { id: 44, reason: 1 }];
    assert_eq!(handle.on_close(&signals), None);
}

#[test]
fn wait_for_action_ignores_foreign_identifiers() {
    let n = sample_notification();
    let handle = show_notification(&n, Backend::Legacy, Ok(21)).unwrap();
    let signals = vec![
        BusSignal::ActionInvoked {
            id: 99,
            action: "foreign".to_owned(),
        },
        BusSignal::NotificationClosed { id: 98, reason: 3 },
        BusSignal::ActionInvoked {
            id: 21,
            action: "open".to_owned(),
        },
        BusSignal::ActionInvoked {
            id: 21,
            action: "later".to_owned(),
        },
    ];
    assert_eq!(handle.wait_for_action(&signals), Some("open".to_owned()));

    let handle = show_notification(&n, Backend::Legacy, Ok(21)).unwrap();
    let only_foreign = vec![
        BusSignal::ActionInvoked {
            id: 99,
            action: "foreign".to_owned(),
        },
    ];
    assert_eq!(handle.wait_for_action(&only_foreign), None);
}

#[test]
fn close_signal_is_reported_under_the_synthetic_marker() {
    let signals = vec![BusSignal::NotificationClosed { id: 6, reason: 1 }];
    assert_eq!(handle_action(6, &signals), Some(close_marker().to_owned()));
    assert_eq!(handle_action(6, &signals), Some("__closed".to_owned()));
}

#[test]
fn backends_marshal_the_same_wire_tuple() {
    let n = rich_notification();
    let legacy = show_request(&n, Backend::Legacy);
    let modern = show_request(&n, Backend::Modern);
    assert_eq!(legacy.appname, modern.appname);
    assert_eq!(legacy.replace_id, modern.replace_id);
    assert_eq!(legacy.icon, modern.icon);
    assert_eq!(legacy.summary, modern.summary);
    assert_eq!(legacy.body, modern.body);
    assert_eq!(legacy.actions, modern.actions);
    assert_eq!(legacy.hints, modern.hints);
    assert_eq!(legacy.timeout, modern.timeout);
}

#[test]
fn marshalling_the_sample_payload() {
    let n = sample_notification();
    let request = show_request(&n, Backend::Legacy);
    assert_eq!(request.appname, "t");
    assert_eq!(request.replace_id, 0);
    assert_eq!(request.icon, "");
    assert_eq!(request.summary, "hi");
    assert_eq!(request.body, "");
    assert!(request.actions.is_empty());
    assert!(request.hints.is_empty());
    assert_eq!(request.timeout, -1);
}

#[test]
fn a_previously_assigned_identifier_becomes_the_replace_target() {
    let mut n = rich_notification();
    n.id = Some(17);
    let request = show_request(&n, Backend::Modern);
    assert_eq!(request.replace_id, 17);
}

#[test]
fn update_resends_the_stored_snapshot_under_the_stored_identifier() {
    let n = rich_notification();
    let mut handle = show_notification(&n, Backend::Legacy, Ok(30)).unwrap();
    let request = handle.update_request();
    assert_eq!(request.replace_id, 30);
    assert_eq!(request.summary, "New mail");

    let mut changed = rich_notification();
    changed.summary = "New mail (correction)".to_owned();
    handle.set_notification(changed);
    let request = handle.update_request();
    assert_eq!(request.replace_id, 30);
    assert_eq!(request.summary, "New mail (correction)");
}

#[test]
fn the_snapshot_is_independent_of_the_callers_value() {
    let mut n = rich_notification();
    let handle = show_notification(&n, Backend::Legacy, Ok(2)).unwrap();
    n.summary = "changed afterwards".to_owned();
    assert_eq!(handle.notification().summary, "New mail");
}

#[test]
fn capabilities_come_back_in_server_order() {
    let reply = vec!["actions".to_owned(), "body".to_owned()];
    let capabilities = get_capabilities(Ok(reply)).unwrap();
    assert_eq!(capabilities, vec!["actions".to_owned(), "body".to_owned()]);
}

#[test]
fn capability_errors_pass_through() {
    assert_eq!(get_capabilities(Err(Error::Bus)), Err(Error::Bus));
}

#[test]
fn server_information_decodes_the_four_strings_in_order() {
    for backend in [Backend::Legacy, Backend::Modern] {
        let info = get_server_information(
            backend,
            Ok((
                "name".to_owned(),
                "vendor".to_owned(),
                "2.1".to_owned(),
                "1.2".to_owned(),
            )),
        )
        .unwrap();
        assert_eq!(info.name, "name");
        assert_eq!(info.vendor, "vendor");
        assert_eq!(info.version, "2.1");
        assert_eq!(info.spec_version, "1.2");
    }
}

#[test]
fn server_information_decode_errors_pass_through() {
    let r = get_server_information(Backend::Modern, Err(Error::Decode));
    assert!(matches!(r, Err(Error::Decode)));
}

#[test]
fn a_failed_send_surfaces_the_bus_error() {
    let n = sample_notification();
    let r = show_notification(&n, Backend::Legacy, Err(Error::Bus));
    assert!(matches!(r, Err(Error::Bus)));
    let r = show_notification(&n, Backend::Modern, Err(Error::Decode));
    assert!(matches!(r, Err(Error::Decode)));
}

#[test]
fn close_issues_the_call_for_this_handle() {
    let n = sample_notification();
    let handle = show_notification(&n, Backend::Modern, Ok(8)).unwrap();
    match handle.close() {
        BusRequest::CloseNotification(id) => assert_eq!(id, 8),
        _ => panic!("close must issue CloseNotification"),
    }
}

#[test]
fn the_environment_toggle_picks_the_backend() {
    assert_eq!(select_backend(false), Backend::Legacy);
    assert_eq!(select_backend(true), Backend::Modern);
    assert_eq!(notify_rust::capabilities_backend(true), Backend::Legacy);
    assert_eq!(notify_rust::capabilities_backend(false), Backend::Legacy);
}

#[test]
fn stop_addresses_the_development_server() {
    assert!(matches!(stop_server(), BusRequest::Stop));
}
