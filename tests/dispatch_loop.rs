use stream_watcher::data::{InternalMessage, StreamData};
use stream_watcher::dispatch::{priming_events, Action, Dispatcher, SubscriptionKind};
use stream_watcher::recorder::{output_path, recording_timestamp};

fn ids(v: &[&str]) -> Vec<String> {
    v.iter().map(|s| s.to_string()).collect()
}

fn init(session: &str) -> InternalMessage {
    InternalMessage::Init { session: session.to_string() }
}

fn subscribe_ids(actions: &[Action]) -> Vec<(String, String, SubscriptionKind)> {
    actions
        .iter()
        .filter_map(|a| match a {
            Action::Subscribe { session, broadcaster_id, kind } => {
                Some((session.clone(), broadcaster_id.clone(), *kind))
            }
            _ => None,
        })
        .collect()
}

#[test]
fn init_subscribes_twice_per_broadcaster_in_order() {
    let mut d = Dispatcher::new(ids(&["11", "22", "33"]), "/rec".to_string());
    let actions = d.handle(&init("s1"), "t");
    assert_eq!(actions.len(), 12);
    let subs = subscribe_ids(&actions);
    assert_eq!(subs.len(), 6);
    let expected = [
        ("11", SubscriptionKind::StreamOnline),
        ("11", SubscriptionKind::StreamOffline),
        ("22", SubscriptionKind::StreamOnline),
        ("22", SubscriptionKind::StreamOffline),
        ("33", SubscriptionKind::StreamOnline),
        ("33", SubscriptionKind::StreamOffline),
    ];
    for (got, want) in subs.iter().zip(expected.iter()) {
        assert_eq!(got.0, "s1");
        assert_eq!(got.1, want.0);
        assert_eq!(got.2, want.1);
    }
    for pair in actions.windows(2) {
        if let Action::Subscribe { .. } = pair[0] {
            assert!(matches!(pair[1], Action::Pause { millis } if millis >= 400));
        }
    }
    assert!(!d.has_pending());
}

#[test]
fn init_with_no_broadcasters_issues_nothing() {
    let mut d = Dispatcher::new(Vec::new(), "/rec".to_string());
    assert!(d.handle(&init("s1"), "t").is_empty());
}

#[test]
fn reconnect_then_init_hands_off_after_welcome() {
    let mut d = Dispatcher::new(ids(&["11"]), "/rec".to_string());
    let a = d.handle(
        &InternalMessage::Reconnect { session: "s1".to_string(), url: "u2".to_string() },
        "t",
    );
    assert_eq!(a.len(), 1);
    assert!(matches!(&a[0], Action::OpenReplacement { url } if url == "u2"));
    assert!(d.has_pending());
    let mid = d.handle(&InternalMessage::StreamStop { channel: "foo".to_string() }, "t");
    assert!(mid.iter().all(|x| !matches!(x, Action::CloseRetired)));
    let b = d.handle(&init("s2"), "t");
    assert_eq!(b.len(), 3);
    assert!(matches!(b[0], Action::CloseRetired));
    assert!(matches!(b[1], Action::AwaitRetired));
    assert!(matches!(b[2], Action::AdoptPending));
    assert!(!d.has_pending());
    // a later welcome subscribes again
    let c = d.handle(&init("s3"), "t");
    assert_eq!(subscribe_ids(&c).len(), 2);
}

#[test]
fn stream_live_starts_recording_at_expected_path() {
    let stamp = recording_timestamp(1704067200).unwrap();
    assert_eq!(stamp, "2024-01-01T00:00:00Z");
    let mut d = Dispatcher::new(ids(&["11"]), "/rec".to_string());
    let a = d.handle(&InternalMessage::StreamLive { channel: "foo".to_string() }, &stamp);
    assert_eq!(a.len(), 1);
    match &a[0] {
        Action::StartRecording { channel, path } => {
            assert_eq!(channel, "foo");
            assert_eq!(path, "/rec/foo/2024-01-01T00:00:00Z.mp4");
        }
        _ => panic!("expected a recording"),
    }
    assert_eq!(d.recordings().len(), 1);
}

#[test]
fn stream_stop_keeps_active_recording() {
    let mut d = Dispatcher::new(ids(&["11"]), "/rec".to_string());
    d.handle(&InternalMessage::StreamLive { channel: "foo".to_string() }, "a");
    let a = d.handle(&InternalMessage::StreamStop { channel: "foo".to_string() }, "b");
    assert!(a.is_empty());
    assert_eq!(d.recordings().len(), 1);
    assert_eq!(d.recordings()[0].channel, "foo");
    assert_eq!(d.recordings()[0].path, "/rec/foo/a.mp4");
}

#[test]
fn debug_and_ignored_do_nothing() {
    let mut d = Dispatcher::new(ids(&["11"]), "/rec".to_string());
    assert!(d.handle(&InternalMessage::Debug { info: "x".to_string() }, "t").is_empty());
    assert!(d.handle(&InternalMessage::DontHandle, "t").is_empty());
    assert!(d.recordings().is_empty());
}

fn describe(actions: &[Action]) -> Vec<String> {
    actions.iter().map(|a| format!("{:?}", a)).collect()
}

#[test]
fn replay_gives_same_actions() {
    let events = vec![
        (init("s1"), "t0".to_string()),
        (InternalMessage::StreamLive { channel: "foo".to_string() }, "t1".to_string()),
        (
            InternalMessage::Reconnect { session: "s1".to_string(), url: "u2".to_string() },
            "t2".to_string(),
        ),
        (InternalMessage::StreamStop { channel: "foo".to_string() }, "t3".to_string()),
        (init("s2"), "t4".to_string()),
        (InternalMessage::StreamLive { channel: "bar".to_string() }, "t5".to_string()),
    ];
    let mut d1 = Dispatcher::new(ids(&["11", "22"]), "/rec".to_string());
    let mut d2 = Dispatcher::new(ids(&["11", "22"]), "/rec".to_string());
    let a1 = d1.handle_all(&events);
    let a2 = d2.handle_all(&events);
    assert_eq!(describe(&a1), describe(&a2));
    assert_eq!(a1.len(), 8 + 1 + 1 + 3 + 1);
    // replaying once more from a state with recordings gives the same decisions
    let a3 = d1.handle_all(&events[..2].to_vec());
    assert_eq!(describe(&a3), describe(&a1[..9]));
}

#[test]
fn priming_emits_live_channels_only() {
    let stream = |login: &str, kind: &str| StreamData {
        id: "1".to_string(),
        user_id: "2".to_string(),
        user_login: login.to_string(),
        game_name: "g".to_string(),
        stream_type: kind.to_string(),
        title: "t".to_string(),
        started_at: 0,
    };
    let events = priming_events(&vec![stream("foo", "live"), stream("bar", "")]);
    assert_eq!(events.len(), 1);
    assert!(matches!(&events[0], InternalMessage::StreamLive { channel } if channel == "foo"));
    assert!(priming_events(&Vec::new()).is_empty());
}

#[test]
fn output_path_joins_components() {
    assert_eq!(output_path("/rec/", "foo", "x"), "/rec/foo/x.mp4");
    assert_eq!(output_path("", "foo", "x"), "foo/x.mp4");
    assert_eq!(output_path("rec", "foo", "x"), "rec/foo/x.mp4");
}
