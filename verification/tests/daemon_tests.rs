use communique::api::{
    action_invoked_signals, compose_notification, dismiss_notification_by_id, expire_millis,
    pair_actions, set_action_close_tx, set_action_tx, urgency_from_hint, BusSignal,
    NotificationDaemon, UiChannels, CLOSED_BY_OWNER,
};
use communique::clock::unix_time_nanos;
use communique::types::{Notification, NotificationUrgency};
use std::sync::mpsc;

fn strings(items: &[&str]) -> Vec<String> {
    items.iter().map(|s| s.to_string()).collect()
}

#[test]
fn urgency_from_known_codes() {
    assert_eq!(NotificationUrgency::from(0u32), NotificationUrgency::Low);
    assert_eq!(NotificationUrgency::from(1u32), NotificationUrgency::Normal);
    assert_eq!(NotificationUrgency::from(2u32), NotificationUrgency::Critical);
}

#[test]
fn urgency_from_unknown_codes_is_normal() {
    assert_eq!(NotificationUrgency::from(3u32), NotificationUrgency::Normal);
    assert_eq!(NotificationUrgency::from(u32::MAX), NotificationUrgency::Normal);
}

#[test]
fn urgency_level_reads_back() {
    for u in [NotificationUrgency::Low, NotificationUrgency::Normal, NotificationUrgency::Critical] {
        assert_eq!(NotificationUrgency::from(u.level()), u);
    }
    assert_eq!(NotificationUrgency::Critical.level(), 2);
}

#[test]
fn urgency_names() {
    assert_eq!(NotificationUrgency::Low.to_string(), "Low");
    assert_eq!(NotificationUrgency::Normal.to_string(), "Normal");
    assert_eq!(NotificationUrgency::Critical.to_string(), "Critical");
}

#[test]
fn urgency_hint_reading() {
    assert_eq!(urgency_from_hint(None), NotificationUrgency::Normal);
    assert_eq!(urgency_from_hint(Some(0)), NotificationUrgency::Low);
    assert_eq!(urgency_from_hint(Some(2)), NotificationUrgency::Critical);
    assert_eq!(urgency_from_hint(Some(200)), NotificationUrgency::Normal);
}

#[test]
fn expire_timeout_conversion() {
    assert_eq!(expire_millis(0), 0);
    assert_eq!(expire_millis(5000), 5000);
    assert_eq!(expire_millis(-1), u64::MAX);
    assert_eq!(expire_millis(i32::MIN), (i32::MIN) as u64);
    assert_eq!(expire_millis(i32::MIN), u64::MAX - (i32::MAX as u64));
}

#[test]
fn actions_are_paired() {
    let pairs = pair_actions(&strings(&["default", "Open", "reply", "Reply"]));
    assert_eq!(
        pairs,
        vec![
            ("default".to_string(), "Open".to_string()),
            ("reply".to_string(), "Reply".to_string())
        ]
    );
}

#[test]
fn odd_trailing_action_is_dropped() {
    let pairs = pair_actions(&strings(&["default", "Open", "dangling"]));
    assert_eq!(pairs, vec![("default".to_string(), "Open".to_string())]);
    assert!(pair_actions(&strings(&["only"])).is_empty());
    assert!(pair_actions(&Vec::new()).is_empty());
}

#[test]
fn pairs_flatten_back_to_even_prefix() {
    let actions = strings(&["a", "A", "b", "B", "c"]);
    let flat: Vec<String> = pair_actions(&actions)
        .into_iter()
        .flat_map(|(k, l)| vec![k, l])
        .collect();
    assert_eq!(flat, actions[..4].to_vec());
}

#[test]
fn composed_notification_fields() {
    let n = compose_notification(
        7,
        "mail".to_string(),
        "/icons/mail.png".to_string(),
        "New mail".to_string(),
        "You have mail".to_string(),
        &strings(&["open", "Open"]),
        Some(2),
        -1,
        1_700_000_000_000_000_000,
    );
    assert_eq!(n.app_name, "mail");
    assert_eq!(n.summary, "New mail");
    assert_eq!(n.body, "You have mail");
    assert_eq!(n.urgency, NotificationUrgency::Critical);
    assert_eq!(n.timestamp, 1_700_000_000_000_000_000);
    assert_eq!(n.icon, Some("/icons/mail.png".to_string()));
    assert_eq!(n.expire_timeout, u64::MAX);
    assert_eq!(n.id, Some(7));
    assert_eq!(n.actions, vec![("open".to_string(), "Open".to_string())]);
}

fn daemon_with_channels() -> (NotificationDaemon, mpsc::Receiver<Notification>, mpsc::Receiver<u32>) {
    let (tx, rx) = mpsc::channel();
    let (close_tx, close_rx) = mpsc::channel();
    (NotificationDaemon::with_tx(tx, close_tx), rx, close_rx)
}

#[test]
fn fresh_daemon_starts_at_one() {
    let (daemon, _rx, _close_rx) = daemon_with_channels();
    assert_eq!(daemon.next_id(), 1);
    assert!(daemon.tx.is_some());
    assert!(daemon.close_tx.is_some());
}

#[test]
fn notify_hands_out_consecutive_ids_and_composes() {
    let (mut daemon, _rx, _close_rx) = daemon_with_channels();
    let now = unix_time_nanos();
    let (first, n1) = daemon.notify(
        "chat".to_string(),
        0,
        "".to_string(),
        "Hi".to_string(),
        "Hello there".to_string(),
        strings(&["default", "Open"]),
        None,
        3000,
        now,
    );
    let (second, n2) = daemon.notify(
        "chat".to_string(),
        first,
        "".to_string(),
        "Again".to_string(),
        "".to_string(),
        Vec::new(),
        Some(0),
        0,
        now + 5,
    );
    assert_eq!(first, 1);
    assert_eq!(second, 2);
    assert_ne!(first, second);
    assert_eq!(daemon.next_id(), 3);

    assert_eq!(n1.id, Some(1));
    assert_eq!(n1.app_name, "chat");
    assert_eq!(n1.summary, "Hi");
    assert_eq!(n1.body, "Hello there");
    assert_eq!(n1.urgency, NotificationUrgency::Normal);
    assert_eq!(n1.icon, Some(String::new()));
    assert_eq!(n1.expire_timeout, 3000);
    assert_eq!(n1.actions, vec![("default".to_string(), "Open".to_string())]);
    assert_eq!(n1.timestamp, now);

    assert_eq!(n2.id, Some(2));
    assert_eq!(n2.summary, "Again");
    assert_eq!(n2.urgency, NotificationUrgency::Low);
    assert!(n2.actions.is_empty());
    assert_eq!(n2.timestamp, now + 5);
    assert!(daemon.tx.is_some());
}

#[test]
fn fresh_daemon_ids_count_up() {
    let (mut daemon, _rx, _close_rx) = daemon_with_channels();
    for k in 1..=100u32 {
        let (id, n) = daemon.notify(
            "a".to_string(),
            0,
            "".to_string(),
            "s".to_string(),
            "b".to_string(),
            Vec::new(),
            None,
            -1,
            0,
        );
        assert_eq!(id, k);
        assert_eq!(n.id, Some(k));
    }
}

#[test]
fn close_notification_answers_id_on_close_channel() {
    let (daemon, _rx, close_rx) = daemon_with_channels();
    let (tx, msg) = daemon.close_notification(42).expect("close channel registered");
    assert_eq!(msg, 42);
    tx.send(msg).unwrap();
    assert_eq!(close_rx.try_recv(), Ok(42));
    let (_, zero) = daemon.close_notification(0).unwrap();
    assert_eq!(zero, 0);
}

#[test]
fn capabilities_and_server_information() {
    let (daemon, _rx, _close_rx) = daemon_with_channels();
    assert_eq!(
        daemon.get_capabilities(),
        strings(&["actions", "body", "body-markup", "body-hyperlinks"])
    );
    let (name, vendor, version, spec) = daemon.get_server_information();
    assert_eq!(name, "Notifications-RS");
    assert_eq!(vendor, "N/A");
    assert_eq!(version, "0.1");
    assert_eq!(spec, "1.3");
}

#[test]
fn dismiss_without_close_channel_sends_nothing() {
    let channels = UiChannels::new();
    assert!(!channels.has_close_tx());
    assert!(!channels.has_action_tx());
    assert!(dismiss_notification_by_id(&channels, 5).is_none());
}

#[test]
fn first_close_channel_stays() {
    let mut channels = UiChannels::new();
    let (first_tx, first_rx) = mpsc::channel();
    let (second_tx, second_rx) = mpsc::channel();
    set_action_close_tx(&mut channels, first_tx);
    set_action_close_tx(&mut channels, second_tx);
    assert!(channels.has_close_tx());
    let (tx, msg) = dismiss_notification_by_id(&channels, 9).expect("close channel registered");
    assert_eq!(msg, 9);
    tx.send(msg).unwrap();
    let (tx, msg) = dismiss_notification_by_id(&channels, 10).unwrap();
    tx.send(msg).unwrap();
    assert_eq!(first_rx.try_recv(), Ok(9));
    assert_eq!(first_rx.try_recv(), Ok(10));
    assert!(second_rx.try_recv().is_err());
}

#[test]
fn action_channel_registration() {
    let mut channels = UiChannels::new();
    let (tx, _rx) = mpsc::channel::<(u32, String)>();
    set_action_tx(&mut channels, tx);
    assert!(channels.has_action_tx());
    assert!(!channels.has_close_tx());
    let (tx2, _rx2) = mpsc::channel::<(u32, String)>();
    set_action_tx(&mut channels, tx2);
    assert!(channels.has_action_tx());
}

#[test]
fn action_signals_without_connection() {
    assert!(action_invoked_signals(false, 4, "default").is_empty());
}

#[test]
fn action_signals_with_connection() {
    let signals = action_invoked_signals(true, 4, "reply");
    assert_eq!(signals.len(), 2);
    match &signals[0] {
        BusSignal::ActionInvoked { id, action_key } => {
            assert_eq!(*id, 4);
            assert_eq!(action_key, "reply");
        }
        other => panic!("unexpected first signal {:?}", other),
    }
    match &signals[1] {
        BusSignal::NotificationClosed { id, reason } => {
            assert_eq!(*id, 4);
            assert_eq!(*reason, CLOSED_BY_OWNER);
            assert_eq!(*reason, 3);
        }
        other => panic!("unexpected second signal {:?}", other),
    }
    assert_eq!(signals[0].member(), "ActionInvoked");
    assert_eq!(signals[1].member(), "NotificationClosed");
}
