use communique::clock::{
    clock_label, elapsed_seconds, local_utc_offset, nanos_from_reading, unix_time_nanos,
    CLOCK_RANGE_SECS,
};
use communique::types::{Notification, NotificationUrgency};
use communique::ui::{
    decimal_string, hides_window, plan_row, relative_label, timestamp_label, urgency_class,
    PopupAction, PopupEvent, RowTracker,
};

fn sample(actions: Vec<(String, String)>, id: Option<u32>, icon: Option<&str>, expire: u64) -> Notification {
    Notification {
        app_name: "app".to_string(),
        summary: "s".to_string(),
        body: "b".to_string(),
        urgency: NotificationUrgency::Critical,
        timestamp: 0,
        icon: icon.map(|s| s.to_string()),
        expire_timeout: expire,
        id,
        actions,
    }
}

#[test]
fn urgency_classes() {
    assert_eq!(urgency_class(NotificationUrgency::Low), "urgency-low");
    assert_eq!(urgency_class(NotificationUrgency::Normal), "urgency-normal");
    assert_eq!(urgency_class(NotificationUrgency::Critical), "urgency-critical");
}

#[test]
fn decimal_writing() {
    assert_eq!(decimal_string(0), "0");
    assert_eq!(decimal_string(7), "7");
    assert_eq!(decimal_string(10), "10");
    assert_eq!(decimal_string(59), "59");
    assert_eq!(decimal_string(u64::MAX), "18446744073709551615");
}

#[test]
fn decimal_reads_back() {
    for n in [0u64, 1, 9, 10, 99, 100, 12345, 1 << 40, u64::MAX] {
        assert_eq!(decimal_string(n).parse::<u64>().unwrap(), n);
        assert_eq!(decimal_string(n), n.to_string());
    }
}

#[test]
fn relative_labels() {
    assert_eq!(relative_label(0), Some("0 seconds ago".to_string()));
    assert_eq!(relative_label(1), Some("1 seconds ago".to_string()));
    assert_eq!(relative_label(59), Some("59 seconds ago".to_string()));
    assert_eq!(relative_label(60), None);
    assert_eq!(relative_label(3600), None);
}

const MS: i128 = 1_000_000;
const S: i128 = 1_000_000_000;

#[test]
fn elapsed_whole_seconds() {
    assert_eq!(elapsed_seconds(1000 * MS, 2999 * MS), 1);
    assert_eq!(elapsed_seconds(1000 * MS, 1000 * MS), 0);
    assert_eq!(elapsed_seconds(0, 60 * S), 60);
    assert_eq!(elapsed_seconds(5000 * MS, 1000 * MS), 0);
    // A reception at 0.9 ms shown at 1000.1 ms is still under a second old.
    assert_eq!(elapsed_seconds(900_000, 1_000_100_000), 0);
    // Before the epoch the count goes on as usual.
    assert_eq!(elapsed_seconds(-5 * S, 5 * S), 10);
    assert_eq!(elapsed_seconds(-70 * S, -5 * S), 65);
    assert_eq!(elapsed_seconds(i128::MIN, i128::MAX), u64::MAX);
}

#[test]
fn timestamp_label_under_a_minute_keeps_ticking() {
    assert_eq!(timestamp_label(10 * S, 10 * S, Some(0)), (Some("0 seconds ago".to_string()), true));
    assert_eq!(timestamp_label(10 * S, 70 * S - 1, Some(0)), (Some("59 seconds ago".to_string()), true));
    assert_eq!(timestamp_label(10 * S, 5 * S, None), (Some("0 seconds ago".to_string()), true));
}

#[test]
fn timestamp_label_after_a_minute_shows_reception_time() {
    // 1_700_000_000 s is 22:13:20 UTC.
    assert_eq!(
        timestamp_label(1_700_000_000 * S, 1_700_000_060 * S, Some(0)),
        (Some("22:13".to_string()), false)
    );
    assert_eq!(
        timestamp_label(1_700_000_000 * S, 1_700_003_600 * S, Some(3600)),
        (Some("23:13".to_string()), false)
    );
    assert_eq!(timestamp_label(1_700_000_000 * S, 1_700_000_060 * S, None), (None, false));
}

#[test]
fn clock_labels() {
    assert_eq!(clock_label(0, 0), "00:00");
    assert_eq!(clock_label(1_700_000_000 * S, 0), "22:13");
    assert_eq!(clock_label(1_700_000_000 * S + 999_999_999, 0), "22:13");
    assert_eq!(clock_label(1_700_000_000 * S, 3600), "23:13");
    assert_eq!(clock_label(1_700_000_000 * S, -7200), "20:13");
    assert_eq!(clock_label(1_700_000_000 * S, 5 * 3600 + 1800), "03:43");
    assert_eq!(clock_label(-1, 0), "23:59");
    assert_eq!(clock_label(-86_400 * S, 0), "00:00");
    assert_eq!(clock_label(0, -1), "23:59");
}

#[test]
fn clock_label_matches_chrono_local_time() {
    for secs in [0i64, 1_700_000_000, 1_234_567_890, -1_000_000] {
        let offset = local_utc_offset(secs as i128 * S).expect("offset within range");
        let expected = chrono::DateTime::<chrono::Utc>::from_timestamp(secs, 0)
            .unwrap()
            .with_timezone(&chrono::Local)
            .format("%H:%M")
            .to_string();
        assert_eq!(clock_label(secs as i128 * S, offset), expected);
    }
}

#[test]
fn local_offsets_within_range() {
    let edge = CLOCK_RANGE_SECS as i128 * S;
    for t in [0, edge, -edge, edge / 2, 1_700_000_000 * S] {
        let o = local_utc_offset(t).expect("offset within range");
        assert!(-86_400 < o && o < 86_400);
    }
    assert_eq!(local_utc_offset(i128::MAX), None);
    assert_eq!(local_utc_offset(i128::MIN), None);
}

#[test]
fn clock_readings_to_nanos() {
    assert_eq!(nanos_from_reading(Ok(0)), 0);
    assert_eq!(nanos_from_reading(Ok(1_700_000_000_123_456_789)), 1_700_000_000_123_456_789);
    assert_eq!(nanos_from_reading(Err(5)), -5);
    assert_eq!(nanos_from_reading(Ok(u128::MAX)), i128::MAX);
    assert_eq!(nanos_from_reading(Err(1u128 << 127)), i128::MIN);
    assert_eq!(nanos_from_reading(Err(u128::MAX)), i128::MIN);
}

#[test]
fn current_time_is_after_2020() {
    assert!(unix_time_nanos() > 1_577_836_800 * S);
}

#[test]
fn row_plan_with_actions() {
    let n = sample(
        vec![("default".to_string(), "Open".to_string())],
        Some(12),
        Some(""),
        0,
    );
    let plan = plan_row(&n);
    assert_eq!(plan.urgency_class, "urgency-critical");
    assert!(!plan.dismiss_on_click);
    assert!(plan.show_actions);
    assert_eq!(plan.expiry_ms, None);
    assert_eq!(plan.icon_path, None);
    assert_eq!(plan.action_target, 12);
}

#[test]
fn row_plan_without_actions() {
    let n = sample(Vec::new(), None, Some("/tmp/icon.png"), 5000);
    let plan = plan_row(&n);
    assert!(plan.dismiss_on_click);
    assert!(!plan.show_actions);
    assert_eq!(plan.expiry_ms, Some(5000));
    assert_eq!(plan.icon_path, Some("/tmp/icon.png".to_string()));
    assert_eq!(plan.action_target, 0);
    let no_icon = plan_row(&sample(Vec::new(), None, None, 0));
    assert_eq!(no_icon.icon_path, None);
}

#[test]
fn window_hides_when_empty() {
    assert!(hides_window(0));
    assert!(!hides_window(1));
}

fn dismissed<R>(action: PopupAction<R>) -> Option<R> {
    match action {
        PopupAction::Dismiss(row) => Some(row),
        _ => None,
    }
}

#[test]
fn close_dismisses_tracked_row_once() {
    let mut tracker: RowTracker<&str> = RowTracker::new();
    assert!(matches!(
        tracker.on_event(PopupEvent::Posted { notification_id: Some(1), row: "row-1" }),
        PopupAction::ShowWindow
    ));
    assert!(matches!(
        tracker.on_event(PopupEvent::Posted { notification_id: Some(2), row: "row-2" }),
        PopupAction::ShowWindow
    ));
    assert!(matches!(
        tracker.on_event(PopupEvent::Posted { notification_id: None, row: "row-x" }),
        PopupAction::ShowWindow
    ));
    assert_eq!(tracker.len(), 2);
    assert_eq!(dismissed(tracker.on_event(PopupEvent::Closed { id: 1 })), Some("row-1"));
    assert!(matches!(tracker.on_event(PopupEvent::Closed { id: 1 }), PopupAction::Nothing));
    assert_eq!(
        dismissed(tracker.on_event(PopupEvent::ActionInvoked { id: 2, action_key: "default".to_string() })),
        Some("row-2")
    );
    assert_eq!(tracker.len(), 0);
}

#[test]
fn untracked_notifications() {
    let mut tracker: RowTracker<u8> = RowTracker::new();
    tracker.track(None, 1);
    assert_eq!(tracker.len(), 0);
    assert_eq!(tracker.release(3), None);
    tracker.track(Some(3), 7);
    tracker.track(Some(3), 8);
    assert_eq!(tracker.len(), 1);
    assert_eq!(tracker.release(3), Some(8));
}

