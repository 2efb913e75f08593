//! Option lifecycle activities and what they block.
use alpaca_options::broker::AlpacaActivity;
use alpaca_options::calendar::UtcInstant;
use alpaca_options::lifecycle::lifecycle_events_from_activities;
use alpaca_options::lifecycle::option_lifecycle_activity_request;
use alpaca_options::lifecycle::OptionLifecycleEvent;
use alpaca_options::lifecycle::OptionLifecycleEventKind;
use alpaca_options::lifecycle::OptionLifecycleRiskConfig;
use alpaca_options::lifecycle::OptionLifecycleRiskHandle;

fn instant(text: &str) -> UtcInstant {
    let moment = chrono::DateTime::parse_from_rfc3339(text).unwrap();
    UtcInstant { secs: moment.timestamp(), nanos: moment.timestamp_subsec_nanos() }
}

fn activity(activity_type: &str, id: &str, symbol: &str, date: &str) -> AlpacaActivity {
    AlpacaActivity {
        activity_type: Some(activity_type.to_string()),
        id: Some(id.to_string()),
        price: None,
        qty: Some("1".to_string()),
        side: None,
        symbol: Some(symbol.to_string()),
        transaction_time: None,
        order_id: None,
        date: Some(date.to_string()),
    }
}

#[test]
fn lifecycle_events_keep_assignment_exercise_and_expiration() {
    let activities = vec![
        activity("OPASN", "assign-1", "SPY260626P00500000", "2026-06-26"),
        activity("OPEXC", "exercise-1", "SPY260626C00500000", "2026-06-26"),
        activity("OPEXP", "expire-1", "SPY260626P00400000", "2026-06-26"),
        activity("FILL", "fill-1", "SPY260626P00400000", "2026-06-26"),
    ];
    let events = lifecycle_events_from_activities(&activities);
    assert_eq!(events.len(), 3);
    assert_eq!(events[0].kind, OptionLifecycleEventKind::Assignment);
    assert_eq!(events[1].kind, OptionLifecycleEventKind::Exercise);
    assert_eq!(events[2].kind, OptionLifecycleEventKind::Expiration);
}

#[test]
fn lifecycle_handle_blocks_on_recent_assignment() {
    let mut handle = OptionLifecycleRiskHandle::new(OptionLifecycleRiskConfig::default());
    let now = instant("2026-06-27T15:00:00Z");
    handle.update_events(
        vec![OptionLifecycleEvent {
            kind: OptionLifecycleEventKind::Assignment,
            id: Some("assign-1".to_string()),
            symbol: Some("SPY260626P00500000".to_string()),
            occurred_at_utc: Some(UtcInstant { secs: now.secs - 7_200, nanos: now.nanos }),
            activity_date: None,
            quantity: Some("1".to_string()),
        }],
        now,
    );
    let snapshot = handle.snapshot();
    assert_eq!(snapshot.account_blocks.len(), 1);
    assert!(snapshot.account_blocks[0].contains("assignment activity"));
}

#[test]
fn dated_activities_happen_at_midnight() {
    let events = lifecycle_events_from_activities(&vec![activity(
        "OPASN",
        "assign-1",
        "SPY260626P00500000",
        "2026-06-26",
    )]);
    assert_eq!(events[0].occurred_at_utc, Some(instant("2026-06-26T00:00:00Z")));
}

#[test]
fn a_failed_poll_blocks_new_entries() {
    let mut handle = OptionLifecycleRiskHandle::new(OptionLifecycleRiskConfig::default());
    let now = instant("2026-06-27T15:00:00Z");
    handle.record_poll_error("timeout".to_string(), now);
    assert!(handle.state.last_poll_error.is_some());
}

#[test]
fn activity_requests_carry_the_start_of_the_lookback() {
    let request = option_lifecycle_activity_request(instant("2026-06-20T15:00:00Z"));
    assert_eq!(request.after.as_deref(), Some("2026-06-20T15:00:00+00:00"));
}
