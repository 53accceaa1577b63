use guardian_agent_linux::sessions::{
    after_sleep_alert, is_user_session_class, shutdown_signal, sleep_signal, AlertDetails, SessionAction,
    SessionSnapshot, SessionTracker,
};

#[test]
fn user_session_class_filter_matches_systemd_user_sessions() {
    assert!(is_user_session_class(Some("user")));
    assert!(is_user_session_class(Some("user-light")));
    assert!(!is_user_session_class(Some("greeter")));
    assert!(!is_user_session_class(None));
}

#[test]
fn session_class_edge_cases() {
    assert!(!is_user_session_class(Some("use")));
    assert!(!is_user_session_class(Some("")));
    assert!(!is_user_session_class(Some("User")));
    assert!(is_user_session_class(Some("userx")));
}

fn snapshot(user: Option<&str>, class: Option<&str>, state: Option<&str>) -> SessionSnapshot {
    SessionSnapshot {
        username: user.map(|s| s.to_string()),
        session_class: class.map(|s| s.to_string()),
        session_state: state.map(|s| s.to_string()),
    }
}

fn alert_of(action: &SessionAction) -> (&str, Option<&str>, &str, Option<&str>, Option<&str>) {
    match action {
        SessionAction::SendAlert(alert) => match &alert.details {
            AlertDetails::Session { session_id, session_class, session_state } => (
                alert.event_type.as_str(),
                alert.username.as_deref(),
                session_id.as_str(),
                session_class.as_deref(),
                session_state.as_deref(),
            ),
            AlertDetails::Power { .. } => panic!("expected session details"),
        },
        _ => panic!("expected an alert"),
    }
}

#[test]
fn sign_in_then_sign_out_reports_the_same_session() {
    let mut tracker = SessionTracker::new();
    let actions = tracker.on_session_new(
        "c1".to_string(),
        Some(snapshot(Some("alice"), Some("user"), Some("active"))),
    );
    assert_eq!(actions.len(), 3);
    assert!(matches!(&actions[0], SessionAction::LoadProfiles(u) if u == "alice"));
    assert!(matches!(actions[1], SessionAction::RefreshDevicePolicy));
    assert_eq!(
        alert_of(&actions[2]),
        ("user_signed_in", Some("alice"), "c1", Some("user"), Some("active"))
    );

    let actions = tracker.on_session_removed("c1");
    assert_eq!(actions.len(), 3);
    assert!(matches!(&actions[0], SessionAction::UnloadProfiles(u) if u == "alice"));
    assert!(matches!(actions[1], SessionAction::RefreshDevicePolicy));
    assert_eq!(
        alert_of(&actions[2]),
        ("user_signed_out", Some("alice"), "c1", Some("user"), Some("active"))
    );

    // A second end of the same session is no longer tracked.
    let actions = tracker.on_session_removed("c1");
    assert_eq!(actions.len(), 2);
    assert_eq!(alert_of(&actions[1]), ("user_signed_out", None, "c1", None, None));
}

#[test]
fn non_user_sessions_are_ignored() {
    let mut tracker = SessionTracker::new();
    let actions = tracker.on_session_new(
        "g1".to_string(),
        Some(snapshot(Some("gdm"), Some("greeter"), Some("online"))),
    );
    assert!(actions.is_empty());
    assert!(tracker.on_session_new("x".to_string(), None).is_empty());
    let actions = tracker.on_session_removed("g1");
    assert_eq!(actions.len(), 2);
    assert_eq!(alert_of(&actions[1]), ("user_signed_out", None, "g1", None, None));
}

#[test]
fn sign_in_without_account_loads_no_profiles() {
    let mut tracker = SessionTracker::new();
    let actions = tracker.on_session_new("s".to_string(), Some(snapshot(None, Some("user"), None)));
    assert_eq!(actions.len(), 2);
    assert!(matches!(actions[0], SessionAction::RefreshDevicePolicy));
    assert_eq!(alert_of(&actions[1]), ("user_signed_in", None, "s", Some("user"), None));
}

#[test]
fn sleep_and_shutdown_signals() {
    let alert = sleep_signal(true);
    assert_eq!(alert.event_type, "system_sleep");
    assert!(alert.username.is_none());
    match alert.details {
        AlertDetails::Power { phase, signal } => {
            assert_eq!(phase, "prepare");
            assert_eq!(signal, "PrepareForSleep");
        }
        _ => panic!("expected power details"),
    }
    let alert = sleep_signal(false);
    assert_eq!(alert.event_type, "system_resume");
    match alert.details {
        AlertDetails::Power { phase, .. } => assert_eq!(phase, "resume"),
        _ => panic!("expected power details"),
    }
    assert!(shutdown_signal(false).is_none());
    let alert = shutdown_signal(true).unwrap();
    assert_eq!(alert.event_type, "system_restart");
    match alert.details {
        AlertDetails::Power { phase, signal } => {
            assert_eq!(phase, "prepare");
            assert_eq!(signal, "PrepareForShutdown");
        }
        _ => panic!("expected power details"),
    }
}

#[test]
fn resume_notice_follows_a_sent_alert_only() {
    assert_eq!(after_sleep_alert(false, true), (true, true));
    assert_eq!(after_sleep_alert(false, false), (false, false));
    assert_eq!(after_sleep_alert(true, true), (false, true));
    assert_eq!(after_sleep_alert(true, false), (false, false));
}
