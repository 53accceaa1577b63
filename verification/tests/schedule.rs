use guardian_agent_linux::schedule::{
    build_full_access_day, command_requires_linux_username, is_valid_linux_username,
    parse_day_hours, schedule_to_day_limits, DayHours, DayHoursPayload, HourSpec,
    HourSpecPayload,
};

fn hours(positive: bool, seconds: u64) -> DayHours {
    DayHours::NonNegative { positive, rounded_seconds: Some(seconds) }
}

fn hour_entry(start: i64, end: i64, uacc: i64) -> HourSpecPayload {
    HourSpecPayload::Object { start_min: Some(start), end_min: Some(end), uacc: Some(uacc) }
}

#[test]
fn schedule_conversion_preserves_all_days() {
    // monday 2.0, tuesday 0.0, wednesday 1.5, thursday 0.0, friday 0.0, saturday 0.0, sunday 0.25 hours
    let week = [
        hours(true, 7200),
        hours(false, 0),
        hours(true, 5400),
        hours(false, 0),
        hours(false, 0),
        hours(false, 0),
        hours(true, 900),
    ];
    let (allowed_days, day_limits) = schedule_to_day_limits(&week).unwrap();
    assert_eq!(allowed_days, vec!["1", "3", "7"]);
    assert_eq!(day_limits, vec![7200, 0, 5400, 0, 0, 0, 900]);
}

#[test]
fn day_hours_parser_requires_expected_integer_fields() {
    let payload = DayHoursPayload::Object(vec![
        ("9".to_string(), hour_entry(30, 60, 0)),
        ("10".to_string(), hour_entry(0, 60, 0)),
    ]);
    let parsed = parse_day_hours(&payload, "1").unwrap();
    assert_eq!(parsed.get("9").unwrap().start_min, 30);
    assert_eq!(parsed.get("9").unwrap().end_min, 60);
    assert_eq!(parsed.get("10").unwrap().uacc, 0);
}

#[test]
fn schedule_rejects_negative_day() {
    let mut week = [hours(false, 0); 7];
    week[2] = DayHours::Negative;
    week[4] = DayHours::NonNegative { positive: true, rounded_seconds: Some(90000) };
    let err = schedule_to_day_limits(&week).unwrap_err();
    assert_eq!(err, "Schedule value for wednesday must not be negative");
}

#[test]
fn schedule_rejects_day_longer_than_a_day() {
    let mut week = [hours(true, 86400); 7];
    week[5] = DayHours::NonNegative { positive: true, rounded_seconds: Some(86401) };
    assert_eq!(
        schedule_to_day_limits(&week).unwrap_err(),
        "Schedule value for saturday is out of range"
    );
    week[5] = DayHours::NonNegative { positive: true, rounded_seconds: None };
    assert_eq!(
        schedule_to_day_limits(&week).unwrap_err(),
        "Schedule value for saturday is out of range"
    );
}

#[test]
fn schedule_accepts_full_days_and_tiny_positive_days() {
    let mut week = [hours(true, 86400); 7];
    week[0] = hours(true, 0);
    let (days, limits) = schedule_to_day_limits(&week).unwrap();
    assert_eq!(days, vec!["1", "2", "3", "4", "5", "6", "7"]);
    assert_eq!(limits, vec![0, 86400, 86400, 86400, 86400, 86400, 86400]);
}

#[test]
fn full_access_day_parses_back_in_any_key_order() {
    let day = build_full_access_day();
    let mut entries: Vec<(String, HourSpecPayload)> = Vec::new();
    for i in 0..day.len() {
        let (key, spec) = day.entry_at(i);
        let entry = HourSpecPayload::Object {
            start_min: Some(spec.start_min as i64),
            end_min: Some(spec.end_min as i64),
            uacc: Some(spec.uacc as i64),
        };
        entries.push((key.clone(), entry));
    }
    entries.sort_by(|a, b| a.0.cmp(&b.0));
    assert_eq!(entries[2].0, "10");
    let parsed = parse_day_hours(&DayHoursPayload::Object(entries), "5").unwrap();
    assert_eq!(parsed.len(), 24);
    for hour in 0..24 {
        let key = hour.to_string();
        assert_eq!(parsed.get(&key), day.get(&key));
    }
    assert!(parsed.get("24").is_none());
}

#[test]
fn full_access_day_allows_every_hour() {
    let day = build_full_access_day();
    assert_eq!(day.len(), 24);
    for hour in 0..24 {
        let spec = day.get(&hour.to_string()).unwrap();
        assert_eq!(*spec, HourSpec { start_min: 0, end_min: 60, uacc: 0 });
    }
    assert!(day.get("24").is_none());
    let (first_key, _) = day.entry_at(0);
    assert_eq!(first_key, "0");
    let (last_key, _) = day.entry_at(23);
    assert_eq!(last_key, "23");
}

#[test]
fn day_hours_parser_reports_each_error() {
    assert_eq!(
        parse_day_hours(&DayHoursPayload::NotObject, "3").unwrap_err(),
        "Allowed-hours payload for day 3 must be an object"
    );
    let not_object = DayHoursPayload::Object(vec![
        ("8".to_string(), hour_entry(0, 60, 0)),
        ("9".to_string(), HourSpecPayload::NotObject),
    ]);
    assert_eq!(
        parse_day_hours(&not_object, "2").unwrap_err(),
        "Allowed-hours spec for day 2, hour 9 must be an object"
    );
    let missing = DayHoursPayload::Object(vec![(
        "7".to_string(),
        HourSpecPayload::Object { start_min: Some(0), end_min: None, uacc: Some(0) },
    )]);
    assert_eq!(
        parse_day_hours(&missing, "4").unwrap_err(),
        "Allowed-hours spec for day 4, hour 7 is missing integer field ENDMIN"
    );
    let out_of_range = DayHoursPayload::Object(vec![(
        "7".to_string(),
        HourSpecPayload::Object { start_min: Some(0), end_min: Some(60), uacc: Some(1 << 40) },
    )]);
    assert_eq!(
        parse_day_hours(&out_of_range, "4").unwrap_err(),
        "Allowed-hours spec for day 4, hour 7 has out-of-range field UACC"
    );
    let min_ok = DayHoursPayload::Object(vec![(
        "1".to_string(),
        hour_entry(i32::MIN as i64, i32::MAX as i64, -1),
    )]);
    let parsed = parse_day_hours(&min_ok, "5").unwrap();
    assert_eq!(parsed.get("1").unwrap().start_min, i32::MIN);
    assert_eq!(parsed.get("1").unwrap().end_min, i32::MAX);
}

#[test]
fn day_hours_parser_accepts_empty_object() {
    let parsed = parse_day_hours(&DayHoursPayload::Object(Vec::new()), "1").unwrap();
    assert_eq!(parsed.len(), 0);
}

#[test]
fn linux_usernames_are_checked() {
    assert!(is_valid_linux_username("alice"));
    assert!(is_valid_linux_username("_svc-1"));
    assert!(is_valid_linux_username("a2345678901234567890123456789012"));
    assert!(!is_valid_linux_username("a23456789012345678901234567890123"));
    assert!(!is_valid_linux_username(""));
    assert!(!is_valid_linux_username("Alice"));
    assert!(!is_valid_linux_username("1alice"));
    assert!(!is_valid_linux_username("-alice"));
    assert!(!is_valid_linux_username("al ice"));
    assert!(!is_valid_linux_username("al.ice"));
    assert!(!is_valid_linux_username("aé"));
}

#[test]
fn device_wide_actions_need_no_username() {
    for action in [
        "get_domain_policy_state",
        "begin_domain_policy_sync",
        "delete_domain_policy_sources",
        "sync_domain_policy_chunk",
        "update_domain_policy_manifest",
        "finalize_domain_policy_sync",
        "abort_domain_policy_sync",
        "sync_domain_policy",
        "sync_screenshot_policy",
        "capture_screenshot",
        "unenroll",
    ] {
        assert!(!command_requires_linux_username(action));
    }
    for action in ["validate_user", "modify_time_left", "show_overlay", "unknown", ""] {
        assert!(command_requires_linux_username(action));
    }
}

#[test]
fn later_entry_for_an_hour_wins() {
    let payload = DayHoursPayload::Object(vec![
        ("9".to_string(), hour_entry(10, 20, 1)),
        ("9".to_string(), hour_entry(30, 40, 0)),
    ]);
    let parsed = parse_day_hours(&payload, "6").unwrap();
    assert_eq!(parsed.len(), 1);
    assert_eq!(*parsed.get("9").unwrap(), HourSpec { start_min: 30, end_min: 40, uacc: 0 });
}
