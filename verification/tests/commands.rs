use guardian_agent_linux::commands::{
    check_command_username, classify_action, validate_command_username, CommandArgs,
    CommandEvent, CommandFlow, CommandKind, CommandOutcome, CommandRequest, CommandStep,
    DomainOp, OutcomeData,
};
use guardian_agent_linux::schedule::{DayHours, DayHoursPayload, HourSpecPayload};

fn no_args() -> CommandArgs {
    CommandArgs {
        operation: None,
        seconds: None,
        schedule: None,
        intervals: None,
        has_policies: false,
        linux_username: None,
    }
}

fn begin(action: &str, username: &str, args: CommandArgs) -> (CommandFlow, CommandStep) {
    CommandFlow::begin_with_lookup(action, username.to_string(), args, true)
}

fn outcome(step: CommandStep) -> CommandOutcome {
    match step {
        CommandStep::Finish(o) => o,
        CommandStep::Perform(_) => panic!("expected an outcome"),
    }
}

fn request(step: CommandStep) -> CommandRequest {
    match step {
        CommandStep::Perform(r) => r,
        CommandStep::Finish(o) => panic!("expected a call, got outcome {}", o.message),
    }
}

fn ok_status() -> CommandEvent {
    CommandEvent::Status(Ok((0, String::new())))
}

#[test]
fn actions_are_classified() {
    assert_eq!(classify_action("get_domain_policy_state"), CommandKind::DomainPolicyState);
    assert_eq!(
        classify_action("sync_domain_policy_chunk"),
        CommandKind::DomainPolicy(DomainOp::PushSourceChunk)
    );
    assert_eq!(classify_action("audit_hardware_baseline"), CommandKind::Hardware);
    assert_eq!(classify_action("set_allowed_hours"), CommandKind::SetAllowedHours);
    assert_eq!(classify_action("Set_allowed_hours"), CommandKind::Unknown);
}

#[test]
fn account_checks() {
    assert!(check_command_username("unenroll", "", false).is_ok());
    assert_eq!(
        check_command_username("validate_user", "Bad Name", true).unwrap_err(),
        "Invalid Linux username 'Bad Name'"
    );
    assert_eq!(
        check_command_username("validate_user", "alice", false).unwrap_err(),
        "Linux user 'alice' does not exist on this system"
    );
    assert!(check_command_username("validate_user", "alice", true).is_ok());
    assert!(validate_command_username("capture_screenshot", "").is_ok());
    assert_eq!(
        validate_command_username("show_overlay", "9bad").unwrap_err(),
        "Invalid Linux username '9bad'"
    );
    assert_eq!(
        validate_command_username("show_overlay", "zz_no_such_account_q").unwrap_err(),
        "Linux user 'zz_no_such_account_q' does not exist on this system"
    );
    assert!(validate_command_username("show_overlay", "root").is_ok());
}

#[test]
fn start_stops_on_malformed_account() {
    let (flow, step) = CommandFlow::start("validate_user", "Root".to_string(), no_args());
    assert!(flow.is_finished());
    let o = outcome(step);
    assert!(!o.success);
    assert_eq!(o.message, "Invalid Linux username 'Root'");
    assert!(matches!(o.data, OutcomeData::Empty));
}

#[test]
fn unknown_action_is_refused() {
    let o = outcome(begin("frobnicate", "alice", no_args()).1);
    assert!(!o.success);
    assert_eq!(o.message, "Unknown action 'frobnicate'");
}

#[test]
fn queued_commands_finish_at_once() {
    let o = outcome(begin("refresh_installed_apps", "alice", no_args()).1);
    assert!(o.success);
    assert_eq!(o.message, "Installed apps refresh queued");
    assert!(matches!(o.data, OutcomeData::Queued { linux_username: Some(ref u) } if u == "alice"));

    let o = outcome(begin("capture_screenshot", "  ", no_args()).1);
    assert_eq!(o.message, "Screenshot capture queued");
    assert!(matches!(o.data, OutcomeData::Queued { linux_username: None }));

    let mut args = no_args();
    args.linux_username = Some("bob".to_string());
    let o = outcome(begin("capture_screenshot", "alice", args).1);
    assert!(matches!(o.data, OutcomeData::Queued { linux_username: Some(ref u) } if u == "bob"));
}

#[test]
fn modify_time_left_flow() {
    let mut args = no_args();
    args.seconds = Some(600);
    let (mut flow, step) = begin("modify_time_left", "alice", args);
    assert!(matches!(request(step), CommandRequest::ConnectTimekpr));
    let req = request(flow.advance(CommandEvent::Done(Ok(()))));
    match req {
        CommandRequest::SetTimeLeft { operation, seconds } => {
            assert_eq!(operation, "+");
            assert_eq!(seconds, 600);
        }
        _ => panic!("expected SetTimeLeft"),
    }
    assert!(!flow.accepts(&CommandEvent::Done(Ok(()))));
    let o = outcome(flow.advance(ok_status()));
    assert!(o.success);
    assert_eq!(o.message, "Successfully modified time: +600 seconds");
    assert!(flow.is_finished());
}

#[test]
fn modify_time_left_failures() {
    for secs in [-1i64, 1 << 40] {
        let mut args = no_args();
        args.seconds = Some(secs);
        args.operation = Some("-".to_string());
        let (mut flow, _) = begin("modify_time_left", "alice", args);
        let o = outcome(flow.advance(CommandEvent::Done(Ok(()))));
        assert!(!o.success);
        assert_eq!(o.message, "seconds must be a non-negative integer");
    }
    let mut args = no_args();
    args.operation = Some("-".to_string());
    let (mut flow, _) = begin("modify_time_left", "alice", args);
    match request(flow.advance(CommandEvent::Done(Ok(())))) {
        CommandRequest::SetTimeLeft { operation, seconds } => {
            assert_eq!(operation, "-");
            assert_eq!(seconds, 0);
        }
        _ => panic!("expected SetTimeLeft"),
    }
    let o = outcome(flow.advance(CommandEvent::Status(Ok((1, " \t".to_string())))));
    assert_eq!(o.message, "Failed to modify time");

    let (mut flow, _) = begin("modify_time_left", "alice", no_args());
    let o = outcome(flow.advance(CommandEvent::Done(Err("no bus".to_string()))));
    assert!(!o.success);
    assert_eq!(o.message, "no bus");
}

#[test]
fn validate_user_flow() {
    let (mut flow, _) = begin("validate_user", "alice", no_args());
    assert!(matches!(request(flow.advance(CommandEvent::Done(Ok(())))), CommandRequest::GetUserInformation));
    let o = outcome(flow.advance(CommandEvent::Status(Ok((1, String::new())))));
    assert!(!o.success);
    assert_eq!(o.message, "User 'alice' configuration not found");

    let (mut flow, _) = begin("validate_user", "alice", no_args());
    flow.advance(CommandEvent::Done(Ok(())));
    let o = outcome(flow.advance(ok_status()));
    assert!(o.success);
    assert_eq!(o.message, "User validated successfully");
    assert!(matches!(o.data, OutcomeData::UserConfig));

    let (mut flow, _) = begin("validate_user", "alice", no_args());
    flow.advance(CommandEvent::Done(Ok(())));
    let o = outcome(flow.advance(CommandEvent::Status(Err("timeout".to_string()))));
    assert_eq!(o.message, "timeout");
}

fn week_hours(positive: bool, seconds: u64) -> DayHours {
    DayHours::NonNegative { positive, rounded_seconds: Some(seconds) }
}

#[test]
fn weekly_limits_flow() {
    let (mut flow, _) = begin("set_weekly_time_limits", "alice", no_args());
    let o = outcome(flow.advance(CommandEvent::Done(Ok(()))));
    assert_eq!(o.message, "Missing 'schedule' argument");

    let mut args = no_args();
    args.schedule = Some([week_hours(false, 0); 7]);
    let (mut flow, _) = begin("set_weekly_time_limits", "alice", args);
    let o = outcome(flow.advance(CommandEvent::Done(Ok(()))));
    assert_eq!(o.message, "No allowed days with time limits configured");

    let mut args = no_args();
    let mut week = [week_hours(false, 0); 7];
    week[1] = DayHours::Negative;
    args.schedule = Some(week);
    let (mut flow, _) = begin("set_weekly_time_limits", "alice", args);
    let o = outcome(flow.advance(CommandEvent::Done(Ok(()))));
    assert_eq!(o.message, "Schedule value for tuesday must not be negative");

    let mut args = no_args();
    let mut week = [week_hours(false, 0); 7];
    week[0] = week_hours(true, 3600);
    week[6] = week_hours(true, 1800);
    args.schedule = Some(week);
    let (mut flow, _) = begin("set_weekly_time_limits", "alice", args);
    match request(flow.advance(CommandEvent::Done(Ok(())))) {
        CommandRequest::SetAllowedDays(days) => assert_eq!(days, vec!["1", "7"]),
        _ => panic!("expected SetAllowedDays"),
    }
    match request(flow.advance(ok_status())) {
        CommandRequest::SetTimeLimitForDays(limits) => {
            assert_eq!(limits, vec![3600, 0, 0, 0, 0, 0, 1800])
        }
        _ => panic!("expected SetTimeLimitForDays"),
    }
    let o = outcome(flow.advance(ok_status()));
    assert!(o.success);
    assert_eq!(o.message, "Weekly time limits configured successfully");
}

#[test]
fn weekly_limits_refusals_use_fallbacks() {
    let mut args = no_args();
    let mut week = [week_hours(false, 0); 7];
    week[2] = week_hours(true, 60);
    args.schedule = Some(week);
    let (mut flow, _) = begin("set_weekly_time_limits", "alice", args);
    flow.advance(CommandEvent::Done(Ok(())));
    let o = outcome(flow.advance(CommandEvent::Status(Ok((5, "".to_string())))));
    assert_eq!(o.message, "Failed to set allowed days");

    let mut args = no_args();
    args.schedule = Some(week);
    let (mut flow, _) = begin("set_weekly_time_limits", "alice", args);
    flow.advance(CommandEvent::Done(Ok(())));
    flow.advance(ok_status());
    let o = outcome(flow.advance(CommandEvent::Status(Ok((5, "busy".to_string())))));
    assert_eq!(o.message, "busy");
    let mut args = no_args();
    args.schedule = Some(week);
    let (mut flow, _) = begin("set_weekly_time_limits", "alice", args);
    flow.advance(CommandEvent::Done(Ok(())));
    flow.advance(ok_status());
    let o = outcome(flow.advance(CommandEvent::Status(Ok((5, "\n".to_string())))));
    assert_eq!(o.message, "Failed to set time limits");
}

fn entry(start: i64) -> (String, HourSpecPayload) {
    (
        "9".to_string(),
        HourSpecPayload::Object { start_min: Some(start), end_min: Some(60), uacc: Some(0) },
    )
}

#[test]
fn allowed_hours_flow_with_errors() {
    let mut intervals: Vec<Option<DayHoursPayload>> = (0..7).map(|_| None).collect();
    intervals[0] = Some(DayHoursPayload::Object(vec![entry(15)]));
    intervals[1] = Some(DayHoursPayload::NotObject);
    let mut args = no_args();
    args.intervals = Some(intervals);
    let (mut flow, _) = begin("set_allowed_hours", "alice", args);
    match request(flow.advance(CommandEvent::Done(Ok(())))) {
        CommandRequest::SetAllowedHours { day, hours } => {
            assert_eq!(day, "1");
            assert_eq!(hours.len(), 1);
            assert_eq!(hours.get("9").unwrap().start_min, 15);
        }
        _ => panic!("expected SetAllowedHours"),
    }
    // Day 2 cannot be parsed, so day 3 comes next, with every hour allowed.
    match request(flow.advance(ok_status())) {
        CommandRequest::SetAllowedHours { day, hours } => {
            assert_eq!(day, "3");
            assert_eq!(hours.len(), 24);
        }
        _ => panic!("expected SetAllowedHours"),
    }
    match request(flow.advance(ok_status())) {
        CommandRequest::SetAllowedHours { day, .. } => assert_eq!(day, "4"),
        _ => panic!("expected SetAllowedHours"),
    }
    flow.advance(ok_status());
    flow.advance(CommandEvent::Status(Ok((3, " ".to_string()))));
    flow.advance(CommandEvent::Status(Err("gone".to_string())));
    let o = outcome(flow.advance(ok_status()));
    assert!(!o.success);
    assert_eq!(
        o.message,
        "Errors setting allowed hours: Day 2: Allowed-hours payload for day 2 must be an object; \
         Day 5: Failed to update allowed hours; Day 6: gone"
    );
}

#[test]
fn allowed_hours_flow_all_days_set() {
    let mut args = no_args();
    args.intervals = Some(Vec::new());
    let (mut flow, _) = begin("set_allowed_hours", "alice", args);
    let mut step = flow.advance(CommandEvent::Done(Ok(())));
    let mut days = Vec::new();
    loop {
        match step {
            CommandStep::Perform(CommandRequest::SetAllowedHours { day, hours }) => {
                assert_eq!(hours.len(), 24);
                days.push(day);
                step = flow.advance(ok_status());
            }
            CommandStep::Finish(o) => {
                assert!(o.success);
                assert_eq!(o.message, "Successfully set allowed hours for 7/7 days");
                break;
            }
            CommandStep::Perform(_) => panic!("unexpected call"),
        }
    }
    assert_eq!(days, vec!["1", "2", "3", "4", "5", "6", "7"]);

    let (mut flow, _) = begin("set_allowed_hours", "alice", no_args());
    let o = outcome(flow.advance(CommandEvent::Done(Ok(()))));
    assert_eq!(o.message, "Missing 'intervals' argument");
}

#[test]
fn policy_and_device_commands() {
    let o = outcome(begin("sync_apparmor_policy", "alice", no_args()).1);
    assert_eq!(o.message, "Missing 'policies' argument");

    let mut args = no_args();
    args.has_policies = true;
    let (mut flow, step) = begin("sync_apparmor_policy", "alice", args);
    assert!(matches!(request(step), CommandRequest::ParseAppArmorPolicies));
    let o = outcome(flow.advance(CommandEvent::Done(Err("expected a sequence".to_string()))));
    assert_eq!(o.message, "Failed to parse policies: expected a sequence");

    let mut args = no_args();
    args.has_policies = true;
    let (mut flow, _) = begin("sync_apparmor_policy", "alice", args);
    assert!(matches!(request(flow.advance(CommandEvent::Done(Ok(())))), CommandRequest::SyncAppArmorPolicy));
    let o = outcome(flow.advance(CommandEvent::Replied(Ok("2 profiles".to_string()))));
    assert!(o.success);
    assert_eq!(o.message, "2 profiles");

    let (mut flow, _) = begin("sync_screenshot_policy", "", no_args());
    assert!(matches!(
        request(flow.advance(CommandEvent::Done(Ok(())))),
        CommandRequest::WakeScreenshotScheduler
    ));
    let o = outcome(flow.advance(CommandEvent::Done(Ok(()))));
    assert_eq!(o.message, "Screenshot policy synchronized");

    let (mut flow, step) = begin("unenroll", "", no_args());
    assert!(matches!(request(step), CommandRequest::ClearDevicePolicy));
    assert!(matches!(
        request(flow.advance(CommandEvent::Done(Err("busy".to_string())))),
        CommandRequest::ClearEnrollment
    ));
    let o = outcome(flow.advance(CommandEvent::Done(Ok(()))));
    assert!(o.success);
    assert_eq!(o.message, "Device unenrolled locally; agent token cleared");

    let (mut flow, step) = begin("detect_hardware_oem", "alice", no_args());
    assert!(matches!(request(step), CommandRequest::HardwareCommand));
    let o = outcome(flow.advance(CommandEvent::Reported(false, "no oem".to_string())));
    assert!(!o.success);
    assert_eq!(o.message, "no oem");
    assert!(matches!(o.data, OutcomeData::ServiceData));

    let (mut flow, _) = begin("get_domain_policy_state", "", no_args());
    let o = outcome(flow.advance(CommandEvent::Done(Ok(()))));
    assert_eq!(o.message, "Fetched domain policy state");
    assert!(matches!(o.data, OutcomeData::ServiceData));

    let (mut flow, step) = begin("abort_domain_policy_sync", "", no_args());
    assert!(matches!(request(step), CommandRequest::DomainPolicy(DomainOp::AbortSync)));
    let o = outcome(flow.advance(CommandEvent::Replied(Err("nothing to abort".to_string()))));
    assert!(!o.success);
    assert_eq!(o.message, "nothing to abort");

    let (mut flow, _) = begin("dismiss_overlay", "alice", no_args());
    let o = outcome(flow.advance(CommandEvent::Done(Ok(()))));
    assert_eq!(o.message, "Guardian Space overlay dismissed");

    let (mut flow, _) = begin("sync_linux_device_policy", "alice", no_args());
    let o = outcome(flow.advance(CommandEvent::Done(Err("no payload".to_string()))));
    assert_eq!(o.message, "no payload");
}

#[test]
fn missing_account_stops_command() {
    let (flow, step) = CommandFlow::begin_with_lookup("set_allowed_hours", "carol".to_string(), no_args(), false);
    assert!(flow.is_finished());
    let o = outcome(step);
    assert!(!o.success);
    assert_eq!(o.message, "Linux user 'carol' does not exist on this system");
}

#[test]
fn device_wide_commands_ignore_the_account() {
    let (_, step) = CommandFlow::begin_with_lookup("capture_screenshot", "Not A Name".to_string(), no_args(), false);
    let o = outcome(step);
    assert!(o.success);
    assert!(matches!(o.data, OutcomeData::Queued { linux_username: Some(ref u) } if u == "Not A Name"));
    let (_, step) = CommandFlow::begin_with_lookup("sync_domain_policy", "".to_string(), no_args(), false);
    assert!(matches!(request(step), CommandRequest::DomainPolicy(DomainOp::Sync)));
}

#[test]
fn failures_carry_no_data() {
    let mut args = no_args();
    args.seconds = Some(-1);
    args.operation = Some("-".to_string());
    let (mut flow, _) = begin("modify_time_left", "alice", args);
    let o = outcome(flow.advance(CommandEvent::Done(Ok(()))));
    assert!(!o.success);
    assert!(matches!(o.data, OutcomeData::Empty));

    let (mut flow, _) = begin("modify_time_left", "alice", no_args());
    let o = outcome(flow.advance(CommandEvent::Done(Err("no bus".to_string()))));
    assert!(!o.success);
    assert!(matches!(o.data, OutcomeData::Empty));

    let (mut flow, _) = begin("validate_user", "alice", no_args());
    let o = outcome(flow.advance(CommandEvent::Done(Err("denied".to_string()))));
    assert!(!o.success);
    assert!(matches!(o.data, OutcomeData::Empty));

    let (_, step) = begin("no_such_action", "alice", no_args());
    let o = outcome(step);
    assert!(!o.success);
    assert!(matches!(o.data, OutcomeData::Empty));
}
