//! The commands the server sends: the checks on the account they name, which
//! command an action string names, and the decisions taken between the calls a
//! command makes, as a state machine that hands each call to the caller.

use vstd::prelude::*;

use crate::schedule::{
    build_full_access_day, command_requires_linux_username, day_hour_keys, day_hours_of,
    device_wide_action, full_access_day_map, full_access_hour, is_valid_linux_username, parse_day_hours,
    schedule_to_day_limits, valid_linux_username, week_limits_of, AllowedHoursDay, DayHours,
    DayHoursPayload, HourSpec,
};
use crate::text::{decimal, decimal_string, is_blank, is_blank_text, str_equal};

verus! {

/// Looks the account up by name in the system's account database, as
/// `users::get_user_by_name` does (through `getpwnam_r`). The answer depends on the
/// accounts of the machine it runs on, so no clause states it.
#[verifier::external_body]
fn linux_user_exists(username: &str) -> bool {
    users::get_user_by_name(username).is_some()
}

/// The message for a malformed account name.
pub open spec fn invalid_username_message(username: Seq<char>) -> Seq<char> {
    "Invalid Linux username '"@ + username + "'"@
}

/// The message for an account that the system does not have.
pub open spec fn unknown_user_message(username: Seq<char>) -> Seq<char> {
    "Linux user '"@ + username + "' does not exist on this system"@
}

/// The check of a command's account, given whether the system has the account:
/// commands that act on the whole device pass; otherwise the name must be well
/// formed and the account must exist.
pub open spec fn username_check(action: Seq<char>, username: Seq<char>, exists: bool) -> Result<
    (),
    Seq<char>,
> {
    if device_wide_action(action) {
        Ok(())
    } else if !valid_linux_username(username) {
        Err(invalid_username_message(username))
    } else if !exists {
        Err(unknown_user_message(username))
    } else {
        Ok(())
    }
}

/// The text of a check's result.
pub open spec fn check_text(r: Result<(), String>) -> Result<(), Seq<char>> {
    match r {
        Ok(()) => Ok(()),
        Err(e) => Err(e@),
    }
}

/// Checks the account of a command, given whether the system has an account of that name.
pub fn check_command_username(action: &str, username: &str, user_exists: bool) -> (r: Result<
    (),
    String,
>)
    ensures
        check_text(r) == username_check(action@, username@, user_exists),
{
    if !command_requires_linux_username(action) {
        return Ok(());
    }
    if !is_valid_linux_username(username) {
        let mut m = String::from_str("Invalid Linux username '");
        m.append(username);
        m.append("'");
        return Err(m);
    }
    if !user_exists {
        let mut m = String::from_str("Linux user '");
        m.append(username);
        m.append("' does not exist on this system");
        return Err(m);
    }
    Ok(())
}

/// Checks the account of a command against the system's account database. The
/// database is asked only for a well-formed name of a command that acts on an
/// account; the result is the check for whatever the database answered.
pub fn validate_command_username(action: &str, username: &str) -> (r: Result<(), String>)
    ensures
        exists|found: bool| check_text(r) == username_check(action@, username@, found),
        device_wide_action(action@) ==> r is Ok,
        !device_wide_action(action@) && !valid_linux_username(username@) ==> check_text(r) == Err::<
            (),
            Seq<char>,
        >(invalid_username_message(username@)),
{
    if !command_requires_linux_username(action) || !is_valid_linux_username(username) {
        let r = check_command_username(action, username, true);
        assert(check_text(r) == username_check(action@, username@, true));
        return r;
    }
    let found = linux_user_exists(username);
    let r = check_command_username(action, username, found);
    assert(check_text(r) == username_check(action@, username@, found));
    r
}

/// The operations on the domain policy that answer with a message.
#[derive(Clone, Copy, Debug, PartialEq, Eq, Structural)]
pub enum DomainOp {
    BeginSync,
    DeleteSources,
    PushSourceChunk,
    UpdateManifest,
    FinalizeSync,
    AbortSync,
    Sync,
}

/// The commands that an action string names.
#[derive(Clone, Copy, Debug, PartialEq, Eq, Structural)]
pub enum CommandKind {
    DomainPolicyState,
    DomainPolicy(DomainOp),
    ValidateUser,
    ModifyTimeLeft,
    SetWeeklyTimeLimits,
    SetAllowedHours,
    SyncAppArmorPolicy,
    SyncLinuxDevicePolicy,
    RefreshInstalledApps,
    SyncScreenshotPolicy,
    CaptureScreenshot,
    Unenroll,
    ShowOverlay,
    DismissOverlay,
    Hardware,
    Unknown,
}

/// The command that an action string names.
pub open spec fn kind_of(action: Seq<char>) -> CommandKind {
    if action == "get_domain_policy_state"@ {
        CommandKind::DomainPolicyState
    } else if action == "begin_domain_policy_sync"@ {
        CommandKind::DomainPolicy(DomainOp::BeginSync)
    } else if action == "delete_domain_policy_sources"@ {
        CommandKind::DomainPolicy(DomainOp::DeleteSources)
    } else if action == "sync_domain_policy_chunk"@ {
        CommandKind::DomainPolicy(DomainOp::PushSourceChunk)
    } else if action == "update_domain_policy_manifest"@ {
        CommandKind::DomainPolicy(DomainOp::UpdateManifest)
    } else if action == "finalize_domain_policy_sync"@ {
        CommandKind::DomainPolicy(DomainOp::FinalizeSync)
    } else if action == "abort_domain_policy_sync"@ {
        CommandKind::DomainPolicy(DomainOp::AbortSync)
    } else if action == "sync_domain_policy"@ {
        CommandKind::DomainPolicy(DomainOp::Sync)
    } else if action == "validate_user"@ {
        CommandKind::ValidateUser
    } else if action == "modify_time_left"@ {
        CommandKind::ModifyTimeLeft
    } else if action == "set_weekly_time_limits"@ {
        CommandKind::SetWeeklyTimeLimits
    } else if action == "set_allowed_hours"@ {
        CommandKind::SetAllowedHours
    } else if action == "sync_apparmor_policy"@ {
        CommandKind::SyncAppArmorPolicy
    } else if action == "sync_linux_device_policy"@ {
        CommandKind::SyncLinuxDevicePolicy
    } else if action == "refresh_installed_apps"@ {
        CommandKind::RefreshInstalledApps
    } else if action == "sync_screenshot_policy"@ {
        CommandKind::SyncScreenshotPolicy
    } else if action == "capture_screenshot"@ {
        CommandKind::CaptureScreenshot
    } else if action == "unenroll"@ {
        CommandKind::Unenroll
    } else if action == "show_overlay"@ {
        CommandKind::ShowOverlay
    } else if action == "dismiss_overlay"@ {
        CommandKind::DismissOverlay
    } else if action == "detect_hardware_oem"@ || action == "audit_hardware_baseline"@ || action
        == "apply_hardware_baseline"@ {
        CommandKind::Hardware
    } else {
        CommandKind::Unknown
    }
}

/// The command that `action` names.
pub fn classify_action(action: &str) -> (k: CommandKind)
    ensures
        k == kind_of(action@),
{
    if str_equal(action, "get_domain_policy_state") {
        CommandKind::DomainPolicyState
    } else if str_equal(action, "begin_domain_policy_sync") {
        CommandKind::DomainPolicy(DomainOp::BeginSync)
    } else if str_equal(action, "delete_domain_policy_sources") {
        CommandKind::DomainPolicy(DomainOp::DeleteSources)
    } else if str_equal(action, "sync_domain_policy_chunk") {
        CommandKind::DomainPolicy(DomainOp::PushSourceChunk)
    } else if str_equal(action, "update_domain_policy_manifest") {
        CommandKind::DomainPolicy(DomainOp::UpdateManifest)
    } else if str_equal(action, "finalize_domain_policy_sync") {
        CommandKind::DomainPolicy(DomainOp::FinalizeSync)
    } else if str_equal(action, "abort_domain_policy_sync") {
        CommandKind::DomainPolicy(DomainOp::AbortSync)
    } else if str_equal(action, "sync_domain_policy") {
        CommandKind::DomainPolicy(DomainOp::Sync)
    } else if str_equal(action, "validate_user") {
        CommandKind::ValidateUser
    } else if str_equal(action, "modify_time_left") {
        CommandKind::ModifyTimeLeft
    } else if str_equal(action, "set_weekly_time_limits") {
        CommandKind::SetWeeklyTimeLimits
    } else if str_equal(action, "set_allowed_hours") {
        CommandKind::SetAllowedHours
    } else if str_equal(action, "sync_apparmor_policy") {
        CommandKind::SyncAppArmorPolicy
    } else if str_equal(action, "sync_linux_device_policy") {
        CommandKind::SyncLinuxDevicePolicy
    } else if str_equal(action, "refresh_installed_apps") {
        CommandKind::RefreshInstalledApps
    } else if str_equal(action, "sync_screenshot_policy") {
        CommandKind::SyncScreenshotPolicy
    } else if str_equal(action, "capture_screenshot") {
        CommandKind::CaptureScreenshot
    } else if str_equal(action, "unenroll") {
        CommandKind::Unenroll
    } else if str_equal(action, "show_overlay") {
        CommandKind::ShowOverlay
    } else if str_equal(action, "dismiss_overlay") {
        CommandKind::DismissOverlay
    } else if str_equal(action, "detect_hardware_oem") || str_equal(
        action,
        "audit_hardware_baseline",
    ) || str_equal(action, "apply_hardware_baseline") {
        CommandKind::Hardware
    } else {
        CommandKind::Unknown
    }
}


/// What a command's arguments hold, in the terms the command decides on.
pub struct CommandArgs {
    /// `operation`, when it is a string.
    pub operation: Option<String>,
    /// `seconds`, when it is an integer that fits in 64 bits.
    pub seconds: Option<i64>,
    /// `schedule`, when it is an object: the hours of each day, Monday first.
    pub schedule: Option<[DayHours; 7]>,
    /// `intervals`, when it is an object: the entry under "1" to "7" of each day,
    /// Monday first, if there is one.
    pub intervals: Option<Vec<Option<DayHoursPayload>>>,
    /// Whether there is a `policies` argument.
    pub has_policies: bool,
    /// `linux_username`, when it is a string.
    pub linux_username: Option<String>,
}

/// The data an outcome carries.
pub enum OutcomeData {
    /// An empty object.
    Empty,
    /// The data the last call answered with.
    ServiceData,
    /// The account's time-accounting configuration, under `config`.
    UserConfig,
    /// A queued request, with the account it concerns, under `queued` and `linux_username`.
    Queued { linux_username: Option<String> },
}

/// What a command reports back.
pub struct CommandOutcome {
    pub success: bool,
    pub message: String,
    pub data: OutcomeData,
}

/// The calls a command makes, one at a time. Each is answered with the event named here.
pub enum CommandRequest {
    /// Read the domain policy state (answered with `Done`; the state is the data).
    DomainPolicyState,
    /// Apply a domain policy operation to the arguments (answered with `Replied`).
    DomainPolicy(DomainOp),
    /// Connect to the time-accounting service (answered with `Done`).
    ConnectTimekpr,
    /// Read the account's time-accounting information (answered with `Status`; the
    /// configuration is kept by the caller).
    GetUserInformation,
    /// Change the time left of the account (answered with `Status`).
    SetTimeLeft { operation: String, seconds: i32 },
    /// Set the allowed days of the account (answered with `Status`).
    SetAllowedDays(Vec<String>),
    /// Set the daily limits of the account, Monday first (answered with `Status`).
    SetTimeLimitForDays(Vec<i32>),
    /// Set the allowed hours of one day of the account (answered with `Status`).
    SetAllowedHours { day: String, hours: AllowedHoursDay },
    /// Read the `policies` argument (answered with `Done`, its error being the reason).
    ParseAppArmorPolicies,
    /// Apply the policies read to the account (answered with `Replied`).
    SyncAppArmorPolicy,
    /// Apply the device policy argument to the account (answered with `Done`).
    SyncLinuxDevicePolicy,
    /// Apply the screenshot policy arguments (answered with `Done`).
    ApplyScreenshotPolicy,
    /// Wake the screenshot scheduler (answered with `Done`).
    WakeScreenshotScheduler,
    /// Clear the device policy before unenrolling; a failure is only reported as a
    /// warning (answered with `Done`).
    ClearDevicePolicy,
    /// Clear the agent's enrollment (answered with `Done`).
    ClearEnrollment,
    /// Show the overlay for the account (answered with `Replied`).
    ShowOverlay,
    /// Dismiss the overlay (answered with `Done`).
    DismissOverlay,
    /// Run the hardware command named by the action (answered with `Reported`; its
    /// data is the outcome's data).
    HardwareCommand,
}

/// The answer to a call.
pub enum CommandEvent {
    Done(Result<(), String>),
    Replied(Result<String, String>),
    Status(Result<(i32, String), String>),
    Reported(bool, String),
}

/// What a command does next: make a call, or report its outcome.
pub enum CommandStep {
    Perform(CommandRequest),
    Finish(CommandOutcome),
}

/// The data of an outcome, as text.
pub enum DataSpec {
    Empty,
    ServiceData,
    UserConfig,
    Queued(Option<Seq<char>>),
}

/// An outcome, as text.
pub struct OutcomeSpec {
    pub success: bool,
    pub message: Seq<char>,
    pub data: DataSpec,
}

/// A call, as text and maps.
pub enum RequestSpec {
    DomainPolicyState,
    DomainPolicy(DomainOp),
    ConnectTimekpr,
    GetUserInformation,
    SetTimeLeft(Seq<char>, i32),
    SetAllowedDays(Seq<Seq<char>>),
    SetTimeLimitForDays(Seq<i32>),
    SetAllowedHours(Seq<char>, Map<Seq<char>, HourSpec>),
    ParseAppArmorPolicies,
    SyncAppArmorPolicy,
    SyncLinuxDevicePolicy,
    ApplyScreenshotPolicy,
    WakeScreenshotScheduler,
    ClearDevicePolicy,
    ClearEnrollment,
    ShowOverlay,
    DismissOverlay,
    HardwareCommand,
}

/// A step, as text.
pub enum StepSpec {
    Perform(RequestSpec),
    Finish(OutcomeSpec),
}

/// An answer, as text.
pub enum EventSpec {
    Done(Result<(), Seq<char>>),
    Replied(Result<Seq<char>, Seq<char>>),
    Status(Result<(i32, Seq<char>), Seq<char>>),
    Reported(bool, Seq<char>),
}

impl View for OutcomeData {
    type V = DataSpec;

    open spec fn view(&self) -> DataSpec {
        match self {
            OutcomeData::Empty => DataSpec::Empty,
            OutcomeData::ServiceData => DataSpec::ServiceData,
            OutcomeData::UserConfig => DataSpec::UserConfig,
            OutcomeData::Queued { linux_username } => DataSpec::Queued(
                match linux_username {
                    Some(u) => Some(u@),
                    None => None,
                },
            ),
        }
    }
}

impl View for CommandOutcome {
    type V = OutcomeSpec;

    open spec fn view(&self) -> OutcomeSpec {
        OutcomeSpec { success: self.success, message: self.message@, data: self.data@ }
    }
}

impl View for CommandRequest {
    type V = RequestSpec;

    open spec fn view(&self) -> RequestSpec {
        match self {
            CommandRequest::DomainPolicyState => RequestSpec::DomainPolicyState,
            CommandRequest::DomainPolicy(op) => RequestSpec::DomainPolicy(*op),
            CommandRequest::ConnectTimekpr => RequestSpec::ConnectTimekpr,
            CommandRequest::GetUserInformation => RequestSpec::GetUserInformation,
            CommandRequest::SetTimeLeft { operation, seconds } => RequestSpec::SetTimeLeft(
                operation@,
                *seconds,
            ),
            CommandRequest::SetAllowedDays(days) => RequestSpec::SetAllowedDays(
                days@.map_values(|d: String| d@),
            ),
            CommandRequest::SetTimeLimitForDays(limits) => RequestSpec::SetTimeLimitForDays(limits@),
            CommandRequest::SetAllowedHours { day, hours } => RequestSpec::SetAllowedHours(
                day@,
                hours@,
            ),
            CommandRequest::ParseAppArmorPolicies => RequestSpec::ParseAppArmorPolicies,
            CommandRequest::SyncAppArmorPolicy => RequestSpec::SyncAppArmorPolicy,
            CommandRequest::SyncLinuxDevicePolicy => RequestSpec::SyncLinuxDevicePolicy,
            CommandRequest::ApplyScreenshotPolicy => RequestSpec::ApplyScreenshotPolicy,
            CommandRequest::WakeScreenshotScheduler => RequestSpec::WakeScreenshotScheduler,
            CommandRequest::ClearDevicePolicy => RequestSpec::ClearDevicePolicy,
            CommandRequest::ClearEnrollment => RequestSpec::ClearEnrollment,
            CommandRequest::ShowOverlay => RequestSpec::ShowOverlay,
            CommandRequest::DismissOverlay => RequestSpec::DismissOverlay,
            CommandRequest::HardwareCommand => RequestSpec::HardwareCommand,
        }
    }
}

impl View for CommandStep {
    type V = StepSpec;

    open spec fn view(&self) -> StepSpec {
        match self {
            CommandStep::Perform(r) => StepSpec::Perform(r@),
            CommandStep::Finish(o) => StepSpec::Finish(o@),
        }
    }
}

impl View for CommandEvent {
    type V = EventSpec;

    open spec fn view(&self) -> EventSpec {
        match self {
            CommandEvent::Done(r) => EventSpec::Done(
                match r {
                    Ok(()) => Ok(()),
                    Err(e) => Err(e@),
                },
            ),
            CommandEvent::Replied(r) => EventSpec::Replied(
                match r {
                    Ok(m) => Ok(m@),
                    Err(e) => Err(e@),
                },
            ),
            CommandEvent::Status(r) => EventSpec::Status(
                match r {
                    Ok((code, m)) => Ok((*code, m@)),
                    Err(e) => Err(e@),
                },
            ),
            CommandEvent::Reported(ok, m) => EventSpec::Reported(*ok, m@),
        }
    }
}

/// A failed outcome with no data.
pub open spec fn failure(message: Seq<char>) -> StepSpec {
    StepSpec::Finish(OutcomeSpec { success: false, message, data: DataSpec::Empty })
}

/// A successful outcome.
pub open spec fn success(message: Seq<char>, data: DataSpec) -> StepSpec {
    StepSpec::Finish(OutcomeSpec { success: true, message, data })
}

/// The message of a refused time-accounting call: its own, or `fallback` when it is blank.
pub open spec fn status_message(message: Seq<char>, fallback: Seq<char>) -> Seq<char> {
    if is_blank_text(message) {
        fallback
    } else {
        message
    }
}

/// The time-accounting commands, which connect to the service first.
#[derive(Clone, Copy, Debug, PartialEq, Eq, Structural)]
pub enum TimekprTask {
    ValidateUser,
    ModifyTimeLeft,
    WeeklyLimits,
    AllowedHours,
}

/// How far the allowed hours of the week have come: days set, days tried, and the errors.
pub struct HoursProgressSpec {
    pub succeeded: nat,
    pub attempted: nat,
    pub errors: Seq<Seq<char>>,
}

/// Where a command stands, as text.
pub enum StageSpec {
    AwaitDone { success_message: Seq<char>, with_data: bool },
    AwaitReply,
    AwaitReport,
    Connecting(TimekprTask),
    AwaitUserInformation,
    AwaitTimeLeft { operation: Seq<char>, seconds: i32 },
    AwaitAllowedDays { limits: Seq<i32> },
    AwaitTimeLimits,
    AwaitDayHours { day: nat, progress: HoursProgressSpec },
    AwaitPolicyParse,
    AwaitScreenshotPolicy,
    AwaitDevicePolicyCleared,
    Finished,
}


/// The entry of day `d` (Monday being 0) among the `intervals`, if any.
pub open spec fn payload_at(intervals: Seq<Option<DayHoursPayload>>, d: int) -> Option<
    DayHoursPayload,
> {
    if 0 <= d < intervals.len() {
        intervals[d]
    } else {
        None
    }
}

/// `parts` joined with `sep` between each two of them, as `join` writes them.
pub open spec fn join_texts(parts: Seq<Seq<char>>, sep: Seq<char>) -> Seq<char>
    decreases parts.len(),
{
    if parts.len() == 0 {
        Seq::empty()
    } else if parts.len() == 1 {
        parts[0]
    } else {
        join_texts(parts.drop_last(), sep) + sep + parts.last()
    }
}

/// An error about one day's allowed hours.
pub open spec fn day_error(day: Seq<char>, message: Seq<char>) -> Seq<char> {
    "Day "@ + day + ": "@ + message
}

/// The allowed hours of the days from `d` on: days whose entry cannot be parsed are
/// counted as tried and failed; the first other day is set (its own hours, or the
/// whole day when it has no entry); after Sunday the outcome is reported, a success
/// exactly when every day tried was set.
pub open spec fn hours_scan(intervals: Seq<Option<DayHoursPayload>>, d: nat, p: HoursProgressSpec) -> (
    StageSpec,
    StepSpec,
)
    decreases 7 - d,
{
    if d >= 7 {
        (
            StageSpec::Finished,
            if p.succeeded == p.attempted {
                success(
                    "Successfully set allowed hours for "@ + decimal(p.succeeded) + "/"@ + decimal(
                        p.attempted,
                    ) + " days"@,
                    DataSpec::Empty,
                )
            } else {
                failure("Errors setting allowed hours: "@ + join_texts(p.errors, "; "@))
            },
        )
    } else {
        let day = decimal(d + 1);
        let tried = HoursProgressSpec {
            succeeded: p.succeeded,
            attempted: p.attempted + 1,
            errors: p.errors,
        };
        match payload_at(intervals, d as int) {
            Some(payload) => match day_hours_of(day, payload) {
                Err(m) => hours_scan(
                    intervals,
                    d + 1,
                    HoursProgressSpec {
                        succeeded: p.succeeded,
                        attempted: p.attempted + 1,
                        errors: p.errors.push(day_error(day, m)),
                    },
                ),
                Ok(hours) => (
                    StageSpec::AwaitDayHours { day: d, progress: tried },
                    StepSpec::Perform(RequestSpec::SetAllowedHours(day, hours)),
                ),
            },
            None => (
                StageSpec::AwaitDayHours { day: d, progress: tried },
                StepSpec::Perform(RequestSpec::SetAllowedHours(day, full_access_day_map())),
            ),
        }
    }
}

/// The progress after the answer to setting day `d`'s allowed hours.
pub open spec fn record_day(
    p: HoursProgressSpec,
    d: nat,
    status: Result<(i32, Seq<char>), Seq<char>>,
) -> HoursProgressSpec {
    let day = decimal(d + 1);
    match status {
        Ok((code, m)) => if code == 0 {
            HoursProgressSpec { succeeded: p.succeeded + 1, attempted: p.attempted, errors: p.errors }
        } else {
            HoursProgressSpec {
                succeeded: p.succeeded,
                attempted: p.attempted,
                errors: p.errors.push(
                    day_error(day, status_message(m, "Failed to update allowed hours"@)),
                ),
            }
        },
        Err(m) => HoursProgressSpec {
            succeeded: p.succeeded,
            attempted: p.attempted,
            errors: p.errors.push(day_error(day, m)),
        },
    }
}

/// The number of seconds that `modify_time_left` asks for: the argument, or zero.
pub open spec fn requested_seconds(args: CommandArgs) -> i64 {
    match args.seconds {
        Some(s) => s,
        None => 0,
    }
}

/// The operation that `modify_time_left` asks for: the argument, or `+`.
pub open spec fn requested_operation(args: CommandArgs) -> Seq<char> {
    match args.operation {
        Some(o) => o@,
        None => "+"@,
    }
}

/// What a time-accounting command does once the service is connected.
pub open spec fn after_connect(username: Seq<char>, args: CommandArgs, task: TimekprTask) -> (
    StageSpec,
    StepSpec,
) {
    match task {
        TimekprTask::ValidateUser => (
            StageSpec::AwaitUserInformation,
            StepSpec::Perform(RequestSpec::GetUserInformation),
        ),
        TimekprTask::ModifyTimeLeft => {
            let secs = requested_seconds(args);
            if 0 <= secs <= i32::MAX {
                (
                    StageSpec::AwaitTimeLeft {
                        operation: requested_operation(args),
                        seconds: secs as i32,
                    },
                    StepSpec::Perform(
                        RequestSpec::SetTimeLeft(requested_operation(args), secs as i32),
                    ),
                )
            } else {
                (StageSpec::Finished, failure("seconds must be a non-negative integer"@))
            }
        },
        TimekprTask::WeeklyLimits => match args.schedule {
            None => (StageSpec::Finished, failure("Missing 'schedule' argument"@)),
            Some(week) => match week_limits_of(week@, 7) {
                Err(e) => (StageSpec::Finished, failure(e)),
                Ok((days, limits)) => if days.len() == 0 {
                    (
                        StageSpec::Finished,
                        failure("No allowed days with time limits configured"@),
                    )
                } else {
                    (
                        StageSpec::AwaitAllowedDays { limits },
                        StepSpec::Perform(RequestSpec::SetAllowedDays(days)),
                    )
                },
            },
        },
        TimekprTask::AllowedHours => match args.intervals {
            None => (StageSpec::Finished, failure("Missing 'intervals' argument"@)),
            Some(v) => hours_scan(
                v@,
                0,
                HoursProgressSpec { succeeded: 0, attempted: 0, errors: Seq::empty() },
            ),
        },
    }
}

/// The answer that a command in `stage` waits for.
pub open spec fn accepts(stage: StageSpec, event: EventSpec) -> bool {
    match stage {
        StageSpec::AwaitDone { .. } | StageSpec::Connecting(_) | StageSpec::AwaitPolicyParse
        | StageSpec::AwaitScreenshotPolicy | StageSpec::AwaitDevicePolicyCleared => event is Done,
        StageSpec::AwaitReply => event is Replied,
        StageSpec::AwaitReport => event is Reported,
        StageSpec::AwaitUserInformation | StageSpec::AwaitTimeLeft { .. }
        | StageSpec::AwaitAllowedDays { .. } | StageSpec::AwaitTimeLimits
        | StageSpec::AwaitDayHours { .. } => event is Status,
        StageSpec::Finished => false,
    }
}

/// The step after a time-accounting answer that either lets the command go on
/// (`next`) or ends it: a refusal with its message, or `fallback` when that is blank.
pub open spec fn status_step(
    status: Result<(i32, Seq<char>), Seq<char>>,
    next: (StageSpec, StepSpec),
    fallback: Seq<char>,
) -> (StageSpec, StepSpec) {
    match status {
        Ok((code, m)) => if code == 0 {
            next
        } else {
            (StageSpec::Finished, failure(status_message(m, fallback)))
        },
        Err(m) => (StageSpec::Finished, failure(m)),
    }
}

/// What a command in `stage` does with the answer `event`.
pub open spec fn advance_spec(
    username: Seq<char>,
    args: CommandArgs,
    stage: StageSpec,
    event: EventSpec,
) -> (StageSpec, StepSpec) {
    match (stage, event) {
        (StageSpec::AwaitDone { success_message, with_data }, EventSpec::Done(r)) => match r {
            Ok(()) => (
                StageSpec::Finished,
                success(
                    success_message,
                    if with_data {
                        DataSpec::ServiceData
                    } else {
                        DataSpec::Empty
                    },
                ),
            ),
            Err(m) => (StageSpec::Finished, failure(m)),
        },
        (StageSpec::AwaitReply, EventSpec::Replied(r)) => match r {
            Ok(m) => (StageSpec::Finished, success(m, DataSpec::Empty)),
            Err(m) => (StageSpec::Finished, failure(m)),
        },
        (StageSpec::AwaitReport, EventSpec::Reported(ok, m)) => (
            StageSpec::Finished,
            StepSpec::Finish(OutcomeSpec { success: ok, message: m, data: DataSpec::ServiceData }),
        ),
        (StageSpec::Connecting(task), EventSpec::Done(r)) => match r {
            Ok(()) => after_connect(username, args, task),
            Err(m) => (StageSpec::Finished, failure(m)),
        },
        (StageSpec::AwaitUserInformation, EventSpec::Status(r)) => status_step(
            r,
            (StageSpec::Finished, success("User validated successfully"@, DataSpec::UserConfig)),
            "User '"@ + username + "' configuration not found"@,
        ),
        (StageSpec::AwaitTimeLeft { operation, seconds }, EventSpec::Status(r)) => status_step(
            r,
            (
                StageSpec::Finished,
                success(
                    "Successfully modified time: "@ + operation + decimal(seconds as nat)
                        + " seconds"@,
                    DataSpec::Empty,
                ),
            ),
            "Failed to modify time"@,
        ),
        (StageSpec::AwaitAllowedDays { limits }, EventSpec::Status(r)) => status_step(
            r,
            (
                StageSpec::AwaitTimeLimits,
                StepSpec::Perform(RequestSpec::SetTimeLimitForDays(limits)),
            ),
            "Failed to set allowed days"@,
        ),
        (StageSpec::AwaitTimeLimits, EventSpec::Status(r)) => status_step(
            r,
            (
                StageSpec::Finished,
                success("Weekly time limits configured successfully"@, DataSpec::Empty),
            ),
            "Failed to set time limits"@,
        ),
        (StageSpec::AwaitDayHours { day, progress }, EventSpec::Status(r)) => hours_scan(
            match args.intervals {
                Some(v) => v@,
                None => Seq::empty(),
            },
            day + 1,
            record_day(progress, day, r),
        ),
        (StageSpec::AwaitPolicyParse, EventSpec::Done(r)) => match r {
            Ok(()) => (StageSpec::AwaitReply, StepSpec::Perform(RequestSpec::SyncAppArmorPolicy)),
            Err(e) => (StageSpec::Finished, failure("Failed to parse policies: "@ + e)),
        },
        (StageSpec::AwaitScreenshotPolicy, EventSpec::Done(r)) => match r {
            Ok(()) => (
                StageSpec::AwaitDone {
                    success_message: "Screenshot policy synchronized"@,
                    with_data: false,
                },
                StepSpec::Perform(RequestSpec::WakeScreenshotScheduler),
            ),
            Err(m) => (StageSpec::Finished, failure(m)),
        },
        (StageSpec::AwaitDevicePolicyCleared, EventSpec::Done(_)) => (
            StageSpec::AwaitDone {
                success_message: "Device unenrolled locally; agent token cleared"@,
                with_data: false,
            },
            StepSpec::Perform(RequestSpec::ClearEnrollment),
        ),
        _ => (StageSpec::Finished, failure(Seq::empty())),
    }
}

/// The account that a screenshot capture concerns: the `linux_username` argument,
/// else the command's account unless that is blank.
pub open spec fn capture_account(username: Seq<char>, args: CommandArgs) -> Option<Seq<char>> {
    match args.linux_username {
        Some(u) => Some(u@),
        None => if is_blank_text(username) {
            None
        } else {
            Some(username)
        },
    }
}

/// How a command whose account passed its check begins.
pub open spec fn begin_spec(action: Seq<char>, username: Seq<char>, args: CommandArgs) -> (
    StageSpec,
    StepSpec,
) {
    match kind_of(action) {
        CommandKind::DomainPolicyState => (
            StageSpec::AwaitDone { success_message: "Fetched domain policy state"@, with_data: true },
            StepSpec::Perform(RequestSpec::DomainPolicyState),
        ),
        CommandKind::DomainPolicy(op) => (
            StageSpec::AwaitReply,
            StepSpec::Perform(RequestSpec::DomainPolicy(op)),
        ),
        CommandKind::ValidateUser => (
            StageSpec::Connecting(TimekprTask::ValidateUser),
            StepSpec::Perform(RequestSpec::ConnectTimekpr),
        ),
        CommandKind::ModifyTimeLeft => (
            StageSpec::Connecting(TimekprTask::ModifyTimeLeft),
            StepSpec::Perform(RequestSpec::ConnectTimekpr),
        ),
        CommandKind::SetWeeklyTimeLimits => (
            StageSpec::Connecting(TimekprTask::WeeklyLimits),
            StepSpec::Perform(RequestSpec::ConnectTimekpr),
        ),
        CommandKind::SetAllowedHours => (
            StageSpec::Connecting(TimekprTask::AllowedHours),
            StepSpec::Perform(RequestSpec::ConnectTimekpr),
        ),
        CommandKind::SyncAppArmorPolicy => if args.has_policies {
            (StageSpec::AwaitPolicyParse, StepSpec::Perform(RequestSpec::ParseAppArmorPolicies))
        } else {
            (StageSpec::Finished, failure("Missing 'policies' argument"@))
        },
        CommandKind::SyncLinuxDevicePolicy => (
            StageSpec::AwaitDone {
                success_message: "Linux device policy synchronized"@,
                with_data: false,
            },
            StepSpec::Perform(RequestSpec::SyncLinuxDevicePolicy),
        ),
        CommandKind::RefreshInstalledApps => (
            StageSpec::Finished,
            success("Installed apps refresh queued"@, DataSpec::Queued(Some(username))),
        ),
        CommandKind::SyncScreenshotPolicy => (
            StageSpec::AwaitScreenshotPolicy,
            StepSpec::Perform(RequestSpec::ApplyScreenshotPolicy),
        ),
        CommandKind::CaptureScreenshot => (
            StageSpec::Finished,
            success(
                "Screenshot capture queued"@,
                DataSpec::Queued(capture_account(username, args)),
            ),
        ),
        CommandKind::Unenroll => (
            StageSpec::AwaitDevicePolicyCleared,
            StepSpec::Perform(RequestSpec::ClearDevicePolicy),
        ),
        CommandKind::ShowOverlay => (StageSpec::AwaitReply, StepSpec::Perform(RequestSpec::ShowOverlay)),
        CommandKind::DismissOverlay => (
            StageSpec::AwaitDone {
                success_message: "Guardian Space overlay dismissed"@,
                with_data: false,
            },
            StepSpec::Perform(RequestSpec::DismissOverlay),
        ),
        CommandKind::Hardware => (StageSpec::AwaitReport, StepSpec::Perform(RequestSpec::HardwareCommand)),
        CommandKind::Unknown => (StageSpec::Finished, failure("Unknown action '"@ + action + "'"@)),
    }
}

/// How a command begins: its account's check, given whether the system has the
/// account, and then the command itself.
pub open spec fn start_spec(
    action: Seq<char>,
    username: Seq<char>,
    args: CommandArgs,
    user_exists: bool,
) -> (StageSpec, StepSpec) {
    match username_check(action, username, user_exists) {
        Err(m) => (StageSpec::Finished, failure(m)),
        Ok(()) => begin_spec(action, username, args),
    }
}


struct HoursProgress {
    succeeded: u64,
    attempted: u64,
    errors: Vec<String>,
}

impl View for HoursProgress {
    type V = HoursProgressSpec;

    closed spec fn view(&self) -> HoursProgressSpec {
        HoursProgressSpec {
            succeeded: self.succeeded as nat,
            attempted: self.attempted as nat,
            errors: self.errors@.map_values(|e: String| e@),
        }
    }
}

enum Stage {
    AwaitDone { success_message: String, with_data: bool },
    AwaitReply,
    AwaitReport,
    Connecting(TimekprTask),
    AwaitUserInformation,
    AwaitTimeLeft { operation: String, seconds: i32 },
    AwaitAllowedDays { limits: Vec<i32> },
    AwaitTimeLimits,
    AwaitDayHours { day: u64, progress: HoursProgress },
    AwaitPolicyParse,
    AwaitScreenshotPolicy,
    AwaitDevicePolicyCleared,
    Finished,
}

impl View for Stage {
    type V = StageSpec;

    closed spec fn view(&self) -> StageSpec {
        match self {
            Stage::AwaitDone { success_message, with_data } => StageSpec::AwaitDone {
                success_message: success_message@,
                with_data: *with_data,
            },
            Stage::AwaitReply => StageSpec::AwaitReply,
            Stage::AwaitReport => StageSpec::AwaitReport,
            Stage::Connecting(t) => StageSpec::Connecting(*t),
            Stage::AwaitUserInformation => StageSpec::AwaitUserInformation,
            Stage::AwaitTimeLeft { operation, seconds } => StageSpec::AwaitTimeLeft {
                operation: operation@,
                seconds: *seconds,
            },
            Stage::AwaitAllowedDays { limits } => StageSpec::AwaitAllowedDays { limits: limits@ },
            Stage::AwaitTimeLimits => StageSpec::AwaitTimeLimits,
            Stage::AwaitDayHours { day, progress } => StageSpec::AwaitDayHours {
                day: *day as nat,
                progress: progress@,
            },
            Stage::AwaitPolicyParse => StageSpec::AwaitPolicyParse,
            Stage::AwaitScreenshotPolicy => StageSpec::AwaitScreenshotPolicy,
            Stage::AwaitDevicePolicyCleared => StageSpec::AwaitDevicePolicyCleared,
            Stage::Finished => StageSpec::Finished,
        }
    }
}

/// The bounds that the counts of a week's allowed hours keep.
pub open spec fn stage_bounded(stage: StageSpec) -> bool {
    match stage {
        StageSpec::AwaitDayHours { day, progress } => day < 7 && progress.succeeded
            < progress.attempted <= day + 1,
        StageSpec::AwaitTimeLeft { seconds, .. } => seconds >= 0,
        _ => true,
    }
}

/// A command under way: its account, its arguments, and where it stands.
pub struct CommandFlow {
    username: String,
    args: CommandArgs,
    stage: Stage,
}

fn finish(success: bool, message: String, data: OutcomeData) -> (r: (Stage, CommandStep))
    ensures
        r.0@ == StageSpec::Finished,
        r.1@ == StepSpec::Finish(OutcomeSpec { success, message: message@, data: data@ }),
{
    (Stage::Finished, CommandStep::Finish(CommandOutcome { success, message, data }))
}

fn fail(message: String) -> (r: (Stage, CommandStep))
    ensures
        r.0@ == StageSpec::Finished,
        r.1@ == failure(message@),
{
    finish(false, message, OutcomeData::Empty)
}

fn fail_with(message: &str) -> (r: (Stage, CommandStep))
    ensures
        r.0@ == StageSpec::Finished,
        r.1@ == failure(message@),
{
    fail(String::from_str(message))
}

fn status_text(message: String, fallback: &str) -> (r: String)
    ensures
        r@ == status_message(message@, fallback@),
{
    if is_blank(message.as_str()) {
        String::from_str(fallback)
    } else {
        message
    }
}

fn join_strings(parts: &Vec<String>, sep: &str) -> (r: String)
    ensures
        r@ == join_texts(parts@.map_values(|e: String| e@), sep@),
{
    let ghost texts = parts@.map_values(|e: String| e@);
    let mut r = String::new();
    let mut i: usize = 0;
    assert(texts.take(0) =~= Seq::<Seq<char>>::empty());
    while i < parts.len()
        invariant
            i <= parts@.len(),
            texts == parts@.map_values(|e: String| e@),
            r@ == join_texts(texts.take(i as int), sep@),
        decreases parts.len() - i,
    {
        assert(texts.take(i as int + 1).drop_last() =~= texts.take(i as int));
        if i > 0 {
            r.append(sep);
        } else {
            assert(texts.take(1) =~= seq![texts[0]]);
        }
        r.append(parts[i].as_str());
        i = i + 1;
    }
    assert(texts.take(parts@.len() as int) =~= texts);
    r
}

fn day_error_text(day: &str, message: &str) -> (r: String)
    ensures
        r@ == day_error(day@, message@),
{
    let mut r = String::from_str("Day ");
    r.append(day);
    r.append(": ");
    r.append(message);
    r
}

fn push_error(p: &mut HoursProgress, e: String)
    ensures
        final(p)@ == (HoursProgressSpec {
            succeeded: old(p)@.succeeded,
            attempted: old(p)@.attempted,
            errors: old(p)@.errors.push(e@),
        }),
        final(p).succeeded == old(p).succeeded,
        final(p).attempted == old(p).attempted,
{
    p.errors.push(e);
    assert(p@.errors =~= old(p)@.errors.push(e@));
}

fn scan_hours(intervals: &Vec<Option<DayHoursPayload>>, start: u64, progress: HoursProgress) -> (r: (
    Stage,
    CommandStep,
))
    requires
        start <= 7,
        progress.succeeded <= progress.attempted <= start,
    ensures
        (r.0@, r.1@) == hours_scan(intervals@, start as nat, progress@),
        stage_bounded(r.0@),
{
    let mut d: u64 = start;
    let mut p = progress;
    while d < 7
        invariant
            start <= d <= 7,
            p.succeeded <= p.attempted <= d,
            hours_scan(intervals@, start as nat, progress@) == hours_scan(intervals@, d as nat, p@),
        decreases 7 - d,
    {
        let day = decimal_string(d + 1);
        let payload: Option<&DayHoursPayload> = if (d as usize) < intervals.len() {
            match &intervals[d as usize] {
                Some(x) => Some(x),
                None => None,
            }
        } else {
            None
        };
        let hours = match payload {
            Some(x) => match parse_day_hours(x, day.as_str()) {
                Ok(h) => h,
                Err(m) => {
                    let e = day_error_text(day.as_str(), m.as_str());
                    push_error(&mut p, e);
                    p.attempted = p.attempted + 1;
                    d = d + 1;
                    continue;
                },
            },
            None => {
                let full = build_full_access_day();
                assert(full@ =~= full_access_day_map());
                full
            },
        };
        p.attempted = p.attempted + 1;
        return (
            Stage::AwaitDayHours { day: d, progress: p },
            CommandStep::Perform(CommandRequest::SetAllowedHours { day, hours }),
        );
    }
    if p.succeeded == p.attempted {
        let mut m = String::from_str("Successfully set allowed hours for ");
        m.append(decimal_string(p.succeeded).as_str());
        m.append("/");
        m.append(decimal_string(p.attempted).as_str());
        m.append(" days");
        finish(true, m, OutcomeData::Empty)
    } else {
        let mut m = String::from_str("Errors setting allowed hours: ");
        m.append(join_strings(&p.errors, "; ").as_str());
        fail(m)
    }
}

fn record_status(p: HoursProgress, d: u64, status: Result<(i32, String), String>) -> (r: HoursProgress)
    requires
        d < 7,
        p.succeeded < p.attempted <= d + 1,
    ensures
        r@ == record_day(p@, d as nat, match status {
            Ok((code, m)) => Ok((code, m@)),
            Err(e) => Err(e@),
        }),
        r.succeeded <= r.attempted <= d + 1,
{
    let mut p = p;
    let day = decimal_string(d + 1);
    match status {
        Ok((code, m)) => {
            if code == 0 {
                p.succeeded = p.succeeded + 1;
            } else {
                let text = status_text(m, "Failed to update allowed hours");
                let e = day_error_text(day.as_str(), text.as_str());
                push_error(&mut p, e);
            }
        },
        Err(m) => {
            let e = day_error_text(day.as_str(), m.as_str());
            push_error(&mut p, e);
        },
    }
    p
}


fn connected(username: &String, args: &CommandArgs, task: TimekprTask) -> (r: (Stage, CommandStep))
    ensures
        (r.0@, r.1@) == after_connect(username@, *args, task),
        stage_bounded(r.0@),
{
    match task {
        TimekprTask::ValidateUser => (
            Stage::AwaitUserInformation,
            CommandStep::Perform(CommandRequest::GetUserInformation),
        ),
        TimekprTask::ModifyTimeLeft => {
            let secs: i64 = match args.seconds {
                Some(v) => v,
                None => 0,
            };
            if secs < 0 || secs > i32::MAX as i64 {
                return fail_with("seconds must be a non-negative integer");
            }
            let op = match &args.operation {
                Some(o) => o.clone(),
                None => String::from_str("+"),
            };
            let op2 = op.clone();
            (
                Stage::AwaitTimeLeft { operation: op, seconds: secs as i32 },
                CommandStep::Perform(CommandRequest::SetTimeLeft { operation: op2, seconds: secs as i32 }),
            )
        },
        TimekprTask::WeeklyLimits => match &args.schedule {
            None => fail_with("Missing 'schedule' argument"),
            Some(week) => match schedule_to_day_limits(week) {
                Err(e) => fail(e),
                Ok((days, limits)) => {
                    if days.len() == 0 {
                        fail_with("No allowed days with time limits configured")
                    } else {
                        (
                            Stage::AwaitAllowedDays { limits },
                            CommandStep::Perform(CommandRequest::SetAllowedDays(days)),
                        )
                    }
                },
            },
        },
        TimekprTask::AllowedHours => match &args.intervals {
            None => fail_with("Missing 'intervals' argument"),
            Some(v) => {
                let p = HoursProgress { succeeded: 0, attempted: 0, errors: Vec::new() };
                assert(p@.errors =~= Seq::<Seq<char>>::empty());
                scan_hours(v, 0, p)
            },
        },
    }
}

fn after_status(
    status: Result<(i32, String), String>,
    next: (Stage, CommandStep),
    fallback: &str,
) -> (r: (Stage, CommandStep))
    ensures
        (r.0@, r.1@) == status_step(
            match status {
                Ok((code, m)) => Ok((code, m@)),
                Err(e) => Err(e@),
            },
            (next.0@, next.1@),
            fallback@,
        ),
{
    match status {
        Ok((code, m)) => {
            if code == 0 {
                next
            } else {
                fail(status_text(m, fallback))
            }
        },
        Err(m) => fail(m),
    }
}

fn transition(username: &String, args: &CommandArgs, stage: Stage, event: CommandEvent) -> (r: (
    Stage,
    CommandStep,
))
    requires
        accepts(stage@, event@),
        stage_bounded(stage@),
    ensures
        (r.0@, r.1@) == advance_spec(username@, *args, stage@, event@),
        stage_bounded(r.0@),
{
    match (stage, event) {
        (Stage::AwaitDone { success_message, with_data }, CommandEvent::Done(r)) => match r {
            Ok(()) => finish(
                true,
                success_message,
                if with_data {
                    OutcomeData::ServiceData
                } else {
                    OutcomeData::Empty
                },
            ),
            Err(m) => fail(m),
        },
        (Stage::AwaitReply, CommandEvent::Replied(r)) => match r {
            Ok(m) => finish(true, m, OutcomeData::Empty),
            Err(m) => fail(m),
        },
        (Stage::AwaitReport, CommandEvent::Reported(ok, m)) => finish(ok, m, OutcomeData::ServiceData),
        (Stage::Connecting(task), CommandEvent::Done(r)) => match r {
            Ok(()) => connected(username, args, task),
            Err(m) => fail(m),
        },
        (Stage::AwaitUserInformation, CommandEvent::Status(r)) => {
            let mut fallback = String::from_str("User '");
            fallback.append(username.as_str());
            fallback.append("' configuration not found");
            after_status(
                r,
                finish(true, String::from_str("User validated successfully"), OutcomeData::UserConfig),
                fallback.as_str(),
            )
        },
        (Stage::AwaitTimeLeft { operation, seconds }, CommandEvent::Status(r)) => {
            let mut m = String::from_str("Successfully modified time: ");
            m.append(operation.as_str());
            m.append(decimal_string(seconds as u64).as_str());
            m.append(" seconds");
            after_status(r, finish(true, m, OutcomeData::Empty), "Failed to modify time")
        },
        (Stage::AwaitAllowedDays { limits }, CommandEvent::Status(r)) => after_status(
            r,
            (Stage::AwaitTimeLimits, CommandStep::Perform(CommandRequest::SetTimeLimitForDays(limits))),
            "Failed to set allowed days",
        ),
        (Stage::AwaitTimeLimits, CommandEvent::Status(r)) => after_status(
            r,
            finish(
                true,
                String::from_str("Weekly time limits configured successfully"),
                OutcomeData::Empty,
            ),
            "Failed to set time limits",
        ),
        (Stage::AwaitDayHours { day, progress }, CommandEvent::Status(r)) => {
            let p = record_status(progress, day, r);
            match &args.intervals {
                Some(v) => scan_hours(v, day + 1, p),
                None => {
                    let empty: Vec<Option<DayHoursPayload>> = Vec::new();
                    scan_hours(&empty, day + 1, p)
                },
            }
        },
        (Stage::AwaitPolicyParse, CommandEvent::Done(r)) => match r {
            Ok(()) => (Stage::AwaitReply, CommandStep::Perform(CommandRequest::SyncAppArmorPolicy)),
            Err(e) => {
                let mut m = String::from_str("Failed to parse policies: ");
                m.append(e.as_str());
                fail(m)
            },
        },
        (Stage::AwaitScreenshotPolicy, CommandEvent::Done(r)) => match r {
            Ok(()) => (
                Stage::AwaitDone {
                    success_message: String::from_str("Screenshot policy synchronized"),
                    with_data: false,
                },
                CommandStep::Perform(CommandRequest::WakeScreenshotScheduler),
            ),
            Err(m) => fail(m),
        },
        (Stage::AwaitDevicePolicyCleared, CommandEvent::Done(_)) => (
            Stage::AwaitDone {
                success_message: String::from_str("Device unenrolled locally; agent token cleared"),
                with_data: false,
            },
            CommandStep::Perform(CommandRequest::ClearEnrollment),
        ),
        _ => fail(String::new()),
    }
}

fn begin(action: &str, username: &String, args: &CommandArgs) -> (r: (Stage, CommandStep))
    ensures
        (r.0@, r.1@) == begin_spec(action@, username@, *args),
        stage_bounded(r.0@),
{
    match classify_action(action) {
        CommandKind::DomainPolicyState => (
            Stage::AwaitDone {
                success_message: String::from_str("Fetched domain policy state"),
                with_data: true,
            },
            CommandStep::Perform(CommandRequest::DomainPolicyState),
        ),
        CommandKind::DomainPolicy(op) => (
            Stage::AwaitReply,
            CommandStep::Perform(CommandRequest::DomainPolicy(op)),
        ),
        CommandKind::ValidateUser => (
            Stage::Connecting(TimekprTask::ValidateUser),
            CommandStep::Perform(CommandRequest::ConnectTimekpr),
        ),
        CommandKind::ModifyTimeLeft => (
            Stage::Connecting(TimekprTask::ModifyTimeLeft),
            CommandStep::Perform(CommandRequest::ConnectTimekpr),
        ),
        CommandKind::SetWeeklyTimeLimits => (
            Stage::Connecting(TimekprTask::WeeklyLimits),
            CommandStep::Perform(CommandRequest::ConnectTimekpr),
        ),
        CommandKind::SetAllowedHours => (
            Stage::Connecting(TimekprTask::AllowedHours),
            CommandStep::Perform(CommandRequest::ConnectTimekpr),
        ),
        CommandKind::SyncAppArmorPolicy => {
            if args.has_policies {
                (Stage::AwaitPolicyParse, CommandStep::Perform(CommandRequest::ParseAppArmorPolicies))
            } else {
                fail_with("Missing 'policies' argument")
            }
        },
        CommandKind::SyncLinuxDevicePolicy => (
            Stage::AwaitDone {
                success_message: String::from_str("Linux device policy synchronized"),
                with_data: false,
            },
            CommandStep::Perform(CommandRequest::SyncLinuxDevicePolicy),
        ),
        CommandKind::RefreshInstalledApps => finish(
            true,
            String::from_str("Installed apps refresh queued"),
            OutcomeData::Queued { linux_username: Some(username.clone()) },
        ),
        CommandKind::SyncScreenshotPolicy => (
            Stage::AwaitScreenshotPolicy,
            CommandStep::Perform(CommandRequest::ApplyScreenshotPolicy),
        ),
        CommandKind::CaptureScreenshot => {
            let account = match &args.linux_username {
                Some(u) => Some(u.clone()),
                None => if is_blank(username.as_str()) {
                    None
                } else {
                    Some(username.clone())
                },
            };
            finish(
                true,
                String::from_str("Screenshot capture queued"),
                OutcomeData::Queued { linux_username: account },
            )
        },
        CommandKind::Unenroll => (
            Stage::AwaitDevicePolicyCleared,
            CommandStep::Perform(CommandRequest::ClearDevicePolicy),
        ),
        CommandKind::ShowOverlay => (Stage::AwaitReply, CommandStep::Perform(CommandRequest::ShowOverlay)),
        CommandKind::DismissOverlay => (
            Stage::AwaitDone {
                success_message: String::from_str("Guardian Space overlay dismissed"),
                with_data: false,
            },
            CommandStep::Perform(CommandRequest::DismissOverlay),
        ),
        CommandKind::Hardware => (Stage::AwaitReport, CommandStep::Perform(CommandRequest::HardwareCommand)),
        CommandKind::Unknown => {
            let mut m = String::from_str("Unknown action '");
            m.append(action);
            m.append("'");
            fail(m)
        },
    }
}

impl CommandFlow {
    #[verifier::type_invariant]
    spec fn bounded(self) -> bool {
        stage_bounded(self.stage@)
    }

    /// The account the command names.
    pub closed spec fn account(self) -> Seq<char> {
        self.username@
    }

    /// The command's arguments.
    pub closed spec fn arguments(self) -> CommandArgs {
        self.args
    }

    /// Where the command stands.
    pub closed spec fn stage(self) -> StageSpec {
        self.stage@
    }

    /// Begins the command `action` for the account `username`, given whether the
    /// system has that account: a failed check ends it at once.
    pub fn begin_with_lookup(action: &str, username: String, args: CommandArgs, user_exists: bool) -> (r: (
        CommandFlow,
        CommandStep,
    ))
        ensures
            (r.0.stage(), r.1@) == start_spec(action@, username@, args, user_exists),
            r.0.account() == username@,
            r.0.arguments() == args,
    {
        match check_command_username(action, username.as_str(), user_exists) {
            Err(m) => {
                let (stage, step) = fail(m);
                (CommandFlow { username, args, stage }, step)
            },
            Ok(()) => {
                let (stage, step) = begin(action, &username, &args);
                (CommandFlow { username, args, stage }, step)
            },
        }
    }

    /// Begins the command `action` for the account `username`, checking the account
    /// against the system's account database.
    pub fn start(action: &str, username: String, args: CommandArgs) -> (r: (CommandFlow, CommandStep))
        ensures
            exists|found: bool| (r.0.stage(), r.1@) == start_spec(action@, username@, args, found),
            r.0.account() == username@,
            r.0.arguments() == args,
    {
        match validate_command_username(action, username.as_str()) {
            Err(m) => {
                let ghost found = choose|found: bool|
                    check_text(Err::<(), String>(m)) == username_check(action@, username@, found);
                let (stage, step) = fail(m);
                assert((stage@, step@) == start_spec(action@, username@, args, found));
                (CommandFlow { username, args, stage }, step)
            },
            Ok(()) => {
                let ghost found = choose|found: bool|
                    check_text(Ok::<(), String>(())) == username_check(action@, username@, found);
                let (stage, step) = begin(action, &username, &args);
                assert((stage@, step@) == start_spec(action@, username@, args, found));
                (CommandFlow { username, args, stage }, step)
            },
        }
    }

    /// Whether the command has reported its outcome.
    pub fn is_finished(&self) -> (r: bool)
        ensures
            r == (self.stage() is Finished),
    {
        match self.stage {
            Stage::Finished => true,
            _ => false,
        }
    }

    /// Whether `event` is the kind of answer the command waits for.
    pub fn accepts(&self, event: &CommandEvent) -> (r: bool)
        ensures
            r == accepts(self.stage(), event@),
    {
        match (&self.stage, event) {
            (Stage::AwaitDone { .. }, CommandEvent::Done(_)) => true,
            (Stage::Connecting(_), CommandEvent::Done(_)) => true,
            (Stage::AwaitPolicyParse, CommandEvent::Done(_)) => true,
            (Stage::AwaitScreenshotPolicy, CommandEvent::Done(_)) => true,
            (Stage::AwaitDevicePolicyCleared, CommandEvent::Done(_)) => true,
            (Stage::AwaitReply, CommandEvent::Replied(_)) => true,
            (Stage::AwaitReport, CommandEvent::Reported(..)) => true,
            (Stage::AwaitUserInformation, CommandEvent::Status(_)) => true,
            (Stage::AwaitTimeLeft { .. }, CommandEvent::Status(_)) => true,
            (Stage::AwaitAllowedDays { .. }, CommandEvent::Status(_)) => true,
            (Stage::AwaitTimeLimits, CommandEvent::Status(_)) => true,
            (Stage::AwaitDayHours { .. }, CommandEvent::Status(_)) => true,
            _ => false,
        }
    }

    /// Takes the answer to the last call and decides what comes next.
    pub fn advance(&mut self, event: CommandEvent) -> (step: CommandStep)
        requires
            accepts(old(self).stage(), event@),
        ensures
            (final(self).stage(), step@) == advance_spec(
                old(self).account(),
                old(self).arguments(),
                old(self).stage(),
                event@,
            ),
            final(self).account() == old(self).account(),
            final(self).arguments() == old(self).arguments(),
    {
        proof { use_type_invariant(&*self); }
        let mut stage = Stage::Finished;
        std::mem::swap(&mut stage, &mut self.stage);
        let (next, step) = transition(&self.username, &self.args, stage, event);
        self.stage = next;
        step
    }
}


/// A command that acts on an account whose name is malformed ends at once with the
/// malformed-name failure, before any call and whatever the account database holds.
pub proof fn law_malformed_account_stops_command(
    action: Seq<char>,
    username: Seq<char>,
    args: CommandArgs,
    found: bool,
)
    requires
        !device_wide_action(action),
        !valid_linux_username(username),
    ensures
        start_spec(action, username, args, found) == (
            StageSpec::Finished,
            failure(invalid_username_message(username)),
        ),
{
}

/// A command that acts on a well-formed account the system does not have ends at once
/// with the missing-account failure.
pub proof fn law_missing_account_stops_command(action: Seq<char>, username: Seq<char>, args: CommandArgs)
    requires
        !device_wide_action(action),
        valid_linux_username(username),
    ensures
        start_spec(action, username, args, false) == (
            StageSpec::Finished,
            failure(unknown_user_message(username)),
        ),
{
}

/// A command that acts on the whole device begins the same whatever account it names.
pub proof fn law_device_wide_commands_skip_account_check(
    action: Seq<char>,
    username: Seq<char>,
    args: CommandArgs,
    found: bool,
)
    requires
        device_wide_action(action),
    ensures
        start_spec(action, username, args, found) == begin_spec(action, username, args),
{
}

/// The days before day `d` have each been tried once and either set or reported failed.
pub open spec fn days_counted(p: HoursProgressSpec, d: nat) -> bool {
    p.attempted == d && p.succeeded + p.errors.len() == d
}

/// Setting the allowed hours of the week tries each day once, in order: from day `d`
/// on, it either asks to set the next day whose entry parses (or that has none), with
/// that day counted as tried, or it reports the outcome after Sunday, a success only
/// when every one of the seven days was set.
pub proof fn law_allowed_hours_try_each_day(
    intervals: Seq<Option<DayHoursPayload>>,
    d: nat,
    p: HoursProgressSpec,
)
    requires
        d <= 7,
        days_counted(p, d),
    ensures
        match hours_scan(intervals, d, p) {
            (StageSpec::AwaitDayHours { day, progress }, StepSpec::Perform(RequestSpec::SetAllowedHours(name, _))) => {
                &&& d <= day < 7
                &&& name == decimal(day + 1)
                &&& progress.attempted == day + 1
                &&& progress.succeeded + progress.errors.len() == day
                &&& progress.succeeded == p.succeeded
            },
            (StageSpec::Finished, StepSpec::Finish(o)) => {
                &&& o.success == (d == 7 && p.errors.len() == 0)
                &&& o.success ==> o.message == "Successfully set allowed hours for "@ + decimal(7)
                    + "/"@ + decimal(7) + " days"@
            },
            _ => false,
        },
    decreases 7 - d,
{
    if d < 7 {
        let day = decimal(d + 1);
        match payload_at(intervals, d as int) {
            Some(payload) => match day_hours_of(day, payload) {
                Err(m) => {
                    law_allowed_hours_try_each_day(
                        intervals,
                        d + 1,
                        HoursProgressSpec {
                            succeeded: p.succeeded,
                            attempted: p.attempted + 1,
                            errors: p.errors.push(day_error(day, m)),
                        },
                    );
                },
                Ok(_) => {},
            },
            None => {},
        }
    }
}

/// The answer for a day counts that day once: as set, or as an error.
pub proof fn law_answer_counts_the_day(
    p: HoursProgressSpec,
    day: nat,
    status: Result<(i32, Seq<char>), Seq<char>>,
)
    requires
        p.attempted == day + 1,
        p.succeeded + p.errors.len() == day,
    ensures
        days_counted(record_day(p, day, status), day + 1),
        record_day(p, day, status).succeeded == p.succeeded + (if status matches Ok((code, _))
            && code == 0 {
            1int
        } else {
            0int
        }),
{
}


/// A failed outcome carries no data.
pub open spec fn failure_has_no_data(step: StepSpec) -> bool {
    match step {
        StepSpec::Finish(o) => !o.success ==> o.data == DataSpec::Empty,
        StepSpec::Perform(_) => true,
    }
}

/// The stage and step after feeding the answers `events`, one at a time, to a command
/// that stands at `stage` and has just taken `step`. Feeding stops at the outcome, or
/// at an answer of a kind the command does not wait for.
pub open spec fn run_steps(
    username: Seq<char>,
    args: CommandArgs,
    stage: StageSpec,
    step: StepSpec,
    events: Seq<EventSpec>,
) -> (StageSpec, StepSpec)
    decreases events.len(),
{
    if events.len() == 0 || step is Finish || !accepts(stage, events[0]) {
        (stage, step)
    } else {
        let (next_stage, next_step) = advance_spec(username, args, stage, events[0]);
        run_steps(username, args, next_stage, next_step, events.drop_first())
    }
}

/// Where a whole command stands after its start and the answers `events`, given
/// whether the system has the account.
pub open spec fn command_run(
    action: Seq<char>,
    username: Seq<char>,
    args: CommandArgs,
    user_exists: bool,
    events: Seq<EventSpec>,
) -> (StageSpec, StepSpec) {
    let (stage, step) = start_spec(action, username, args, user_exists);
    run_steps(username, args, stage, step, events)
}

proof fn lemma_hours_scan_failures_empty(
    intervals: Seq<Option<DayHoursPayload>>,
    d: nat,
    p: HoursProgressSpec,
)
    ensures
        !(hours_scan(intervals, d, p).0 is AwaitReport),
        failure_has_no_data(hours_scan(intervals, d, p).1),
    decreases 7 - d,
{
    if d < 7 {
        let day = decimal(d + 1);
        match payload_at(intervals, d as int) {
            Some(payload) => match day_hours_of(day, payload) {
                Err(m) => {
                    lemma_hours_scan_failures_empty(
                        intervals,
                        d + 1,
                        HoursProgressSpec {
                            succeeded: p.succeeded,
                            attempted: p.attempted + 1,
                            errors: p.errors.push(day_error(day, m)),
                        },
                    );
                },
                Ok(_) => {},
            },
            None => {},
        }
    }
}

proof fn lemma_advance_failures_empty(
    username: Seq<char>,
    args: CommandArgs,
    stage: StageSpec,
    event: EventSpec,
)
    requires
        !(stage is AwaitReport),
    ensures
        !(advance_spec(username, args, stage, event).0 is AwaitReport),
        failure_has_no_data(advance_spec(username, args, stage, event).1),
{
    match (stage, event) {
        (StageSpec::Connecting(TimekprTask::AllowedHours), EventSpec::Done(Ok(()))) => {
            match args.intervals {
                Some(v) => lemma_hours_scan_failures_empty(
                    v@,
                    0,
                    HoursProgressSpec { succeeded: 0, attempted: 0, errors: Seq::empty() },
                ),
                None => {},
            }
        },
        (StageSpec::AwaitDayHours { day, progress }, EventSpec::Status(r)) => {
            lemma_hours_scan_failures_empty(
                match args.intervals {
                    Some(v) => v@,
                    None => Seq::empty(),
                },
                day + 1,
                record_day(progress, day, r),
            );
        },
        _ => {},
    }
}

proof fn lemma_run_failures_empty(
    username: Seq<char>,
    args: CommandArgs,
    stage: StageSpec,
    step: StepSpec,
    events: Seq<EventSpec>,
)
    requires
        !(stage is AwaitReport),
        failure_has_no_data(step),
    ensures
        failure_has_no_data(run_steps(username, args, stage, step, events).1),
    decreases events.len(),
{
    if !(events.len() == 0 || step is Finish || !accepts(stage, events[0])) {
        lemma_advance_failures_empty(username, args, stage, events[0]);
        let (next_stage, next_step) = advance_spec(username, args, stage, events[0]);
        lemma_run_failures_empty(username, args, next_stage, next_step, events.drop_first());
    }
}

/// Every failure of a command other than a hardware command reports an empty object
/// as its data, whatever the account database holds and whatever the calls answer.
pub proof fn law_failures_carry_no_data(
    action: Seq<char>,
    username: Seq<char>,
    args: CommandArgs,
    user_exists: bool,
    events: Seq<EventSpec>,
)
    requires
        !(kind_of(action) is Hardware),
    ensures
        failure_has_no_data(command_run(action, username, args, user_exists, events).1),
{
    let (stage, step) = start_spec(action, username, args, user_exists);
    lemma_run_failures_empty(username, args, stage, step, events);
}


/// The lengths of the action names, and the characters that tell apart names of the
/// same length.
proof fn lemma_action_name_letters()
    ensures
        "get_domain_policy_state"@.len() == 23,
        "begin_domain_policy_sync"@.len() == 24,
        "delete_domain_policy_sources"@.len() == 28,
        "sync_domain_policy_chunk"@.len() == 24,
        "update_domain_policy_manifest"@.len() == 29,
        "finalize_domain_policy_sync"@.len() == 27,
        "abort_domain_policy_sync"@.len() == 24,
        "sync_domain_policy"@.len() == 18,
        "validate_user"@.len() == 13,
        "modify_time_left"@.len() == 16,
        "set_weekly_time_limits"@.len() == 22,
        "set_allowed_hours"@.len() == 17,
        "sync_apparmor_policy"@.len() == 20,
        "sync_linux_device_policy"@.len() == 24,
        "refresh_installed_apps"@.len() == 22,
        "sync_screenshot_policy"@.len() == 22,
        "capture_screenshot"@.len() == 18,
        "unenroll"@.len() == 8,
        "show_overlay"@.len() == 12,
        "dismiss_overlay"@.len() == 15,
        "detect_hardware_oem"@.len() == 19,
        "audit_hardware_baseline"@.len() == 23,
        "apply_hardware_baseline"@.len() == 23,
        "get_domain_policy_state"@[0] == 'g',
        "get_domain_policy_state"@[1] == 'e',
        "audit_hardware_baseline"@[0] == 'a',
        "audit_hardware_baseline"@[1] == 'u',
        "apply_hardware_baseline"@[0] == 'a',
        "apply_hardware_baseline"@[1] == 'p',
        "begin_domain_policy_sync"@[0] == 'b',
        "begin_domain_policy_sync"@[5] == '_',
        "sync_domain_policy_chunk"@[0] == 's',
        "sync_domain_policy_chunk"@[5] == 'd',
        "abort_domain_policy_sync"@[0] == 'a',
        "abort_domain_policy_sync"@[5] == '_',
        "sync_linux_device_policy"@[0] == 's',
        "sync_linux_device_policy"@[5] == 'l',
        "sync_domain_policy"@[0] == 's',
        "capture_screenshot"@[0] == 'c',
        "set_weekly_time_limits"@[0] == 's',
        "set_weekly_time_limits"@[1] == 'e',
        "refresh_installed_apps"@[0] == 'r',
        "refresh_installed_apps"@[1] == 'e',
        "sync_screenshot_policy"@[0] == 's',
        "sync_screenshot_policy"@[1] == 'y',
{
    reveal_strlit("get_domain_policy_state");
    reveal_strlit("begin_domain_policy_sync");
    reveal_strlit("delete_domain_policy_sources");
    reveal_strlit("sync_domain_policy_chunk");
    reveal_strlit("update_domain_policy_manifest");
    reveal_strlit("finalize_domain_policy_sync");
    reveal_strlit("abort_domain_policy_sync");
    reveal_strlit("sync_domain_policy");
    reveal_strlit("validate_user");
    reveal_strlit("modify_time_left");
    reveal_strlit("set_weekly_time_limits");
    reveal_strlit("set_allowed_hours");
    reveal_strlit("sync_apparmor_policy");
    reveal_strlit("sync_linux_device_policy");
    reveal_strlit("refresh_installed_apps");
    reveal_strlit("sync_screenshot_policy");
    reveal_strlit("capture_screenshot");
    reveal_strlit("unenroll");
    reveal_strlit("show_overlay");
    reveal_strlit("dismiss_overlay");
    reveal_strlit("detect_hardware_oem");
    reveal_strlit("audit_hardware_baseline");
    reveal_strlit("apply_hardware_baseline");
}

/// The action that names each domain-policy operation, as the server spells it.
pub open spec fn domain_action_name(op: DomainOp) -> Seq<char> {
    match op {
        DomainOp::BeginSync => "begin_domain_policy_sync"@,
        DomainOp::DeleteSources => "delete_domain_policy_sources"@,
        DomainOp::PushSourceChunk => "sync_domain_policy_chunk"@,
        DomainOp::UpdateManifest => "update_domain_policy_manifest"@,
        DomainOp::FinalizeSync => "finalize_domain_policy_sync"@,
        DomainOp::AbortSync => "abort_domain_policy_sync"@,
        DomainOp::Sync => "sync_domain_policy"@,
    }
}

/// Each domain-policy action runs the operation it is named after, for any account
/// (whether or not the system has it) and any arguments: its one call is that
/// operation, and it then waits for the operation's reply.
pub proof fn law_domain_actions_run_their_operation(
    op: DomainOp,
    username: Seq<char>,
    args: CommandArgs,
    user_exists: bool,
)
    ensures
        start_spec(domain_action_name(op), username, args, user_exists) == (
            StageSpec::AwaitReply,
            StepSpec::Perform(RequestSpec::DomainPolicy(op)),
        ),
{
    lemma_action_name_letters();
}


/// Each action the server sends names its own command: the domain-policy actions
/// their operations, the time-accounting actions their commands, the three hardware
/// actions the hardware report, and so on.
pub proof fn law_actions_name_their_commands()
    ensures
        kind_of("get_domain_policy_state"@) == CommandKind::DomainPolicyState,
        kind_of("begin_domain_policy_sync"@) == CommandKind::DomainPolicy(DomainOp::BeginSync),
        kind_of("delete_domain_policy_sources"@) == CommandKind::DomainPolicy(DomainOp::DeleteSources),
        kind_of("sync_domain_policy_chunk"@) == CommandKind::DomainPolicy(DomainOp::PushSourceChunk),
        kind_of("update_domain_policy_manifest"@) == CommandKind::DomainPolicy(DomainOp::UpdateManifest),
        kind_of("finalize_domain_policy_sync"@) == CommandKind::DomainPolicy(DomainOp::FinalizeSync),
        kind_of("abort_domain_policy_sync"@) == CommandKind::DomainPolicy(DomainOp::AbortSync),
        kind_of("sync_domain_policy"@) == CommandKind::DomainPolicy(DomainOp::Sync),
        kind_of("validate_user"@) == CommandKind::ValidateUser,
        kind_of("modify_time_left"@) == CommandKind::ModifyTimeLeft,
        kind_of("set_weekly_time_limits"@) == CommandKind::SetWeeklyTimeLimits,
        kind_of("set_allowed_hours"@) == CommandKind::SetAllowedHours,
        kind_of("sync_apparmor_policy"@) == CommandKind::SyncAppArmorPolicy,
        kind_of("sync_linux_device_policy"@) == CommandKind::SyncLinuxDevicePolicy,
        kind_of("refresh_installed_apps"@) == CommandKind::RefreshInstalledApps,
        kind_of("sync_screenshot_policy"@) == CommandKind::SyncScreenshotPolicy,
        kind_of("capture_screenshot"@) == CommandKind::CaptureScreenshot,
        kind_of("unenroll"@) == CommandKind::Unenroll,
        kind_of("show_overlay"@) == CommandKind::ShowOverlay,
        kind_of("dismiss_overlay"@) == CommandKind::DismissOverlay,
        kind_of("detect_hardware_oem"@) == CommandKind::Hardware,
        kind_of("audit_hardware_baseline"@) == CommandKind::Hardware,
        kind_of("apply_hardware_baseline"@) == CommandKind::Hardware,
{
    lemma_action_name_letters();
}

/// Exactly the eleven device-wide actions (domain policy, screenshots, unenrolment)
/// skip the account check: every other action, known or not, ends at once with the
/// malformed-name failure when the account name is malformed, and with the
/// missing-account failure when the system has no such account.
pub proof fn law_other_actions_check_the_account(
    action: Seq<char>,
    username: Seq<char>,
    args: CommandArgs,
    user_exists: bool,
)
    requires
        !(action == "get_domain_policy_state"@ || action == "begin_domain_policy_sync"@ || action == "delete_domain_policy_sources"@ || action == "sync_domain_policy_chunk"@ || action == "update_domain_policy_manifest"@ || action == "finalize_domain_policy_sync"@ || action == "abort_domain_policy_sync"@ || action == "sync_domain_policy"@ || action == "sync_screenshot_policy"@ || action == "capture_screenshot"@ || action == "unenroll"@),
    ensures
        !valid_linux_username(username) ==> start_spec(action, username, args, user_exists) == (
            StageSpec::Finished,
            failure("Invalid Linux username '"@ + username + "'"@),
        ),
        valid_linux_username(username) && !user_exists ==> start_spec(
            action,
            username,
            args,
            user_exists,
        ) == (StageSpec::Finished, failure("Linux user '"@ + username + "' does not exist on this system"@)),
{
}

/// The eleven device-wide actions begin the same whatever account they name, and
/// whether or not the system has it.
pub proof fn law_device_wide_actions_skip_the_account(
    action: Seq<char>,
    username: Seq<char>,
    args: CommandArgs,
    user_exists: bool,
)
    requires
        action == "get_domain_policy_state"@ || action == "begin_domain_policy_sync"@ || action == "delete_domain_policy_sources"@ || action == "sync_domain_policy_chunk"@ || action == "update_domain_policy_manifest"@ || action == "finalize_domain_policy_sync"@ || action == "abort_domain_policy_sync"@ || action == "sync_domain_policy"@ || action == "sync_screenshot_policy"@ || action == "capture_screenshot"@ || action == "unenroll"@,
    ensures
        start_spec(action, username, args, user_exists) == begin_spec(action, username, args),
{
}


/// The day that setting the week's allowed hours asks to set next, from day `d` on, is
/// the first whose entry parses or is absent, and it is sent with exactly the hours its
/// entry parses to (none when the entry is an empty object); the full-access day is
/// sent only for a day that has no entry. Every day skipped on the way has an entry
/// that does not parse.
pub proof fn law_allowed_hours_send_the_parsed_day(
    intervals: Seq<Option<DayHoursPayload>>,
    d: nat,
    p: HoursProgressSpec,
)
    requires
        d <= 7,
    ensures
        match hours_scan(intervals, d, p) {
            (
                StageSpec::AwaitDayHours { day, .. },
                StepSpec::Perform(RequestSpec::SetAllowedHours(name, h)),
            ) => {
                &&& d <= day < 7
                &&& name == decimal(day + 1)
                &&& match payload_at(intervals, day as int) {
                    Some(payload) => day_hours_of(name, payload) == Ok::<
                        Map<Seq<char>, HourSpec>,
                        Seq<char>,
                    >(h),
                    None => h == full_access_day_map(),
                }
                &&& forall|e: nat|
                    d <= e < day ==> (#[trigger] payload_at(intervals, e as int)) is Some
                        && day_hours_of(decimal(e + 1), payload_at(intervals, e as int)->Some_0)
                        is Err
            },
            (StageSpec::Finished, _) => forall|e: nat|
                d <= e < 7 ==> (#[trigger] payload_at(intervals, e as int)) is Some
                    && day_hours_of(decimal(e + 1), payload_at(intervals, e as int)->Some_0) is Err,
            _ => false,
        },
    decreases 7 - d,
{
    if d < 7 {
        let day = decimal(d + 1);
        match payload_at(intervals, d as int) {
            Some(payload) => match day_hours_of(day, payload) {
                Err(m) => {
                    let next = HoursProgressSpec {
                        succeeded: p.succeeded,
                        attempted: p.attempted + 1,
                        errors: p.errors.push(day_error(day, m)),
                    };
                    law_allowed_hours_send_the_parsed_day(intervals, d + 1, next);
                },
                Ok(_) => {},
            },
            None => {},
        }
    }
}

/// Once the time-accounting service is connected, setting the allowed hours of an
/// existing account whose Monday entry parses first sets Monday (day `1`) to exactly
/// the hours that entry parses to.
pub proof fn law_allowed_hours_set_monday_as_parsed(
    username: Seq<char>,
    args: CommandArgs,
    payload: DayHoursPayload,
    h: Map<Seq<char>, HourSpec>,
)
    requires
        valid_linux_username(username),
        args.intervals matches Some(v) && payload_at(v@, 0) == Some(payload),
        day_hours_of("1"@, payload) == Ok::<Map<Seq<char>, HourSpec>, Seq<char>>(h),
    ensures
        command_run(
            "set_allowed_hours"@,
            username,
            args,
            true,
            seq![EventSpec::Done(Ok(()))],
        ).1 == StepSpec::Perform(RequestSpec::SetAllowedHours("1"@, h)),
{
    lemma_action_name_letters();
    reveal_strlit("1");
    assert("1"@ =~= decimal(1));
    let ev = seq![EventSpec::Done(Ok(()))];
    assert(ev.drop_first() =~= Seq::<EventSpec>::empty());
    let nx = after_connect(username, args, TimekprTask::AllowedHours);
    assert(run_steps(username, args, nx.0, nx.1, ev.drop_first()) == nx);
}

} // verus!
