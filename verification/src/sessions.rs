//! Decisions on login-manager signals: which sessions are tracked, what a
//! sign-in or sign-out sets off, and what sleep and shutdown signals report.

use vstd::prelude::*;

use crate::keyed::StrMap;
use crate::text::{opt_text, starts_with};

verus! {

/// Copies an optional string.
pub fn clone_opt_string(o: &Option<String>) -> (r: Option<String>)
    ensures
        opt_text(r) == opt_text(*o),
{
    match o {
        Some(s) => Some(s.clone()),
        None => None,
    }
}

/// A login session class names a user session when it begins with `user`
/// (`user`, `user-early`, `user-incomplete`, ...).
pub open spec fn user_session_class(class: Option<Seq<char>>) -> bool {
    match class {
        Some(c) => c.len() >= 4 && c.subrange(0, 4) == "user"@,
        None => false,
    }
}

/// Whether the session class `session_class` is one of a user's sessions.
pub fn is_user_session_class(session_class: Option<&str>) -> (r: bool)
    ensures
        r == match session_class {
            Some(c) => user_session_class(Some(c@)),
            None => false,
        },
{
    match session_class {
        Some(class_name) => {
            proof { reveal_strlit("user"); }
            starts_with(class_name, "user")
        },
        None => false,
    }
}

/// What the login manager reports of a session: its user, class and state, each of
/// which may be missing when the property could not be read.
pub struct SessionSnapshot {
    pub username: Option<String>,
    pub session_class: Option<String>,
    pub session_state: Option<String>,
}

/// The text of a session snapshot.
pub struct SessionSnapshotView {
    pub username: Option<Seq<char>>,
    pub session_class: Option<Seq<char>>,
    pub session_state: Option<Seq<char>>,
}

impl View for SessionSnapshot {
    type V = SessionSnapshotView;

    open spec fn view(&self) -> SessionSnapshotView {
        SessionSnapshotView {
            username: opt_text(self.username),
            session_class: opt_text(self.session_class),
            session_state: opt_text(self.session_state),
        }
    }
}

/// The snapshot of a session of which nothing is known.
pub open spec fn unknown_snapshot() -> SessionSnapshotView {
    SessionSnapshotView { username: None, session_class: None, session_state: None }
}

impl SessionSnapshot {
    /// A snapshot with every property missing.
    pub fn unknown() -> (s: Self)
        ensures
            s@ == unknown_snapshot(),
    {
        SessionSnapshot { username: None, session_class: None, session_state: None }
    }
}

/// The details an alert carries.
pub enum AlertDetails {
    /// A session that began or ended.
    Session { session_id: String, session_class: Option<String>, session_state: Option<String> },
    /// A phase of a sleep or shutdown signal.
    Power { phase: String, signal: String },
}

/// The text of alert details.
pub enum AlertDetailsView {
    Session {
        session_id: Seq<char>,
        session_class: Option<Seq<char>>,
        session_state: Option<Seq<char>>,
    },
    Power { phase: Seq<char>, signal: Seq<char> },
}

impl View for AlertDetails {
    type V = AlertDetailsView;

    open spec fn view(&self) -> AlertDetailsView {
        match self {
            AlertDetails::Session { session_id, session_class, session_state } =>
                AlertDetailsView::Session {
                session_id: session_id@,
                session_class: opt_text(*session_class),
                session_state: opt_text(*session_state),
            },
            AlertDetails::Power { phase, signal } => AlertDetailsView::Power {
                phase: phase@,
                signal: signal@,
            },
        }
    }
}

/// An alert for the server: its event type, the account it concerns if any, and details.
pub struct Alert {
    pub event_type: String,
    pub username: Option<String>,
    pub details: AlertDetails,
}

/// The text of an alert.
pub struct AlertView {
    pub event_type: Seq<char>,
    pub username: Option<Seq<char>>,
    pub details: AlertDetailsView,
}

impl View for Alert {
    type V = AlertView;

    open spec fn view(&self) -> AlertView {
        AlertView {
            event_type: self.event_type@,
            username: opt_text(self.username),
            details: self.details@,
        }
    }
}

/// The work that a session signal sets off, to be done in order.
pub enum SessionAction {
    /// Load the application-confinement profiles of the account.
    LoadProfiles(String),
    /// Unload the application-confinement profiles of the account.
    UnloadProfiles(String),
    /// Bring the device policy in line with the active session.
    RefreshDevicePolicy,
    /// Send the alert to the server; stop listening if that fails.
    SendAlert(Alert),
}

/// The text of a session action.
pub enum SessionActionView {
    LoadProfiles(Seq<char>),
    UnloadProfiles(Seq<char>),
    RefreshDevicePolicy,
    SendAlert(AlertView),
}

impl View for SessionAction {
    type V = SessionActionView;

    open spec fn view(&self) -> SessionActionView {
        match self {
            SessionAction::LoadProfiles(u) => SessionActionView::LoadProfiles(u@),
            SessionAction::UnloadProfiles(u) => SessionActionView::UnloadProfiles(u@),
            SessionAction::RefreshDevicePolicy => SessionActionView::RefreshDevicePolicy,
            SessionAction::SendAlert(a) => SessionActionView::SendAlert(a@),
        }
    }
}

/// The texts of a list of session actions.
pub open spec fn action_views(actions: Seq<SessionAction>) -> Seq<SessionActionView> {
    actions.map_values(|a: SessionAction| a@)
}

/// The alert that reports a session starting or ending.
pub open spec fn session_alert(
    event_type: Seq<char>,
    session_id: Seq<char>,
    snap: SessionSnapshotView,
) -> AlertView {
    AlertView {
        event_type,
        username: snap.username,
        details: AlertDetailsView::Session {
            session_id,
            session_class: snap.session_class,
            session_state: snap.session_state,
        },
    }
}

/// What a user's session starting sets off: loading the account's profiles when the
/// account is known, refreshing the device policy, and the sign-in alert.
pub open spec fn sign_in_actions(session_id: Seq<char>, snap: SessionSnapshotView) -> Seq<
    SessionActionView,
> {
    (match snap.username {
        Some(u) => seq![SessionActionView::LoadProfiles(u)],
        None => Seq::empty(),
    }) + seq![
        SessionActionView::RefreshDevicePolicy,
        SessionActionView::SendAlert(session_alert("user_signed_in"@, session_id, snap)),
    ]
}

/// What a session ending sets off: unloading the account's profiles when the account
/// is known, refreshing the device policy, and the sign-out alert.
pub open spec fn sign_out_actions(session_id: Seq<char>, snap: SessionSnapshotView) -> Seq<
    SessionActionView,
> {
    (match snap.username {
        Some(u) => seq![SessionActionView::UnloadProfiles(u)],
        None => Seq::empty(),
    }) + seq![
        SessionActionView::RefreshDevicePolicy,
        SessionActionView::SendAlert(session_alert("user_signed_out"@, session_id, snap)),
    ]
}

fn session_actions(
    profile_action: Option<SessionAction>,
    event_type: &str,
    session_id: &str,
    snap: &SessionSnapshot,
) -> (actions: Vec<SessionAction>)
    ensures
        action_views(actions@) == (match profile_action {
            Some(a) => seq![a@],
            None => Seq::<SessionActionView>::empty(),
        }) + seq![
            SessionActionView::RefreshDevicePolicy,
            SessionActionView::SendAlert(session_alert(event_type@, session_id@, snap@)),
        ],
{
    let ghost pv = match &profile_action {
        Some(a) => seq![a@],
        None => Seq::<SessionActionView>::empty(),
    };
    let mut actions: Vec<SessionAction> = Vec::new();
    match profile_action {
        Some(a) => actions.push(a),
        None => {},
    }
    assert(action_views(actions@) =~= pv);
    actions.push(SessionAction::RefreshDevicePolicy);
    let alert = Alert {
        event_type: String::from_str(event_type),
        username: clone_opt_string(&snap.username),
        details: AlertDetails::Session {
            session_id: String::from_str(session_id),
            session_class: clone_opt_string(&snap.session_class),
            session_state: clone_opt_string(&snap.session_state),
        },
    };
    actions.push(SessionAction::SendAlert(alert));
    assert(action_views(actions@) =~= pv + seq![
        SessionActionView::RefreshDevicePolicy,
        SessionActionView::SendAlert(session_alert(event_type@, session_id@, snap@)),
    ]);
    actions
}

/// The user sessions that have started and not yet ended, by session id.
pub struct SessionTracker {
    sessions: StrMap<SessionSnapshot>,
}

impl View for SessionTracker {
    type V = Map<Seq<char>, SessionSnapshotView>;

    closed spec fn view(&self) -> Map<Seq<char>, SessionSnapshotView> {
        self.sessions@.map_values(|s: SessionSnapshot| s@)
    }
}

impl SessionTracker {
    /// Tracks no session.
    pub fn new() -> (t: Self)
        ensures
            t@ == Map::<Seq<char>, SessionSnapshotView>::empty(),
    {
        let t = SessionTracker { sessions: StrMap::new() };
        assert(t@ =~= Map::<Seq<char>, SessionSnapshotView>::empty());
        t
    }

    /// A session started. When its snapshot could be read and names a user session, it
    /// is tracked under its id and the sign-in work is handed back; otherwise nothing changes.
    pub fn on_session_new(&mut self, session_id: String, snapshot: Option<SessionSnapshot>) -> (actions:
        Vec<SessionAction>)
        ensures
            match snapshot {
                Some(snap) => if user_session_class(snap@.session_class) {
                    &&& final(self)@ == old(self)@.insert(session_id@, snap@)
                    &&& action_views(actions@) == sign_in_actions(session_id@, snap@)
                } else {
                    &&& final(self)@ == old(self)@
                    &&& actions@.len() == 0
                },
                None => {
                    &&& final(self)@ == old(self)@
                    &&& actions@.len() == 0
                },
            },
    {
        match snapshot {
            Some(snap) => {
                let is_user = match &snap.session_class {
                    Some(c) => is_user_session_class(Some(c.as_str())),
                    None => is_user_session_class(None),
                };
                if !is_user {
                    return Vec::new();
                }
                let profile = match &snap.username {
                    Some(u) => Some(SessionAction::LoadProfiles(u.clone())),
                    None => None,
                };
                let actions = session_actions(profile, "user_signed_in", session_id.as_str(), &snap);
                let ghost old_map = self.sessions@;
                self.sessions.insert(session_id, snap);
                assert(self@ =~= old(self)@.insert(session_id@, snap@));
                assert(action_views(actions@) =~= sign_in_actions(session_id@, snap@));
                actions
            },
            None => Vec::new(),
        }
    }

    /// A session ended. It stops being tracked, and the sign-out work is handed back,
    /// with the snapshot recorded at sign-in, or an empty one for a session that was not tracked.
    pub fn on_session_removed(&mut self, session_id: &str) -> (actions: Vec<SessionAction>)
        ensures
            final(self)@ == old(self)@.remove(session_id@),
            action_views(actions@) == sign_out_actions(
                session_id@,
                if old(self)@.contains_key(session_id@) {
                    old(self)@[session_id@]
                } else {
                    unknown_snapshot()
                },
            ),
    {
        let removed = self.sessions.remove(session_id);
        let snap = match removed {
            Some(s) => s,
            None => SessionSnapshot::unknown(),
        };
        let profile = match &snap.username {
            Some(u) => Some(SessionAction::UnloadProfiles(u.clone())),
            None => None,
        };
        let actions = session_actions(profile, "user_signed_out", session_id, &snap);
        assert(self@ =~= old(self)@.remove(session_id@));
        actions
    }
}

/// The alert for a sleep signal: preparing to sleep when `start`, resuming otherwise.
pub open spec fn sleep_alert(start: bool) -> AlertView {
    AlertView {
        event_type: if start {
            "system_sleep"@
        } else {
            "system_resume"@
        },
        username: None,
        details: AlertDetailsView::Power {
            phase: if start {
                "prepare"@
            } else {
                "resume"@
            },
            signal: "PrepareForSleep"@,
        },
    }
}

/// The alert a sleep signal raises.
pub fn sleep_signal(start: bool) -> (r: Alert)
    ensures
        r@ == sleep_alert(start),
{
    let (event_type, phase) = if start {
        ("system_sleep", "prepare")
    } else {
        ("system_resume", "resume")
    };
    let alert = Alert {
        event_type: String::from_str(event_type),
        username: None,
        details: AlertDetails::Power {
            phase: String::from_str(phase),
            signal: String::from_str("PrepareForSleep"),
        },
    };
    alert
}

/// What follows the attempt to send the alert of a sleep signal (`sent` says whether it
/// went out): the clock monitor is told that the machine resumed only for a resume
/// whose alert was sent, and only after it; the listener stops when the alert could
/// not be sent. The result is (tell the clock monitor, keep listening).
pub fn after_sleep_alert(start: bool, sent: bool) -> (r: (bool, bool))
    ensures
        r.0 == (sent && !start),
        r.1 == sent,
{
    (sent && !start, sent)
}

/// The alert for the start of a shutdown.
pub open spec fn shutdown_alert() -> AlertView {
    AlertView {
        event_type: "system_restart"@,
        username: None,
        details: AlertDetailsView::Power { phase: "prepare"@, signal: "PrepareForShutdown"@ },
    }
}

/// The alert a shutdown signal raises: one for the start of a shutdown, none for its end.
pub fn shutdown_signal(start: bool) -> (r: Option<Alert>)
    ensures
        match r {
            Some(a) => start && a@ == shutdown_alert(),
            None => !start,
        },
{
    if !start {
        return None;
    }
    Some(
        Alert {
            event_type: String::from_str("system_restart"),
            username: None,
            details: AlertDetails::Power {
                phase: String::from_str("prepare"),
                signal: String::from_str("PrepareForShutdown"),
            },
        },
    )
}


/// Every tracked session is a user session.
pub open spec fn only_user_sessions(m: Map<Seq<char>, SessionSnapshotView>) -> bool {
    forall|k: Seq<char>| #[trigger] m.contains_key(k) ==> user_session_class(m[k].session_class)
}

/// The tracker holds user sessions only: a session start keeps that true whatever its
/// snapshot, and so does a session end.
pub proof fn law_tracker_holds_user_sessions_only(
    m: Map<Seq<char>, SessionSnapshotView>,
    session_id: Seq<char>,
    snap: SessionSnapshotView,
)
    requires
        only_user_sessions(m),
    ensures
        user_session_class(snap.session_class) ==> only_user_sessions(m.insert(session_id, snap)),
        only_user_sessions(m.remove(session_id)),
{
}

/// Signing in and then out of the same session: the sign-out reports the account,
/// class and state that the sign-in recorded, unloads the profiles of the account whose
/// profiles were loaded, and leaves the tracker as it was before, for that session.
pub proof fn law_sign_out_mirrors_sign_in(
    m: Map<Seq<char>, SessionSnapshotView>,
    session_id: Seq<char>,
    snap: SessionSnapshotView,
)
    requires
        user_session_class(snap.session_class),
    ensures
        ({
            let after_in = m.insert(session_id, snap);
            let recorded = if after_in.contains_key(session_id) {
                after_in[session_id]
            } else {
                unknown_snapshot()
            };
            let ins = sign_in_actions(session_id, snap);
            let outs = sign_out_actions(session_id, recorded);
            &&& after_in.remove(session_id) == m.remove(session_id)
            &&& ins.len() == outs.len()
            &&& ins.last() == SessionActionView::SendAlert(
                session_alert("user_signed_in"@, session_id, snap),
            )
            &&& outs.last() == SessionActionView::SendAlert(
                session_alert("user_signed_out"@, session_id, snap),
            )
            &&& snap.username matches Some(u) ==> ins[0] == SessionActionView::LoadProfiles(u)
                && outs[0] == SessionActionView::UnloadProfiles(u)
        }),
{
    let after_in = m.insert(session_id, snap);
    assert(after_in.remove(session_id) =~= m.remove(session_id));
}

/// A session that ends without having been tracked is reported with no account,
/// class or state, and unloads no profiles.
pub proof fn law_untracked_sign_out_is_anonymous(session_id: Seq<char>)
    ensures
        sign_out_actions(session_id, unknown_snapshot()) == seq![
            SessionActionView::RefreshDevicePolicy,
            SessionActionView::SendAlert(
                AlertView {
                    event_type: "user_signed_out"@,
                    username: None,
                    details: AlertDetailsView::Session {
                        session_id,
                        session_class: None,
                        session_state: None,
                    },
                },
            ),
        ],
{
    assert(sign_out_actions(session_id, unknown_snapshot()) =~= seq![
        SessionActionView::RefreshDevicePolicy,
        SessionActionView::SendAlert(
            AlertView {
                event_type: "user_signed_out"@,
                username: None,
                details: AlertDetailsView::Session {
                    session_id,
                    session_class: None,
                    session_state: None,
                },
            },
        ),
    ]);
}

} // verus!
