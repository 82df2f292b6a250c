//! What an agent is to do, as data: the outcome of every decision.

use crate::agent::enforce::EnforceAction;
use crate::text::{opt_text, texts};
use vstd::prelude::*;

verus! {

/// Whether the agent has its server.
#[derive(Clone, Copy, Debug, PartialEq, Eq, Structural)]
pub enum AgentMode {
    Online,
    Offline,
}

/// The domains that are blocked for a user.
pub struct WebRule {
    pub uid: u32,
    pub domains: Vec<String>,
}

/// One user's part of a heartbeat.
#[derive(Clone, Copy, Debug, PartialEq, Eq, Structural)]
pub struct HeartbeatUser {
    pub local_uid: u32,
    pub active_seconds_since_last: u32,
    pub idle: bool,
    pub session_count: u32,
}

/// One thing to do.
pub enum Action {
    /// Store whether the server is there.
    SetMode(AgentMode),
    /// Add to a user's use of a day.
    AddUsage { uid: u32, date: String, seconds: u64 },
    /// Store that the server has seen a user's use of a day.
    MarkSynced { uid: u32, date: String },
    /// Store that the use was handed over just now.
    NoteSync,
    /// Show a message.
    Notify { uid: u32, summary: String, body: String },
    /// Say that the schedule has changed.
    NotifyScheduleChanged { uid: u32, language: String },
    /// Say that time was added.
    NotifyTimeAdded {
        uid: u32,
        language: String,
        minutes: i32,
        remaining: i32,
        reason: Option<String>,
    },
    /// Say that time was taken away.
    NotifyTimeReduced {
        uid: u32,
        language: String,
        minutes: i32,
        remaining: i32,
        reason: Option<String>,
    },
    /// Say how little time is left.
    NotifyTimeLeft { uid: u32, language: String, remaining: i32 },
    /// Tell the status display.
    PublishStatus { uid: u32, seconds_left: i64, action: EnforceAction, language: String },
    /// Run the lock flow.
    BeginLock(u32),
    /// Lock the user's screens.
    Relock(u32),
    /// Unlock the user's screens.
    Unlock(u32),
    /// Put these block lists in force.
    FilterWeb(Vec<WebRule>),
    /// Send the greeting.
    SendHello,
    /// Send the use that the server has not seen.
    SendUsageSync,
    /// Send the list of local users.
    SendUserList,
    /// Send the recent log lines.
    SendLogs,
    /// Send a heartbeat.
    SendHeartbeat(Vec<HeartbeatUser>),
    /// Start the update of the agent.
    LaunchUpdate,
    /// End the process.
    Exit,
}

/// An action, with its texts as characters.
pub enum ActionView {
    SetMode(AgentMode),
    AddUsage { uid: u32, date: Seq<char>, seconds: int },
    MarkSynced { uid: u32, date: Seq<char> },
    NoteSync,
    Notify { uid: u32, summary: Seq<char>, body: Seq<char> },
    NotifyScheduleChanged { uid: u32, language: Seq<char> },
    NotifyTimeAdded {
        uid: u32,
        language: Seq<char>,
        minutes: int,
        remaining: int,
        reason: Option<Seq<char>>,
    },
    NotifyTimeReduced {
        uid: u32,
        language: Seq<char>,
        minutes: int,
        remaining: int,
        reason: Option<Seq<char>>,
    },
    NotifyTimeLeft { uid: u32, language: Seq<char>, remaining: int },
    PublishStatus { uid: u32, seconds_left: int, action: EnforceAction, language: Seq<char> },
    BeginLock(u32),
    Relock(u32),
    Unlock(u32),
    FilterWeb(Seq<(u32, Seq<Seq<char>>)>),
    SendHello,
    SendUsageSync,
    SendUserList,
    SendLogs,
    SendHeartbeat(Seq<HeartbeatUser>),
    LaunchUpdate,
    Exit,
}

/// The users and domains of a list of rules.
pub open spec fn rules_view(rules: Seq<WebRule>) -> Seq<(u32, Seq<Seq<char>>)> {
    rules.map_values(|r: WebRule| (r.uid, texts(r.domains@)))
}

impl View for Action {
    type V = ActionView;

    open spec fn view(&self) -> ActionView {
        match *self {
            Action::SetMode(m) => ActionView::SetMode(m),
            Action::AddUsage { uid, date, seconds } => ActionView::AddUsage {
                uid,
                date: date@,
                seconds: seconds as int,
            },
            Action::MarkSynced { uid, date } => ActionView::MarkSynced { uid, date: date@ },
            Action::NoteSync => ActionView::NoteSync,
            Action::Notify { uid, summary, body } => ActionView::Notify {
                uid,
                summary: summary@,
                body: body@,
            },
            Action::NotifyScheduleChanged { uid, language } => ActionView::NotifyScheduleChanged {
                uid,
                language: language@,
            },
            Action::NotifyTimeAdded { uid, language, minutes, remaining, reason } =>
                ActionView::NotifyTimeAdded {
                uid,
                language: language@,
                minutes: minutes as int,
                remaining: remaining as int,
                reason: opt_text(reason),
            },
            Action::NotifyTimeReduced { uid, language, minutes, remaining, reason } =>
                ActionView::NotifyTimeReduced {
                uid,
                language: language@,
                minutes: minutes as int,
                remaining: remaining as int,
                reason: opt_text(reason),
            },
            Action::NotifyTimeLeft { uid, language, remaining } => ActionView::NotifyTimeLeft {
                uid,
                language: language@,
                remaining: remaining as int,
            },
            Action::PublishStatus { uid, seconds_left, action, language } => ActionView::PublishStatus {
                uid,
                seconds_left: seconds_left as int,
                action,
                language: language@,
            },
            Action::BeginLock(uid) => ActionView::BeginLock(uid),
            Action::Relock(uid) => ActionView::Relock(uid),
            Action::Unlock(uid) => ActionView::Unlock(uid),
            Action::FilterWeb(rules) => ActionView::FilterWeb(rules_view(rules@)),
            Action::SendHello => ActionView::SendHello,
            Action::SendUsageSync => ActionView::SendUsageSync,
            Action::SendUserList => ActionView::SendUserList,
            Action::SendLogs => ActionView::SendLogs,
            Action::SendHeartbeat(users) => ActionView::SendHeartbeat(users@),
            Action::LaunchUpdate => ActionView::LaunchUpdate,
            Action::Exit => ActionView::Exit,
        }
    }
}

/// A list of actions, with their texts as characters.
pub open spec fn actions_view(acts: Seq<Action>) -> Seq<ActionView> {
    acts.map_values(|a: Action| a@)
}

/// No action.
pub(crate) fn no_actions() -> (acts: Vec<Action>)
    ensures
        actions_view(acts@) == Seq::<ActionView>::empty(),
{
    let acts: Vec<Action> = Vec::new();
    assert(actions_view(acts@) =~= Seq::<ActionView>::empty());
    acts
}

/// Appends an action.
pub(crate) fn push_action(acts: &mut Vec<Action>, a: Action)
    ensures
        actions_view(final(acts)@) == actions_view(old(acts)@).push(a@),
{
    acts.push(a);
    assert(actions_view(acts@) =~= actions_view(old(acts)@).push(a@));
}

/// An action shows as what it is, with each of its parts in its own place and
/// each of its texts as its characters.
pub proof fn an_action_shows_as_it_is(a: Action)
    ensures
        match a {
            Action::SetMode(m) => a@ == ActionView::SetMode(m),
            Action::AddUsage { uid, date, seconds } => a@ matches ActionView::AddUsage {
                uid: u,
                date: d,
                seconds: s,
            } && u == uid && d == date@ && s == seconds,
            Action::MarkSynced { uid, date } => a@ matches ActionView::MarkSynced {
                uid: u,
                date: d,
            } && u == uid && d == date@,
            Action::NoteSync => a@ is NoteSync,
            Action::Notify { uid, summary, body } => a@ matches ActionView::Notify {
                uid: u,
                summary: s,
                body: b,
            } && u == uid && s == summary@ && b == body@,
            Action::NotifyScheduleChanged { uid, language } =>
                a@ matches ActionView::NotifyScheduleChanged { uid: u, language: l } && u == uid
                && l == language@,
            Action::NotifyTimeAdded { uid, language, minutes, remaining, reason } =>
                a@ matches ActionView::NotifyTimeAdded {
                uid: u,
                language: l,
                minutes: m,
                remaining: r,
                reason: w,
            } && u == uid && l == language@ && m == minutes && r == remaining && (reason matches Some(
                t,
            ) ==> w == Some(t@)) && (reason is None ==> w is None),
            Action::NotifyTimeReduced { uid, language, minutes, remaining, reason } =>
                a@ matches ActionView::NotifyTimeReduced {
                uid: u,
                language: l,
                minutes: m,
                remaining: r,
                reason: w,
            } && u == uid && l == language@ && m == minutes && r == remaining && (reason matches Some(
                t,
            ) ==> w == Some(t@)) && (reason is None ==> w is None),
            Action::NotifyTimeLeft { uid, language, remaining } =>
                a@ matches ActionView::NotifyTimeLeft { uid: u, language: l, remaining: r } && u
                == uid && l == language@ && r == remaining,
            Action::PublishStatus { uid, seconds_left, action, language } =>
                a@ matches ActionView::PublishStatus {
                uid: u,
                seconds_left: s,
                action: x,
                language: l,
            } && u == uid && s == seconds_left && x == action && l == language@,
            Action::BeginLock(uid) => a@ == ActionView::BeginLock(uid),
            Action::Relock(uid) => a@ == ActionView::Relock(uid),
            Action::Unlock(uid) => a@ == ActionView::Unlock(uid),
            Action::FilterWeb(rules) => a@ matches ActionView::FilterWeb(v) && v.len()
                == rules@.len() && forall|i: int|
                0 <= i < rules@.len() ==> {
                    let rule = #[trigger] v[i];
                    &&& rule.0 == rules@[i].uid
                    &&& rule.1.len() == rules@[i].domains@.len()
                    &&& forall|j: int|
                        0 <= j < rules@[i].domains@.len() ==> #[trigger] rule.1[j]
                            == rules@[i].domains@[j]@
                },
            Action::SendHello => a@ is SendHello,
            Action::SendUsageSync => a@ is SendUsageSync,
            Action::SendUserList => a@ is SendUserList,
            Action::SendLogs => a@ is SendLogs,
            Action::SendHeartbeat(users) => a@ == ActionView::SendHeartbeat(users@),
            Action::LaunchUpdate => a@ is LaunchUpdate,
            Action::Exit => a@ is Exit,
        },
{
}

/// A list of actions shows each of them, in order.
pub proof fn actions_show_in_order(acts: Seq<Action>)
    ensures
        actions_view(acts).len() == acts.len(),
        forall|i: int| 0 <= i < acts.len() ==> #[trigger] actions_view(acts)[i] == acts[i]@,
{
}

} // verus!
