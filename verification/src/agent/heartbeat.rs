//! The agent's periodic work: heartbeats, offline enforcement, usage sync and
//! the messages that introduce the agent to its server.

use crate::agent::action;
use crate::agent::action::{
    no_actions, push_action, Action, ActionView, AgentMode, HeartbeatUser,
};
use crate::agent::control;
use crate::agent::control::{push_lock, what_to_store, Readings, ServerMessage, Storing};
use crate::agent::enforce::{EnforceAction, LockBook, Warned};
use crate::agent::session;
use crate::agent::session::{SessionStates, SessionTable, Timers};
use crate::clock;
use crate::clock::{parse_date, write_date, Date};
use crate::lists;
use crate::text;
use crate::text::copy_opt;
use vstd::prelude::*;

verus! {

/// The number of nanoseconds in a second.
pub const NANOS: u64 = 1_000_000_000;

/// The number of a user's sessions, as a heartbeat counts them.
pub open spec fn session_count<X>(states: Map<u32, SessionTable<X>>, uid: u32) -> u32 {
    session::sessions_of(states, uid).dom().len() as u32
}

/// The whole seconds since a clock reading, or none where it lies ahead.
pub open spec fn seconds_since(since: u64, now: u64) -> u64 {
    if now < since {
        0
    } else {
        ((now - since) as u64) / NANOS
    }
}

/// The active seconds to report of a timer, never more than an interval; none
/// while it does not run.
pub open spec fn active_seconds(timer: Option<Option<u64>>, now: u64, interval: u64) -> u32 {
    match timer {
        Some(Some(since)) => {
            let s = seconds_since(since, now);
            (if s <= interval {
                s
            } else {
                interval
            }) as u32
        },
        _ => 0,
    }
}

/// A user's timer, if there is one.
pub open spec fn timer_of(timers: Map<u32, Option<u64>>, uid: u32) -> Option<Option<u64>> {
    if timers.contains_key(uid) {
        Some(timers[uid])
    } else {
        None
    }
}

/// A user's part of a heartbeat.
pub open spec fn report<X>(
    states: Map<u32, SessionTable<X>>,
    timers: Map<u32, Option<u64>>,
    uid: u32,
    now: u64,
    interval: u64,
) -> HeartbeatUser {
    HeartbeatUser {
        local_uid: uid,
        active_seconds_since_last: active_seconds(timer_of(timers, uid), now, interval),
        idle: !(timer_of(timers, uid) matches Some(Some(_))),
        session_count: session_count(states, uid),
    }
}

/// The timers after a user was reported: a running one starts over.
pub open spec fn restarted(
    timers: Map<u32, Option<u64>>,
    uid: u32,
    now: u64,
) -> Map<u32, Option<u64>> {
    if timers.contains_key(uid) && timers[uid] is Some {
        timers.insert(uid, Some(now))
    } else {
        timers
    }
}

/// The timers after the first `n` managed users were gone through: those with a
/// session are reported.
pub open spec fn timers_after_report<X>(
    states: Map<u32, SessionTable<X>>,
    timers: Map<u32, Option<u64>>,
    uids: Seq<u32>,
    now: u64,
    n: int,
) -> Map<u32, Option<u64>>
    decreases n,
{
    if n <= 0 {
        timers
    } else {
        let before = timers_after_report(states, timers, uids, now, n - 1);
        if session_count(states, uids[n - 1]) == 0 {
            before
        } else {
            restarted(before, uids[n - 1], now)
        }
    }
}

/// The reports of the first `n` managed users, in order, without those that
/// have no session.
pub open spec fn reports<X>(
    states: Map<u32, SessionTable<X>>,
    timers: Map<u32, Option<u64>>,
    uids: Seq<u32>,
    now: u64,
    interval: u64,
    n: int,
) -> Seq<HeartbeatUser>
    decreases n,
{
    if n <= 0 {
        seq![]
    } else {
        let before = reports(states, timers, uids, now, interval, n - 1);
        if session_count(states, uids[n - 1]) == 0 {
            before
        } else {
            before.push(
                report(
                    states,
                    timers_after_report(states, timers, uids, now, n - 1),
                    uids[n - 1],
                    now,
                    interval,
                ),
            )
        }
    }
}

/// The users that have active seconds to be credited.
pub open spec fn credited_users(users: Seq<HeartbeatUser>) -> Seq<HeartbeatUser>
    decreases users.len(),
{
    if users.len() == 0 {
        seq![]
    } else {
        let before = credited_users(users.drop_last());
        if users.last().active_seconds_since_last > 0 {
            before.push(users.last())
        } else {
            before
        }
    }
}

/// What the reports add to the use of a day: the active seconds of each user
/// that has any, in order.
pub open spec fn usage_actions(users: Seq<HeartbeatUser>, date: Seq<char>) -> Seq<ActionView> {
    credited_users(users).map_values(
        |u: HeartbeatUser|
            ActionView::AddUsage {
                uid: u.local_uid,
                date,
                seconds: u.active_seconds_since_last as int,
            },
    )
}

/// How many credits the first `n` managed users give rise to.
pub open spec fn credit_count<X>(
    states: Map<u32, SessionTable<X>>,
    timers: Map<u32, Option<u64>>,
    uids: Seq<u32>,
    now: u64,
    interval: u64,
    n: int,
) -> nat {
    credited_users(reports(states, timers, uids, now, interval, n)).len()
}

/// How many of the first `n` managed users are done with when `credited` credits
/// were stored: all those before the first whose credit was not.
pub open spec fn gone_through<X>(
    states: Map<u32, SessionTable<X>>,
    timers: Map<u32, Option<u64>>,
    uids: Seq<u32>,
    now: u64,
    interval: u64,
    credited: nat,
    n: int,
) -> int
    decreases n,
{
    if n <= 0 {
        0
    } else if credit_count(states, timers, uids, now, interval, n) <= credited {
        n
    } else {
        gone_through(states, timers, uids, now, interval, credited, n - 1)
    }
}

/// What comes of a heartbeat: what is to be done, and the users whose limits are
/// to be enforced without a server.
pub struct Beat {
    pub actions: Vec<Action>,
    pub to_enforce: Vec<u32>,
}

/// What comes next in the work of a tick.
pub enum TickStep {
    /// Do the work of midnight.
    Midnight,
    /// Read from the store whether the server is there.
    ReadMode,
    /// Send a heartbeat for that date.
    Heartbeat { online: bool, date: String },
    /// Nothing: the tick is over.
    Done,
    /// End the agent, because a step has failed.
    Fail,
}

/// What is known of the steps of a tick, each `None` until it was tried: whether
/// the work of midnight has gone well, what the store said of the server, with an
/// inner `None` for a read that failed, and whether the heartbeat has gone well.
#[derive(Clone, Copy, Debug, PartialEq, Eq, Structural)]
pub struct TickProgress {
    pub midnight: Option<bool>,
    pub mode: Option<Option<AgentMode>>,
    pub heartbeat: Option<bool>,
}

impl TickProgress {
    /// Nothing was tried yet.
    pub fn new() -> (r: Self)
        ensures
            r == (TickProgress { midnight: None, mode: None, heartbeat: None }),
    {
        TickProgress { midnight: None, mode: None, heartbeat: None }
    }
}

/// The step of a tick, with its text as characters.
pub enum TickStepView {
    Midnight,
    ReadMode,
    Heartbeat { online: bool, date: Seq<char> },
    Done,
    Fail,
}

impl View for TickStep {
    type V = TickStepView;

    open spec fn view(&self) -> TickStepView {
        match *self {
            TickStep::Midnight => TickStepView::Midnight,
            TickStep::ReadMode => TickStepView::ReadMode,
            TickStep::Heartbeat { online, date } => TickStepView::Heartbeat {
                online,
                date: date@,
            },
            TickStep::Done => TickStepView::Done,
            TickStep::Fail => TickStepView::Fail,
        }
    }
}

/// The day has changed and the work of midnight has gone well.
pub open spec fn day_begun(last: Date, today: Date, so_far: TickProgress) -> bool {
    last != today && so_far.midnight == Some(true)
}

/// The day of the last tick, as it is kept from here on.
pub open spec fn day_kept(last: Date, today: Date, so_far: TickProgress) -> Date {
    if day_begun(last, today, so_far) {
        today
    } else {
        last
    }
}

/// The warnings announced, as they are kept from here on: a day that has begun
/// forgets them.
pub open spec fn warned_kept(
    warned: Map<u32, Set<i32>>,
    last: Date,
    today: Date,
    so_far: TickProgress,
) -> Map<u32, Set<i32>> {
    if day_begun(last, today, so_far) {
        Map::empty()
    } else {
        warned
    }
}

/// What comes next in a tick on `today`, when the last tick was on `last`.
pub open spec fn next_step(last: Date, today: Date, so_far: TickProgress) -> TickStepView {
    if last != today && so_far.midnight is None {
        TickStepView::Midnight
    } else if last != today && so_far.midnight == Some(false) {
        TickStepView::Fail
    } else {
        match so_far.mode {
            None => TickStepView::ReadMode,
            Some(None) => TickStepView::Fail,
            Some(Some(m)) => match so_far.heartbeat {
                None => TickStepView::Heartbeat {
                    online: m == AgentMode::Online,
                    date: clock::date_text(today),
                },
                Some(true) => TickStepView::Done,
                Some(false) => TickStepView::Fail,
            },
        }
    }
}

/// One use of the day that the server has not seen.
pub struct UnsyncedUse {
    pub uid: u32,
    pub date: String,
    pub seconds: u64,
}

/// One use of a day, as it is sent.
#[derive(Clone, Copy, Debug, PartialEq, Eq, Structural)]
pub struct UsageEntry {
    pub local_uid: u32,
    pub date: Date,
    pub used_seconds: u64,
}

/// The entries whose date can be read, in order.
pub open spec fn sync_entries(unsynced: Seq<UnsyncedUse>) -> Seq<UsageEntry>
    decreases unsynced.len(),
{
    if unsynced.len() == 0 {
        seq![]
    } else {
        let before = sync_entries(unsynced.drop_last());
        let u = unsynced.last();
        match crate::clock::date_value(u.date@) {
            Some(d) => before.push(
                UsageEntry { local_uid: u.uid, date: d, used_seconds: u.seconds },
            ),
            None => before,
        }
    }
}

/// What is stored once the use was handed over: that the server has seen each
/// row, whether or not its date could be read, and that it was handed over now.
pub open spec fn synced_actions(unsynced: Seq<UnsyncedUse>) -> Seq<ActionView> {
    unsynced.map_values(
        |u: UnsyncedUse| ActionView::MarkSynced { uid: u.uid, date: u.date@ },
    ).push(ActionView::NoteSync)
}

/// The greeting of an agent.
pub struct AgentHello {
    pub machine_id: String,
    pub hostname: String,
    pub timezone: String,
    pub agent_version: String,
    pub last_config_version: i64,
    pub capabilities: Vec<String>,
    pub cloud_account: Option<String>,
}

/// The local users, and those that are gone.
pub struct UserListUpdate<U> {
    pub users: Vec<U>,
    pub removed_uids: Vec<u32>,
}

/// The settings of an agent's periodic work, and the warnings that it has shown.
pub struct HeartbeatLoop {
    pub heartbeat_interval_secs: u64,
    pub user_scan_interval_secs: u64,
    pub min_uid: u32,
    pub agent_version: String,
    pub cache_ttl_hours: u64,
    pub notified_thresholds: Warned,
    pub has_status: bool,
    /// An agent that belongs to a cloud account names it in every greeting.
    pub cloud_account: Option<String>,
}

impl HeartbeatLoop {
    /// An agent that has shown no warnings yet.
    pub fn new(
        heartbeat_interval_secs: u64,
        user_scan_interval_secs: u64,
        min_uid: u32,
        agent_version: String,
        cache_ttl_hours: u64,
        has_status: bool,
        cloud_account: Option<String>,
    ) -> (r: Self)
        ensures
            r.heartbeat_interval_secs == heartbeat_interval_secs,
            r.user_scan_interval_secs == user_scan_interval_secs,
            r.min_uid == min_uid,
            r.agent_version == agent_version,
            r.cache_ttl_hours == cache_ttl_hours,
            r.notified_thresholds@ == Map::<u32, Set<i32>>::empty(),
            r.has_status == has_status,
            r.cloud_account == cloud_account,
    {
        HeartbeatLoop {
            heartbeat_interval_secs,
            user_scan_interval_secs,
            min_uid,
            agent_version,
            cache_ttl_hours,
            notified_thresholds: Warned::new(),
            has_status,
            cloud_account,
        }
    }

    /// The same settings.
    pub open spec fn same_settings(&self, other: &Self) -> bool {
        &&& self.heartbeat_interval_secs == other.heartbeat_interval_secs
        &&& self.user_scan_interval_secs == other.user_scan_interval_secs
        &&& self.min_uid == other.min_uid
        &&& self.agent_version == other.agent_version
        &&& self.cache_ttl_hours == other.cache_ttl_hours
        &&& self.has_status == other.has_status
        &&& self.cloud_account == other.cloud_account
    }

    /// Takes in a message of the server: what is to be stored of it, in order,
    /// before anything else is done about it.
    pub fn handle_server_message<'a>(&self, msg: &'a ServerMessage) -> (r: Vec<Storing<'a>>)
        ensures
            r@ == control::to_store(msg),
    {
        what_to_store(msg)
    }

    /// Goes on with a message, given whether all that is to be stored of it was
    /// stored, and returns what is to be done about it. A message that was not
    /// stored changes nothing.
    pub fn after_storing(
        &mut self,
        msg: &ServerMessage,
        stored: bool,
        book: &mut LockBook,
        reads: &Readings,
    ) -> (acts: Vec<Action>)
        requires
            stored ==> control::message_fits(*msg, *reads),
        ensures
            final(self).same_settings(old(self)),
            !stored ==> acts@.len() == 0 && final(book)@ == old(book)@
                && final(self).notified_thresholds@ == old(self).notified_thresholds@,
            stored ==> action::actions_view(acts@) == control::response(
                *msg,
                old(book)@,
                old(self).notified_thresholds@,
                old(self).has_status,
                *reads,
            ),
            stored ==> final(book)@ == control::locked_after_message(old(book)@, *msg),
            stored ==> final(self).notified_thresholds@ == control::warned_after_message(
                old(self).notified_thresholds@,
                *msg,
                *reads,
            ),
    {
        if !stored {
            return Vec::new();
        }
        let has_status = self.has_status;
        control::act_on_message(msg, &mut self.notified_thresholds, book, has_status, reads)
    }

    /// The agent's loop at a tick on `today`: what comes next. On a new day the work of midnight
    /// comes first; once it has gone well, the day is taken in and the warnings
    /// are forgotten. The heartbeat comes last, for that date.
    pub fn run(&mut self, last_date: &mut Date, today: Date, so_far: TickProgress) -> (r: TickStep)
        requires
            clock::real_date(today),
        ensures
            final(self).same_settings(old(self)),
            r@ == next_step(*old(last_date), today, so_far),
            *final(last_date) == day_kept(*old(last_date), today, so_far),
            final(self).notified_thresholds@ == warned_kept(
                old(self).notified_thresholds@,
                *old(last_date),
                today,
                so_far,
            ),
    {
        if *last_date != today {
            match so_far.midnight {
                None => {
                    return TickStep::Midnight;
                },
                Some(false) => {
                    return TickStep::Fail;
                },
                Some(true) => {
                    *last_date = today;
                    self.notified_thresholds.clear();
                },
            }
        }
        match (so_far.mode, so_far.heartbeat) {
            (None, _) => TickStep::ReadMode,
            (Some(None), _) => TickStep::Fail,
            (Some(Some(m)), None) => TickStep::Heartbeat {
                online: m == AgentMode::Online,
                date: write_date(today),
            },
            (Some(Some(_)), Some(true)) => TickStep::Done,
            (Some(Some(_)), Some(false)) => TickStep::Fail,
        }
    }

    /// The credits of a heartbeat at the clock reading `now`, in order: of every
    /// managed user with a session, the seconds of active use since the last
    /// report are added to the use of the day. No timer changes before its credit
    /// was stored.
    pub fn send_heartbeat<X>(
        &self,
        states: &SessionStates<X>,
        timers: &Timers,
        managed_uids: &Vec<u32>,
        now: u64,
        today: &str,
    ) -> (credits: Vec<Action>)
        ensures
            action::actions_view(credits@) == usage_actions(
                reports(
                    states@,
                    timers@,
                    managed_uids@,
                    now,
                    self.heartbeat_interval_secs,
                    managed_uids@.len() as int,
                ),
                today@,
            ),
    {
        let interval = self.heartbeat_interval_secs;
        let mut credits = no_actions();
        let mut i: usize = 0;
        assert(action::actions_view(credits@) =~= usage_actions(
            reports(states@, timers@, managed_uids@, now, interval, 0),
            today@,
        ));
        while i < managed_uids.len()
            invariant
                i <= managed_uids@.len(),
                action::actions_view(credits@) == usage_actions(
                    reports(states@, timers@, managed_uids@, now, interval, i as int),
                    today@,
                ),
            decreases managed_uids@.len() - i,
        {
            let uid = managed_uids[i];
            let count: u32 = states.session_count(uid) as u32;
            if count > 0 {
                let again = listed_before(managed_uids, i);
                let (seconds, _) = measure(timers, uid, now, interval);
                let active: u32 = if again {
                    0
                } else {
                    seconds
                };
                let ghost before = reports(
                    states@,
                    timers@,
                    managed_uids@,
                    now,
                    interval,
                    i as int,
                );
                let ghost u = report(
                    states@,
                    timers_after_report(states@, timers@, managed_uids@, now, i as int),
                    uid,
                    now,
                    interval,
                );
                proof {
                    only_reported_timers_start_over(states@, timers@, managed_uids@, now, i as int, uid);
                    assert(u.active_seconds_since_last == active);
                    assert(before.push(u).drop_last() =~= before);
                }
                if active > 0 {
                    push_action(
                        &mut credits,
                        Action::AddUsage { uid, date: today.to_owned(), seconds: active as u64 },
                    );
                }
                assert(action::actions_view(credits@) =~= usage_actions(before.push(u), today@));
            }
            i += 1;
        }
        credits
    }

    /// Ends a heartbeat, given how many of its credits were stored, one after the
    /// other. The running timers of the users before the first whose credit was
    /// not stored start over; where there is such a user, that is all.
    ///
    /// With a server the reports are sent, even where there are none, so that
    /// the connection is never silent; without one, the limits of the users
    /// reported are to be enforced here.
    pub fn after_crediting<X>(
        &self,
        states: &SessionStates<X>,
        timers: &mut Timers,
        managed_uids: &Vec<u32>,
        now: u64,
        online: bool,
        credited: usize,
    ) -> (r: Beat)
        ensures
            ({
                let interval = self.heartbeat_interval_secs;
                let all = managed_uids@.len() as int;
                let n = gone_through(
                    states@,
                    old(timers)@,
                    managed_uids@,
                    now,
                    interval,
                    credited as nat,
                    all,
                );
                let users = reports(states@, old(timers)@, managed_uids@, now, interval, all);
                &&& final(timers)@ == timers_after_report(
                    states@,
                    old(timers)@,
                    managed_uids@,
                    now,
                    n,
                )
                &&& action::actions_view(r.actions@) == if n == all && online {
                    seq![ActionView::SendHeartbeat(users)]
                } else {
                    seq![]
                }
                &&& r.to_enforce@ == if n == all && !online {
                    users.map_values(|u: HeartbeatUser| u.local_uid)
                } else {
                    Seq::<u32>::empty()
                }
            }),
    {
        let interval = self.heartbeat_interval_secs;
        let ghost timers0 = timers@;
        let mut users: Vec<HeartbeatUser> = Vec::new();
        let mut so_far: usize = 0;
        let mut i: usize = 0;
        while i < managed_uids.len()
            invariant
                i <= managed_uids@.len(),
                timers0 == old(timers)@,
                interval == self.heartbeat_interval_secs,
                timers@ == timers_after_report(states@, timers0, managed_uids@, now, i as int),
                users@ == reports(states@, timers0, managed_uids@, now, interval, i as int),
                so_far == credit_count(states@, timers0, managed_uids@, now, interval, i as int),
                so_far <= credited,
            decreases managed_uids@.len() - i,
        {
            let uid = managed_uids[i];
            let count: u32 = states.session_count(uid) as u32;
            proof {
                lemma_credits_step(states@, timers0, managed_uids@, now, interval, i as int);
            }
            if count > 0 {
                let (active, idle) = measure(timers, uid, now, interval);
                if active > 0 {
                    if so_far == credited {
                        proof {
                            lemma_gone_through(
                                states@,
                                timers0,
                                managed_uids@,
                                now,
                                interval,
                                credited as nat,
                                managed_uids@.len() as int,
                                i as int,
                            );
                        }
                        let r = Beat { actions: no_actions(), to_enforce: Vec::new() };
                        assert(r.to_enforce@ =~= Seq::<u32>::empty());
                        return r;
                    }
                    so_far += 1;
                }
                restart(timers, uid, now);
                users.push(
                    HeartbeatUser {
                        local_uid: uid,
                        active_seconds_since_last: active,
                        idle,
                        session_count: count,
                    },
                );
            }
            i += 1;
        }
        proof {
            lemma_gone_through(
                states@,
                timers0,
                managed_uids@,
                now,
                interval,
                credited as nat,
                managed_uids@.len() as int,
                managed_uids@.len() as int,
            );
        }
        let mut actions = no_actions();
        if online {
            push_action(&mut actions, Action::SendHeartbeat(users));
            Beat { actions, to_enforce: Vec::new() }
        } else {
            Beat { actions, to_enforce: uids_of(&users) }
        }
    }

    /// The greeting. The web filter is a capability where the store says so;
    /// the outer `None` is a store that could not be read.
    pub fn send_agent_hello(
        &self,
        config_version: i64,
        machine_id: String,
        hostname: String,
        timezone: String,
        web_filter: Option<Option<bool>>,
    ) -> (r: AgentHello)
        ensures
            r.machine_id == machine_id,
            r.hostname == hostname,
            r.timezone == timezone,
            r.agent_version@ == self.agent_version@,
            r.last_config_version == config_version,
            text::texts(r.capabilities@) == if web_filter == Some(Some(true)) {
                seq!["web_filter"@]
            } else {
                seq![]
            },
            text::opt_text(r.cloud_account) == text::opt_text(self.cloud_account),
    {
        let mut capabilities: Vec<String> = Vec::new();
        match web_filter {
            Some(Some(true)) => {
                capabilities.push("web_filter".to_owned());
            },
            _ => {},
        }
        assert(text::texts(capabilities@) =~= if web_filter == Some(Some(true)) {
            seq!["web_filter"@]
        } else {
            seq![]
        });
        AgentHello {
            machine_id,
            hostname,
            timezone,
            agent_version: self.agent_version.clone(),
            last_config_version: config_version,
            capabilities,
            cloud_account: copy_opt(&self.cloud_account),
        }
    }

    /// What is sent of the use that the server has not seen: nothing where there
    /// is none, and otherwise every entry whose date can be read.
    pub fn send_usage_sync(&self, unsynced: &Vec<UnsyncedUse>) -> (r: Option<Vec<UsageEntry>>)
        ensures
            match r {
                None => unsynced@.len() == 0,
                Some(usage) => unsynced@.len() > 0 && usage@ == sync_entries(unsynced@),
            },
    {
        if unsynced.len() == 0 {
            return None;
        }
        let mut usage: Vec<UsageEntry> = Vec::new();
        let mut i: usize = 0;
        assert(unsynced@.take(0) =~= Seq::empty());
        while i < unsynced.len()
            invariant
                i <= unsynced@.len(),
                usage@ == sync_entries(unsynced@.take(i as int)),
            decreases unsynced@.len() - i,
        {
            let u = &unsynced[i];
            proof {
                let next = unsynced@.take(i + 1);
                assert(next.drop_last() =~= unsynced@.take(i as int));
                assert(next.last() == unsynced@[i as int]);
            }
            match parse_date(u.date.as_str()) {
                Some(date) => {
                    usage.push(UsageEntry { local_uid: u.uid, date, used_seconds: u.seconds });
                },
                None => {},
            }
            i += 1;
        }
        assert(unsynced@.take(i as int) =~= unsynced@);
        Some(usage)
    }

    /// What is stored of the use that was to be handed over, given whether it was
    /// sent: nothing where it was not, or where there was none.
    pub fn after_usage_sync(&self, unsynced: &Vec<UnsyncedUse>, sent: bool) -> (acts: Vec<Action>)
        ensures
            action::actions_view(acts@) == if sent && unsynced@.len() > 0 {
                synced_actions(unsynced@)
            } else {
                seq![]
            },
    {
        let mut acts = no_actions();
        if !sent || unsynced.len() == 0 {
            return acts;
        }
        let ghost all = synced_actions(unsynced@);
        let mut i: usize = 0;
        assert(all.take(0) =~= seq![]);
        while i < unsynced.len()
            invariant
                i <= unsynced@.len(),
                all == synced_actions(unsynced@),
                action::actions_view(acts@) == all.take(i as int),
            decreases unsynced@.len() - i,
        {
            push_action(
                &mut acts,
                Action::MarkSynced { uid: unsynced[i].uid, date: unsynced[i].date.clone() },
            );
            assert(all.take(i + 1) =~= all.take(i as int).push(all[i as int]));
            i += 1;
        }
        push_action(&mut acts, Action::NoteSync);
        assert(action::actions_view(acts@) =~= all);
        acts
    }

    /// For how many hours the agent has been without a server, where that is at
    /// least as long as stored rules are meant to be used.
    pub fn check_cache_ttl_warning(&self, offline_since: Option<i64>, now: i64) -> (r: Option<u64>)
        requires
            offline_since matches Some(s) ==> i64::MIN <= now - s <= i64::MAX,
        ensures
            r == match offline_since {
                Some(s) => {
                    let hours = ((now - s) as u64) / 3600;
                    if hours >= self.cache_ttl_hours {
                        Some(hours)
                    } else {
                        None
                    }
                },
                None => None,
            },
    {
        match offline_since {
            Some(since) => {
                let hours: u64 = (now - since) as u64 / 3600;
                if hours >= self.cache_ttl_hours {
                    Some(hours)
                } else {
                    None
                }
            },
            None => None,
        }
    }
}

/// The list of all local users.
pub fn send_user_list_update<U>(users: Vec<U>) -> (r: UserListUpdate<U>)
    ensures
        r.users == users,
        r.removed_uids@ == Seq::<u32>::empty(),
{
    UserListUpdate { users, removed_uids: Vec::new() }
}

/// What is sent after the local users were listed again: nothing where nobody
/// was added or removed, and otherwise the new list and who is gone.
pub fn maybe_rescan_users<U>(
    added: usize,
    removed_uids: Vec<u32>,
    current: Vec<U>,
) -> (r: Option<UserListUpdate<U>>)
    ensures
        r == if added == 0 && removed_uids@.len() == 0 {
            None
        } else {
            Some(UserListUpdate { users: current, removed_uids })
        },
{
    if added == 0 && removed_uids.len() == 0 {
        None
    } else {
        Some(UserListUpdate { users: current, removed_uids })
    }
}

/// The users known from now on, given whether a new list of them was sent: the
/// list before, unless the new one was.
pub fn after_rescan<U>(known: Vec<U>, current: Vec<U>, sent: bool) -> (r: Vec<U>)
    ensures
        r == if sent {
            current
        } else {
            known
        },
{
    if sent {
        current
    } else {
        known
    }
}

/// What is done about a user without a server, given what the stored rules say:
/// lock out, or unlock where a lock flow was under way and time is left.
pub open spec fn offline_actions(locked: Set<u32>, uid: u32, verdict: EnforceAction) -> Seq<
    ActionView,
> {
    match verdict {
        EnforceAction::Lock => seq![control::lock_action(locked, uid)],
        EnforceAction::Warn => seq![],
        EnforceAction::Allow => if locked.contains(uid) {
            seq![ActionView::Unlock(uid)]
        } else {
            seq![]
        },
    }
}

/// Takes in what the stored rules say of a user while there is no server.
pub fn enforce_offline(book: &mut LockBook, uid: u32, verdict: EnforceAction) -> (acts: Vec<
    Action,
>)
    ensures
        action::actions_view(acts@) == offline_actions(old(book)@, uid, verdict),
        final(book)@ == match verdict {
            EnforceAction::Lock => old(book)@.insert(uid),
            EnforceAction::Warn => old(book)@,
            EnforceAction::Allow => old(book)@.remove(uid),
        },
{
    let mut acts = no_actions();
    match verdict {
        EnforceAction::Lock => {
            push_lock(&mut acts, uid, book);
        },
        EnforceAction::Warn => {},
        EnforceAction::Allow => {
            if book.release(uid) {
                push_action(&mut acts, Action::Unlock(uid));
            }
        },
    }
    assert(action::actions_view(acts@) =~= offline_actions(old(book)@, uid, verdict));
    acts
}

fn measure(timers: &Timers, uid: u32, now: u64, interval: u64) -> (r: (u32, bool))
    ensures
        r.0 == active_seconds(timer_of(timers@, uid), now, interval),
        r.1 == !(timer_of(timers@, uid) matches Some(Some(_))),
{
    match timers.get(&uid) {
        Some(Some(since)) => {
            let elapsed: u64 = if now < *since {
                0
            } else {
                (now - *since) / NANOS
            };
            let s: u64 = if elapsed <= interval {
                elapsed
            } else {
                interval
            };
            (s as u32, false)
        },
        _ => (0, true),
    }
}

fn listed_before(uids: &Vec<u32>, i: usize) -> (r: bool)
    requires
        i < uids@.len(),
    ensures
        r == uids@.take(i as int).contains(uids@[i as int]),
{
    let mut j: usize = 0;
    while j < i
        invariant
            j <= i < uids@.len(),
            forall|k: int| 0 <= k < j ==> uids@[k] != uids@[i as int],
        decreases i - j,
    {
        if uids[j] == uids[i] {
            assert(uids@.take(i as int)[j as int] == uids@[i as int]);
            return true;
        }
        j += 1;
    }
    false
}

fn restart(timers: &mut Timers, uid: u32, now: u64)
    ensures
        final(timers)@ == restarted(old(timers)@, uid, now),
{
    let running = match timers.get(&uid) {
        Some(Some(_)) => true,
        _ => false,
    };
    if running {
        timers.insert(uid, Some(now));
    }
}

fn uids_of(users: &Vec<HeartbeatUser>) -> (r: Vec<u32>)
    ensures
        r@ == users@.map_values(|u: HeartbeatUser| u.local_uid),
{
    let mut r: Vec<u32> = Vec::new();
    let mut i: usize = 0;
    while i < users.len()
        invariant
            i <= users@.len(),
            r@.len() == i,
            forall|j: int| 0 <= j < i ==> #[trigger] r@[j] == users@[j].local_uid,
        decreases users@.len() - i,
    {
        r.push(users[i].local_uid);
        i += 1;
    }
    assert(r@ =~= users@.map_values(|u: HeartbeatUser| u.local_uid));
    r
}

/// A heartbeat neither starts nor stops a timer.
pub proof fn a_heartbeat_keeps_timers_running<X>(
    states: Map<u32, SessionTable<X>>,
    timers: Map<u32, Option<u64>>,
    uids: Seq<u32>,
    now: u64,
    n: int,
    uid: u32,
)
    ensures
        ({
            let after = timers_after_report(states, timers, uids, now, n);
            &&& after.contains_key(uid) == timers.contains_key(uid)
            &&& timers.contains_key(uid) ==> (after[uid] is Some) == (timers[uid] is Some)
        }),
    decreases n,
{
    if n > 0 {
        a_heartbeat_keeps_timers_running(states, timers, uids, now, n - 1, uid);
    }
}

/// No second is reported twice: once a user has been reported, the next report
/// counts from that heartbeat on.
pub proof fn no_second_is_reported_twice<X>(
    states: Map<u32, SessionTable<X>>,
    timers: Map<u32, Option<u64>>,
    uids: Seq<u32>,
    now: u64,
    later: u64,
    interval: u64,
    i: int,
    n: int,
)
    requires
        0 <= i < n <= uids.len(),
        session_count(states, uids[i]) != 0,
        timer_of(timers, uids[i]) matches Some(Some(_)),
    ensures
        active_seconds(
            timer_of(timers_after_report(states, timers, uids, now, n), uids[i]),
            later,
            interval,
        ) == active_seconds(Some(Some(now)), later, interval),
{
    lemma_restarted_at_now(states, timers, uids, now, i, n);
}

proof fn lemma_restarted_at_now<X>(
    states: Map<u32, SessionTable<X>>,
    timers: Map<u32, Option<u64>>,
    uids: Seq<u32>,
    now: u64,
    i: int,
    n: int,
)
    requires
        0 <= i < n <= uids.len(),
        session_count(states, uids[i]) != 0,
        timer_of(timers, uids[i]) matches Some(Some(_)),
    ensures
        timer_of(timers_after_report(states, timers, uids, now, n), uids[i]) == Some(Some(now)),
    decreases n,
{
    a_heartbeat_keeps_timers_running(states, timers, uids, now, n - 1, uids[i]);
    if n > i + 1 {
        lemma_restarted_at_now(states, timers, uids, now, i, n - 1);
    }
}

/// The timers that a heartbeat starts over are those that ran, of users with a
/// session who were gone through; every other is as it was.
pub proof fn only_reported_timers_start_over<X>(
    states: Map<u32, SessionTable<X>>,
    timers: Map<u32, Option<u64>>,
    uids: Seq<u32>,
    now: u64,
    n: int,
    uid: u32,
)
    requires
        0 <= n <= uids.len(),
    ensures
        timer_of(timers_after_report(states, timers, uids, now, n), uid) == (if session_count(
            states,
            uid,
        ) != 0 && (timer_of(timers, uid) matches Some(Some(_))) && uids.take(n).contains(uid) {
            Some(Some(now))
        } else {
            timer_of(timers, uid)
        }),
    decreases n,
{
    if n > 0 {
        only_reported_timers_start_over(states, timers, uids, now, n - 1, uid);
        lists::lemma_take_push(uids, n - 1);
    }
}

proof fn lemma_credits_step<X>(
    states: Map<u32, SessionTable<X>>,
    timers: Map<u32, Option<u64>>,
    uids: Seq<u32>,
    now: u64,
    interval: u64,
    n: int,
)
    requires
        0 <= n < uids.len(),
    ensures
        ({
            let u = report(
                states,
                timers_after_report(states, timers, uids, now, n),
                uids[n],
                now,
                interval,
            );
            credit_count(states, timers, uids, now, interval, n + 1) == credit_count(
                states,
                timers,
                uids,
                now,
                interval,
                n,
            ) + (if session_count(states, uids[n]) != 0 && u.active_seconds_since_last > 0 {
                1nat
            } else {
                0
            })
        }),
{
    let before = reports(states, timers, uids, now, interval, n);
    let u = report(
        states,
        timers_after_report(states, timers, uids, now, n),
        uids[n],
        now,
        interval,
    );
    assert(before.push(u).drop_last() =~= before);
}

proof fn lemma_credits_grow<X>(
    states: Map<u32, SessionTable<X>>,
    timers: Map<u32, Option<u64>>,
    uids: Seq<u32>,
    now: u64,
    interval: u64,
    a: int,
    b: int,
)
    requires
        0 <= a <= b <= uids.len(),
    ensures
        credit_count(states, timers, uids, now, interval, a) <= credit_count(
            states,
            timers,
            uids,
            now,
            interval,
            b,
        ),
    decreases b,
{
    if a < b {
        lemma_credits_grow(states, timers, uids, now, interval, a, b - 1);
        lemma_credits_step(states, timers, uids, now, interval, b - 1);
    }
}

proof fn lemma_gone_through<X>(
    states: Map<u32, SessionTable<X>>,
    timers: Map<u32, Option<u64>>,
    uids: Seq<u32>,
    now: u64,
    interval: u64,
    credited: nat,
    n: int,
    g: int,
)
    requires
        0 <= g <= n <= uids.len(),
        credit_count(states, timers, uids, now, interval, g) <= credited,
        g < n ==> credit_count(states, timers, uids, now, interval, g + 1) > credited,
    ensures
        gone_through(states, timers, uids, now, interval, credited, n) == g,
    decreases n,
{
    if g < n {
        lemma_credits_grow(states, timers, uids, now, interval, g + 1, n);
        lemma_gone_through(states, timers, uids, now, interval, credited, n - 1, g);
    }
}

proof fn lemma_where_it_stops<X>(
    states: Map<u32, SessionTable<X>>,
    timers: Map<u32, Option<u64>>,
    uids: Seq<u32>,
    now: u64,
    interval: u64,
    credited: nat,
    n: int,
)
    requires
        0 <= n <= uids.len(),
    ensures
        ({
            let g = gone_through(states, timers, uids, now, interval, credited, n);
            &&& 0 <= g <= n
            &&& credit_count(states, timers, uids, now, interval, g) <= credited
            &&& g < n ==> credit_count(states, timers, uids, now, interval, g + 1) > credited
        }),
    decreases n,
{
    if n > 0 {
        lemma_where_it_stops(states, timers, uids, now, interval, credited, n - 1);
    }
}

/// Where every credit was stored, every managed user is done with.
pub proof fn stored_credits_end_the_heartbeat<X>(
    states: Map<u32, SessionTable<X>>,
    timers: Map<u32, Option<u64>>,
    uids: Seq<u32>,
    now: u64,
    interval: u64,
    date: Seq<char>,
)
    ensures
        ({
            let all = uids.len() as int;
            let credits = usage_actions(reports(states, timers, uids, now, interval, all), date);
            gone_through(states, timers, uids, now, interval, credits.len(), all) == all
        }),
{
}

/// A credit that could not be stored is not lost: its user's timer runs on as it
/// was, so that the next heartbeat counts the same seconds again. So does the
/// timer of every other user that was not gone through yet.
pub proof fn an_unstored_credit_is_not_lost<X>(
    states: Map<u32, SessionTable<X>>,
    timers: Map<u32, Option<u64>>,
    uids: Seq<u32>,
    now: u64,
    interval: u64,
    credited: nat,
)
    requires
        credited < credit_count(states, timers, uids, now, interval, uids.len() as int),
    ensures
        ({
            let all = uids.len() as int;
            let n = gone_through(states, timers, uids, now, interval, credited, all);
            let after = timers_after_report(states, timers, uids, now, n);
            &&& 0 <= n < all
            &&& credit_count(states, timers, uids, now, interval, n) == credited
            &&& active_seconds(timer_of(timers, uids[n]), now, interval) > 0
            &&& timer_of(after, uids[n]) == timer_of(timers, uids[n])
            &&& forall|uid: u32|
                !uids.take(n).contains(uid) ==> #[trigger] timer_of(after, uid) == timer_of(
                    timers,
                    uid,
                )
        }),
{
    let all = uids.len() as int;
    let n = gone_through(states, timers, uids, now, interval, credited, all);
    lemma_where_it_stops(states, timers, uids, now, interval, credited, all);
    lemma_credits_step(states, timers, uids, now, interval, n);
    let after = timers_after_report(states, timers, uids, now, n);
    only_reported_timers_start_over(states, timers, uids, now, n, uids[n]);
    assert forall|uid: u32| !uids.take(n).contains(uid) implies #[trigger] timer_of(after, uid)
        == timer_of(timers, uid) by {
        only_reported_timers_start_over(states, timers, uids, now, n, uid);
    }
}

/// A tick on a new day: first the work of midnight, and nothing else until it has
/// gone well; then the day is taken in and the warnings are forgotten; then the
/// mode is read, and the heartbeat comes for that mode and that date. The work of
/// midnight is not asked for again.
pub proof fn a_new_day_begins_with_midnight(
    warned: Map<u32, Set<i32>>,
    last: Date,
    today: Date,
    mode: AgentMode,
)
    requires
        last != today,
    ensures
        ({
            let start = TickProgress { midnight: None, mode: None, heartbeat: None };
            let worked = TickProgress { midnight: Some(true), ..start };
            let asked = TickProgress { mode: Some(Some(mode)), ..worked };
            let beaten = TickProgress { heartbeat: Some(true), ..asked };
            let failed = TickProgress { midnight: Some(false), ..start };
            &&& next_step(last, today, start) == TickStepView::Midnight
            &&& day_kept(last, today, start) == last
            &&& warned_kept(warned, last, today, start) == warned
            &&& next_step(last, today, failed) == TickStepView::Fail
            &&& day_kept(last, today, failed) == last
            &&& warned_kept(warned, last, today, failed) == warned
            &&& next_step(last, today, worked) == TickStepView::ReadMode
            &&& day_kept(last, today, worked) == today
            &&& warned_kept(warned, last, today, worked) == Map::<u32, Set<i32>>::empty()
            &&& next_step(today, today, asked) == (TickStepView::Heartbeat {
                online: mode == AgentMode::Online,
                date: clock::date_text(today),
            })
            &&& day_kept(today, today, asked) == today
            &&& warned_kept(Map::empty(), today, today, asked) == Map::<u32, Set<i32>>::empty()
            &&& next_step(today, today, beaten) == TickStepView::Done
        }),
{
}

/// A tick on the day of the last one: no work of midnight, and the warnings stay;
/// the mode is read, and the heartbeat comes for that mode and that date.
pub proof fn the_same_day_has_no_midnight(
    warned: Map<u32, Set<i32>>,
    today: Date,
    so_far: TickProgress,
    mode: AgentMode,
)
    ensures
        next_step(today, today, so_far) != TickStepView::Midnight,
        day_kept(today, today, so_far) == today,
        warned_kept(warned, today, today, so_far) == warned,
        so_far.mode is None ==> next_step(today, today, so_far) == TickStepView::ReadMode,
        so_far.mode == Some(Some(mode)) && so_far.heartbeat is None ==> next_step(
            today,
            today,
            so_far,
        ) == (TickStepView::Heartbeat {
            online: mode == AgentMode::Online,
            date: clock::date_text(today),
        }),
{
}

/// A step that has failed ends the agent: nothing comes after it, and the day and
/// the warnings are kept as they are.
pub proof fn a_failed_step_ends_the_agent(
    warned: Map<u32, Set<i32>>,
    last: Date,
    today: Date,
    so_far: TickProgress,
)
    requires
        last != today ==> so_far.midnight is Some,
        (last != today && so_far.midnight == Some(false)) || so_far.mode == Some(
            None::<AgentMode>,
        ) || (so_far.mode matches Some(Some(_)) && so_far.heartbeat == Some(false)),
    ensures
        next_step(last, today, so_far) == TickStepView::Fail,
        last != today && so_far.midnight == Some(false) ==> day_kept(last, today, so_far) == last
            && warned_kept(warned, last, today, so_far) == warned,
{
}

/// A heartbeat reports no more active time than the interval between two
/// heartbeats allows.
pub proof fn a_report_stays_within_the_interval(
    timer: Option<Option<u64>>,
    now: u64,
    interval: u64,
)
    ensures
        active_seconds(timer, now, interval) <= interval,
{
    if let Some(Some(since)) = timer {
        let s = seconds_since(since, now);
        let v: u64 = if s <= interval {
            s
        } else {
            interval
        };
        assert(v as u32 <= v) by (bit_vector);
    }
}

} // verus!
