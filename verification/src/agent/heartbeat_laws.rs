//! What a heartbeat measures, credits and reports, in seconds of the clock.

use crate::agent::action::{ActionView, AgentMode, HeartbeatUser};
use crate::agent::enforce::EnforceAction;
use crate::agent::heartbeat;
use crate::agent::heartbeat::{
    HeartbeatLoop, TickProgress, TickStep, TickStepView, UnsyncedUse,
};
use crate::agent::session;
use crate::agent::session::SessionTable;
use crate::clock;
use crate::clock::Date;
use vstd::prelude::*;

verus! {

/// The seconds of a running timer are the whole seconds that have passed, and no
/// more than an interval, to 32 bits; a timer that was started ahead of the clock,
/// one that is stopped and one that is not there have none.
pub proof fn active_seconds_are_the_seconds_that_passed(since: u64, now: u64, interval: u64)
    ensures
        since <= now && (now - since) / 1_000_000_000 <= interval <= u32::MAX
            ==> heartbeat::active_seconds(Some(Some(since)), now, interval) == (now - since)
            / 1_000_000_000,
        since <= now && (now - since) / 1_000_000_000 > interval && interval <= u32::MAX
            ==> heartbeat::active_seconds(Some(Some(since)), now, interval) == interval,
        since <= now && (now - since) / 1_000_000_000 <= interval ==> heartbeat::active_seconds(
            Some(Some(since)),
            now,
            interval,
        ) == ((now - since) / 1_000_000_000) % 0x1_0000_0000,
        since <= now && (now - since) / 1_000_000_000 > interval ==> heartbeat::active_seconds(
            Some(Some(since)),
            now,
            interval,
        ) == interval % 0x1_0000_0000,
        now < since ==> heartbeat::active_seconds(Some(Some(since)), now, interval) == 0,
        heartbeat::active_seconds(Some(None::<u64>), now, interval) == 0,
        heartbeat::active_seconds(None::<Option<u64>>, now, interval) == 0,
{
    let s: u64 = heartbeat::seconds_since(since, now);
    assert(s as u32 == s % 0x1_0000_0000) by (bit_vector);
    assert(interval as u32 == interval % 0x1_0000_0000) by (bit_vector);
}

/// The managed users that a heartbeat reports are those with a session, in order.
/// Where a user is listed for the first time, the report has the whole seconds
/// that the user's timer has run, up to an interval, says that the user is idle
/// exactly if no timer runs, and has the number of the user's sessions.
pub proof fn a_user_is_reported_as_measured<X>(
    states: Map<u32, SessionTable<X>>,
    timers: Map<u32, Option<u64>>,
    uids: Seq<u32>,
    now: u64,
    interval: u64,
    n: int,
)
    requires
        0 <= n < uids.len(),
        interval <= u32::MAX,
        !uids.take(n).contains(uids[n]),
        states.contains_key(uids[n]) ==> states[uids[n]]@.dom().len() <= u32::MAX,
    ensures
        ({
            let before = heartbeat::reports(states, timers, uids, now, interval, n);
            let after = heartbeat::reports(states, timers, uids, now, interval, n + 1);
            let uid = uids[n];
            if !states.contains_key(uid) || states[uid]@.dom().len() == 0 {
                after == before
            } else {
                &&& after.len() == before.len() + 1
                &&& after.drop_last() == before
                &&& after.last().local_uid == uid
                &&& after.last().session_count == states[uid]@.dom().len()
                &&& if timers.contains_key(uid) && timers[uid] is Some {
                    let since = timers[uid]->0;
                    &&& !after.last().idle
                    &&& since <= now && (now - since) / 1_000_000_000 <= interval
                        ==> after.last().active_seconds_since_last == (now - since) / 1_000_000_000
                    &&& since <= now && (now - since) / 1_000_000_000 > interval
                        ==> after.last().active_seconds_since_last == interval
                    &&& now < since ==> after.last().active_seconds_since_last == 0
                } else {
                    after.last().idle && after.last().active_seconds_since_last == 0
                }
            }
        }),
        heartbeat::reports(states, timers, uids, now, interval, 0) == Seq::<HeartbeatUser>::empty(),
{
    heartbeat::only_reported_timers_start_over(states, timers, uids, now, n, uids[n]);
    let before = heartbeat::reports(states, timers, uids, now, interval, n);
    let after = heartbeat::reports(states, timers, uids, now, interval, n + 1);
    if !states.contains_key(uids[n]) {
        assert(session::sessions_of(states, uids[n]).dom() =~= Set::empty());
    } else if states[uids[n]]@.dom().len() > 0 {
        assert(after.drop_last() =~= before);
    }
}

/// A user that is listed again in one heartbeat has no seconds left to report.
pub proof fn a_user_listed_again_has_no_seconds<X>(
    states: Map<u32, SessionTable<X>>,
    timers: Map<u32, Option<u64>>,
    uids: Seq<u32>,
    now: u64,
    interval: u64,
    n: int,
)
    requires
        0 <= n < uids.len(),
        interval <= u32::MAX,
        uids.take(n).contains(uids[n]),
        states.contains_key(uids[n]),
        0 < states[uids[n]]@.dom().len() <= u32::MAX,
    ensures
        ({
            let before = heartbeat::reports(states, timers, uids, now, interval, n);
            let after = heartbeat::reports(states, timers, uids, now, interval, n + 1);
            &&& after.len() == before.len() + 1
            &&& after.drop_last() == before
            &&& after.last().local_uid == uids[n]
            &&& after.last().session_count == states[uids[n]]@.dom().len()
            &&& after.last().active_seconds_since_last == 0
            &&& after.last().idle == !(timers.contains_key(uids[n]) && timers[uids[n]] is Some)
        }),
{
    heartbeat::only_reported_timers_start_over(states, timers, uids, now, n, uids[n]);
    let before = heartbeat::reports(states, timers, uids, now, interval, n);
    let after = heartbeat::reports(states, timers, uids, now, interval, n + 1);
    assert(after.drop_last() =~= before);
}

/// Going through managed users starts over the timers that run, of those with a
/// session; every other timer stays as it is, and none comes or goes.
pub proof fn running_timers_start_over_at_now<X>(
    states: Map<u32, SessionTable<X>>,
    timers: Map<u32, Option<u64>>,
    uids: Seq<u32>,
    now: u64,
    n: int,
    uid: u32,
)
    requires
        0 <= n <= uids.len(),
        states.contains_key(uid) ==> states[uid]@.dom().len() <= u32::MAX,
    ensures
        ({
            let after = heartbeat::timers_after_report(states, timers, uids, now, n);
            &&& after.contains_key(uid) == timers.contains_key(uid)
            &&& timers.contains_key(uid) ==> after[uid] == if timers[uid] is Some
                && states.contains_key(uid) && states[uid]@.dom().len() > 0 && uids.take(
                n,
            ).contains(uid) {
                Some(now)
            } else {
                timers[uid]
            }
        }),
{
    heartbeat::only_reported_timers_start_over(states, timers, uids, now, n, uid);
    if !states.contains_key(uid) {
        assert(session::sessions_of(states, uid).dom() =~= Set::empty());
    }
}

/// Each report with active seconds is one credit of exactly those seconds to its
/// user, on the date at hand, in the order of the reports; a report without is
/// none.
pub proof fn every_report_is_credited_in_full(
    users: Seq<HeartbeatUser>,
    u: HeartbeatUser,
    date: Seq<char>,
)
    ensures
        heartbeat::usage_actions(users.push(u), date) == heartbeat::usage_actions(users, date) + (
        if u.active_seconds_since_last > 0 {
            seq![
                ActionView::AddUsage {
                    uid: u.local_uid,
                    date,
                    seconds: u.active_seconds_since_last as int,
                },
            ]
        } else {
            seq![]
        }),
        heartbeat::usage_actions(Seq::empty(), date) == Seq::<ActionView>::empty(),
{
    assert(users.push(u).drop_last() =~= users);
    assert(heartbeat::usage_actions(users.push(u), date) =~= heartbeat::usage_actions(users, date)
        + (if u.active_seconds_since_last > 0 {
        seq![
            ActionView::AddUsage {
                uid: u.local_uid,
                date,
                seconds: u.active_seconds_since_last as int,
            },
        ]
    } else {
        seq![]
    }));
    assert(heartbeat::usage_actions(Seq::empty(), date) =~= Seq::<ActionView>::empty());
}

/// The users that are done with when some credits were stored give rise to no
/// more credits than that; the next one, if there is one, would give rise to one
/// more.
pub proof fn crediting_stops_at_the_first_failure<X>(
    states: Map<u32, SessionTable<X>>,
    timers: Map<u32, Option<u64>>,
    uids: Seq<u32>,
    now: u64,
    interval: u64,
    credited: nat,
    date: Seq<char>,
)
    ensures
        ({
            let all = uids.len() as int;
            let n = heartbeat::gone_through(states, timers, uids, now, interval, credited, all);
            let credits = |k: int|
                heartbeat::usage_actions(
                    heartbeat::reports(states, timers, uids, now, interval, k),
                    date,
                );
            &&& 0 <= n <= all
            &&& credits(n).len() <= credited
            &&& n < all ==> credits(n + 1).len() > credited
        }),
{
    let all = uids.len() as int;
    lemma_stops(states, timers, uids, now, interval, credited, date, all);
}

proof fn lemma_stops<X>(
    states: Map<u32, SessionTable<X>>,
    timers: Map<u32, Option<u64>>,
    uids: Seq<u32>,
    now: u64,
    interval: u64,
    credited: nat,
    date: Seq<char>,
    m: int,
)
    requires
        0 <= m <= uids.len(),
    ensures
        ({
            let n = heartbeat::gone_through(states, timers, uids, now, interval, credited, m);
            let here = heartbeat::reports(states, timers, uids, now, interval, n);
            let next = heartbeat::reports(states, timers, uids, now, interval, n + 1);
            &&& 0 <= n <= m
            &&& heartbeat::usage_actions(here, date).len() <= credited
            &&& n < m ==> heartbeat::usage_actions(next, date).len() > credited
        }),
    decreases m,
{
    if m > 0 {
        lemma_stops(states, timers, uids, now, interval, credited, date, m - 1);
    }
}

/// What is sent of a use is that use, on the date that its text writes; a text
/// that writes none is left out. Nothing else is.
pub proof fn every_readable_use_is_sent(unsynced: Seq<UnsyncedUse>, u: UnsyncedUse)
    ensures
        ({
            let before = heartbeat::sync_entries(unsynced);
            let after = heartbeat::sync_entries(unsynced.push(u));
            match clock::date_value(u.date@) {
                Some(d) => {
                    &&& after.len() == before.len() + 1
                    &&& after.drop_last() == before
                    &&& after.last().local_uid == u.uid
                    &&& after.last().date == d
                    &&& after.last().used_seconds == u.seconds
                },
                None => after == before,
            }
        }),
        heartbeat::sync_entries(Seq::empty()).len() == 0,
{
    assert(unsynced.push(u).drop_last() =~= unsynced);
    let before = heartbeat::sync_entries(unsynced);
    let after = heartbeat::sync_entries(unsynced.push(u));
    if clock::date_value(u.date@) is Some {
        assert(after.drop_last() =~= before);
    }
}

/// Once the use was handed over, each row of it is marked with its own user and
/// date, in order, and then the sync is noted, once.
pub proof fn every_row_is_marked_and_then_noted(unsynced: Seq<UnsyncedUse>)
    ensures
        ({
            let acts = heartbeat::synced_actions(unsynced);
            &&& acts.len() == unsynced.len() + 1
            &&& forall|i: int|
                0 <= i < unsynced.len() ==> #[trigger] acts[i] == (ActionView::MarkSynced {
                    uid: unsynced[i].uid,
                    date: unsynced[i].date@,
                })
            &&& acts[unsynced.len() as int] == ActionView::NoteSync
        }),
{
}

/// Without a server, a user whose rules say so is locked out: by a new lock flow
/// where none is under way, and else by locking the screens again. A user with
/// time is unlocked where a lock flow was under way; a warning does nothing.
pub proof fn rules_are_enforced_without_a_server(locked: Set<u32>, uid: u32)
    ensures
        heartbeat::offline_actions(locked, uid, EnforceAction::Lock) == seq![
            if locked.contains(uid) {
                ActionView::Relock(uid)
            } else {
                ActionView::BeginLock(uid)
            },
        ],
        heartbeat::offline_actions(locked, uid, EnforceAction::Warn) == Seq::<ActionView>::empty(),
        heartbeat::offline_actions(locked, uid, EnforceAction::Allow) == if locked.contains(uid) {
            seq![ActionView::Unlock(uid)]
        } else {
            seq![]
        },
{
}

/// What comes next in a tick, whatever is known so far: the work of midnight
/// where the day has changed and it was not tried; the end where a step that was
/// due has failed; else what was not tried yet, in order, and in the end nothing.
/// The day and the warnings change only once the work of midnight has gone well.
pub proof fn a_tick_goes_step_by_step(
    warned: Map<u32, Set<i32>>,
    last: Date,
    today: Date,
    so_far: TickProgress,
)
    ensures
        ({
            let step = heartbeat::next_step(last, today, so_far);
            let due = last != today;
            let begun = !due || so_far.midnight == Some(true);
            &&& (step is Midnight) == (due && so_far.midnight is None)
            &&& (step is Fail) == ((due && so_far.midnight == Some(false)) || (begun
                && so_far.mode == Some(None::<AgentMode>)) || (begun && (so_far.mode matches Some(
                Some(_),
            )) && so_far.heartbeat == Some(false)))
            &&& (step is ReadMode) == (begun && so_far.mode is None)
            &&& (step is Heartbeat) == (begun && (so_far.mode matches Some(Some(_)))
                && so_far.heartbeat is None)
            &&& step is Heartbeat ==> step->online == (so_far.mode == Some(
                Some(AgentMode::Online),
            )) && step->date == clock::date_text(today)
            &&& (step is Done) == (begun && (so_far.mode matches Some(Some(_)))
                && so_far.heartbeat == Some(true))
            &&& heartbeat::day_kept(last, today, so_far) == if begun {
                today
            } else {
                last
            }
            &&& heartbeat::warned_kept(warned, last, today, so_far) == if due && begun {
                Map::empty()
            } else {
                warned
            }
        }),
{
    if let Some(b) = so_far.midnight {
        assert(b || so_far.midnight == Some(false));
    }
    if let Some(b) = so_far.heartbeat {
        assert(b || so_far.heartbeat == Some(false));
    }
    if let Some(Some(m)) = so_far.mode {
        assert(m == AgentMode::Online || m == AgentMode::Offline);
    }
}

/// A step of a tick shows as what it is.
pub proof fn a_step_shows_as_it_is(step: TickStep)
    ensures
        match step {
            TickStep::Midnight => step@ == TickStepView::Midnight,
            TickStep::ReadMode => step@ == TickStepView::ReadMode,
            TickStep::Heartbeat { online, date } => step@ == (TickStepView::Heartbeat {
                online,
                date: date@,
            }),
            TickStep::Done => step@ == TickStepView::Done,
            TickStep::Fail => step@ == TickStepView::Fail,
        },
{
}

/// Two loops have the same settings exactly if they have each of them in common;
/// only the warnings may differ.
pub proof fn settings_are_all_but_the_warnings(a: HeartbeatLoop, b: HeartbeatLoop)
    ensures
        a.same_settings(&b) <==> {
            &&& a.heartbeat_interval_secs == b.heartbeat_interval_secs
            &&& a.user_scan_interval_secs == b.user_scan_interval_secs
            &&& a.min_uid == b.min_uid
            &&& a.agent_version == b.agent_version
            &&& a.cache_ttl_hours == b.cache_ttl_hours
            &&& a.has_status == b.has_status
            &&& a.cloud_account == b.cloud_account
        },
{
}

} // verus!
