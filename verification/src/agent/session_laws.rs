//! When timers start, stop and stay.

use crate::agent::session;
use crate::agent::session::{SessionRecord, SessionTable, SessionUsageState};
use vstd::prelude::*;

verus! {

/// A user's timer starts where counting starts and stops where it stops. While it
/// goes on nothing changes, and while there is none a stopped timer is put where
/// the user has no timer. No other user's timer changes.
pub proof fn a_timer_follows_what_counts(
    timers: Map<u32, Option<u64>>,
    uid: u32,
    now: u64,
)
    ensures
        session::timers_after(timers, uid, true, true, now) == timers,
        session::timers_after(timers, uid, false, true, now) == timers.insert(uid, Some(now)),
        session::timers_after(timers, uid, true, false, now) == timers.insert(uid, None),
        timers.contains_key(uid) ==> session::timers_after(timers, uid, false, false, now)
            == timers,
        !timers.contains_key(uid) ==> session::timers_after(timers, uid, false, false, now)
            == timers.insert(uid, None),
{
}

/// Going to sleep stops the timer of every user that has one, and gives nobody
/// one.
pub proof fn sleep_stops_every_timer(timers: Map<u32, Option<u64>>, uid: u32)
    ensures
        session::all_stopped(timers).contains_key(uid) == timers.contains_key(uid),
        timers.contains_key(uid) ==> session::all_stopped(timers)[uid] is None,
{
}

/// Waking up gives exactly the users with sessions a timer: one that runs from
/// now on where the rule says of those sessions that they count, and a stopped one
/// where it does not.
pub proof fn waking_starts_timers_anew<X, C: Fn(&SessionTable<X>) -> bool>(
    rule: C,
    states: Map<u32, SessionTable<X>>,
    now: u64,
    uid: u32,
)
    ensures
        session::fresh_timers(rule, states, now).contains_key(uid) == states.contains_key(uid),
        states.contains_key(uid) && rule.ensures((&states[uid],), true) ==> session::fresh_timers(
            rule,
            states,
            now,
        )[uid] == Some(now),
        states.contains_key(uid) && !rule.ensures((&states[uid],), true)
            ==> session::fresh_timers(rule, states, now)[uid] is None,
{
}

/// A user's use counts exactly if the user has sessions of which the rule says so.
pub proof fn only_sessions_can_count<X, C: Fn(&SessionTable<X>) -> bool>(
    rule: C,
    states: Map<u32, SessionTable<X>>,
    uid: u32,
)
    ensures
        session::counting(rule, states, uid) <==> states.contains_key(uid) && rule.ensures(
            (&states[uid],),
            true,
        ),
        states.contains_key(uid) ==> session::sessions_of(states, uid) == states[uid]@,
        !states.contains_key(uid) ==> session::sessions_of(states, uid).dom() == Set::<
            Seq<char>,
        >::empty(),
{
}

/// A session of which nothing was reported, or that was reported idle, is stored
/// as idle; one that was reported not to be is stored as that.
pub proof fn a_session_is_idle_unless_it_says_otherwise<X>(more: X)
    ensures
        session::unreported(more) == (SessionUsageState { idle: None, more }),
        session::stored_as_idle(SessionUsageState { idle: None, more }),
        session::stored_as_idle(SessionUsageState { idle: Some(true), more }),
        !session::stored_as_idle(SessionUsageState { idle: Some(false), more }),
{
}

/// A record stores a session exactly if it puts that session there, for that user
/// and with that mark.
pub proof fn a_record_stores_its_own_session(
    r: Option<SessionRecord>,
    uid: u32,
    session_id: Seq<char>,
    idle: bool,
)
    ensures
        match r {
            Some(SessionRecord::Upsert { uid: u, session_id: s, idle: i }) =>
                session::stores_session(r, uid, session_id, idle) <==> u == uid && s@ == session_id
                && i == idle,
            _ => !session::stores_session(r, uid, session_id, idle),
        },
{
}

/// Timers follow the sessions exactly if the users with a timer are those with
/// sessions, and a timer runs exactly if the rule says of those sessions that they
/// count.
pub proof fn timers_follow_user_by_user<X, C: Fn(&SessionTable<X>) -> bool>(
    rule: C,
    states: Map<u32, SessionTable<X>>,
    timers: Map<u32, Option<u64>>,
)
    ensures
        session::timers_follow(rule, states, timers) <==> {
            &&& forall|uid: u32| timers.contains_key(uid) <==> #[trigger] states.contains_key(uid)
            &&& forall|uid: u32| #[trigger]
                states.contains_key(uid) ==> (timers[uid] is Some <==> rule.ensures(
                    (&states[uid],),
                    true,
                ))
        },
{
    if session::timers_follow(rule, states, timers) {
        assert forall|uid: u32| timers.contains_key(uid) <==> #[trigger] states.contains_key(
            uid,
        ) by {
            assert(timers.dom().contains(uid) == states.dom().contains(uid));
        }
        assert forall|uid: u32| #[trigger] states.contains_key(uid) implies (timers[uid] is Some
            <==> rule.ensures((&states[uid],), true)) by {
            assert(timers[uid] is Some <==> session::counts(rule, states[uid]));
        }
    }
    if forall|uid: u32| timers.contains_key(uid) <==> #[trigger] states.contains_key(uid) {
        assert forall|uid: u32| timers.dom().contains(uid) <==> states.dom().contains(uid) by {
            assert(timers.contains_key(uid) <==> states.contains_key(uid));
        }
        assert(timers.dom() =~= states.dom());
    }
}

/// Sessions that are gone through in order are all of a user's sessions, each once,
/// and each with its own state.
pub proof fn sessions_are_gone_through_once<X>(table: SessionTable<X>, id: Seq<char>)
    requires
        table.in_order(),
    ensures
        table.states().len() == table.ids().len(),
        table@.contains_key(id) <==> exists|i: int|
            0 <= i < table.ids().len() && #[trigger] table.ids()[i] == id,
        forall|i: int, j: int|
            0 <= i < j < table.ids().len() ==> #[trigger] table.ids()[i] != #[trigger] table.ids()[j],
        forall|i: int|
            0 <= i < table.ids().len() ==> table@.contains_key(#[trigger] table.ids()[i])
                && table.states()[i] == table@[table.ids()[i]],
{
    assert(table@.contains_key(id) <==> table.ids().to_set().contains(id));
    if table@.contains_key(id) {
        let i = table.ids().index_of(id);
        assert(table.ids()[i] == id);
    }
    assert forall|i: int| 0 <= i < table.ids().len() implies table@.contains_key(
        #[trigger] table.ids()[i],
    ) by {
        assert(table.ids().to_set().contains(table.ids()[i]));
    }
}

/// A rule is lawful exactly if it answers for any sessions, and answers for the same
/// ones in one way only.
pub proof fn a_lawful_rule_answers_in_one_way<X, C: Fn(&SessionTable<X>) -> bool>(
    rule: C,
    table: SessionTable<X>,
    a: bool,
    b: bool,
)
    requires
        session::lawful(rule),
    ensures
        rule.requires((&table,)),
        rule.ensures((&table,), a) && rule.ensures((&table,), b) ==> a == b,
{
}

} // verus!
