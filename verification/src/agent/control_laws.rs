//! What a configuration and a time update come to, user by user and entry by
//! entry.

use crate::agent::action::{ActionView, AgentMode};
use crate::agent::control;
use crate::agent::control::{
    CachedEnforcement, ConfigPush, ConfigUser, ConnectionEvent, DayLimit, Readings,
    RemainingEntry, ServerMessage, Snapshot, StoredList, Storing,
};
use crate::agent::enforce;
use crate::agent::enforce::EnforceAction;
use crate::agent::windows;
use crate::clock;
use vstd::prelude::*;

verus! {

/// The limit of a day is that of the first entry for that day, as a signed number
/// of 32 bits, and a whole day where there is no entry for it.
pub proof fn the_first_entry_for_the_day_is_the_limit(
    limits: Seq<DayLimit>,
    weekday: u8,
    i: int,
)
    ensures
        (forall|k: int| 0 <= k < limits.len() ==> (#[trigger] limits[k]).day_of_week != weekday)
            ==> control::limit_on(limits, weekday) == 1440,
        0 <= i < limits.len() && limits[i].day_of_week == weekday && (forall|k: int|
            0 <= k < i ==> (#[trigger] limits[k]).day_of_week != weekday) ==> control::limit_on(
            limits,
            weekday,
        ) == if limits[i].allowed_minutes <= 0x7fff_ffff {
            limits[i].allowed_minutes as int
        } else {
            limits[i].allowed_minutes - 0x1_0000_0000
        },
    decreases limits.len(),
{
    if limits.len() > 0 && limits[0].day_of_week != weekday {
        let rest = limits.skip(1);
        the_first_entry_for_the_day_is_the_limit(rest, weekday, i - 1);
        if forall|k: int| 0 <= k < limits.len() ==> (#[trigger] limits[k]).day_of_week != weekday {
            assert forall|k: int| 0 <= k < rest.len() implies (#[trigger] rest[k]).day_of_week
                != weekday by {
                assert(rest[k] == limits[k + 1]);
            }
        }
        if 0 <= i < limits.len() && limits[i].day_of_week == weekday && (forall|k: int|
            0 <= k < i ==> (#[trigger] limits[k]).day_of_week != weekday) {
            assert(rest[i - 1] == limits[i]);
            assert forall|k: int| 0 <= k < i - 1 implies (#[trigger] rest[k]).day_of_week
                != weekday by {
                assert(rest[k] == limits[k + 1]);
            }
        }
    } else if limits.len() > 0 {
        assert(limits[0].day_of_week == weekday);
        let m: u32 = limits[0].allowed_minutes;
        assert(m as i32 == if m <= 0x7fff_ffff {
            m as int
        } else {
            m - 0x1_0000_0000
        }) by (bit_vector);
        if 0 < i < limits.len() {
            assert(!(forall|k: int| 0 <= k < i ==> (#[trigger] limits[k]).day_of_week != weekday));
        }
    }
}

/// The block lists of a configuration are one for each of its users, in order:
/// that user's number with that user's own domains.
pub proof fn every_user_has_their_own_block_list(users: Seq<ConfigUser>)
    ensures
        control::config_rules(users).len() == users.len(),
        forall|i: int|
            0 <= i < users.len() ==> {
                let rule = #[trigger] control::config_rules(users)[i];
                &&& rule.0 == users[i].local_uid
                &&& rule.1.len() == users[i].blocked_domains@.len()
                &&& forall|j: int|
                    0 <= j < users[i].blocked_domains@.len() ==> #[trigger] rule.1[j]
                        == users[i].blocked_domains@[j]@
            },
{
}

/// The block lists that are in force from the start are one for each managed
/// user, in order: that user's own stored domains, and none where they could not
/// be read.
pub proof fn every_user_has_their_stored_block_list(read: Seq<StoredList>)
    ensures
        control::rules_at_start(read).len() == read.len(),
        forall|i: int|
            0 <= i < read.len() ==> {
                let rule = #[trigger] control::rules_at_start(read)[i];
                &&& rule.0 == read[i].uid
                &&& read[i].domains is None ==> rule.1.len() == 0
                &&& read[i].domains matches Some(d) ==> {
                    &&& rule.1.len() == d@.len()
                    &&& forall|j: int| 0 <= j < d@.len() ==> #[trigger] rule.1[j] == d@[j]@
                }
            },
{
}

/// A user is told of a new schedule exactly if it differs from the stored one.
/// The change of today's time is told as what it is: the minutes that were added
/// or taken away, the minutes that are left of today's limit with the adjustment
/// and without the whole minutes used, to 32 bits, never below zero, and the
/// reason.
pub proof fn a_user_is_told_what_changed(u: ConfigUser, s: Snapshot, weekday: u8)
    ensures
        ({
            let told = control::config_notices(u, s, weekday);
            let changed = windows::stored_windows(s.schedules@) != windows::sent_windows(
                u.schedules@,
            );
            let change = u.adjustments_today - s.adjustment;
            let low = (s.used_seconds / 60) % 0x1_0000_0000;
            let used = if low <= 0x7fff_ffff {
                low as int
            } else {
                low - 0x1_0000_0000
            };
            let sum = control::limit_on(u.daily_limits@, weekday) + u.adjustments_today - used;
            let left = if sum >= 0 {
                sum
            } else {
                0
            };
            let first = ActionView::NotifyScheduleChanged {
                uid: u.local_uid,
                language: u.language@,
            };
            let reason = match u.adjustment_message {
                Some(m) => Some(m@),
                None => None,
            };
            &&& told.contains(first) <==> changed
            &&& told.len() == (if changed {
                1int
            } else {
                0
            }) + (if change != 0 {
                1int
            } else {
                0
            })
            &&& changed ==> told[0] == first
            &&& change > 0 ==> told.last() == (ActionView::NotifyTimeAdded {
                uid: u.local_uid,
                language: u.language@,
                minutes: change,
                remaining: left,
                reason,
            })
            &&& change < 0 ==> told.last() == (ActionView::NotifyTimeReduced {
                uid: u.local_uid,
                language: u.language@,
                minutes: -change,
                remaining: left,
                reason,
            })
        }),
{
    let told = control::config_notices(u, s, weekday);
    let changed = windows::stored_windows(s.schedules@) != windows::sent_windows(u.schedules@);
    let first = ActionView::NotifyScheduleChanged { uid: u.local_uid, language: u.language@ };
    if changed {
        assert(told[0] == first);
    }
    lemma_low_bits(s.used_seconds / 60);
}

proof fn lemma_low_bits(m: u64)
    ensures
        m as i32 == if m % 0x1_0000_0000 <= 0x7fff_ffff {
            (m % 0x1_0000_0000) as int
        } else {
            m % 0x1_0000_0000 - 0x1_0000_0000
        },
{
    assert(m as i32 == if m % 0x1_0000_0000 <= 0x7fff_ffff {
        (m % 0x1_0000_0000) as int
    } else {
        m % 0x1_0000_0000 - 0x1_0000_0000
    }) by (bit_vector);
}

/// The users of a configuration are told in order, each from their own entry and
/// their own snapshot.
pub proof fn users_are_told_in_order(
    users: Seq<ConfigUser>,
    snapshots: Seq<Snapshot>,
    weekday: u8,
    n: int,
)
    requires
        0 <= n,
    ensures
        control::all_config_notices(users, snapshots, weekday, n + 1)
            == control::all_config_notices(users, snapshots, weekday, n) + control::config_notices(
            users[n],
            snapshots[n],
            weekday,
        ),
        control::all_config_notices(users, snapshots, weekday, 0) == Seq::<ActionView>::empty(),
{
}

/// A message changes who is being locked out as it says: a configuration ends the
/// lock flow of exactly the users whose tasks it does not preserve, a request to
/// lock adds its user, and every message but a time update leaves all others
/// alone.
pub proof fn a_message_changes_its_own_users_only(
    locked: Set<u32>,
    msg: ServerMessage,
    uid: u32,
)
    ensures
        ({
            let after = control::locked_after_message(locked, msg).contains(uid);
            match msg {
                ServerMessage::ConfigPush(push) => after == (locked.contains(uid) && forall|i: int|
                    0 <= i < push.users@.len() && (#[trigger] push.users@[i]).local_uid == uid
                        ==> push.users@[i].preserve_tasks_on_lock),
                ServerMessage::LockNow { local_uid } => after == (locked.contains(uid) || uid
                    == local_uid),
                ServerMessage::RemainingUpdate(_) => true,
                _ => after == locked.contains(uid),
            }
        }),
{
}

/// What a message asks for beside configurations and time updates: show its text,
/// lock its user out, say hello again, end, send the logs, or update.
pub proof fn plain_messages_are_answered(
    msg: ServerMessage,
    locked: Set<u32>,
    warned: Map<u32, Set<i32>>,
    has_status: bool,
    reads: Readings,
)
    ensures
        ({
            let acts = control::response(msg, locked, warned, has_status, reads);
            match msg {
                ServerMessage::NotifyUser { local_uid, summary, body } => acts == seq![
                    ActionView::Notify { uid: local_uid, summary: summary@, body: body@ },
                ],
                ServerMessage::LockNow { local_uid } => acts == seq![
                    if locked.contains(local_uid) {
                        ActionView::Relock(local_uid)
                    } else {
                        ActionView::BeginLock(local_uid)
                    },
                ],
                ServerMessage::ConfigReload => acts == seq![ActionView::SendHello],
                ServerMessage::Unpair => acts == seq![ActionView::Exit],
                ServerMessage::FetchLogs => acts == seq![ActionView::SendLogs],
                ServerMessage::UpdateAgent => acts == seq![ActionView::LaunchUpdate],
                ServerMessage::Unknown(_) | ServerMessage::PairingAccepted => acts.len() == 0,
                _ => true,
            }
        }),
        !(msg is RemainingUpdate) ==> control::warned_after_message(warned, msg, reads) == warned,
{
}

/// A configuration is acted on by putting its block lists in force and then
/// telling its users, with the day of the week of the date that was read.
pub proof fn a_configuration_filters_then_tells(
    push: ConfigPush,
    locked: Set<u32>,
    warned: Map<u32, Set<i32>>,
    has_status: bool,
    reads: Readings,
)
    ensures
        ({
            let acts = control::response(
                ServerMessage::ConfigPush(push),
                locked,
                warned,
                has_status,
                reads,
            );
            &&& acts.len() > 0
            &&& acts[0] == ActionView::FilterWeb(control::config_rules(push.users@))
            &&& acts.skip(1) == control::all_config_notices(
                push.users@,
                reads.snapshots@,
                clock::weekday(reads.today) as u8,
                push.users@.len() as int,
            )
        }),
{
    let acts = control::response(
        ServerMessage::ConfigPush(push),
        locked,
        warned,
        has_status,
        reads,
    );
    assert(acts.skip(1) =~= control::all_config_notices(
        push.users@,
        reads.snapshots@,
        clock::weekday(reads.today) as u8,
        push.users@.len() as int,
    ));
}

/// A time update shows each entry on the status display, in order and before
/// anything is enforced: its own user, its minutes in seconds, its action, and
/// the user's language, or English where none could be read. Without a display
/// nothing is shown.
pub proof fn a_time_update_shows_every_entry(
    es: Vec<RemainingEntry>,
    locked: Set<u32>,
    warned: Map<u32, Set<i32>>,
    has_status: bool,
    reads: Readings,
)
    ensures
        ({
            let acts = control::response(
                ServerMessage::RemainingUpdate(es),
                locked,
                warned,
                has_status,
                reads,
            );
            let shown = if has_status {
                es@.len() as int
            } else {
                0
            };
            &&& acts.len() >= shown
            &&& forall|i: int|
                0 <= i < shown ==> #[trigger] acts[i] == (ActionView::PublishStatus {
                    uid: es@[i].local_uid,
                    seconds_left: 60 * es@[i].remaining_minutes,
                    action: es@[i].enforce,
                    language: match reads.enforcement@[i] {
                        Some(c) => c.language@,
                        None => "en"@,
                    },
                })
            &&& acts.skip(shown) == control::enforcement_actions(
                locked,
                warned,
                es@,
                reads.enforcement@,
                es@.len() as int,
            )
        }),
        control::locked_after_message(locked, ServerMessage::RemainingUpdate(es))
            == control::locked_after(locked, es@, es@.len() as int),
        control::warned_after_message(warned, ServerMessage::RemainingUpdate(es), reads)
            == control::warned_after_all(warned, es@, reads.enforcement@, es@.len() as int),
{
    let acts = control::response(
        ServerMessage::RemainingUpdate(es),
        locked,
        warned,
        has_status,
        reads,
    );
    let shown = if has_status {
        es@.len() as int
    } else {
        0
    };
    assert(acts.skip(shown) =~= control::enforcement_actions(
        locked,
        warned,
        es@,
        reads.enforcement@,
        es@.len() as int,
    ));
}

/// Entries are acted on one after the other: each on what those before it have
/// left. An entry that locks adds its user and asks for a lock; any other takes
/// its user out and unlocks where a lock flow was under way. A warning announces
/// the thresholds that are due, once each, and an allowance forgets them all.
pub proof fn an_entry_is_acted_on_after_those_before_it(
    locked: Set<u32>,
    warned: Map<u32, Set<i32>>,
    es: Seq<RemainingEntry>,
    cs: Seq<Option<CachedEnforcement>>,
    n: int,
)
    requires
        0 <= n < es.len(),
    ensures
        ({
            let e = es[n];
            let uid = e.local_uid;
            let locked_before = control::locked_after(locked, es, n);
            let locked_then = control::locked_after(locked, es, n + 1);
            let warned_before = control::warned_after_all(warned, es, cs, n);
            let warned_then = control::warned_after_all(warned, es, cs, n + 1);
            let acts_before = control::enforcement_actions(locked, warned, es, cs, n);
            let acts_then = control::enforcement_actions(locked, warned, es, cs, n + 1);
            let more = acts_then.skip(acts_before.len() as int);
            &&& acts_then.len() >= acts_before.len()
            &&& acts_then.take(acts_before.len() as int) == acts_before
            &&& match e.enforce {
                EnforceAction::Lock => {
                    &&& locked_then == locked_before.insert(uid)
                    &&& warned_then == warned_before
                    &&& more == seq![
                        if locked_before.contains(uid) {
                            ActionView::Relock(uid)
                        } else {
                            ActionView::BeginLock(uid)
                        },
                    ]
                },
                EnforceAction::Allow => {
                    &&& locked_then == locked_before.remove(uid)
                    &&& warned_then == warned_before.remove(uid)
                    &&& more == if locked_before.contains(uid) {
                        seq![ActionView::Unlock(uid)]
                    } else {
                        seq![]
                    }
                },
                EnforceAction::Warn => {
                    let thresholds = match cs[n] {
                        Some(c) => c.warning_thresholds@,
                        None => seq![],
                    };
                    let had = if warned_before.contains_key(uid) {
                        warned_before[uid]
                    } else {
                        Set::empty()
                    };
                    let unlocks: int = if locked_before.contains(uid) {
                        1
                    } else {
                        0
                    };
                    &&& locked_then == locked_before.remove(uid)
                    &&& warned_then == warned_before.insert(
                        uid,
                        enforce::warned_after(had, thresholds, e.remaining_minutes),
                    )
                    &&& more.len() == unlocks + enforce::due_count(
                        thresholds,
                        e.remaining_minutes,
                        had,
                    )
                    &&& unlocks == 1 ==> more[0] == ActionView::Unlock(uid)
                    &&& forall|i: int|
                        unlocks <= i < more.len() ==> #[trigger] more[i]
                            == (ActionView::NotifyTimeLeft {
                            uid,
                            language: match cs[n] {
                                Some(c) => c.language@,
                                None => seq![],
                            },
                            remaining: e.remaining_minutes as int,
                        })
                },
            }
        }),
        control::enforcement_actions(locked, warned, es, cs, 0) == Seq::<ActionView>::empty(),
        control::locked_after(locked, es, 0) == locked,
        control::warned_after_all(warned, es, cs, 0) == warned,
{
    let e = es[n];
    let acts_before = control::enforcement_actions(locked, warned, es, cs, n);
    let acts_then = control::enforcement_actions(locked, warned, es, cs, n + 1);
    let step = control::entry_actions(
        control::locked_after(locked, es, n),
        control::warned_after_all(warned, es, cs, n),
        e,
        cs[n],
    );
    assert(acts_then == acts_before + step);
    assert(acts_then.take(acts_before.len() as int) =~= acts_before);
    assert(acts_then.skip(acts_before.len() as int) =~= step);
}

/// A threshold, as a signed number of 32 bits, is announced exactly if the time
/// left is no more than it and it was not announced before; each entry of the
/// list counts.
pub proof fn each_crossed_threshold_is_announced(
    thresholds: Seq<u32>,
    t: u32,
    remaining: i32,
    warned: Set<i32>,
)
    ensures
        ({
            let v: int = if t <= 0x7fff_ffff {
                t as int
            } else {
                t - 0x1_0000_0000
            };
            enforce::due_count(thresholds.push(t), remaining, warned) == enforce::due_count(
                thresholds,
                remaining,
                warned,
            ) + (if remaining <= v && !warned.contains(v as i32) {
                1nat
            } else {
                0
            })
        }),
        enforce::due_count(Seq::empty(), remaining, warned) == 0,
{
    reveal(Seq::filter);
    assert(thresholds.push(t).drop_last() =~= thresholds);
    assert(Seq::<u32>::empty().filter(|x: u32| enforce::due(x, remaining, warned)).len() == 0);
    assert(t as i32 == if t <= 0x7fff_ffff {
        t as int
    } else {
        t - 0x1_0000_0000
    }) by (bit_vector);
}

/// What counts as announced after a warning are the thresholds that are still
/// crossed, of those announced before and of those listed.
pub proof fn crossed_thresholds_are_remembered(
    warned: Set<i32>,
    thresholds: Seq<u32>,
    remaining: i32,
    t: i32,
)
    ensures
        enforce::warned_after(warned, thresholds, remaining).contains(t) <==> remaining <= t && (
        warned.contains(t) || exists|i: int|
            0 <= i < thresholds.len() && #[trigger] thresholds[i] as i32 == t),
{
}

/// A connection is greeted with the mode, a hello, the use and the users; its end
/// only sets the mode.
pub proof fn a_connection_is_taken_up_in_order()
    ensures
        control::connection_actions(ConnectionEvent::Connected) == seq![
            ActionView::SetMode(AgentMode::Online),
            ActionView::SendHello,
            ActionView::SendUsageSync,
            ActionView::SendUserList,
        ],
        control::connection_actions(ConnectionEvent::Disconnected) == seq![
            ActionView::SetMode(AgentMode::Offline),
        ],
{
}

/// What is stored of a message is all of it: the users and the version of a
/// configuration, each entry of a time update as it is, or that there is no
/// server any more. Nothing is stored of any other message.
pub proof fn a_message_is_stored_as_it_is(msg: &ServerMessage)
    ensures
        match msg {
            ServerMessage::ConfigPush(push) => {
                &&& control::to_store(msg).len() == 2
                &&& control::to_store(msg)[0] == Storing::Config(&push.users)
                &&& control::to_store(msg)[1] == Storing::ConfigVersion(push.config_version)
            },
            ServerMessage::RemainingUpdate(es) => {
                &&& control::to_store(msg).len() == es@.len()
                &&& forall|i: int|
                    0 <= i < es@.len() ==> #[trigger] control::to_store(msg)[i]
                        == (Storing::Remaining {
                        uid: es@[i].local_uid,
                        minutes: es@[i].remaining_minutes,
                        action: es@[i].enforce,
                    })
            },
            ServerMessage::Unpair => control::to_store(msg) == seq![Storing::Unpaired],
            _ => control::to_store(msg).len() == 0,
        },
{
}

/// The readings fit a configuration exactly if the date is one of the calendar,
/// there is a snapshot for each user, every time is one of a clock, and no amount
/// leaves 32 bits; a time update needs a reading for each entry, and no other
/// message needs any.
pub proof fn readings_fit_as_they_must(msg: ServerMessage, reads: Readings)
    ensures
        match msg {
            ServerMessage::ConfigPush(push) => control::message_fits(msg, reads) <==> {
                &&& clock::real_date(reads.today)
                &&& reads.snapshots@.len() == push.users@.len()
                &&& forall|i: int|
                    0 <= i < push.users@.len() ==> {
                        let u = #[trigger] push.users@[i];
                        let s = reads.snapshots@[i];
                        let change = u.adjustments_today - s.adjustment;
                        let with = control::limit_on(
                            u.daily_limits@,
                            clock::weekday(reads.today) as u8,
                        ) + u.adjustments_today;
                        let left = with - ((s.used_seconds / 60) as i32);
                        &&& windows::real_windows(u.schedules@)
                        &&& -0x8000_0000 < change <= 0x7fff_ffff
                        &&& change == 0 || (-0x8000_0000 <= with <= 0x7fff_ffff && -0x8000_0000
                            <= left <= 0x7fff_ffff)
                    }
            },
            ServerMessage::RemainingUpdate(es) => control::message_fits(msg, reads) <==> es@.len()
                == reads.enforcement@.len(),
            _ => control::message_fits(msg, reads),
        },
{
    if let ServerMessage::ConfigPush(push) = msg {
        let today = clock::weekday(reads.today) as u8;
        if control::message_fits(msg, reads) {
            assert forall|i: int| 0 <= i < push.users@.len() implies control::amounts_fit(
                #[trigger] push.users@[i],
                reads.snapshots@[i],
                today,
            ) by {}
        }
    }
}

/// Stored and sent windows are compared by how often each window occurs, by its
/// day, its start and its end: a stored one counts as it is, one that was sent
/// with its times written out.
pub proof fn windows_are_counted_as_they_occur(
    stored: Seq<windows::Window>,
    sent: Seq<windows::ScheduleWindow>,
    day: u8,
    start: Seq<char>,
    end: Seq<char>,
)
    ensures
        windows::stored_windows(stored).count((day, start, end)) == stored.filter(
            |w: windows::Window|
                w.day_of_week == day && w.start_time@ == start && w.end_time@ == end,
        ).len(),
        windows::sent_windows(sent).count((day, start, end)) == sent.filter(
            |w: windows::ScheduleWindow|
                w.day_of_week == day && clock::hm_text(w.start_time) == start && clock::hm_text(
                    w.end_time,
                ) == end,
        ).len(),
{
    lemma_stored_count(stored, day, start, end);
    lemma_sent_count(sent, day, start, end);
}

proof fn lemma_stored_count(
    stored: Seq<windows::Window>,
    day: u8,
    start: Seq<char>,
    end: Seq<char>,
)
    ensures
        windows::stored_windows(stored).count((day, start, end)) == stored.filter(
            |w: windows::Window|
                w.day_of_week == day && w.start_time@ == start && w.end_time@ == end,
        ).len(),
    decreases stored.len(),
{
    broadcast use vstd::seq_lib::group_to_multiset_ensures, vstd::multiset::group_multiset_axioms;

    reveal(Seq::filter);
    let keys = stored.map_values(|w: windows::Window| windows::stored_key(w));
    if stored.len() == 0 {
        assert(keys =~= Seq::empty());
        assert(keys.to_multiset() =~= vstd::multiset::Multiset::empty());
    } else {
        lemma_stored_count(stored.drop_last(), day, start, end);
        let before = stored.drop_last().map_values(|w: windows::Window| windows::stored_key(w));
        assert(keys =~= before.push(windows::stored_key(stored.last())));
    }
}

proof fn lemma_sent_count(
    sent: Seq<windows::ScheduleWindow>,
    day: u8,
    start: Seq<char>,
    end: Seq<char>,
)
    ensures
        windows::sent_windows(sent).count((day, start, end)) == sent.filter(
            |w: windows::ScheduleWindow|
                w.day_of_week == day && clock::hm_text(w.start_time) == start && clock::hm_text(
                    w.end_time,
                ) == end,
        ).len(),
    decreases sent.len(),
{
    broadcast use vstd::seq_lib::group_to_multiset_ensures, vstd::multiset::group_multiset_axioms;

    reveal(Seq::filter);
    let keys = sent.map_values(|w: windows::ScheduleWindow| windows::sent_key(w));
    if sent.len() == 0 {
        assert(keys =~= Seq::empty());
        assert(keys.to_multiset() =~= vstd::multiset::Multiset::empty());
    } else {
        lemma_sent_count(sent.drop_last(), day, start, end);
        let before = sent.drop_last().map_values(
            |w: windows::ScheduleWindow| windows::sent_key(w),
        );
        assert(keys =~= before.push(windows::sent_key(sent.last())));
    }
}

/// Windows are of a clock exactly if each of their hours is below 24 and each of
/// their minutes below 60.
pub proof fn windows_are_of_a_clock(sent: Seq<windows::ScheduleWindow>)
    ensures
        windows::real_windows(sent) <==> forall|i: int|
            0 <= i < sent.len() ==> {
                let w = #[trigger] sent[i];
                &&& w.start_time.hour < 24 && w.start_time.minute < 60
                &&& w.end_time.hour < 24 && w.end_time.minute < 60
            },
{
    if forall|i: int|
        0 <= i < sent.len() ==> {
            let w = #[trigger] sent[i];
            &&& w.start_time.hour < 24 && w.start_time.minute < 60
            &&& w.end_time.hour < 24 && w.end_time.minute < 60
        } {
        assert forall|i: int| 0 <= i < sent.len() implies clock::real_time(
            (#[trigger] sent[i]).start_time,
        ) && clock::real_time(sent[i].end_time) by {}
    }
}

/// The stored names of the actions.
pub proof fn actions_are_stored_by_name()
    ensures
        enforce::action_name(EnforceAction::Allow) == "allow"@,
        enforce::action_name(EnforceAction::Warn) == "warn"@,
        enforce::action_name(EnforceAction::Lock) == "lock"@,
{
}

/// What was announced to a user is what stands there for that user, and nothing
/// where nothing does.
pub proof fn announcements_are_kept_by_user(warned: Map<u32, Set<i32>>, uid: u32)
    ensures
        warned.contains_key(uid) ==> enforce::warned_of(warned, uid) == warned[uid],
        !warned.contains_key(uid) ==> enforce::warned_of(warned, uid) == Set::<i32>::empty(),
{
}

} // verus!
