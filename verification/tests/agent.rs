//! The agent's decisions on concrete events, messages and clock readings.

use screenguard::agent::action::{Action, AgentMode, HeartbeatUser};
use screenguard::agent::agenda::Agenda;
use screenguard::agent::control;
use screenguard::agent::control::{
    CachedEnforcement, ConfigPush, ConfigUser, ConnectionEvent, DayLimit, Readings,
    RemainingEntry, ServerMessage, Snapshot, StoredList, Storing,
};
use screenguard::agent::enforce::{
    enforce_str, fire_threshold_notifications, request_lock, screens_to_switch, EnforceAction,
    LockBook, LockStep, Warned,
};
use screenguard::agent::heartbeat::{
    after_rescan, enforce_offline, maybe_rescan_users, send_user_list_update, HeartbeatLoop,
    TickProgress, TickStep, UnsyncedUse, NANOS,
};
use screenguard::agent::host;
use screenguard::agent::session::{
    handle_session_event, uid_is_counting, update_usage_timer, SessionEvent, SessionRecord,
    SessionRef, SessionStates, SessionTable, SessionUsageState, Timers,
};
use screenguard::agent::windows::{schedule_changed, windows_in_range, ScheduleWindow, Window};
use screenguard::clock::{is_real_date, Date, TimeOfDay};

type Event = SessionEvent<u8>;

fn take(
    event: Event,
    states: &mut SessionStates<u8>,
    timers: &mut Timers,
    now: u64,
) -> Option<SessionRecord> {
    handle_session_event(event, states, timers, now, 3, &present)
}

fn present(t: &SessionTable<u8>) -> bool {
    let mut i = 0;
    while i < t.len() {
        if t.state_at(i).idle == Some(false) {
            return true;
        }
        i += 1;
    }
    false
}

fn started(uid: u32, id: &str) -> Event {
    SessionEvent::SessionStarted { uid, session_id: id.to_string() }
}

fn ended(uid: u32, id: &str) -> Event {
    SessionEvent::SessionEnded { uid, session_id: id.to_string() }
}

fn changed(uid: u32, id: &str, idle: Option<bool>) -> Event {
    SessionEvent::StateChanged {
        uid,
        session_id: id.to_string(),
        state: SessionUsageState { idle, more: 8 },
    }
}

#[test]
fn sessions_start_and_stop_a_timer() {
    let mut states = SessionStates::new();
    let mut timers = Timers::new();
    let r = take(started(7, "a"), &mut states, &mut timers, 100);
    assert!(matches!(r, Some(SessionRecord::Upsert { uid: 7, idle: true, .. })));
    assert_eq!(timers.get(&7), Some(&None));
    let r = take(changed(7, "a", Some(false)), &mut states, &mut timers, 200);
    assert!(matches!(r, Some(SessionRecord::Upsert { uid: 7, idle: false, .. })));
    assert_eq!(timers.get(&7), Some(&Some(200)));
    assert!(uid_is_counting(&states, 7, &present));
    take(started(7, "b"), &mut states, &mut timers, 300);
    assert_eq!(timers.get(&7), Some(&Some(200)));
    assert_eq!(states.session_count(7), 2);
    take(changed(7, "a", Some(true)), &mut states, &mut timers, 400);
    assert_eq!(timers.get(&7), Some(&None));
    take(ended(7, "a"), &mut states, &mut timers, 500);
    assert_eq!(timers.get(&7), Some(&None));
    let r = take(ended(7, "b"), &mut states, &mut timers, 600);
    assert!(matches!(r, Some(SessionRecord::Remove { uid: 7, .. })));
    assert_eq!(timers.get(&7), None);
    assert_eq!(states.session_count(7), 0);
    assert!(!uid_is_counting(&states, 7, &present));
}

#[test]
fn state_of_an_ended_session_is_ignored() {
    let mut states = SessionStates::new();
    let mut timers = Timers::new();
    let r = take(changed(7, "a", Some(false)), &mut states, &mut timers, 1);
    assert!(r.is_none());
    assert!(timers.is_empty());
    assert!(!states.knows(7, "a"));
}

#[test]
fn a_snapshot_is_handed_to_the_store() {
    let mut states = SessionStates::new();
    let mut timers = Timers::new();
    let sessions = vec![SessionRef { uid: 1, session_id: "x".to_string() }];
    let e = SessionEvent::StartupSnapshot { sessions };
    let r = take(e, &mut states, &mut timers, 1);
    assert!(matches!(r, Some(SessionRecord::Reconcile(sessions)) if sessions.len() == 1));
    assert_eq!(states.session_count(1), 0);
}

#[test]
fn sleep_stops_timers_and_waking_restarts_them() {
    let mut states = SessionStates::new();
    let mut timers = Timers::new();
    take(started(1, "a"), &mut states, &mut timers, 10);
    take(changed(1, "a", Some(false)), &mut states, &mut timers, 10);
    take(started(2, "b"), &mut states, &mut timers, 10);
    timers.insert(9, Some(5));
    let sleep = SessionEvent::PrepareForSleep { suspend: true };
    assert!(take(sleep, &mut states, &mut timers, 20).is_none());
    assert_eq!(timers.get(&1), Some(&None));
    assert_eq!(timers.get(&9), Some(&None));
    let wake = SessionEvent::PrepareForSleep { suspend: false };
    take(wake, &mut states, &mut timers, 30);
    assert_eq!(timers.get(&1), Some(&Some(30)));
    assert_eq!(timers.get(&2), Some(&None));
    assert_eq!(timers.get(&9), None);
}

#[test]
fn a_timer_follows_what_changes() {
    let mut timers = Timers::new();
    update_usage_timer(3, false, false, 1, &mut timers);
    assert_eq!(timers.get(&3), Some(&None));
    update_usage_timer(3, false, true, 2, &mut timers);
    assert_eq!(timers.get(&3), Some(&Some(2)));
    update_usage_timer(3, true, true, 3, &mut timers);
    assert_eq!(timers.get(&3), Some(&Some(2)));
    update_usage_timer(3, false, false, 4, &mut timers);
    assert_eq!(timers.get(&3), Some(&Some(2)));
    update_usage_timer(3, true, false, 5, &mut timers);
    assert_eq!(timers.get(&3), Some(&None));
}

#[test]
fn actions_have_stored_names() {
    assert_eq!(enforce_str(EnforceAction::Allow), "allow");
    assert_eq!(enforce_str(EnforceAction::Warn), "warn");
    assert_eq!(enforce_str(EnforceAction::Lock), "lock");
}

#[test]
fn a_lock_flow_is_begun_once() {
    let mut book = LockBook::new();
    assert_eq!(request_lock(&mut book, 5), LockStep::Begin);
    assert_eq!(request_lock(&mut book, 5), LockStep::Again);
    book.finish_lock(5, Some(false));
    assert!(book.contains(5));
    book.finish_lock(5, Some(true));
    assert_eq!(request_lock(&mut book, 5), LockStep::Begin);
    book.finish_lock(5, None);
    assert!(!book.contains(5));
    assert!(!book.release(5));
}

#[test]
fn thresholds_fire_once_and_rearm() {
    let mut warned = Warned::new();
    let t = vec![15, 5, 1];
    assert_eq!(fire_threshold_notifications(&mut warned, 1, 20, &t), 0);
    assert_eq!(fire_threshold_notifications(&mut warned, 1, 15, &t), 1);
    assert_eq!(fire_threshold_notifications(&mut warned, 1, 14, &t), 0);
    assert_eq!(fire_threshold_notifications(&mut warned, 1, 1, &t), 2);
    assert_eq!(fire_threshold_notifications(&mut warned, 1, 10, &t), 0);
    assert_eq!(fire_threshold_notifications(&mut warned, 1, 5, &t), 1);
    assert_eq!(fire_threshold_notifications(&mut warned, 2, 0, &vec![5, 5]), 2);
    warned.forget(2);
    assert_eq!(fire_threshold_notifications(&mut warned, 2, 0, &vec![5]), 1);
    warned.clear();
    assert_eq!(fire_threshold_notifications(&mut warned, 1, 1, &t), 3);
}

fn at(hour: u32, minute: u32) -> TimeOfDay {
    TimeOfDay { hour, minute }
}

fn sent(day: u8, from: (u32, u32), to: (u32, u32)) -> ScheduleWindow {
    ScheduleWindow {
        day_of_week: day,
        start_time: at(from.0, from.1),
        end_time: at(to.0, to.1),
    }
}

fn kept(day: u8, from: &str, to: &str) -> Window {
    Window { day_of_week: day, start_time: from.to_string(), end_time: to.to_string() }
}

#[test]
fn schedules_are_compared_without_their_order() {
    let stored = vec![kept(0, "08:05", "09:00"), kept(1, "16:00", "18:30")];
    let same = vec![sent(1, (16, 0), (18, 30)), sent(0, (8, 5), (9, 0))];
    assert!(!schedule_changed(&stored, &same));
    let later = vec![sent(1, (16, 0), (18, 31)), sent(0, (8, 5), (9, 0))];
    assert!(schedule_changed(&stored, &later));
    let twice = vec![sent(0, (8, 5), (9, 0)), sent(0, (8, 5), (9, 0))];
    assert!(schedule_changed(&stored, &twice));
    assert!(schedule_changed(&stored, &vec![]));
    assert!(!schedule_changed(&vec![], &vec![]));
    assert!(windows_in_range(&same));
    assert!(!windows_in_range(&vec![sent(0, (24, 0), (1, 0))]));
}

fn user(uid: u32) -> ConfigUser {
    ConfigUser {
        local_uid: uid,
        schedules: vec![],
        daily_limits: vec![
            DayLimit { day_of_week: 2, allowed_minutes: 60 },
            DayLimit { day_of_week: 2, allowed_minutes: 90 },
        ],
        adjustments_today: 0,
        adjustment_message: None,
        language: "pl".to_string(),
        preserve_tasks_on_lock: true,
        blocked_domains: vec!["x.com".to_string()],
    }
}

fn snapshot(adjustment: i32, used_seconds: u64) -> Snapshot {
    Snapshot { schedules: vec![], adjustment, used_seconds }
}

fn monday() -> Date {
    Date { year: 2024, month: 4, day: 29 }
}

fn wednesday() -> Date {
    Date { year: 2024, month: 5, day: 1 }
}

fn thursday() -> Date {
    Date { year: 2024, month: 5, day: 2 }
}

fn readings(today: Date, snapshots: Vec<Snapshot>) -> Readings {
    Readings { today, snapshots, enforcement: vec![] }
}

#[test]
fn a_configuration_is_stored_and_announced() {
    let mut hb = agent();
    let mut book = LockBook::new();
    request_lock(&mut book, 10);
    request_lock(&mut book, 11);
    let mut first = user(10);
    first.adjustments_today = 15;
    first.adjustment_message = Some("chores".to_string());
    first.schedules = vec![sent(0, (8, 0), (9, 0))];
    let mut second = user(11);
    second.preserve_tasks_on_lock = false;
    second.adjustments_today = -30;
    let msg =
        ServerMessage::ConfigPush(ConfigPush { config_version: 4, users: vec![first, second] });
    let reads = readings(wednesday(), vec![snapshot(5, 1859), snapshot(0, 3600)]);
    assert!(control::fits(&msg, &reads));
    let storing = hb.handle_server_message(&msg);
    assert_eq!(storing.len(), 2);
    assert!(
        matches!(&storing[0], Storing::Config(us) if us.len() == 2 && us[1].local_uid == 11)
    );
    assert!(matches!(storing[1], Storing::ConfigVersion(4)));
    assert!(hb.after_storing(&msg, false, &mut book, &reads).is_empty());
    assert!(book.contains(10) && book.contains(11));
    let acts = hb.after_storing(&msg, true, &mut book, &reads);
    assert_eq!(acts.len(), 4);
    match &acts[0] {
        Action::FilterWeb(rules) => {
            assert_eq!(rules.len(), 2);
            assert_eq!(rules[0].uid, 10);
            assert_eq!(rules[0].domains, vec!["x.com"]);
        }
        _ => panic!("no block lists"),
    }
    assert!(
        matches!(&acts[1], Action::NotifyScheduleChanged { uid: 10, language } if language == "pl")
    );
    match &acts[2] {
        Action::NotifyTimeAdded { uid, minutes, remaining, reason, .. } => {
            assert_eq!((*uid, *minutes, *remaining), (10, 10, 45));
            assert_eq!(reason.as_deref(), Some("chores"));
        }
        _ => panic!("no time added"),
    }
    match &acts[3] {
        Action::NotifyTimeReduced { uid, minutes, remaining, reason, .. } => {
            assert_eq!((*uid, *minutes, *remaining), (11, 30, 0));
            assert!(reason.is_none());
        }
        _ => panic!("no time reduced"),
    }
    assert!(book.contains(10));
    assert!(!book.contains(11));
}

#[test]
fn a_day_without_a_limit_is_a_whole_day() {
    let mut hb = agent();
    let mut book = LockBook::new();
    let mut u = user(10);
    u.adjustments_today = 1;
    let msg = ServerMessage::ConfigPush(ConfigPush { config_version: 1, users: vec![u] });
    let acts = hb.after_storing(&msg, true, &mut book, &readings(thursday(), vec![snapshot(0, 120)]));
    assert!(matches!(
        acts[1],
        Action::NotifyTimeAdded { minutes: 1, remaining: 1439, .. }
    ));
}

#[test]
fn readings_that_do_not_fit_are_told_apart() {
    let mut u = user(10);
    u.adjustments_today = i32::MAX;
    let msg = ServerMessage::ConfigPush(ConfigPush { config_version: 1, users: vec![u] });
    assert!(!control::fits(&msg, &readings(wednesday(), vec![snapshot(0, 0)])));
    assert!(control::fits(&msg, &readings(wednesday(), vec![snapshot(i32::MAX, 0)])));
    assert!(!control::fits(&msg, &readings(wednesday(), vec![])));
    let mut u = user(10);
    u.schedules = vec![sent(0, (25, 0), (1, 0))];
    let msg = ServerMessage::ConfigPush(ConfigPush { config_version: 1, users: vec![u] });
    assert!(!control::fits(&msg, &readings(wednesday(), vec![snapshot(0, 0)])));
    let msg = ServerMessage::RemainingUpdate(vec![entry(1, 5, EnforceAction::Allow)]);
    assert!(!control::fits(&msg, &readings(monday(), vec![])));
}

fn entry(uid: u32, minutes: i32, enforce: EnforceAction) -> RemainingEntry {
    RemainingEntry { local_uid: uid, remaining_minutes: minutes, enforce }
}

fn cached() -> Option<CachedEnforcement> {
    Some(CachedEnforcement { warning_thresholds: vec![15, 5, 1], language: "de".to_string() })
}

fn agent() -> HeartbeatLoop {
    HeartbeatLoop::new(30, 300, 1000, "1.2.3".to_string(), 24, true, None)
}

#[test]
fn a_time_update_is_stored_shown_and_enforced() {
    let mut hb = agent();
    let mut book = LockBook::new();
    request_lock(&mut book, 2);
    let msg = ServerMessage::RemainingUpdate(vec![
        entry(1, 0, EnforceAction::Lock),
        entry(2, 4, EnforceAction::Warn),
        entry(3, 100, EnforceAction::Allow),
    ]);
    let reads =
        Readings { today: monday(), snapshots: vec![], enforcement: vec![cached(), cached(), None] };
    let acts = hb.after_storing(&msg, true, &mut book, &reads);
    assert_eq!(acts.len(), 7);
    assert!(
        matches!(&acts[1], Action::PublishStatus { uid: 2, seconds_left: 240, language, .. } if language == "de")
    );
    assert!(matches!(&acts[2], Action::PublishStatus { uid: 3, language, .. } if language == "en"));
    assert!(matches!(acts[3], Action::BeginLock(1)));
    assert!(matches!(acts[4], Action::Unlock(2)));
    assert!(matches!(acts[5], Action::NotifyTimeLeft { uid: 2, remaining: 4, .. }));
    assert!(matches!(acts[6], Action::NotifyTimeLeft { uid: 2, remaining: 4, .. }));
    assert!(book.contains(1) && !book.contains(2) && !book.contains(3));
    let again = hb.after_storing(&msg, true, &mut book, &reads);
    assert_eq!(again.len(), 4);
    assert!(matches!(again[3], Action::Relock(1)));
}

#[test]
fn a_time_update_that_is_not_stored_changes_nothing() {
    let mut hb = agent();
    let mut book = LockBook::new();
    request_lock(&mut book, 2);
    let msg = ServerMessage::RemainingUpdate(vec![
        entry(1, 0, EnforceAction::Lock),
        entry(2, 4, EnforceAction::Warn),
    ]);
    let reads =
        Readings { today: monday(), snapshots: vec![], enforcement: vec![cached(), cached()] };
    let storing = hb.handle_server_message(&msg);
    assert_eq!(storing.len(), 2);
    assert!(matches!(
        storing[0],
        Storing::Remaining { uid: 1, minutes: 0, action: EnforceAction::Lock }
    ));
    assert!(matches!(
        storing[1],
        Storing::Remaining { uid: 2, minutes: 4, action: EnforceAction::Warn }
    ));
    assert!(hb.after_storing(&msg, false, &mut book, &reads).is_empty());
    assert!(!book.contains(1) && book.contains(2));
    let t = vec![15, 5, 1];
    assert_eq!(fire_threshold_notifications(&mut hb.notified_thresholds, 2, 4, &t), 2);
}

#[test]
fn an_agenda_ends_with_the_first_failure() {
    let mut a = Agenda::new(vec!["x", "y", "z"]);
    assert_eq!(a.next(), Some("x"));
    assert_eq!(a.next(), None);
    a.report(true);
    assert_eq!(a.next(), Some("y"));
    a.report(false);
    assert_eq!(a.next(), None);
    assert_eq!(a.done(), 1);
    assert!(!a.went_well());
    a.report(true);
    assert!(!a.went_well() && a.done() == 1);
    let mut all = Agenda::new(vec![1, 2]);
    while all.next().is_some() {
        all.report(true);
    }
    assert!(all.went_well() && all.done() == 2);
}

#[test]
fn a_failed_configuration_is_not_versioned() {
    let hb = agent();
    let msg = ServerMessage::ConfigPush(ConfigPush { config_version: 7, users: vec![user(1)] });
    let mut failing = Agenda::new(hb.handle_server_message(&msg));
    assert!(matches!(failing.next(), Some(Storing::Config(_))));
    failing.report(false);
    assert!(failing.next().is_none() && !failing.went_well());
    let mut fine = Agenda::new(hb.handle_server_message(&msg));
    assert!(matches!(fine.next(), Some(Storing::Config(_))));
    fine.report(true);
    assert!(matches!(fine.next(), Some(Storing::ConfigVersion(7))));
    fine.report(true);
    assert!(fine.next().is_none() && fine.went_well());
}

#[test]
fn a_time_update_leaves_others_alone() {
    let mut hb = agent();
    let mut book = LockBook::new();
    let reads = Readings { today: monday(), snapshots: vec![], enforcement: vec![cached()] };
    let first = ServerMessage::RemainingUpdate(vec![entry(5, 4, EnforceAction::Warn)]);
    hb.after_storing(&first, true, &mut book, &reads);
    request_lock(&mut book, 5);
    let other = ServerMessage::RemainingUpdate(vec![entry(6, 90, EnforceAction::Allow)]);
    hb.after_storing(&other, true, &mut book, &reads);
    assert!(book.contains(5));
    let t = vec![15, 5, 1];
    assert_eq!(fire_threshold_notifications(&mut hb.notified_thresholds, 5, 4, &t), 0);
}

#[test]
fn the_last_of_several_entries_counts() {
    let mut hb = HeartbeatLoop::new(30, 300, 1000, String::new(), 24, false, None);
    let mut book = LockBook::new();
    let msg = ServerMessage::RemainingUpdate(vec![
        entry(1, 0, EnforceAction::Lock),
        entry(1, 9, EnforceAction::Allow),
    ]);
    let reads = Readings { today: monday(), snapshots: vec![], enforcement: vec![None, None] };
    let acts = hb.after_storing(&msg, true, &mut book, &reads);
    assert_eq!(acts.len(), 2);
    assert!(matches!(acts[0], Action::BeginLock(1)));
    assert!(matches!(acts[1], Action::Unlock(1)));
    assert!(!book.contains(1));
}

#[test]
fn an_allowance_lets_warnings_be_shown_again() {
    let mut hb = HeartbeatLoop::new(30, 300, 1000, String::new(), 24, false, None);
    let mut book = LockBook::new();
    request_lock(&mut book, 9);
    let warn = ServerMessage::RemainingUpdate(vec![entry(1, 4, EnforceAction::Warn)]);
    let allow = ServerMessage::RemainingUpdate(vec![entry(1, 40, EnforceAction::Allow)]);
    let reads = Readings { today: monday(), snapshots: vec![], enforcement: vec![cached()] };
    assert_eq!(hb.after_storing(&warn, true, &mut book, &reads).len(), 2);
    assert_eq!(hb.after_storing(&warn, true, &mut book, &reads).len(), 0);
    assert_eq!(hb.after_storing(&allow, true, &mut book, &reads).len(), 0);
    assert_eq!(hb.after_storing(&warn, true, &mut book, &reads).len(), 2);
    let unread = Readings { today: monday(), snapshots: vec![], enforcement: vec![None] };
    hb.after_storing(&allow, true, &mut book, &unread);
    assert_eq!(hb.after_storing(&warn, true, &mut book, &unread).len(), 0);
    assert!(book.contains(9));
}

#[test]
fn the_other_messages_are_answered() {
    let mut hb = agent();
    let mut book = LockBook::new();
    let none = readings(monday(), vec![]);
    let acts = hb.after_storing(
        &ServerMessage::NotifyUser {
            local_uid: 4,
            summary: "Hi".to_string(),
            body: "there".to_string(),
        },
        true,
        &mut book,
        &none,
    );
    assert!(
        matches!(&acts[0], Action::Notify { uid: 4, summary, body } if summary == "Hi" && body == "there")
    );
    let lock = ServerMessage::LockNow { local_uid: 4 };
    let acts = hb.after_storing(&lock, true, &mut book, &none);
    assert!(matches!(acts[0], Action::BeginLock(4)));
    let acts = hb.after_storing(&lock, true, &mut book, &none);
    assert!(matches!(acts[0], Action::Relock(4)));
    let acts = hb.after_storing(&ServerMessage::ConfigReload, true, &mut book, &none);
    assert!(matches!(acts[0], Action::SendHello) && acts.len() == 1);
    let acts = hb.after_storing(&ServerMessage::Unpair, true, &mut book, &none);
    assert!(matches!(acts[0], Action::Exit) && acts.len() == 1);
    assert!(hb.after_storing(&ServerMessage::Unpair, false, &mut book, &none).is_empty());
    let storing = hb.handle_server_message(&ServerMessage::Unpair);
    assert!(matches!(storing[0], Storing::Unpaired) && storing.len() == 1);
    assert!(hb.handle_server_message(&ServerMessage::FetchLogs).is_empty());
    let acts = hb.after_storing(&ServerMessage::FetchLogs, true, &mut book, &none);
    assert!(matches!(acts[0], Action::SendLogs));
    let acts = hb.after_storing(&ServerMessage::UpdateAgent, true, &mut book, &none);
    assert!(matches!(acts[0], Action::LaunchUpdate));
    let unknown = ServerMessage::Unknown("x".to_string());
    assert!(hb.after_storing(&unknown, true, &mut book, &none).is_empty());
    let paired = ServerMessage::PairingAccepted;
    assert!(hb.after_storing(&paired, true, &mut book, &none).is_empty());
}

#[test]
fn a_connection_is_greeted() {
    let acts = control::handle_connection_event(ConnectionEvent::Connected);
    assert_eq!(acts.len(), 4);
    assert!(matches!(acts[0], Action::SetMode(AgentMode::Online)));
    assert!(matches!(acts[1], Action::SendHello));
    assert!(matches!(acts[2], Action::SendUsageSync));
    assert!(matches!(acts[3], Action::SendUserList));
    let acts = control::handle_connection_event(ConnectionEvent::Disconnected);
    assert!(matches!(acts[0], Action::SetMode(AgentMode::Offline)) && acts.len() == 1);
}

fn two_users() -> (SessionStates<u8>, Timers) {
    let mut states = SessionStates::new();
    let mut timers = Timers::new();
    take(started(1, "a"), &mut states, &mut timers, 0);
    take(changed(1, "a", Some(false)), &mut states, &mut timers, 0);
    take(started(2, "b"), &mut states, &mut timers, 0);
    (states, timers)
}

#[test]
fn a_heartbeat_reports_and_restarts() {
    let hb = agent();
    let (states, mut timers) = two_users();
    let now = 12 * NANOS + 5;
    let uids = vec![1, 2, 3];
    let credits = hb.send_heartbeat(&states, &timers, &uids, now, "2024-05-01");
    assert_eq!(credits.len(), 1);
    assert!(
        matches!(&credits[0], Action::AddUsage { uid: 1, date, seconds: 12 } if date == "2024-05-01")
    );
    assert_eq!(timers.get(&1), Some(&Some(0)));
    let tick = hb.after_crediting(&states, &mut timers, &uids, now, true, 1);
    assert!(tick.to_enforce.is_empty());
    assert_eq!(tick.actions.len(), 1);
    match &tick.actions[0] {
        Action::SendHeartbeat(users) => assert_eq!(
            *users,
            vec![
                HeartbeatUser {
                    local_uid: 1,
                    active_seconds_since_last: 12,
                    idle: false,
                    session_count: 1
                },
                HeartbeatUser {
                    local_uid: 2,
                    active_seconds_since_last: 0,
                    idle: true,
                    session_count: 1
                },
            ]
        ),
        _ => panic!("no heartbeat"),
    }
    assert_eq!(timers.get(&1), Some(&Some(now)));
    assert_eq!(timers.get(&2), Some(&None));
    let credits = hb.send_heartbeat(&states, &timers, &vec![1], now + 100 * NANOS, "x");
    assert!(matches!(credits[0], Action::AddUsage { uid: 1, seconds: 30, .. }));
    assert!(hb.send_heartbeat(&states, &timers, &vec![], now, "x").is_empty());
    let tick = hb.after_crediting(&states, &mut timers, &vec![], now, true, 0);
    assert!(matches!(&tick.actions[0], Action::SendHeartbeat(users) if users.is_empty()));
}

#[test]
fn a_user_listed_twice_is_credited_once() {
    let hb = agent();
    let (states, mut timers) = two_users();
    let uids = vec![1, 2, 1];
    assert_eq!(hb.send_heartbeat(&states, &timers, &uids, 9 * NANOS, "d").len(), 1);
    let tick = hb.after_crediting(&states, &mut timers, &uids, 9 * NANOS, true, 1);
    match &tick.actions[0] {
        Action::SendHeartbeat(users) => {
            let secs: Vec<u32> = users.iter().map(|u| u.active_seconds_since_last).collect();
            assert_eq!(secs, vec![9, 0, 0]);
        }
        _ => panic!("no heartbeat"),
    }
    assert_eq!(timers.get(&1), Some(&Some(9 * NANOS)));
}

#[test]
fn a_credit_that_is_not_stored_is_counted_again() {
    let hb = agent();
    let (mut states, mut timers) = two_users();
    take(changed(2, "b", Some(false)), &mut states, &mut timers, 0);
    take(started(3, "c"), &mut states, &mut timers, 0);
    take(changed(3, "c", Some(false)), &mut states, &mut timers, 0);
    let uids = vec![1, 2, 3];
    let now = 7 * NANOS;
    let mut credits = Agenda::new(hb.send_heartbeat(&states, &timers, &uids, now, "d"));
    assert!(matches!(credits.next(), Some(Action::AddUsage { uid: 1, seconds: 7, .. })));
    credits.report(true);
    assert!(matches!(credits.next(), Some(Action::AddUsage { uid: 2, seconds: 7, .. })));
    credits.report(false);
    assert!(credits.next().is_none());
    let tick = hb.after_crediting(&states, &mut timers, &uids, now, true, credits.done());
    assert!(tick.actions.is_empty() && tick.to_enforce.is_empty());
    assert_eq!(timers.get(&1), Some(&Some(now)));
    assert_eq!(timers.get(&2), Some(&Some(0)));
    assert_eq!(timers.get(&3), Some(&Some(0)));
    let later = hb.send_heartbeat(&states, &timers, &uids, now + 2 * NANOS, "d");
    assert!(matches!(later[0], Action::AddUsage { uid: 1, seconds: 2, .. }));
    assert!(matches!(later[1], Action::AddUsage { uid: 2, seconds: 9, .. }));
}

#[test]
fn without_a_server_limits_are_enforced_here() {
    let hb = agent();
    let (states, mut timers) = two_users();
    let uids = vec![2, 1, 8];
    assert_eq!(hb.send_heartbeat(&states, &timers, &uids, NANOS, "d").len(), 1);
    let tick = hb.after_crediting(&states, &mut timers, &uids, NANOS, false, 1);
    assert_eq!(tick.to_enforce, vec![2, 1]);
    assert!(tick.actions.is_empty());
    let mut book = LockBook::new();
    let acts = enforce_offline(&mut book, 2, EnforceAction::Lock);
    assert!(matches!(acts[0], Action::BeginLock(2)));
    let acts = enforce_offline(&mut book, 2, EnforceAction::Lock);
    assert!(matches!(acts[0], Action::Relock(2)));
    assert!(enforce_offline(&mut book, 2, EnforceAction::Warn).is_empty());
    assert!(book.contains(2));
    let acts = enforce_offline(&mut book, 2, EnforceAction::Allow);
    assert!(matches!(acts[0], Action::Unlock(2)));
    assert!(enforce_offline(&mut book, 2, EnforceAction::Allow).is_empty());
}

#[test]
fn a_new_day_forgets_warnings() {
    let mut hb = agent();
    let mut last = wednesday();
    let t = vec![5];
    fire_threshold_notifications(&mut hb.notified_thresholds, 1, 3, &t);
    let start = TickProgress::new();
    assert!(matches!(hb.run(&mut last, wednesday(), start), TickStep::ReadMode));
    assert_eq!(fire_threshold_notifications(&mut hb.notified_thresholds, 1, 3, &t), 0);
    assert!(matches!(hb.run(&mut last, thursday(), start), TickStep::Midnight));
    assert_eq!(last, wednesday());
    assert_eq!(fire_threshold_notifications(&mut hb.notified_thresholds, 1, 3, &t), 0);
    let worked = TickProgress { midnight: Some(true), ..start };
    assert!(matches!(hb.run(&mut last, thursday(), worked), TickStep::ReadMode));
    assert_eq!(last, thursday());
    assert_eq!(fire_threshold_notifications(&mut hb.notified_thresholds, 1, 3, &t), 1);
    let asked = TickProgress { mode: Some(Some(AgentMode::Online)), ..worked };
    let step = hb.run(&mut last, thursday(), asked);
    assert!(
        matches!(step, TickStep::Heartbeat { online: true, date } if date == "2024-05-02")
    );
    let beaten = TickProgress { heartbeat: Some(true), ..asked };
    assert!(matches!(hb.run(&mut last, thursday(), beaten), TickStep::Done));
    let offline = TickProgress { mode: Some(Some(AgentMode::Offline)), ..start };
    let step = hb.run(&mut last, thursday(), offline);
    assert!(matches!(step, TickStep::Heartbeat { online: false, .. }));
    assert_eq!(fire_threshold_notifications(&mut hb.notified_thresholds, 1, 3, &t), 0);
}

#[test]
fn a_failed_step_ends_a_tick() {
    let mut hb = agent();
    let mut last = wednesday();
    let start = TickProgress::new();
    let asked = TickProgress { mode: Some(Some(AgentMode::Online)), ..start };
    let midnight = TickProgress { midnight: Some(false), ..asked };
    assert!(matches!(hb.run(&mut last, thursday(), midnight), TickStep::Fail));
    assert_eq!(last, wednesday());
    let mode = TickProgress { mode: Some(None), ..start };
    assert!(matches!(hb.run(&mut last, wednesday(), mode), TickStep::Fail));
    let beat = TickProgress { heartbeat: Some(false), ..asked };
    assert!(matches!(hb.run(&mut last, wednesday(), beat), TickStep::Fail));
}

#[test]
fn dates_are_written_out() {
    let mut hb = agent();
    let mut written = |year: i32, month: u32, day: u32| {
        let today = Date { year, month, day };
        let mut last = today;
        assert!(is_real_date(today));
        let asked =
            TickProgress { mode: Some(Some(AgentMode::Online)), ..TickProgress::new() };
        match hb.run(&mut last, today, asked) {
            TickStep::Heartbeat { date, .. } => date,
            _ => panic!("no heartbeat"),
        }
    };
    assert_eq!(written(2015, 9, 5), "2015-09-05");
    assert_eq!(written(0, 12, 31), "0000-12-31");
    assert_eq!(written(-1, 1, 1), "-0001-01-01");
    assert_eq!(written(10000, 12, 31), "+10000-12-31");
    assert_eq!(written(-262143, 1, 2), "-262143-01-02");
    assert_eq!(written(262142, 10, 20), "+262142-10-20");
}

#[test]
fn only_days_of_the_calendar_are_real() {
    let real = |year, month, day| is_real_date(Date { year, month, day });
    assert!(real(2024, 2, 29) && !real(2023, 2, 29));
    assert!(real(2000, 2, 29) && !real(1900, 2, 29));
    assert!(real(-4, 2, 29) && !real(-1, 2, 29) && real(0, 2, 29));
    assert!(real(2023, 4, 30) && !real(2023, 4, 31) && real(2023, 12, 31));
    assert!(!real(2023, 0, 1) && !real(2023, 13, 1) && !real(2023, 1, 0));
    assert!(!real(262143, 1, 1) && !real(-262144, 1, 1));
}

#[test]
fn a_message_needs_a_real_date() {
    let msg = ServerMessage::ConfigPush(ConfigPush { config_version: 1, users: vec![user(1)] });
    let bad = Date { year: 2023, month: 2, day: 29 };
    assert!(!control::fits(&msg, &readings(bad, vec![snapshot(0, 0)])));
    assert!(control::fits(&msg, &readings(monday(), vec![snapshot(0, 0)])));
}

#[test]
fn screens_are_switched_where_there_are_sessions() {
    assert_eq!(screens_to_switch(None), None);
    assert_eq!(screens_to_switch(Some(vec![])), None);
    assert_eq!(screens_to_switch(Some(vec!["a".to_string()])), Some(vec!["a".to_string()]));
}

#[test]
fn a_table_lists_every_session_once() {
    let mut t: SessionTable<u8> = SessionTable::new();
    t.insert("a".to_string(), SessionUsageState { idle: None, more: 1 });
    t.insert("b".to_string(), SessionUsageState { idle: Some(true), more: 2 });
    t.insert("a".to_string(), SessionUsageState { idle: Some(false), more: 4 });
    t.insert("c".to_string(), SessionUsageState { idle: None, more: 9 });
    t.remove("b");
    assert_eq!(t.len(), 2);
    let mut seen = vec![t.state_at(0).more, t.state_at(1).more];
    seen.sort();
    assert_eq!(seen, vec![4, 9]);
    assert!(t.contains("a") && !t.contains("b"));
}

#[test]
fn the_rest_of_a_state_is_kept() {
    let mut states = SessionStates::new();
    let mut timers = Timers::new();
    let by_rest = |t: &SessionTable<u8>| t.len() == 1 && t.state_at(0).more == 8;
    let start = started(7, "a");
    handle_session_event(start, &mut states, &mut timers, 1, 3, &by_rest);
    assert_eq!(timers.get(&7), Some(&None));
    let change = changed(7, "a", None);
    handle_session_event(change, &mut states, &mut timers, 2, 3, &by_rest);
    assert_eq!(timers.get(&7), Some(&Some(2)));
}

#[test]
fn a_greeting_says_who_and_what() {
    let hb = HeartbeatLoop::new(30, 300, 1000, "1.2.3".to_string(), 24, true, Some("acc".into()));
    let hello = |w| hb.send_agent_hello(9, "id".into(), "host".into(), "UTC".into(), w);
    let h = hello(Some(Some(true)));
    assert_eq!(h.capabilities, vec!["web_filter"]);
    assert_eq!(h.agent_version, "1.2.3");
    assert_eq!(h.last_config_version, 9);
    assert_eq!(h.cloud_account.as_deref(), Some("acc"));
    assert!(hello(Some(Some(false))).capabilities.is_empty());
    assert!(hello(Some(None)).capabilities.is_empty());
    assert!(hello(None).capabilities.is_empty());
}

#[test]
fn unsynced_use_is_sent_where_its_date_is_one() {
    let hb = agent();
    assert!(hb.send_usage_sync(&vec![]).is_none());
    let u = |uid: u32, date: &str, seconds: u64| UnsyncedUse {
        uid,
        date: date.to_string(),
        seconds,
    };
    let sent = hb
        .send_usage_sync(&vec![u(1, "2024-02-29", 60), u(2, "2023-02-29", 5), u(3, "2024-03-01", 7)])
        .unwrap();
    assert_eq!(sent.len(), 2);
    assert_eq!(sent[0].local_uid, 1);
    assert_eq!(sent[0].date, Date { year: 2024, month: 2, day: 29 });
    assert_eq!(sent[1].used_seconds, 7);
    assert!(hb.send_usage_sync(&vec![u(1, "yesterday", 1)]).unwrap().is_empty());
    let both = vec![u(1, "2024-02-29", 60), u(2, "yesterday", 5)];
    let acts = hb.after_usage_sync(&both, true);
    assert_eq!(acts.len(), 3);
    assert!(matches!(&acts[0], Action::MarkSynced { uid: 1, date } if date == "2024-02-29"));
    assert!(matches!(&acts[1], Action::MarkSynced { uid: 2, date } if date == "yesterday"));
    assert!(matches!(acts[2], Action::NoteSync));
    assert!(hb.after_usage_sync(&both, false).is_empty());
    assert!(hb.after_usage_sync(&vec![], true).is_empty());
}

#[test]
fn users_are_sent_when_they_change() {
    let all = send_user_list_update(vec!["a", "b"]);
    assert_eq!(all.users.len(), 2);
    assert!(all.removed_uids.is_empty());
    assert!(maybe_rescan_users(0, vec![], vec!["a"]).is_none());
    let gone = maybe_rescan_users(0, vec![5], vec!["a"]).unwrap();
    assert_eq!(gone.removed_uids, vec![5]);
    assert!(maybe_rescan_users(1, vec![], vec!["a"]).is_some());
    assert_eq!(after_rescan(vec!["a"], vec!["b", "c"], true), vec!["b", "c"]);
    assert_eq!(after_rescan(vec!["a"], vec!["b", "c"], false), vec!["a"]);
}

#[test]
fn a_long_absence_is_noticed() {
    let hb = agent();
    assert_eq!(hb.check_cache_ttl_warning(None, 0), None);
    assert_eq!(hb.check_cache_ttl_warning(Some(0), 24 * 3600 - 1), None);
    assert_eq!(hb.check_cache_ttl_warning(Some(0), 24 * 3600), Some(24));
    assert_eq!(hb.check_cache_ttl_warning(Some(100), 0), Some((u64::MAX - 99) / 3600));
}

#[test]
fn the_machine_is_described() {
    assert_eq!(host::gethostname(Some(" desk\n")), "desk");
    assert_eq!(host::gethostname(None), "unknown");
    assert_eq!(host::read_machine_id(Some("abc\n"), Some("def")), "abc");
    assert_eq!(host::read_machine_id(None, Some("def\n")), "def");
    let random = host::read_machine_id(None, None);
    assert_eq!(random.len(), 36);
    assert_eq!(&random[14..15], "4");
    assert_ne!(random, host::read_machine_id(None, None));
}

#[test]
fn the_time_zone_is_found_in_order() {
    let link = Some("../usr/share/zoneinfo/America/Argentina/Buenos_Aires");
    assert_eq!(host::local_timezone(Some("Europe/Warsaw\n"), link, None), "Europe/Warsaw");
    assert_eq!(host::local_timezone(Some(" \n"), link, None), "America/Argentina/Buenos_Aires");
    assert_eq!(host::local_timezone(None, link, None), "America/Argentina/Buenos_Aires");
    let nested = Some("/x/zoneinfo/zoneinfo/Asia/Tokyo/");
    assert_eq!(host::local_timezone(None, nested, None), "Asia/Tokyo");
    assert_eq!(host::local_timezone(None, Some("/etc/zoneinfo/"), Some("Etc/UTC\n")), "Etc/UTC");
    assert_eq!(host::local_timezone(None, Some("/etc/localtime"), Some("n/a\n")), "UTC");
    assert_eq!(host::local_timezone(None, None, Some("")), "UTC");
    assert_eq!(host::local_timezone(None, None, None), "UTC");
}

#[test]
fn log_lines_are_split() {
    assert_eq!(host::collect_recent_logs(Ok("a\r\nb\n\nc")), vec!["a", "b", "", "c"]);
    assert_eq!(host::collect_recent_logs(Ok("a\r")), vec!["a\r"]);
    assert!(host::collect_recent_logs(Ok("")).is_empty());
    assert_eq!(host::collect_recent_logs(Err("gone")), vec!["Failed to read journal: gone"]);
}

#[test]
fn stored_block_lists_are_in_force_from_the_start() {
    let read = vec![
        StoredList { uid: 1, domains: Some(vec!["a.example".to_string()]) },
        StoredList { uid: 2, domains: None },
    ];
    let acts = control::start(&read);
    assert_eq!(acts.len(), 1);
    match &acts[0] {
        Action::FilterWeb(rules) => {
            assert_eq!((rules[0].uid, rules[0].domains.len()), (1, 1));
            assert_eq!(rules[0].domains[0], "a.example");
            assert_eq!((rules[1].uid, rules[1].domains.len()), (2, 0));
        }
        _ => panic!("no block lists"),
    }
}

#[test]
fn a_machine_without_an_id_has_the_drawn_one() {
    let drawn = 0x0102_0304_0506_4708_890a_0b0c_0d0e_0f10;
    assert_eq!(
        host::machine_id_with(None, None, drawn),
        "01020304-0506-4708-890a-0b0c0d0e0f10"
    );
    assert_eq!(host::machine_id_with(Some(" x\n"), None, drawn), "x");
    assert_eq!(host::machine_id_with(None, Some("y"), drawn), "y");
}
