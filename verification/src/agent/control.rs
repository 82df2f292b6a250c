//! What an agent does about the messages of its server and the state of the
//! connection to it.

use crate::agent::action;
use crate::agent::action::{no_actions, push_action, Action, ActionView, AgentMode, WebRule};
use crate::agent::agenda::AgendaView;
use crate::agent::enforce;
use crate::agent::enforce::{
    fire_threshold_notifications, request_lock, EnforceAction, LockBook, LockStep, Warned,
};
use crate::agent::windows;
use crate::agent::windows::{schedule_changed, windows_in_range, ScheduleWindow, Window};
use crate::clock;
use crate::clock::{is_real_date, weekday_of, Date};
use crate::text;
use crate::text::{copy_opt, copy_texts};
use vstd::prelude::*;

verus! {

/// The connection to the server came or went.
#[derive(Clone, Copy, Debug, PartialEq, Eq, Structural)]
pub enum ConnectionEvent {
    Connected,
    Disconnected,
}

/// The minutes allowed on a day of the week.
#[derive(Clone, Copy, Debug, PartialEq, Eq, Structural)]
pub struct DayLimit {
    pub day_of_week: u8,
    pub allowed_minutes: u32,
}

/// The configuration of one user, as the server sends it.
pub struct ConfigUser {
    pub local_uid: u32,
    pub schedules: Vec<ScheduleWindow>,
    pub daily_limits: Vec<DayLimit>,
    pub adjustments_today: i32,
    pub adjustment_message: Option<String>,
    pub language: String,
    pub preserve_tasks_on_lock: bool,
    pub blocked_domains: Vec<String>,
}

/// A configuration.
pub struct ConfigPush {
    pub config_version: i64,
    pub users: Vec<ConfigUser>,
}

/// What the server says of one user's time.
#[derive(Clone, Copy, Debug, PartialEq, Eq, Structural)]
pub struct RemainingEntry {
    pub local_uid: u32,
    pub remaining_minutes: i32,
    pub enforce: EnforceAction,
}

/// What a server says.
pub enum ServerMessage {
    NotifyUser { local_uid: u32, summary: String, body: String },
    ConfigPush(ConfigPush),
    RemainingUpdate(Vec<RemainingEntry>),
    LockNow { local_uid: u32 },
    ConfigReload,
    Unpair,
    Unknown(String),
    PairingAccepted,
    FetchLogs,
    UpdateAgent,
}

/// What was stored of a user when a configuration came in.
pub struct Snapshot {
    pub schedules: Vec<Window>,
    pub adjustment: i32,
    pub used_seconds: u64,
}

/// The stored warning thresholds and language of a user.
pub struct CachedEnforcement {
    pub warning_thresholds: Vec<u32>,
    pub language: String,
}

/// What was read from the local store for a message: for a configuration, a
/// snapshot of each of its users; for a time update, what is stored for each of
/// its users, or `None` where that could not be read.
pub struct Readings {
    pub today: Date,
    pub snapshots: Vec<Snapshot>,
    pub enforcement: Vec<Option<CachedEnforcement>>,
}

/// Today's day of the week, with Monday as 0.
pub open spec fn weekday_today(reads: Readings) -> u8 {
    clock::weekday(reads.today) as u8
}

/// Something to be stored of a message before anything else is done about it.
pub enum Storing<'a> {
    /// The users of a configuration.
    Config(&'a Vec<ConfigUser>),
    /// The version of a configuration.
    ConfigVersion(i64),
    /// What the server says of a user's time.
    Remaining { uid: u32, minutes: i32, action: EnforceAction },
    /// That the agent has no server any more.
    Unpaired,
}

/// What is stored of a message, in order: the users of a configuration and then
/// its version, every entry of a time update, or the end of a pairing.
pub open spec fn to_store<'a>(msg: &'a ServerMessage) -> Seq<Storing<'a>> {
    match msg {
        ServerMessage::ConfigPush(push) => seq![
            Storing::Config(&push.users),
            Storing::ConfigVersion(push.config_version),
        ],
        ServerMessage::RemainingUpdate(es) => es@.map_values(
            |e: RemainingEntry|
                Storing::Remaining {
                    uid: e.local_uid,
                    minutes: e.remaining_minutes,
                    action: e.enforce,
                },
        ),
        ServerMessage::Unpair => seq![Storing::Unpaired],
        _ => seq![],
    }
}

/// What is to be stored of a message, in order.
pub(crate) fn what_to_store<'a>(msg: &'a ServerMessage) -> (r: Vec<Storing<'a>>)
    ensures
        r@ == to_store(msg),
{
    let mut r: Vec<Storing<'a>> = Vec::new();
    match msg {
        ServerMessage::ConfigPush(push) => {
            r.push(Storing::Config(&push.users));
            r.push(Storing::ConfigVersion(push.config_version));
        },
        ServerMessage::RemainingUpdate(entries) => {
            let mut i: usize = 0;
            while i < entries.len()
                invariant
                    i <= entries@.len(),
                    r@.len() == i,
                    forall|j: int|
                        0 <= j < i ==> #[trigger] r@[j] == (Storing::Remaining {
                            uid: entries@[j].local_uid,
                            minutes: entries@[j].remaining_minutes,
                            action: entries@[j].enforce,
                        }),
                decreases entries@.len() - i,
            {
                r.push(
                    Storing::Remaining {
                        uid: entries[i].local_uid,
                        minutes: entries[i].remaining_minutes,
                        action: entries[i].enforce,
                    },
                );
                i += 1;
            }
        },
        ServerMessage::Unpair => {
            r.push(Storing::Unpaired);
        },
        _ => {},
    }
    assert(r@ =~= to_store(msg));
    r
}

/// The minutes allowed on a day of the week: the first limit listed for that
/// day, or the whole day where there is none.
pub open spec fn limit_on(limits: Seq<DayLimit>, weekday: u8) -> int
    decreases limits.len(),
{
    if limits.len() == 0 {
        1440
    } else if limits.first().day_of_week == weekday {
        (limits.first().allowed_minutes as i32) as int
    } else {
        limit_on(limits.skip(1), weekday)
    }
}

/// By how much the adjustment of the day has changed.
pub open spec fn adjustment_change(u: ConfigUser, s: Snapshot) -> int {
    u.adjustments_today - s.adjustment
}

/// The minutes used, as counted against a limit.
pub open spec fn used_minutes(s: Snapshot) -> int {
    ((s.used_seconds / 60) as i32) as int
}

/// The minutes left today under a configuration, never below zero.
pub open spec fn minutes_left(u: ConfigUser, s: Snapshot, weekday: u8) -> int {
    let left = limit_on(u.daily_limits@, weekday) + u.adjustments_today - used_minutes(s);
    if left < 0 {
        0
    } else {
        left
    }
}

/// Neither the change nor the time left leaves the range of an `i32`.
pub open spec fn amounts_fit(u: ConfigUser, s: Snapshot, weekday: u8) -> bool {
    let limit = limit_on(u.daily_limits@, weekday);
    &&& i32::MIN < adjustment_change(u, s) <= i32::MAX
    &&& adjustment_change(u, s) != 0 ==> {
        &&& i32::MIN <= limit + u.adjustments_today <= i32::MAX
        &&& i32::MIN <= limit + u.adjustments_today - used_minutes(s) <= i32::MAX
    }
}

/// What a user is told of a new configuration: that the schedule has changed,
/// if it has, and by how much today's time has changed, if it has.
pub open spec fn config_notices(u: ConfigUser, s: Snapshot, weekday: u8) -> Seq<
    ActionView,
> {
    let changed = windows::stored_windows(s.schedules@)
        != windows::sent_windows(u.schedules@);
    let change = adjustment_change(u, s);
    let uid = u.local_uid;
    let language = u.language@;
    let remaining = minutes_left(u, s, weekday);
    let reason = text::opt_text(u.adjustment_message);
    (if changed {
        seq![ActionView::NotifyScheduleChanged { uid, language }]
    } else {
        seq![]
    }) + (if change > 0 {
        seq![
            ActionView::NotifyTimeAdded {
                uid,
                language,
                minutes: change,
                remaining,
                reason,
            },
        ]
    } else if change < 0 {
        seq![
            ActionView::NotifyTimeReduced {
                uid,
                language,
                minutes: -change,
                remaining,
                reason,
            },
        ]
    } else {
        seq![]
    })
}

/// What the first `n` users of a configuration are told, in order.
pub open spec fn all_config_notices(
    users: Seq<ConfigUser>,
    snapshots: Seq<Snapshot>,
    weekday: u8,
    n: int,
) -> Seq<ActionView>
    decreases n,
{
    if n <= 0 {
        seq![]
    } else {
        all_config_notices(users, snapshots, weekday, n - 1) + config_notices(
            users[n - 1],
            snapshots[n - 1],
            weekday,
        )
    }
}

/// The users among the first `n` whose tasks are not to be preserved on lock.
pub open spec fn not_preserved(users: Seq<ConfigUser>, n: int) -> Set<u32> {
    Set::new(
        |uid: u32|
            exists|i: int|
                0 <= i < n && (#[trigger] users[i]).local_uid == uid
                    && !users[i].preserve_tasks_on_lock,
    )
}

/// The block lists of a configuration.
pub open spec fn config_rules(users: Seq<ConfigUser>) -> Seq<(u32, Seq<Seq<char>>)> {
    users.map_values(|u: ConfigUser| (u.local_uid, text::texts(u.blocked_domains@)))
}

fn limit_for(limits: &Vec<DayLimit>, weekday: u8) -> (r: i32)
    ensures
        r == limit_on(limits@, weekday),
{
    let mut i: usize = 0;
    assert(limits@.skip(0) =~= limits@);
    while i < limits.len()
        invariant
            i <= limits@.len(),
            limit_on(limits@, weekday) == limit_on(limits@.skip(i as int), weekday),
        decreases limits@.len() - i,
    {
        if limits[i].day_of_week == weekday {
            assert(limits@.skip(i as int).first() == limits@[i as int]);
            return limits[i].allowed_minutes as i32;
        }
        assert(limits@.skip(i as int).skip(1) =~= limits@.skip(i + 1));
        i += 1;
    }
    1440
}

/// Whether neither the change nor the time left of a user leaves the range of
/// an `i32`.
pub fn amounts_in_range(u: &ConfigUser, s: &Snapshot, weekday: u8) -> (r: bool)
    ensures
        r == amounts_fit(*u, *s, weekday),
{
    let change: i64 = u.adjustments_today as i64 - s.adjustment as i64;
    let limit: i64 = limit_for(&u.daily_limits, weekday) as i64;
    let used: i64 = ((s.used_seconds / 60) as i32) as i64;
    let with: i64 = limit + u.adjustments_today as i64;
    let left: i64 = with - used;
    let low: i64 = -0x8000_0000;
    let high: i64 = 0x7fff_ffff;
    low < change && change <= high && (change == 0 || (low <= with && with <= high && low <= left
        && left <= high))
}

fn tell_user(acts: &mut Vec<Action>, u: &ConfigUser, s: &Snapshot, weekday: u8)
    requires
        windows::real_windows(u.schedules@),
        amounts_fit(*u, *s, weekday),
    ensures
        action::actions_view(final(acts)@) == action::actions_view(
            old(acts)@,
        ) + config_notices(*u, *s, weekday),
{
    let uid = u.local_uid;
    if schedule_changed(&s.schedules, &u.schedules) {
        push_action(acts, Action::NotifyScheduleChanged { uid, language: u.language.clone() });
    }
    let change: i32 = u.adjustments_today - s.adjustment;
    if change != 0 {
        let limit: i32 = limit_for(&u.daily_limits, weekday);
        let used: i32 = (s.used_seconds / 60) as i32;
        let left: i32 = limit + u.adjustments_today - used;
        let remaining: i32 = if left < 0 {
            0
        } else {
            left
        };
        let language = u.language.clone();
        let reason = copy_opt(&u.adjustment_message);
        if change > 0 {
            push_action(
                acts,
                Action::NotifyTimeAdded { uid, language, minutes: change, remaining, reason },
            );
        } else {
            push_action(
                acts,
                Action::NotifyTimeReduced { uid, language, minutes: -change, remaining, reason },
            );
        }
    }
    assert(action::actions_view(acts@) =~= action::actions_view(
        old(acts)@,
    ) + config_notices(*u, *s, weekday));
}

fn block_lists(users: &Vec<ConfigUser>) -> (r: Vec<WebRule>)
    ensures
        action::rules_view(r@) == config_rules(users@),
{
    let mut r: Vec<WebRule> = Vec::new();
    let mut i: usize = 0;
    while i < users.len()
        invariant
            i <= users@.len(),
            r@.len() == i,
            forall|j: int|
                0 <= j < i ==> (#[trigger] r@[j]).uid == users@[j].local_uid && text::texts(
                    r@[j].domains@,
                ) == text::texts(users@[j].blocked_domains@),
        decreases users@.len() - i,
    {
        r.push(
            WebRule { uid: users[i].local_uid, domains: copy_texts(&users[i].blocked_domains) },
        );
        i += 1;
    }
    assert(action::rules_view(r@) =~= config_rules(users@));
    r
}

/// The block list that is stored for a user, or `None` where it could not be read.
pub struct StoredList {
    pub uid: u32,
    pub domains: Option<Vec<String>>,
}

/// The block lists that are in force from the start, before the server has
/// spoken: what is stored for each managed user, and no domain where that could
/// not be read.
pub open spec fn rules_at_start(read: Seq<StoredList>) -> Seq<(u32, Seq<Seq<char>>)> {
    read.map_values(
        |l: StoredList|
            (
                l.uid,
                match l.domains {
                    Some(d) => text::texts(d@),
                    None => seq![],
                },
            ),
    )
}

/// What is done at the start: put the stored block lists in force.
pub fn start(read: &Vec<StoredList>) -> (acts: Vec<Action>)
    ensures
        action::actions_view(acts@) == seq![ActionView::FilterWeb(rules_at_start(read@))],
{
    let mut rules: Vec<WebRule> = Vec::new();
    let mut i: usize = 0;
    while i < read.len()
        invariant
            i <= read@.len(),
            rules@.len() == i,
            forall|j: int|
                0 <= j < i ==> (#[trigger] rules@[j]).uid == read@[j].uid && text::texts(
                    rules@[j].domains@,
                ) == rules_at_start(read@)[j].1,
        decreases read@.len() - i,
    {
        let domains = match &read[i].domains {
            Some(d) => copy_texts(d),
            None => Vec::new(),
        };
        assert(text::texts(domains@) =~= rules_at_start(read@)[i as int].1);
        rules.push(WebRule { uid: read[i].uid, domains });
        i += 1;
    }
    assert(action::rules_view(rules@) =~= rules_at_start(read@));
    let mut acts = no_actions();
    push_action(&mut acts, Action::FilterWeb(rules));
    assert(action::actions_view(acts@) =~= seq![ActionView::FilterWeb(rules_at_start(read@))]);
    acts
}

/// The date is real, the snapshots fit the users of a configuration, and its
/// times and amounts are in range.
pub open spec fn config_fits(push: ConfigPush, reads: Readings) -> bool {
    &&& clock::real_date(reads.today)
    &&& reads.snapshots@.len() == push.users@.len()
    &&& forall|i: int|
        0 <= i < push.users@.len() ==> windows::real_windows(
            (#[trigger] push.users@[i]).schedules@,
        ) && amounts_fit(push.users@[i], reads.snapshots@[i], weekday_today(reads))
}

/// Acts on a configuration that was stored: end the lock flow of every user whose
/// tasks are no longer to be preserved so that the next lock request reads the
/// new setting, put the block lists in force, and tell each user what changed.
pub(crate) fn take_config(push: &ConfigPush, book: &mut LockBook, reads: &Readings) -> (acts: Vec<Action>)
    requires
        config_fits(*push, *reads),
    ensures
        final(book)@ == old(book)@.difference(not_preserved(push.users@, push.users@.len() as int)),
        action::actions_view(acts@) == seq![
            ActionView::FilterWeb(config_rules(push.users@)),
        ] + all_config_notices(
            push.users@,
            reads.snapshots@,
            weekday_today(*reads),
            push.users@.len() as int,
        ),
{
    let mut acts = no_actions();
    let weekday: u8 = weekday_of(reads.today) as u8;
    let mut i: usize = 0;
    assert(book@ =~= old(book)@.difference(not_preserved(push.users@, 0)));
    while i < push.users.len()
        invariant
            i <= push.users@.len(),
            book@ == old(book)@.difference(not_preserved(push.users@, i as int)),
        decreases push.users@.len() - i,
    {
        let uid = push.users[i].local_uid;
        if !push.users[i].preserve_tasks_on_lock {
            book.release(uid);
        }
        proof {
            let a = not_preserved(push.users@, i as int);
            let b = not_preserved(push.users@, i + 1);
            let u = push.users@[i as int];
            assert forall|x: u32| b.contains(x) <==> a.contains(x) || (x == u.local_uid
                && !u.preserve_tasks_on_lock) by {
                if b.contains(x) {
                    let j = choose|j: int|
                        0 <= j < i + 1 && (#[trigger] push.users@[j]).local_uid == x
                            && !push.users@[j].preserve_tasks_on_lock;
                    assert(j < i || j == i);
                }
            }
            assert(book@ =~= old(book)@.difference(b));
        }
        i += 1;
    }
    push_action(&mut acts, Action::FilterWeb(block_lists(&push.users)));
    let ghost head = action::actions_view(acts@);
    let mut k: usize = 0;
    assert(head =~= head + all_config_notices(push.users@, reads.snapshots@, weekday, 0));
    while k < push.users.len()
        invariant
            k <= push.users@.len(),
            config_fits(*push, *reads),
            weekday == weekday_today(*reads),
            action::actions_view(acts@) == head + all_config_notices(
                push.users@,
                reads.snapshots@,
                weekday,
                k as int,
            ),
        decreases push.users@.len() - k,
    {
        assert(windows::real_windows(push.users@[k as int].schedules@));
        tell_user(&mut acts, &push.users[k], &reads.snapshots[k], weekday);
        proof {
            let before = all_config_notices(push.users@, reads.snapshots@, weekday, k as int);
            let more = config_notices(
                push.users@[k as int],
                reads.snapshots@[k as int],
                weekday,
            );
            assert((head + before) + more =~= head + (before + more));
        }
        k += 1;
    }
    proof {
        assert(head =~= seq![ActionView::FilterWeb(config_rules(push.users@))]);
    }
    acts
}

/// The warning thresholds that were read; none where the read failed.
pub open spec fn thresholds_of(e: Option<CachedEnforcement>) -> Seq<u32> {
    match e {
        Some(c) => c.warning_thresholds@,
        None => seq![],
    }
}

/// The language that was read, or another where the read failed.
pub open spec fn language_or(e: Option<CachedEnforcement>, other: Seq<char>) -> Seq<char> {
    match e {
        Some(c) => c.language@,
        None => other,
    }
}

/// How a lock request is acted on.
pub open spec fn lock_action(locked: Set<u32>, uid: u32) -> ActionView {
    match enforce::lock_step(locked, uid) {
        LockStep::Begin => ActionView::BeginLock(uid),
        LockStep::Again => ActionView::Relock(uid),
    }
}

/// The users being locked out after a time entry.
pub open spec fn locked_after_entry(locked: Set<u32>, e: RemainingEntry) -> Set<u32> {
    if e.enforce == EnforceAction::Lock {
        locked.insert(e.local_uid)
    } else {
        locked.remove(e.local_uid)
    }
}

/// The warnings announced after a time entry.
pub open spec fn warned_after_entry(
    warned: Map<u32, Set<i32>>,
    e: RemainingEntry,
    c: Option<CachedEnforcement>,
) -> Map<u32, Set<i32>> {
    match e.enforce {
        EnforceAction::Lock => warned,
        EnforceAction::Warn => warned.insert(
            e.local_uid,
            enforce::warned_after(
                enforce::warned_of(warned, e.local_uid),
                thresholds_of(c),
                e.remaining_minutes,
            ),
        ),
        EnforceAction::Allow => warned.remove(e.local_uid),
    }
}

/// One warning for each threshold that is due.
pub open spec fn warnings(
    warned: Map<u32, Set<i32>>,
    e: RemainingEntry,
    c: Option<CachedEnforcement>,
) -> Seq<ActionView> {
    Seq::new(
        enforce::due_count(
            thresholds_of(c),
            e.remaining_minutes,
            enforce::warned_of(warned, e.local_uid),
        ),
        |i: int|
            ActionView::NotifyTimeLeft {
                uid: e.local_uid,
                language: language_or(c, seq![]),
                remaining: e.remaining_minutes as int,
            },
    )
}

/// What is done about a time entry: lock out, or else unlock where a lock flow
/// was under way and, for a warning, show the warnings that are due.
pub open spec fn entry_actions(
    locked: Set<u32>,
    warned: Map<u32, Set<i32>>,
    e: RemainingEntry,
    c: Option<CachedEnforcement>,
) -> Seq<ActionView> {
    if e.enforce == EnforceAction::Lock {
        seq![lock_action(locked, e.local_uid)]
    } else {
        (if locked.contains(e.local_uid) {
            seq![ActionView::Unlock(e.local_uid)]
        } else {
            seq![]
        }) + (if e.enforce == EnforceAction::Warn {
            warnings(warned, e, c)
        } else {
            seq![]
        })
    }
}

/// The users being locked out after the first `n` entries.
pub open spec fn locked_after(locked: Set<u32>, es: Seq<RemainingEntry>, n: int) -> Set<u32>
    decreases n,
{
    if n <= 0 {
        locked
    } else {
        locked_after_entry(locked_after(locked, es, n - 1), es[n - 1])
    }
}

/// The warnings announced after the first `n` entries.
pub open spec fn warned_after_all(
    warned: Map<u32, Set<i32>>,
    es: Seq<RemainingEntry>,
    cs: Seq<Option<CachedEnforcement>>,
    n: int,
) -> Map<u32, Set<i32>>
    decreases n,
{
    if n <= 0 {
        warned
    } else {
        warned_after_entry(warned_after_all(warned, es, cs, n - 1), es[n - 1], cs[n - 1])
    }
}

/// What is done about the first `n` entries, in order.
pub open spec fn enforcement_actions(
    locked: Set<u32>,
    warned: Map<u32, Set<i32>>,
    es: Seq<RemainingEntry>,
    cs: Seq<Option<CachedEnforcement>>,
    n: int,
) -> Seq<ActionView>
    decreases n,
{
    if n <= 0 {
        seq![]
    } else {
        enforcement_actions(locked, warned, es, cs, n - 1) + entry_actions(
            locked_after(locked, es, n - 1),
            warned_after_all(warned, es, cs, n - 1),
            es[n - 1],
            cs[n - 1],
        )
    }
}

/// What a time update shows on the status display, in seconds, in each user's
/// language or else in English.
pub open spec fn status_actions(
    es: Seq<RemainingEntry>,
    cs: Seq<Option<CachedEnforcement>>,
) -> Seq<ActionView> {
    Seq::new(
        es.len(),
        |i: int|
            ActionView::PublishStatus {
                uid: es[i].local_uid,
                seconds_left: es[i].remaining_minutes * 60,
                action: es[i].enforce,
                language: language_or(cs[i], "en"@),
            },
    )
}

fn enforce_entry(
    acts: &mut Vec<Action>,
    e: &RemainingEntry,
    c: &Option<CachedEnforcement>,
    warned: &mut Warned,
    book: &mut LockBook,
)
    ensures
        action::actions_view(final(acts)@) == action::actions_view(old(acts)@) + entry_actions(
            old(book)@,
            old(warned)@,
            *e,
            *c,
        ),
        final(book)@ == locked_after_entry(old(book)@, *e),
        final(warned)@ == warned_after_entry(old(warned)@, *e, *c),
{
    let uid = e.local_uid;
    if e.enforce == EnforceAction::Lock {
        push_lock(acts, uid, book);
        return ;
    }
    let ghost start = action::actions_view(acts@);
    if book.release(uid) {
        push_action(acts, Action::Unlock(uid));
    }
    if e.enforce == EnforceAction::Warn {
        let (thresholds, language) = match c {
            Some(c) => (copy_thresholds(&c.warning_thresholds), c.language.clone()),
            None => (Vec::new(), String::new()),
        };
        assert(thresholds@ =~= thresholds_of(*c));
        assert(language@ =~= language_or(*c, seq![]));
        let ghost mid = action::actions_view(acts@);
        let ghost all = warnings(warned@, *e, *c);
        let count = fire_threshold_notifications(warned, uid, e.remaining_minutes, &thresholds);
        let mut i: usize = 0;
        assert(mid =~= mid + all.take(0));
        while i < count
            invariant
                i <= count,
                count == all.len(),
                uid == e.local_uid,
                language@ == language_or(*c, seq![]),
                forall|j: int|
                    0 <= j < all.len() ==> #[trigger] all[j] == (ActionView::NotifyTimeLeft {
                        uid: e.local_uid,
                        language: language_or(*c, seq![]),
                        remaining: e.remaining_minutes as int,
                    }),
                action::actions_view(acts@) == mid + all.take(i as int),
            decreases count - i,
        {
            push_action(
                acts,
                Action::NotifyTimeLeft {
                    uid,
                    language: language.clone(),
                    remaining: e.remaining_minutes,
                },
            );
            assert(all.take(i + 1) =~= all.take(i as int).push(all[i as int]));
            assert(mid + all.take(i + 1) =~= (mid + all.take(i as int)).push(all[i as int]));
            i += 1;
        }
        assert(all.take(i as int) =~= all);
    } else {
        warned.forget(uid);
    }
    assert(action::actions_view(acts@) =~= start + entry_actions(
        old(book)@,
        old(warned)@,
        *e,
        *c,
    ));
}

fn copy_thresholds(v: &Vec<u32>) -> (r: Vec<u32>)
    ensures
        r@ == v@,
{
    let mut r: Vec<u32> = Vec::new();
    let mut i: usize = 0;
    while i < v.len()
        invariant
            i <= v@.len(),
            r@ == v@.take(i as int),
        decreases v@.len() - i,
    {
        r.push(v[i]);
        assert(v@.take(i + 1) =~= v@.take(i as int).push(v@[i as int]));
        i += 1;
    }
    assert(v@.take(i as int) =~= v@);
    r
}

/// Adds how a lock request is acted on.
pub(crate) fn push_lock(acts: &mut Vec<Action>, uid: u32, book: &mut LockBook)
    ensures
        action::actions_view(final(acts)@) == action::actions_view(old(acts)@).push(
            lock_action(old(book)@, uid),
        ),
        final(book)@ == old(book)@.insert(uid),
{
    match request_lock(book, uid) {
        LockStep::Begin => push_action(acts, Action::BeginLock(uid)),
        LockStep::Again => push_action(acts, Action::Relock(uid)),
    }
}

/// Acts on a time update that was stored: show every entry on the status
/// display where there is one, and act on every entry in turn.
pub(crate) fn take_remaining(
    entries: &Vec<RemainingEntry>,
    warned: &mut Warned,
    book: &mut LockBook,
    has_status: bool,
    reads: &Readings,
) -> (acts: Vec<Action>)
    requires
        reads.enforcement@.len() == entries@.len(),
    ensures
        action::actions_view(acts@) == (if has_status {
            status_actions(entries@, reads.enforcement@)
        } else {
            seq![]
        }) + enforcement_actions(
            old(book)@,
            old(warned)@,
            entries@,
            reads.enforcement@,
            entries@.len() as int,
        ),
        final(book)@ == locked_after(old(book)@, entries@, entries@.len() as int),
        final(warned)@ == warned_after_all(
            old(warned)@,
            entries@,
            reads.enforcement@,
            entries@.len() as int,
        ),
{
    let mut acts = no_actions();
    if has_status {
        let ghost showing = status_actions(entries@, reads.enforcement@);
        let mut k: usize = 0;
        assert(showing.take(0) =~= seq![]);
        while k < entries.len()
            invariant
                k <= entries@.len(),
                reads.enforcement@.len() == entries@.len(),
                showing == status_actions(entries@, reads.enforcement@),
                action::actions_view(acts@) == showing.take(k as int),
            decreases entries@.len() - k,
        {
            let language = match &reads.enforcement[k] {
                Some(c) => c.language.clone(),
                None => "en".to_owned(),
            };
            push_action(
                &mut acts,
                Action::PublishStatus {
                    uid: entries[k].local_uid,
                    seconds_left: entries[k].remaining_minutes as i64 * 60,
                    action: entries[k].enforce,
                    language,
                },
            );
            assert(showing.take(k + 1) =~= showing.take(k as int).push(showing[k as int]));
            k += 1;
        }
        assert(showing.take(k as int) =~= showing);
    }
    let ghost head = action::actions_view(acts@);
    assert(head =~= if has_status {
        status_actions(entries@, reads.enforcement@)
    } else {
        seq![]
    });
    let mut n: usize = 0;
    assert(head =~= head + enforcement_actions(
        old(book)@,
        old(warned)@,
        entries@,
        reads.enforcement@,
        0,
    ));
    while n < entries.len()
        invariant
            n <= entries@.len(),
            reads.enforcement@.len() == entries@.len(),
            action::actions_view(acts@) == head + enforcement_actions(
                old(book)@,
                old(warned)@,
                entries@,
                reads.enforcement@,
                n as int,
            ),
            book@ == locked_after(old(book)@, entries@, n as int),
            warned@ == warned_after_all(old(warned)@, entries@, reads.enforcement@, n as int),
        decreases entries@.len() - n,
    {
        let ghost done = enforcement_actions(
            old(book)@,
            old(warned)@,
            entries@,
            reads.enforcement@,
            n as int,
        );
        let ghost more = entry_actions(
            book@,
            warned@,
            entries@[n as int],
            reads.enforcement@[n as int],
        );
        enforce_entry(&mut acts, &entries[n], &reads.enforcement[n], warned, book);
        assert((head + done) + more =~= head + (done + more));
        n += 1;
    }
    acts
}

/// The readings fit a message.
pub open spec fn message_fits(msg: ServerMessage, reads: Readings) -> bool {
    match msg {
        ServerMessage::ConfigPush(push) => config_fits(push, reads),
        ServerMessage::RemainingUpdate(es) => reads.enforcement@.len() == es@.len(),
        _ => true,
    }
}

/// What is done about a message once it was stored, given the users being locked
/// out and the warnings announced.
pub open spec fn response(
    msg: ServerMessage,
    locked: Set<u32>,
    warned: Map<u32, Set<i32>>,
    has_status: bool,
    reads: Readings,
) -> Seq<ActionView> {
    match msg {
        ServerMessage::NotifyUser { local_uid, summary, body } => seq![
            ActionView::Notify { uid: local_uid, summary: summary@, body: body@ },
        ],
        ServerMessage::ConfigPush(push) => seq![
            ActionView::FilterWeb(config_rules(push.users@)),
        ] + all_config_notices(
            push.users@,
            reads.snapshots@,
            weekday_today(reads),
            push.users@.len() as int,
        ),
        ServerMessage::RemainingUpdate(es) => (if has_status {
            status_actions(es@, reads.enforcement@)
        } else {
            seq![]
        }) + enforcement_actions(locked, warned, es@, reads.enforcement@, es@.len() as int),
        ServerMessage::LockNow { local_uid } => seq![lock_action(locked, local_uid)],
        ServerMessage::ConfigReload => seq![ActionView::SendHello],
        ServerMessage::Unpair => seq![ActionView::Exit],
        ServerMessage::Unknown(_) => seq![],
        ServerMessage::PairingAccepted => seq![],
        ServerMessage::FetchLogs => seq![ActionView::SendLogs],
        ServerMessage::UpdateAgent => seq![ActionView::LaunchUpdate],
    }
}

/// The users being locked out after a message.
pub open spec fn locked_after_message(locked: Set<u32>, msg: ServerMessage) -> Set<u32> {
    match msg {
        ServerMessage::ConfigPush(push) => locked.difference(
            not_preserved(push.users@, push.users@.len() as int),
        ),
        ServerMessage::RemainingUpdate(es) => locked_after(locked, es@, es@.len() as int),
        ServerMessage::LockNow { local_uid } => locked.insert(local_uid),
        _ => locked,
    }
}

/// The warnings announced after a message.
pub open spec fn warned_after_message(
    warned: Map<u32, Set<i32>>,
    msg: ServerMessage,
    reads: Readings,
) -> Map<u32, Set<i32>> {
    match msg {
        ServerMessage::RemainingUpdate(es) => warned_after_all(
            warned,
            es@,
            reads.enforcement@,
            es@.len() as int,
        ),
        _ => warned,
    }
}

/// Acts on a message that was stored and returns what is to be done about it, in
/// order.
pub(crate) fn act_on_message(
    msg: &ServerMessage,
    warned: &mut Warned,
    book: &mut LockBook,
    has_status: bool,
    reads: &Readings,
) -> (acts: Vec<Action>)
    requires
        message_fits(*msg, *reads),
    ensures
        action::actions_view(acts@) == response(
            *msg,
            old(book)@,
            old(warned)@,
            has_status,
            *reads,
        ),
        final(book)@ == locked_after_message(old(book)@, *msg),
        final(warned)@ == warned_after_message(old(warned)@, *msg, *reads),
{
    let mut acts = no_actions();
    match msg {
        ServerMessage::NotifyUser { local_uid, summary, body } => {
            push_action(
                &mut acts,
                Action::Notify { uid: *local_uid, summary: summary.clone(), body: body.clone() },
            );
        },
        ServerMessage::ConfigPush(push) => {
            return take_config(push, book, reads);
        },
        ServerMessage::RemainingUpdate(entries) => {
            return take_remaining(entries, warned, book, has_status, reads);
        },
        ServerMessage::LockNow { local_uid } => {
            push_lock(&mut acts, *local_uid, book);
        },
        ServerMessage::ConfigReload => {
            push_action(&mut acts, Action::SendHello);
        },
        ServerMessage::Unpair => {
            push_action(&mut acts, Action::Exit);
        },
        ServerMessage::Unknown(_) => {},
        ServerMessage::PairingAccepted => {},
        ServerMessage::FetchLogs => {
            push_action(&mut acts, Action::SendLogs);
        },
        ServerMessage::UpdateAgent => {
            push_action(&mut acts, Action::LaunchUpdate);
        },
    }
    assert(action::actions_view(acts@) =~= response(
        *msg,
        old(book)@,
        old(warned)@,
        has_status,
        *reads,
    ));
    acts
}

/// What is done when the connection comes or goes: on a connection, say hello,
/// hand over the use that was not seen and list the users; either way, store
/// whether the server is there.
pub open spec fn connection_actions(event: ConnectionEvent) -> Seq<ActionView> {
    match event {
        ConnectionEvent::Connected => seq![
            ActionView::SetMode(AgentMode::Online),
            ActionView::SendHello,
            ActionView::SendUsageSync,
            ActionView::SendUserList,
        ],
        ConnectionEvent::Disconnected => seq![ActionView::SetMode(AgentMode::Offline)],
    }
}

/// Takes in that the connection came or went.
pub fn handle_connection_event(event: ConnectionEvent) -> (acts: Vec<Action>)
    ensures
        action::actions_view(acts@) == connection_actions(event),
{
    let mut acts = no_actions();
    match event {
        ConnectionEvent::Connected => {
            push_action(&mut acts, Action::SetMode(AgentMode::Online));
            push_action(&mut acts, Action::SendHello);
            push_action(&mut acts, Action::SendUsageSync);
            push_action(&mut acts, Action::SendUserList);
        },
        ConnectionEvent::Disconnected => {
            push_action(&mut acts, Action::SetMode(AgentMode::Offline));
        },
    }
    assert(action::actions_view(acts@) =~= connection_actions(event));
    acts
}

/// The version of a configuration is stored only after the configuration itself:
/// where that fails, the version is not handed out.
pub proof fn a_version_comes_after_its_configuration(push: ConfigPush)
    ensures
        ({
            let msg = ServerMessage::ConfigPush(push);
            let start = AgendaView {
                left: to_store(&msg),
                waiting: false,
                done: 0,
                failed: false,
            };
            let first = start.handed_out();
            let second = first.reported(true).handed_out();
            &&& start.left[0] == Storing::Config(&push.users)
            &&& first.reported(false).failed && !first.reported(false).ready()
            &&& first.reported(true).left[0] == Storing::ConfigVersion(push.config_version)
            &&& !second.reported(true).failed && !second.reported(true).ready()
        }),
{
}

proof fn lemma_locked_untouched(locked: Set<u32>, es: Seq<RemainingEntry>, n: int, uid: u32)
    requires
        0 <= n <= es.len(),
        forall|i: int| 0 <= i < n ==> (#[trigger] es[i]).local_uid != uid,
    ensures
        locked_after(locked, es, n).contains(uid) == locked.contains(uid),
    decreases n,
{
    if n > 0 {
        lemma_locked_untouched(locked, es, n - 1, uid);
    }
}

/// Of the entries for one user, the last one decides whether the user is being
/// locked out.
pub proof fn the_last_entry_decides(locked: Set<u32>, es: Seq<RemainingEntry>, k: int, n: int)
    requires
        0 <= k < n <= es.len(),
        forall|i: int| k < i < n ==> (#[trigger] es[i]).local_uid != es[k].local_uid,
    ensures
        locked_after(locked, es, n).contains(es[k].local_uid) == (es[k].enforce
            == EnforceAction::Lock),
    decreases n,
{
    if n > k + 1 {
        the_last_entry_decides(locked, es, k, n - 1);
    }
}

/// After an allowance every threshold can be announced again: whichever is next
/// crossed is due.
pub proof fn an_allowance_rearms_every_threshold(
    warned: Map<u32, Set<i32>>,
    e: RemainingEntry,
    c: Option<CachedEnforcement>,
    threshold: u32,
    remaining: i32,
)
    requires
        e.enforce == EnforceAction::Allow,
        remaining <= threshold as i32,
    ensures
        enforce::due(
            threshold,
            remaining,
            enforce::warned_of(warned_after_entry(warned, e, c), e.local_uid),
        ),
{
}

proof fn lemma_warned_untouched(
    warned: Map<u32, Set<i32>>,
    es: Seq<RemainingEntry>,
    cs: Seq<Option<CachedEnforcement>>,
    n: int,
    uid: u32,
)
    requires
        0 <= n <= es.len(),
        forall|i: int| 0 <= i < n ==> (#[trigger] es[i]).local_uid != uid,
    ensures
        ({
            let after = warned_after_all(warned, es, cs, n);
            &&& after.contains_key(uid) == warned.contains_key(uid)
            &&& warned.contains_key(uid) ==> after[uid] == warned[uid]
        }),
    decreases n,
{
    if n > 0 {
        lemma_warned_untouched(warned, es, cs, n - 1, uid);
    }
}

/// A time update leaves alone whether a user that it does not list is being
/// locked out, and which warnings that user was shown.
pub proof fn others_stay_as_they_are(
    locked: Set<u32>,
    warned: Map<u32, Set<i32>>,
    es: Seq<RemainingEntry>,
    cs: Seq<Option<CachedEnforcement>>,
    uid: u32,
)
    requires
        forall|i: int| 0 <= i < es.len() ==> (#[trigger] es[i]).local_uid != uid,
    ensures
        locked_after(locked, es, es.len() as int).contains(uid) == locked.contains(uid),
        ({
            let after = warned_after_all(warned, es, cs, es.len() as int);
            &&& after.contains_key(uid) == warned.contains_key(uid)
            &&& warned.contains_key(uid) ==> after[uid] == warned[uid]
            &&& enforce::warned_of(after, uid) == enforce::warned_of(warned, uid)
        }),
{
    lemma_locked_untouched(locked, es, es.len() as int, uid);
    lemma_warned_untouched(warned, es, cs, es.len() as int, uid);
}

/// After a configuration that does not preserve a user's tasks, the next lock
/// request for that user begins a new lock flow; a user whose tasks are
/// preserved in every listing keeps the flow that is under way.
pub proof fn a_configuration_restarts_lock_flows(locked: Set<u32>, push: ConfigPush, uid: u32)
    ensures
        ({
            let after = locked_after_message(locked, ServerMessage::ConfigPush(push));
            &&& (exists|i: int|
                0 <= i < push.users@.len() && (#[trigger] push.users@[i]).local_uid == uid
                    && !push.users@[i].preserve_tasks_on_lock) ==> lock_action(after, uid)
                == ActionView::BeginLock(uid)
            &&& (forall|i: int|
                0 <= i < push.users@.len() && (#[trigger] push.users@[i]).local_uid == uid
                    ==> push.users@[i].preserve_tasks_on_lock) ==> lock_action(after, uid)
                == lock_action(locked, uid)
        }),
{
}

fn config_in_range(push: &ConfigPush, reads: &Readings) -> (r: bool)
    ensures
        r == config_fits(*push, *reads),
{
    if !is_real_date(reads.today) || reads.snapshots.len() != push.users.len() {
        return false;
    }
    let weekday: u8 = weekday_of(reads.today) as u8;
    let mut i: usize = 0;
    while i < push.users.len()
        invariant
            i <= push.users@.len(),
            reads.snapshots@.len() == push.users@.len(),
            weekday == weekday_today(*reads),
            forall|j: int|
                0 <= j < i ==> windows::real_windows((#[trigger] push.users@[j]).schedules@)
                    && amounts_fit(push.users@[j], reads.snapshots@[j], weekday),
        decreases push.users@.len() - i,
    {
        let u = &push.users[i];
        if !windows_in_range(&u.schedules) || !amounts_in_range(
            u,
            &reads.snapshots[i],
            weekday,
        ) {
            assert(push.users@[i as int] == *u);
            return false;
        }
        i += 1;
    }
    true
}

/// Whether the readings fit a message.
pub fn fits(msg: &ServerMessage, reads: &Readings) -> (r: bool)
    ensures
        r == message_fits(*msg, *reads),
{
    match msg {
        ServerMessage::ConfigPush(push) => config_in_range(push, reads),
        ServerMessage::RemainingUpdate(entries) => reads.enforcement.len() == entries.len(),
        _ => true,
    }
}

} // verus!
