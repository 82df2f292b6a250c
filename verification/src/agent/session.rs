//! Login sessions and the timers that measure active use.
//!
//! Times are readings of a monotonic clock, in nanoseconds since an arbitrary
//! origin.

use std::collections::HashMap;
use crate::lists;
use crate::text::same;
use vstd::prelude::*;

verus! {

/// What the session manager last reported of one session: whether it is idle,
/// and whatever else a rule for counting its use goes by.
#[derive(Debug)]
pub struct SessionUsageState<X> {
    /// `Some(false)` while the user is known to be present, `None` while
    /// nothing has been reported.
    pub idle: Option<bool>,
    pub more: X,
}

/// The state of a session of which nothing has been reported yet.
pub open spec fn unreported<X>(fresh: X) -> SessionUsageState<X> {
    SessionUsageState { idle: None, more: fresh }
}

/// Whether a session is stored as idle: it is unless known not to be.
pub open spec fn stored_as_idle<X>(state: SessionUsageState<X>) -> bool {
    state.idle != Some(false)
}

/// One session and its state.
struct SessionEntry<X> {
    id: String,
    state: SessionUsageState<X>,
}

/// The sessions of one user, each known by its id.
pub struct SessionTable<X> {
    entries: Vec<SessionEntry<X>>,
}

/// The ids of a list of sessions, in order.
spec fn entry_ids<X>(s: Seq<SessionEntry<X>>) -> Seq<Seq<char>> {
    s.map_values(|e: SessionEntry<X>| e.id@)
}

/// The state of each session of a list, by id.
spec fn entry_map<X>(s: Seq<SessionEntry<X>>) -> Map<Seq<char>, SessionUsageState<X>> {
    Map::new(
        |k: Seq<char>| entry_ids(s).contains(k),
        |k: Seq<char>| s[entry_ids(s).index_of(k)].state,
    )
}

proof fn lemma_entry_map_at<X>(s: Seq<SessionEntry<X>>, i: int)
    requires
        entry_ids(s).no_duplicates(),
        0 <= i < s.len(),
    ensures
        entry_map(s).contains_key(s[i].id@),
        entry_map(s)[s[i].id@] == s[i].state,
{
    let ids = entry_ids(s);
    assert(ids[i] == s[i].id@);
    assert(ids.contains(s[i].id@));
    let j = ids.index_of(s[i].id@);
    assert(0 <= j < ids.len() && ids[j] == s[i].id@);
    assert(j == i);
}

proof fn lemma_entry_map_of<X>(s: Seq<SessionEntry<X>>, k: Seq<char>) -> (i: int)
    requires
        entry_ids(s).no_duplicates(),
        entry_map(s).contains_key(k),
    ensures
        0 <= i < s.len(),
        s[i].id@ == k,
        entry_map(s)[k] == s[i].state,
{
    let i = choose|i: int| 0 <= i < entry_ids(s).len() && entry_ids(s)[i] == k;
    lemma_entry_map_at(s, i);
    i
}

impl<X> SessionTable<X> {
    /// The state of each session, by id.
    pub closed spec fn view(&self) -> Map<Seq<char>, SessionUsageState<X>> {
        entry_map(self.entries@)
    }

    /// The ids of the sessions, in the order in which the table holds them.
    pub closed spec fn ids(&self) -> Seq<Seq<char>> {
        entry_ids(self.entries@)
    }

    /// The states of the sessions, in the order in which the table holds them.
    pub closed spec fn states(&self) -> Seq<SessionUsageState<X>> {
        self.entries@.map_values(|e: SessionEntry<X>| e.state)
    }

    /// The states in order are those of the sessions: every session stands there
    /// once.
    pub open spec fn in_order(&self) -> bool {
        &&& self.ids().no_duplicates()
        &&& self.ids().to_set() == self@.dom()
        &&& self.states().len() == self.ids().len()
        &&& forall|i: int|
            0 <= i < self.ids().len() ==> self.states()[i] == self@[#[trigger] self.ids()[i]]
    }

    /// No two sessions share an id.
    #[verifier::type_invariant]
    spec fn distinct(self) -> bool {
        entry_ids(self.entries@).no_duplicates()
    }

    /// A user with no session.
    pub fn new() -> (r: Self)
        ensures
            r@ == Map::<Seq<char>, SessionUsageState<X>>::empty(),
    {
        let entries: Vec<SessionEntry<X>> = Vec::new();
        assert(entry_ids(entries@) =~= Seq::empty());
        let r = SessionTable { entries };
        assert(r@ =~= Map::<Seq<char>, SessionUsageState<X>>::empty());
        r
    }

    proof fn lemma_in_order(&self)
        requires
            self.distinct(),
        ensures
            self.in_order(),
            self@.dom().finite(),
            self.entries@.len() == self@.dom().len(),
    {
        let ids = entry_ids(self.entries@);
        ids.unique_seq_to_set();
        assert(self@.dom() =~= ids.to_set());
        assert forall|i: int| 0 <= i < self.ids().len() implies self.states()[i]
            == self@[#[trigger] self.ids()[i]] by {
            lemma_entry_map_at(self.entries@, i);
        }
    }

    /// The number of sessions.
    pub fn len(&self) -> (r: usize)
        ensures
            self@.dom().finite(),
            r == self@.dom().len(),
            r == self.states().len(),
            self.in_order(),
    {
        proof {
            use_type_invariant(self);
            self.lemma_in_order();
        }
        self.entries.len()
    }

    /// The state of the session at a position.
    pub fn state_at(&self, i: usize) -> (r: &SessionUsageState<X>)
        requires
            i < self@.dom().len(),
        ensures
            *r == self.states()[i as int],
            self.in_order(),
    {
        proof {
            use_type_invariant(self);
            self.lemma_in_order();
        }
        &self.entries[i].state
    }

    fn position(&self, id: &str) -> (r: Option<usize>)
        ensures
            match r {
                Some(i) => i < self.entries@.len() && self.entries@[i as int].id@ == id@
                    && self@.contains_key(id@),
                None => !self@.contains_key(id@),
            },
    {
        proof {
            use_type_invariant(self);
        }
        let mut i: usize = 0;
        while i < self.entries.len()
            invariant
                self.distinct(),
                i <= self.entries@.len(),
                forall|j: int| 0 <= j < i ==> (#[trigger] self.entries@[j]).id@ != id@,
            decreases self.entries@.len() - i,
        {
            if same(self.entries[i].id.as_str(), id) {
                proof {
                    lemma_entry_map_at(self.entries@, i as int);
                }
                return Some(i);
            }
            i += 1;
        }
        proof {
            if self@.contains_key(id@) {
                let j = lemma_entry_map_of(self.entries@, id@);
                assert(self.entries@[j].id@ != id@);
            }
        }
        None
    }

    /// Whether a session of that id is known.
    pub fn contains(&self, id: &str) -> (r: bool)
        ensures
            r == self@.contains_key(id@),
    {
        self.position(id).is_some()
    }

    /// Records the state of a session, new or known.
    pub fn insert(&mut self, id: String, state: SessionUsageState<X>)
        ensures
            final(self)@ == old(self)@.insert(id@, state),
    {
        proof {
            use_type_invariant(&*self);
        }
        let at = self.position(id.as_str());
        let mut entries: Vec<SessionEntry<X>> = Vec::new();
        assert(entry_ids(entries@) =~= Seq::empty());
        std::mem::swap(&mut entries, &mut self.entries);
        let ghost before = entries@;
        match at {
            Some(i) => {
                entries.set(i, SessionEntry { id, state });
                proof {
                    assert(entry_ids(entries@) =~= entry_ids(before));
                    lemma_same_ids(before, entries@, i as int);
                }
            },
            None => {
                entries.push(SessionEntry { id, state });
                proof {
                    lemma_pushed(before, entries@.last());
                }
            },
        }
        *self = SessionTable { entries };
    }

    /// Forgets a session.
    pub fn remove(&mut self, id: &str)
        ensures
            final(self)@ == old(self)@.remove(id@),
    {
        proof {
            use_type_invariant(&*self);
        }
        match self.position(id) {
            Some(i) => {
                let mut entries: Vec<SessionEntry<X>> = Vec::new();
                assert(entry_ids(entries@) =~= Seq::empty());
                std::mem::swap(&mut entries, &mut self.entries);
                let ghost before = entries@;
                let _ = entries.remove(i);
                proof {
                    lemma_removed(before, i as int);
                }
                *self = SessionTable { entries };
            },
            None => {
                assert(self@ =~= old(self)@.remove(id@));
            },
        }
    }
}

proof fn lemma_same_ids<X>(
    before: Seq<SessionEntry<X>>,
    after: Seq<SessionEntry<X>>,
    i: int,
)
    requires
        entry_ids(before).no_duplicates(),
        0 <= i < before.len(),
        entry_ids(after) == entry_ids(before),
        after == before.update(i, after[i]),
    ensures
        entry_map(after) == entry_map(before).insert(before[i].id@, after[i].state),
{
    let want = entry_map(before).insert(before[i].id@, after[i].state);
    assert(entry_ids(before)[i] == before[i].id@);
    assert(entry_ids(after)[i] == after[i].id@);
    lemma_entry_map_at(before, i);
    assert(entry_map(after).dom() =~= want.dom());
    assert forall|k: Seq<char>| entry_map(after).contains_key(k) implies entry_map(after)[k]
        == want[k] by {
        let j = lemma_entry_map_of(after, k);
        assert(entry_ids(after)[j] == entry_ids(before)[j]);
        assert(entry_ids(before)[j] == before[j].id@);
        lemma_entry_map_at(before, j);
    }
    assert(entry_map(after) =~= want);
}

proof fn lemma_pushed<X>(before: Seq<SessionEntry<X>>, e: SessionEntry<X>)
    requires
        entry_ids(before).no_duplicates(),
        !entry_map(before).contains_key(e.id@),
    ensures
        entry_ids(before.push(e)).no_duplicates(),
        entry_map(before.push(e)) == entry_map(before).insert(e.id@, e.state),
{
    let after = before.push(e);
    let want = entry_map(before).insert(e.id@, e.state);
    assert(entry_ids(after) =~= entry_ids(before).push(e.id@));
    assert(!entry_ids(before).contains(e.id@));
    assert(entry_ids(after).no_duplicates()) by {
        assert forall|i: int, j: int|
            0 <= i < entry_ids(after).len() && 0 <= j < entry_ids(after).len() && i
                != j implies entry_ids(after)[i] != entry_ids(after)[j] by {
            if i == before.len() {
                assert(entry_ids(before).contains(entry_ids(before)[j]));
            } else if j == before.len() {
                assert(entry_ids(before).contains(entry_ids(before)[i]));
            }
        }
    }
    lemma_entry_map_at(after, before.len() as int);
    assert forall|k: Seq<char>| entry_map(after).contains_key(k) <==> want.contains_key(k) by {
        if entry_map(after).contains_key(k) {
            let j = lemma_entry_map_of(after, k);
            if j < before.len() {
                lemma_entry_map_at(before, j);
            }
        }
        if want.contains_key(k) && k != e.id@ {
            let j = lemma_entry_map_of(before, k);
            lemma_entry_map_at(after, j);
        }
    }
    assert forall|k: Seq<char>| entry_map(after).contains_key(k) implies entry_map(after)[k]
        == want[k] by {
        let j = lemma_entry_map_of(after, k);
        if j < before.len() {
            lemma_entry_map_at(before, j);
        }
    }
    assert(entry_map(after) =~= want);
}

proof fn lemma_removed<X>(before: Seq<SessionEntry<X>>, i: int)
    requires
        entry_ids(before).no_duplicates(),
        0 <= i < before.len(),
    ensures
        entry_ids(before.remove(i)).no_duplicates(),
        entry_map(before.remove(i)) == entry_map(before).remove(before[i].id@),
{
    let after = before.remove(i);
    let want = entry_map(before).remove(before[i].id@);
    assert(entry_ids(after) =~= entry_ids(before).remove(i));
    assert(entry_ids(before)[i] == before[i].id@);
    assert(entry_ids(after).no_duplicates()) by {
        let ids = entry_ids(before);
        assert forall|a: int, b: int|
            0 <= a < ids.remove(i).len() && 0 <= b < ids.remove(i).len() && a
                != b implies ids.remove(i)[a] != ids.remove(i)[b] by {
            let a0 = if a < i { a } else { a + 1 };
            let b0 = if b < i { b } else { b + 1 };
            assert(ids[a0] != ids[b0]);
        }
    }
    assert forall|k: Seq<char>| entry_map(after).contains_key(k) <==> want.contains_key(k) by {
        if entry_map(after).contains_key(k) {
            let j = lemma_entry_map_of(after, k);
            let j0 = if j < i { j } else { j + 1 };
            assert(after[j] == before[j0]);
            lemma_entry_map_at(before, j0);
            assert(entry_ids(before)[j0] == k);
        }
        if want.contains_key(k) {
            let j = lemma_entry_map_of(before, k);
            let j1 = if j < i { j } else { j - 1 };
            assert(j != i);
            assert(after[j1] == before[j]);
            lemma_entry_map_at(after, j1);
        }
    }
    assert forall|k: Seq<char>| entry_map(after).contains_key(k) implies entry_map(after)[k]
        == want[k] by {
        let j = lemma_entry_map_of(after, k);
        let j0 = if j < i { j } else { j + 1 };
        assert(after[j] == before[j0]);
        lemma_entry_map_at(before, j0);
    }
    assert(entry_map(after) =~= want);
}

/// The running and stopped timers: the clock reading since which a user's use
/// has been counted, or `None` while it is not.
pub type Timers = HashMap<u32, Option<u64>>;

/// The sessions of every user that has any.
#[verifier::reject_recursive_types(X)]
pub struct SessionStates<X> {
    by_uid: HashMap<u32, SessionTable<X>>,
}

impl<X> SessionStates<X> {
    /// The sessions of each user.
    pub closed spec fn view(&self) -> Map<u32, SessionTable<X>> {
        self.by_uid@
    }

    /// Every user listed has at least one session.
    #[verifier::type_invariant]
    spec fn nobody_without(self) -> bool {
        forall|uid: u32| #[trigger]
            self.by_uid@.contains_key(uid) ==> !self.by_uid@[uid]@.dom().is_empty()
    }

    /// No sessions at all.
    pub fn new() -> (r: Self)
        ensures
            r@ == Map::<u32, SessionTable<X>>::empty(),
    {
        SessionStates { by_uid: HashMap::new() }
    }

    /// The number of sessions of a user.
    pub fn session_count(&self, uid: u32) -> (r: usize)
        ensures
            sessions_of(self@, uid).dom().finite(),
            r == sessions_of(self@, uid).dom().len(),
            r == 0 <==> !self@.contains_key(uid),
    {
        proof {
            use_type_invariant(self);
        }
        match self.by_uid.get(&uid) {
            Some(t) => {
                assert(self@.contains_key(uid));
                let n: usize = t.len();
                proof {
                    if n == 0 {
                        assert(t@.dom() =~= Set::empty());
                    }
                }
                n
            },
            None => 0,
        }
    }

    /// Whether a user has a session of that id.
    pub fn knows(&self, uid: u32, session_id: &str) -> (r: bool)
        ensures
            r == sessions_of(self@, uid).contains_key(session_id@),
    {
        match self.by_uid.get(&uid) {
            Some(t) => t.contains(session_id),
            None => false,
        }
    }

    fn record(&mut self, uid: u32, session_id: String, state: SessionUsageState<X>)
        ensures
            final(self)@.contains_key(uid),
            final(self)@[uid]@ == sessions_of(old(self)@, uid).insert(session_id@, state),
            final(self)@.remove(uid) == old(self)@.remove(uid),
    {
        proof {
            use_type_invariant(&*self);
        }
        let mut by_uid: HashMap<u32, SessionTable<X>> = HashMap::new();
        std::mem::swap(&mut by_uid, &mut self.by_uid);
        let mut table = match by_uid.remove(&uid) {
            Some(t) => t,
            None => SessionTable::new(),
        };
        let ghost id = session_id@;
        table.insert(session_id, state);
        let ghost after = table;
        by_uid.insert(uid, table);
        proof {
            assert(after@.dom().contains(id));
            assert(by_uid@.remove(uid) =~= old(self)@.remove(uid));
            assert forall|u: u32| #[trigger] by_uid@.contains_key(u) implies
                !by_uid@[u]@.dom().is_empty() by {
                if u != uid {
                    assert(old(self).by_uid@.contains_key(u));
                    assert(by_uid@[u] == by_uid@.remove(uid)[u]);
                }
            }
        }
        *self = SessionStates { by_uid };
    }

    fn forget(&mut self, uid: u32, session_id: &str)
        ensures
            final(self)@.contains_key(uid) == !sessions_of(old(self)@, uid).remove(
                session_id@,
            ).dom().is_empty(),
            final(self)@.contains_key(uid) ==> final(self)@[uid]@ == sessions_of(
                old(self)@,
                uid,
            ).remove(session_id@),
            final(self)@.remove(uid) == old(self)@.remove(uid),
    {
        proof {
            use_type_invariant(&*self);
        }
        let mut by_uid: HashMap<u32, SessionTable<X>> = HashMap::new();
        std::mem::swap(&mut by_uid, &mut self.by_uid);
        match by_uid.remove(&uid) {
            Some(t) => {
                let mut table = t;
                table.remove(session_id);
                let n: usize = table.len();
                let ghost after = table;
                if n > 0 {
                    by_uid.insert(uid, table);
                }
                proof {
                    if n == 0 {
                        assert(after@.dom() =~= Set::empty());
                    } else {
                        assert(after@.dom() != Set::<Seq<char>>::empty());
                    }
                    assert(by_uid@.remove(uid) =~= old(self)@.remove(uid));
                    assert forall|u: u32| #[trigger] by_uid@.contains_key(u) implies
                        !by_uid@[u]@.dom().is_empty() by {
                        if u != uid {
                            assert(old(self).by_uid@.contains_key(u));
                            assert(by_uid@[u] == by_uid@.remove(uid)[u]);
                        }
                    }
                }
            },
            None => {
                proof {
                    assert(sessions_of(old(self)@, uid).remove(session_id@).dom()
                        =~= Set::empty());
                    assert(by_uid@ =~= old(self)@);
                }
            },
        }
        *self = SessionStates { by_uid };
    }
}

/// The sessions of a user, by id; none for a user that is not listed.
pub open spec fn sessions_of<X>(states: Map<u32, SessionTable<X>>, uid: u32) -> Map<
    Seq<char>,
    SessionUsageState<X>,
> {
    if states.contains_key(uid) {
        states[uid]@
    } else {
        Map::empty()
    }
}

/// A rule that says of a user's sessions whether they count as use: it answers
/// for any sessions, and always the same for the same ones.
pub open spec fn lawful<X, C: Fn(&SessionTable<X>) -> bool>(rule: C) -> bool {
    &&& forall|t: &SessionTable<X>| #[trigger] rule.requires((t,))
    &&& forall|t: &SessionTable<X>, a: bool, b: bool| #[trigger]
        rule.ensures((t,), a) && #[trigger] rule.ensures((t,), b) ==> a == b
}

/// Whether a user's sessions count as use.
pub open spec fn counts<X, C: Fn(&SessionTable<X>) -> bool>(rule: C, table: SessionTable<X>) -> bool {
    rule.ensures((&table,), true)
}

/// Whether a user's use is to be counted: the rule says so of the sessions that
/// the user has.
pub open spec fn counting<X, C: Fn(&SessionTable<X>) -> bool>(
    rule: C,
    states: Map<u32, SessionTable<X>>,
    uid: u32,
) -> bool {
    states.contains_key(uid) && counts(rule, states[uid])
}

/// Whether a user's use is to be counted; never for a user without sessions.
pub fn uid_is_counting<X, C: Fn(&SessionTable<X>) -> bool>(
    session_states: &SessionStates<X>,
    uid: u32,
    rule: &C,
) -> (r: bool)
    requires
        lawful(*rule),
    ensures
        r == counting(*rule, session_states@, uid),
{
    match session_states.by_uid.get(&uid) {
        Some(table) => {
            let r = rule(table);
            assert(rule.ensures((table,), r));
            r
        },
        None => false,
    }
}

/// The timers after a user's use went from being counted or not to being
/// counted or not, at clock reading `now`.
pub open spec fn timers_after(
    timers: Map<u32, Option<u64>>,
    uid: u32,
    was_counting: bool,
    is_counting: bool,
    now: u64,
) -> Map<u32, Option<u64>> {
    if was_counting && is_counting {
        timers
    } else if is_counting {
        timers.insert(uid, Some(now))
    } else if was_counting || !timers.contains_key(uid) {
        timers.insert(uid, None)
    } else {
        timers
    }
}

/// Starts or stops a user's timer as counting starts or stops, and gives a user
/// that is not counted a stopped timer if there is none yet.
pub fn update_usage_timer(
    uid: u32,
    was_counting: bool,
    is_counting: bool,
    now: u64,
    active_since: &mut Timers,
)
    ensures
        final(active_since)@ == timers_after(
            old(active_since)@,
            uid,
            was_counting,
            is_counting,
            now,
        ),
{
    match (was_counting, is_counting) {
        (false, true) => {
            active_since.insert(uid, Some(now));
        },
        (true, false) => {
            active_since.insert(uid, None);
        },
        (false, false) => {
            if !active_since.contains_key(&uid) {
                active_since.insert(uid, None);
            }
        },
        (true, true) => {},
    }
}

/// Every timer stopped.
pub open spec fn all_stopped(timers: Map<u32, Option<u64>>) -> Map<u32, Option<u64>> {
    timers.map_values(|v: Option<u64>| None::<u64>)
}

/// A timer for each user with sessions, running since `now` if those sessions
/// count.
pub open spec fn fresh_timers<X, C: Fn(&SessionTable<X>) -> bool>(
    rule: C,
    states: Map<u32, SessionTable<X>>,
    now: u64,
) -> Map<u32, Option<u64>> {
    states.map_values(
        |t: SessionTable<X>|
            if counts(rule, t) {
                Some(now)
            } else {
                None::<u64>
            },
    )
}

/// A session as the session manager lists it.
pub struct SessionRef {
    pub uid: u32,
    pub session_id: String,
}

/// What the session manager reports.
pub enum SessionEvent<X> {
    StartupSnapshot { sessions: Vec<SessionRef> },
    SessionStarted { uid: u32, session_id: String },
    SessionEnded { uid: u32, session_id: String },
    StateChanged { uid: u32, session_id: String, state: SessionUsageState<X> },
    PrepareForSleep { suspend: bool },
}

/// What is to be stored of a session event.
pub enum SessionRecord {
    Reconcile(Vec<SessionRef>),
    Upsert { uid: u32, session_id: String, idle: bool },
    Remove { uid: u32, session_id: String },
}

/// The record says that a session is to be stored, idle or not.
pub open spec fn stores_session(
    r: Option<SessionRecord>,
    uid: u32,
    session_id: Seq<char>,
    idle: bool,
) -> bool {
    r matches Some(SessionRecord::Upsert { uid: u, session_id: s, idle: i }) && u == uid && s@
        == session_id && i == idle
}

/// The timers run for exactly the users whose use is to be counted, and every
/// user with a session has one.
pub open spec fn timers_follow<X, C: Fn(&SessionTable<X>) -> bool>(
    rule: C,
    states: Map<u32, SessionTable<X>>,
    timers: Map<u32, Option<u64>>,
) -> bool {
    &&& timers.dom() == states.dom()
    &&& forall|uid: u32| #[trigger]
        states.contains_key(uid) ==> (timers[uid] is Some <==> counts(rule, states[uid]))
}

/// The effect of a session event on the sessions and the timers at clock
/// reading `now`, and what is to be stored of it.
///
/// A new session starts out unreported, with `fresh` for what else is known of
/// it; a state change of a session that is
/// not known is ignored. Going to sleep stops every timer. Waking up gives each
/// user with sessions a fresh timer, which runs if those sessions count.
///
/// While timers follow the sessions, they go on doing so through every event
/// but going to sleep; waking up always makes them follow.
pub fn handle_session_event<X, C: Fn(&SessionTable<X>) -> bool>(
    event: SessionEvent<X>,
    session_states: &mut SessionStates<X>,
    active_since: &mut Timers,
    now: u64,
    fresh: X,
    rule: &C,
) -> (r: Option<SessionRecord>)
    requires
        lawful(*rule),
    ensures
        match event {
            SessionEvent::StartupSnapshot { sessions } => {
                &&& final(session_states)@ == old(session_states)@
                &&& final(active_since)@ == old(active_since)@
                &&& r == Some(SessionRecord::Reconcile(sessions))
            },
            SessionEvent::SessionStarted { uid, session_id } => {
                &&& final(session_states)@.contains_key(uid)
                &&& final(session_states)@[uid]@ == sessions_of(old(session_states)@, uid).insert(
                    session_id@,
                    unreported(fresh),
                )
                &&& final(session_states)@.remove(uid) == old(session_states)@.remove(uid)
                &&& final(active_since)@ == timers_after(
                    old(active_since)@,
                    uid,
                    counting(*rule, old(session_states)@, uid),
                    counting(*rule, final(session_states)@, uid),
                    now,
                )
                &&& stores_session(r, uid, session_id@, true)
            },
            SessionEvent::SessionEnded { uid, session_id } => {
                let left = sessions_of(old(session_states)@, uid).remove(session_id@);
                &&& final(session_states)@.contains_key(uid) == !left.dom().is_empty()
                &&& final(session_states)@.contains_key(uid) ==> final(session_states)@[uid]@
                    == left
                &&& final(session_states)@.remove(uid) == old(session_states)@.remove(uid)
                &&& final(active_since)@ == if left.dom().is_empty() {
                    old(active_since)@.remove(uid)
                } else {
                    timers_after(
                        old(active_since)@,
                        uid,
                        counting(*rule, old(session_states)@, uid),
                        counting(*rule, final(session_states)@, uid),
                        now,
                    )
                }
                &&& r matches Some(SessionRecord::Remove { uid: u, session_id: s }) && u == uid
                    && s@ == session_id@
            },
            SessionEvent::StateChanged { uid, session_id, state } => if sessions_of(
                old(session_states)@,
                uid,
            ).contains_key(session_id@) {
                &&& final(session_states)@.contains_key(uid)
                &&& final(session_states)@[uid]@ == sessions_of(old(session_states)@, uid).insert(
                    session_id@,
                    state,
                )
                &&& final(session_states)@.remove(uid) == old(session_states)@.remove(uid)
                &&& final(active_since)@ == timers_after(
                    old(active_since)@,
                    uid,
                    counting(*rule, old(session_states)@, uid),
                    counting(*rule, final(session_states)@, uid),
                    now,
                )
                &&& stores_session(r, uid, session_id@, stored_as_idle(state))
            } else {
                &&& final(session_states)@ == old(session_states)@
                &&& final(active_since)@ == old(active_since)@
                &&& r is None
            },
            SessionEvent::PrepareForSleep { suspend } => {
                &&& final(session_states)@ == old(session_states)@
                &&& final(active_since)@ == if suspend {
                    all_stopped(old(active_since)@)
                } else {
                    fresh_timers(*rule, old(session_states)@, now)
                }
                &&& r is None
            },
        },
        timers_follow(*rule, old(session_states)@, old(active_since)@) && event
            != (SessionEvent::<X>::PrepareForSleep { suspend: true }) ==> timers_follow(
            *rule,
            final(session_states)@,
            final(active_since)@,
        ),
        event == (SessionEvent::<X>::PrepareForSleep { suspend: false }) ==> timers_follow(
            *rule,
            final(session_states)@,
            final(active_since)@,
        ),
{
    let ghost states0 = session_states@;
    let ghost timers0 = active_since@;
    match event {
        SessionEvent::StartupSnapshot { sessions } => Some(SessionRecord::Reconcile(sessions)),
        SessionEvent::SessionStarted { uid, session_id } => {
            let was_counting = uid_is_counting(session_states, uid, rule);
            let stored = session_id.clone();
            session_states.record(uid, session_id, SessionUsageState { idle: None, more: fresh });
            let is_counting = uid_is_counting(session_states, uid, rule);
            update_usage_timer(uid, was_counting, is_counting, now, active_since);
            proof {
                lemma_follow(*rule, states0, session_states@, timers0, active_since@, uid, now);
            }
            Some(SessionRecord::Upsert { uid, session_id: stored, idle: true })
        },
        SessionEvent::SessionEnded { uid, session_id } => {
            let was_counting = uid_is_counting(session_states, uid, rule);
            session_states.forget(uid, session_id.as_str());
            if session_states.session_count(uid) == 0 {
                active_since.remove(&uid);
            } else {
                let is_counting = uid_is_counting(session_states, uid, rule);
                update_usage_timer(uid, was_counting, is_counting, now, active_since);
            }
            proof {
                lemma_follow(*rule, states0, session_states@, timers0, active_since@, uid, now);
            }
            Some(SessionRecord::Remove { uid, session_id })
        },
        SessionEvent::StateChanged { uid, session_id, state } => {
            if !session_states.knows(uid, session_id.as_str()) {
                return None;
            }
            let was_counting = uid_is_counting(session_states, uid, rule);
            let idle = match state.idle {
                Some(false) => false,
                _ => true,
            };
            let stored = session_id.clone();
            session_states.record(uid, session_id, state);
            let is_counting = uid_is_counting(session_states, uid, rule);
            update_usage_timer(uid, was_counting, is_counting, now, active_since);
            proof {
                lemma_follow(*rule, states0, session_states@, timers0, active_since@, uid, now);
            }
            Some(SessionRecord::Upsert { uid, session_id: stored, idle })
        },
        SessionEvent::PrepareForSleep { suspend } => {
            if suspend {
                stop_timers(active_since);
            } else {
                restart_timers(session_states, active_since, now, rule);
            }
            None
        },
    }
}

proof fn lemma_follow<X, C: Fn(&SessionTable<X>) -> bool>(
    rule: C,
    states0: Map<u32, SessionTable<X>>,
    states1: Map<u32, SessionTable<X>>,
    timers0: Map<u32, Option<u64>>,
    timers1: Map<u32, Option<u64>>,
    uid: u32,
    now: u64,
)
    requires
        states1.remove(uid) == states0.remove(uid),
        states1.contains_key(uid) ==> timers1 == timers_after(
            timers0,
            uid,
            counting(rule, states0, uid),
            counting(rule, states1, uid),
            now,
        ),
        !states1.contains_key(uid) ==> timers1 == timers0.remove(uid),
    ensures
        timers_follow(rule, states0, timers0) ==> timers_follow(rule, states1, timers1),
{
    if timers_follow(rule, states0, timers0) {
        assert forall|u: u32| states0.contains_key(u) <==> timers0.contains_key(u) by {
            assert(timers0.dom().contains(u) == states0.dom().contains(u));
        }
        assert forall|u: u32|
            #![trigger states1.contains_key(u)]
            u != uid implies (states1.contains_key(u) <==> states0.contains_key(u)) && (
            states1.contains_key(u) ==> states1[u] == states0[u]) by {
            let a = states0.remove(uid);
            let b = states1.remove(uid);
            assert(a.contains_key(u) == states0.contains_key(u));
            assert(b.contains_key(u) == states1.contains_key(u));
            if states0.contains_key(u) {
                assert(a[u] == states0[u]);
                assert(b[u] == states1[u]);
            }
        }
        assert forall|u: u32| timers1.dom().contains(u) <==> states1.dom().contains(u) by {
            assert(states0.contains_key(u) <==> timers0.contains_key(u));
            assert(u != uid ==> (states1.contains_key(u) <==> states0.contains_key(u)));
            assert(u != uid ==> (timers1.contains_key(u) <==> timers0.contains_key(u)));
        }
        assert(timers1.dom() =~= states1.dom());
        assert forall|u: u32| #[trigger] states1.contains_key(u) implies (timers1[u] is Some
            <==> counts(rule, states1[u])) by {
            assert(u != uid ==> states0.contains_key(u));
            assert(states0.contains_key(uid) ==> (timers0[uid] is Some <==> counts(
                rule,
                states0[uid],
            )));
        }
    }
}

fn stop_timers(active_since: &mut Timers)
    ensures
        final(active_since)@ == all_stopped(old(active_since)@),
{
    let ghost before = active_since@;
    let mut stopped: Timers = HashMap::new();
    for uid in it: active_since.keys()
        invariant
            it.seq().unref().to_set() == before.dom(),
            forall|u: u32| #[trigger]
                stopped@.contains_key(u) <==> it.seq().unref().take(it.index()).contains(u),
            forall|u: u32| #[trigger] stopped@.contains_key(u) ==> stopped@[u] is None,
            it.index() == it.seq().len() ==> stopped@.dom() == before.dom(),
    {
        proof {
            lists::lemma_take_push(it.seq().unref(), it.index());
        }
        stopped.insert(*uid, None);
        proof {
            lists::lemma_take_all(it.seq().unref(), it.index() + 1, before.dom());
            assert(it.index() + 1 == it.seq().len() ==> stopped@.dom() =~= before.dom());
        }
    }
    assert(stopped@ =~= all_stopped(before));
    *active_since = stopped;
}

fn restart_timers<X, C: Fn(&SessionTable<X>) -> bool>(
    session_states: &SessionStates<X>,
    active_since: &mut Timers,
    now: u64,
    rule: &C,
)
    requires
        lawful(*rule),
    ensures
        final(active_since)@ == fresh_timers(*rule, session_states@, now),
        timers_follow(*rule, session_states@, final(active_since)@),
{
    active_since.clear();
    proof {
        assert(active_since@.dom() =~= Set::empty());
    }
    for uid in it: session_states.by_uid.keys()
        invariant
            lawful(*rule),
            it.seq().unref().to_set() == session_states@.dom(),
            forall|u: u32| #[trigger]
                active_since@.contains_key(u) <==> it.seq().unref().take(it.index()).contains(u),
            forall|u: u32| #[trigger]
                active_since@.contains_key(u) ==> active_since@[u] == (if counting(
                    *rule,
                    session_states@,
                    u,
                ) {
                    Some(now)
                } else {
                    None
                }),
            it.index() == it.seq().len() ==> active_since@.dom() == session_states@.dom(),
    {
        proof {
            lists::lemma_take_push(it.seq().unref(), it.index());
        }
        let is_counting = uid_is_counting(session_states, *uid, rule);
        active_since.insert(
            *uid,
            if is_counting {
                Some(now)
            } else {
                None
            },
        );
        proof {
            lists::lemma_take_all(it.seq().unref(), it.index() + 1, session_states@.dom());
            assert(it.index() + 1 == it.seq().len() ==> active_since@.dom()
                =~= session_states@.dom());
        }
    }
    assert(active_since@ =~= fresh_timers(*rule, session_states@, now));
}

} // verus!
