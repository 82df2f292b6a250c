//! Locks and warnings: which users are being locked out, and which warnings
//! they have had.

use std::collections::{HashMap, HashSet};
use crate::lists;
use vstd::prelude::*;

verus! {

/// What is to be done about a user's time.
#[derive(Clone, Copy, Debug, PartialEq, Eq, Structural)]
pub enum EnforceAction {
    Allow,
    Warn,
    Lock,
}

/// The stored name of an action.
pub open spec fn action_name(action: EnforceAction) -> Seq<char> {
    match action {
        EnforceAction::Allow => "allow"@,
        EnforceAction::Warn => "warn"@,
        EnforceAction::Lock => "lock"@,
    }
}

/// The stored name of an action.
pub fn enforce_str(action: EnforceAction) -> (r: &'static str)
    ensures
        r@ == action_name(action),
{
    match action {
        EnforceAction::Allow => "allow",
        EnforceAction::Warn => "warn",
        EnforceAction::Lock => "lock",
    }
}

/// No two actions are stored under the same name.
pub proof fn action_names_differ(a: EnforceAction, b: EnforceAction)
    ensures
        action_name(a) == action_name(b) ==> a == b,
{
    reveal_strlit("allow");
    reveal_strlit("warn");
    reveal_strlit("lock");
    assert("allow"@[0] == 'a' && "warn"@[0] == 'w' && "lock"@[0] == 'l');
}

/// The users whose lock flow is under way.
pub struct LockBook {
    uids: HashSet<u32>,
}

impl LockBook {
    /// The users whose lock flow is under way.
    pub closed spec fn view(&self) -> Set<u32> {
        self.uids@
    }

    /// Nobody is being locked out.
    pub fn new() -> (r: Self)
        ensures
            r@ == Set::<u32>::empty(),
    {
        LockBook { uids: HashSet::new() }
    }

    /// Whether a user's lock flow is under way.
    pub fn contains(&self, uid: u32) -> (r: bool)
        ensures
            r == self@.contains(uid),
    {
        self.uids.contains(&uid)
    }

    /// Marks a user's lock flow as under way; says whether it was not before.
    pub fn arm(&mut self, uid: u32) -> (is_new: bool)
        ensures
            final(self)@ == old(self)@.insert(uid),
            is_new == !old(self)@.contains(uid),
    {
        self.uids.insert(uid)
    }

    /// Marks a user's lock flow as over; says whether it was under way.
    pub fn release(&mut self, uid: u32) -> (was_armed: bool)
        ensures
            final(self)@ == old(self)@.remove(uid),
            was_armed == old(self)@.contains(uid),
    {
        self.uids.remove(&uid)
    }

    /// Takes in how a user's lock flow ended: what it said about arming again,
    /// or `None` where it failed, which arms again too.
    pub fn finish_lock(&mut self, uid: u32, rearm: Option<bool>)
        ensures
            final(self)@ == if rearm == Some(false) {
                old(self)@
            } else {
                old(self)@.remove(uid)
            },
    {
        match rearm {
            Some(false) => {},
            _ => {
                self.release(uid);
            },
        }
    }
}

/// What a lock request asks for: a new lock flow, or just the screen locked
/// again where one is under way.
#[derive(Clone, Copy, Debug, PartialEq, Eq, Structural)]
pub enum LockStep {
    Begin,
    Again,
}

/// What a lock request asks for, given the users being locked out.
pub open spec fn lock_step(locked: Set<u32>, uid: u32) -> LockStep {
    if locked.contains(uid) {
        LockStep::Again
    } else {
        LockStep::Begin
    }
}

/// Answers a request to lock a user out. The flow is begun only when none is
/// under way, so that a grace period that is running is not started over.
pub fn request_lock(book: &mut LockBook, uid: u32) -> (r: LockStep)
    ensures
        r == lock_step(old(book)@, uid),
        final(book)@ == old(book)@.insert(uid),
{
    if book.arm(uid) {
        LockStep::Begin
    } else {
        LockStep::Again
    }
}

/// A lock flow is begun once: until the flow is over, every further request
/// only locks the screen again.
pub proof fn a_lock_flow_begins_once(locked: Set<u32>, uid: u32)
    ensures
        lock_step(locked.insert(uid), uid) == LockStep::Again,
        lock_step(locked.remove(uid), uid) == LockStep::Begin,
{
}

/// The warnings that each user has had: the thresholds, in minutes, that were
/// crossed and announced.
pub struct Warned {
    by_uid: HashMap<u32, HashSet<i32>>,
}

impl Warned {
    /// The thresholds announced to each user.
    pub closed spec fn view(&self) -> Map<u32, Set<i32>> {
        self.by_uid@.map_values(|s: HashSet<i32>| s@)
    }

    /// Nobody has been warned.
    pub fn new() -> (r: Self)
        ensures
            r@ == Map::<u32, Set<i32>>::empty(),
    {
        let r = Warned { by_uid: HashMap::new() };
        assert(r@ =~= Map::<u32, Set<i32>>::empty());
        r
    }

    /// Forgets the warnings of every user.
    pub fn clear(&mut self)
        ensures
            final(self)@ == Map::<u32, Set<i32>>::empty(),
    {
        self.by_uid.clear();
        assert(self@ =~= Map::<u32, Set<i32>>::empty());
    }

    /// Forgets a user's warnings.
    pub fn forget(&mut self, uid: u32)
        ensures
            final(self)@ == old(self)@.remove(uid),
    {
        self.by_uid.remove(&uid);
        assert(self@ =~= old(self)@.remove(uid));
    }
}

/// The thresholds announced to a user; none to one that is not listed.
pub open spec fn warned_of(warned: Map<u32, Set<i32>>, uid: u32) -> Set<i32> {
    if warned.contains_key(uid) {
        warned[uid]
    } else {
        Set::empty()
    }
}

/// A threshold is crossed and has not been announced.
pub open spec fn due(threshold: u32, remaining: i32, warned: Set<i32>) -> bool {
    remaining <= threshold as i32 && !warned.contains(threshold as i32)
}

/// The number of thresholds that are crossed and have not been announced, each
/// counted as often as it is listed.
pub open spec fn due_count(thresholds: Seq<u32>, remaining: i32, warned: Set<i32>) -> nat {
    thresholds.filter(|t: u32| due(t, remaining, warned)).len()
}

/// A threshold is among the listed ones.
pub open spec fn listed(thresholds: Seq<u32>, t: i32) -> bool {
    exists|i: int| 0 <= i < thresholds.len() && #[trigger] thresholds[i] as i32 == t
}

/// The announced thresholds after a warning at `remaining` minutes: those that
/// are still crossed, among the ones announced before and the ones listed.
pub open spec fn warned_after(warned: Set<i32>, thresholds: Seq<u32>, remaining: i32) -> Set<i32> {
    Set::new(|t: i32| remaining <= t && (warned.contains(t) || listed(thresholds, t)))
}

/// Takes in that a user has `remaining` minutes left. Returns how many warnings
/// to show: one for each listed threshold that is crossed and not announced.
/// Those become announced; a threshold above which the time has gone back up is
/// no longer announced, so that it can be crossed again.
pub fn fire_threshold_notifications(
    warned: &mut Warned,
    uid: u32,
    remaining: i32,
    thresholds: &Vec<u32>,
) -> (count: usize)
    ensures
        count == due_count(thresholds@, remaining, warned_of(old(warned)@, uid)),
        final(warned)@ == old(warned)@.insert(
            uid,
            warned_after(warned_of(old(warned)@, uid), thresholds@, remaining),
        ),
{
    let before = match warned.by_uid.remove(&uid) {
        Some(s) => s,
        None => HashSet::new(),
    };
    let ghost set0 = warned_of(old(warned)@, uid);
    assert(before@ == set0) by {
        assert(old(warned)@.contains_key(uid) == old(warned).by_uid@.contains_key(uid));
    }
    let ghost pick = |t: u32| due(t, remaining, set0);
    let mut after: HashSet<i32> = HashSet::new();
    let mut count: usize = 0;
    let mut i: usize = 0;
    assert(thresholds@.take(0).filter(pick).len() == 0) by {
        reveal(Seq::filter);
    }
    while i < thresholds.len()
        invariant
            i <= thresholds@.len(),
            count <= i,
            before@ == set0,
            pick == (|t: u32| due(t, remaining, set0)),
            count == thresholds@.take(i as int).filter(pick).len(),
            forall|t: i32| #[trigger]
                after@.contains(t) <==> remaining <= t && listed(thresholds@.take(i as int), t),
        decreases thresholds@.len() - i,
    {
        let t: i32 = thresholds[i] as i32;
        proof {
            let now = thresholds@.take(i as int);
            let next = thresholds@.take(i + 1);
            assert(next =~= now.push(thresholds@[i as int]));
            assert(next.drop_last() =~= now);
            reveal(Seq::filter);
            assert forall|x: i32| listed(next, x) <==> listed(now, x) || x == t by {
                if listed(now, x) {
                    let j = choose|j: int| 0 <= j < now.len() && #[trigger] now[j] as i32 == x;
                    assert(next[j] as i32 == x);
                }
                if x == t {
                    assert(next[i as int] as i32 == x);
                }
                if listed(next, x) {
                    let j = choose|j: int| 0 <= j < next.len() && #[trigger] next[j] as i32 == x;
                    if j < i {
                        assert(now[j] as i32 == x);
                    }
                }
            }
        }
        if remaining <= t {
            if !before.contains(&t) {
                count += 1;
            }
            after.insert(t);
        }
        i += 1;
    }
    assert(thresholds@.take(i as int) =~= thresholds@);
    let ghost listed_set = after@;
    for t in it: before.iter()
        invariant
            it.seq().unref().to_set() == before@,
            forall|x: i32| #[trigger]
                after@.contains(x) <==> listed_set.contains(x) || (remaining <= x
                    && it.seq().unref().take(it.index()).contains(x)),
            it.index() == it.seq().len() ==> forall|x: i32| #[trigger]
                after@.contains(x) <==> listed_set.contains(x) || (remaining <= x
                    && before@.contains(x)),
    {
        proof {
            lists::lemma_take_push(it.seq().unref(), it.index());
        }
        if remaining <= *t {
            after.insert(*t);
        }
        proof {
            lists::lemma_take_all(it.seq().unref(), it.index() + 1, before@);
        }
    }
    assert(after@ =~= warned_after(set0, thresholds@, remaining));
    warned.by_uid.insert(uid, after);
    assert(warned@ =~= old(warned)@.insert(uid, warned_after(set0, thresholds@, remaining)));
    count
}

/// The sessions whose screens are to be locked or unlocked, given what could be
/// read of them; `None` where there is nothing to do.
pub fn screens_to_switch(read: Option<Vec<String>>) -> (r: Option<Vec<String>>)
    ensures
        r == match read {
            Some(ids) => if ids@.len() > 0 {
                Some(ids)
            } else {
                None
            },
            None => None,
        },
{
    match read {
        Some(ids) => {
            if ids.len() > 0 {
                Some(ids)
            } else {
                None
            }
        },
        None => None,
    }
}

/// A threshold is announced once while time runs down: after a warning at
/// `first` minutes, a warning at `second`, no more than that, announces only
/// thresholds that were not crossed before.
pub proof fn a_threshold_is_announced_once(
    warned: Set<i32>,
    thresholds: Seq<u32>,
    first: i32,
    second: i32,
    t: u32,
)
    requires
        second <= first,
        thresholds.contains(t),
        first <= t as i32,
    ensures
        !due(t, second, warned_after(warned, thresholds, first)),
{
    let i = thresholds.index_of(t);
    assert(thresholds[i] as i32 == t as i32);
}

/// A threshold above which the time has gone back up is announced again when it
/// is next crossed.
pub proof fn a_threshold_rearms(
    warned: Set<i32>,
    thresholds: Seq<u32>,
    up: i32,
    down: i32,
    t: u32,
)
    requires
        up > t as i32,
        down <= t as i32,
    ensures
        due(t, down, warned_after(warned, thresholds, up)),
{
}

} // verus!
