//! Sums over rows: the minutes of a day's adjustments and the seconds of a day's
//! use.

use crate::db::tables;
use crate::db::tables::Tables;
use crate::db::usage::StoredAgentUsage;
use crate::db::write::Write;
use crate::ids;
use crate::ids::Uuid;
use vstd::prelude::*;

verus! {

/// The sum of an amount over the members of a finite set.
pub open spec fn total<K>(keys: Set<K>, amount: spec_fn(K) -> int) -> int
    decreases keys.len(),
    when keys.finite()
{
    if keys.len() == 0 {
        0
    } else {
        let k = keys.choose();
        amount(k) + total(keys.remove(k), amount)
    }
}

proof fn lemma_total_insert<K>(keys: Set<K>, amount: spec_fn(K) -> int, k: K)
    requires
        keys.finite(),
        !keys.contains(k),
    ensures
        total(keys.insert(k), amount) == total(keys, amount) + amount(k),
    decreases keys.len(),
{
    let more = keys.insert(k);
    let c = more.choose();
    assert(more.contains(k));
    assert(more.contains(c));
    if c == k {
        assert(more.remove(k) =~= keys);
    } else {
        let rest = keys.remove(c);
        assert(more.remove(c) =~= rest.insert(k));
        assert(rest.insert(c) =~= keys);
        lemma_total_insert(rest, amount, k);
        lemma_total_insert(rest, amount, c);
    }
}

proof fn lemma_total_same<K>(keys: Set<K>, a: spec_fn(K) -> int, b: spec_fn(K) -> int)
    requires
        keys.finite(),
        forall|k: K| #[trigger] keys.contains(k) ==> a(k) == b(k),
    ensures
        total(keys, a) == total(keys, b),
    decreases keys.len(),
{
    if keys.len() != 0 {
        let k = keys.choose();
        assert(keys.contains(k));
        lemma_total_same(keys.remove(k), a, b);
    }
}

/// The adjustments of a profile's day.
pub open spec fn adjustments_on(t: Tables, profile_id: Uuid, date: Seq<char>) -> Set<Uuid> {
    Set::new(
        |id: Uuid|
            t.adjustments.contains_key(id) && t.adjustments[id].profile_id == profile_id
                && t.adjustments[id].target_date == date,
    )
}

/// The minutes of an adjustment.
pub open spec fn minutes_of(t: Tables) -> spec_fn(Uuid) -> int {
    |id: Uuid| t.adjustments[id].minutes
}

/// The answer to a request for the sum of the adjustments of a profile's day.
pub open spec fn answers_adjustment_sum(
    t: Tables,
    profile_id: Uuid,
    date: Seq<char>,
    sum: i64,
) -> bool {
    &&& adjustments_on(t, profile_id, date).finite()
    &&& sum == total(adjustments_on(t, profile_id, date), minutes_of(t))
}

/// An adjustment adds its minutes to the sum of its day, and leaves every other
/// sum as it was.
pub proof fn an_adjustment_adds_its_minutes(
    w: Write,
    t: Tables,
    profile_id: Uuid,
    date: Seq<char>,
    before: i64,
    after: i64,
)
    requires
        w is InsertAdjustment,
        answers_adjustment_sum(t, profile_id, date, before),
        tables::effect(w, t) matches Some(next) && answers_adjustment_sum(
            next,
            profile_id,
            date,
            after,
        ),
    ensures
        after == before + (if w->InsertAdjustment_profile_id == profile_id
            && w->InsertAdjustment_target_date@ == date {
            w->InsertAdjustment_minutes as int
        } else {
            0
        }),
{
    let next = tables::effect(w, t)->0;
    let id = w->InsertAdjustment_id;
    let old_keys = adjustments_on(t, profile_id, date);
    let new_keys = adjustments_on(next, profile_id, date);
    lemma_total_same(old_keys, minutes_of(t), minutes_of(next));
    if w->InsertAdjustment_profile_id == profile_id && w->InsertAdjustment_target_date@ == date {
        assert(new_keys =~= old_keys.insert(id));
        lemma_total_insert(old_keys, minutes_of(next), id);
    } else {
        assert(new_keys =~= old_keys);
    }
}

/// The users of a profile that have used a day.
pub open spec fn users_on(t: Tables, profile_id: Uuid, date: Seq<char>) -> Set<Uuid> {
    Set::new(
        |u: Uuid|
            t.usage.contains_key((u, date)) && t.agent_users.contains_key(u)
                && t.agent_users[u].profile_id == Some(profile_id),
    )
}

/// The seconds that a user has used a day.
pub open spec fn seconds_on(t: Tables, date: Seq<char>) -> spec_fn(Uuid) -> int {
    |u: Uuid| t.usage[(u, date)].used_seconds
}

/// The answer to a request for the use of a day by all users of a profile.
pub open spec fn answers_profile_use(
    t: Tables,
    profile_id: Uuid,
    date: Seq<char>,
    sum: i64,
) -> bool {
    &&& users_on(t, profile_id, date).finite()
    &&& sum == total(users_on(t, profile_id, date), seconds_on(t, date))
}

/// A row of the use by agent holds the use of a day by a user.
pub open spec fn holds_use(r: StoredAgentUsage, t: Tables, u: Uuid, date: Seq<char>) -> bool {
    &&& r.agent_id@ == ids::hyphenated(t.agent_users[u].agent_id)
    &&& r.agent_user_id@ == ids::hyphenated(u)
    &&& r.date@ == date
    &&& r.used_seconds == t.usage[(u, date)].used_seconds
}

/// The answer to a request for the use of each day between two dates by each user
/// of a profile, where `within` holds of the dates that the database counts as
/// between them: every use once, that of `keys[i]` at position `i`.
pub open spec fn answers_use_by_agent(
    t: Tables,
    profile_id: Uuid,
    within: spec_fn(Seq<char>) -> bool,
    rows: Seq<StoredAgentUsage>,
    keys: Seq<(Uuid, Seq<char>)>,
) -> bool {
    &&& keys.no_duplicates()
    &&& rows.len() == keys.len()
    &&& forall|u: Uuid, date: Seq<char>| #[trigger]
        keys.contains((u, date)) <==> users_on(t, profile_id, date).contains(u) && within(date)
    &&& forall|i: int|
        0 <= i < keys.len() ==> holds_use(#[trigger] rows[i], t, keys[i].0, keys[i].1)
}

/// The answer to a request for the use of each day between two dates by all users
/// of a profile: every day that was used once, with the use of that day.
pub open spec fn answers_use_by_day(
    t: Tables,
    profile_id: Uuid,
    within: spec_fn(Seq<char>) -> bool,
    rows: Seq<(String, i64)>,
) -> bool {
    &&& forall|i: int|
        0 <= i < rows.len() ==> {
            let day = (#[trigger] rows[i]).0@;
            &&& within(day)
            &&& !users_on(t, profile_id, day).is_empty()
            &&& answers_profile_use(t, profile_id, day, rows[i].1)
        }
    &&& forall|i: int, j: int|
        0 <= i < j < rows.len() ==> (#[trigger] rows[i]).0@ != (#[trigger] rows[j]).0@
    &&& forall|u: Uuid, date: Seq<char>| #[trigger]
        users_on(t, profile_id, date).contains(u) && within(date) ==> exists|i: int|
            0 <= i < rows.len() && (#[trigger] rows[i]).0@ == date
}

/// The use of a day is the same whether it is asked for by itself or among other
/// days; a day that is not among them was not used.
pub proof fn a_day_reads_the_same_alone(
    t: Tables,
    profile_id: Uuid,
    within: spec_fn(Seq<char>) -> bool,
    rows: Seq<(String, i64)>,
    date: Seq<char>,
    sum: i64,
)
    requires
        answers_use_by_day(t, profile_id, within, rows),
        answers_profile_use(t, profile_id, date, sum),
        within(date),
    ensures
        forall|i: int|
            0 <= i < rows.len() && (#[trigger] rows[i]).0@ == date ==> rows[i].1 == sum,
        (forall|i: int| 0 <= i < rows.len() ==> (#[trigger] rows[i]).0@ != date) ==> sum == 0,
{
    if forall|i: int| 0 <= i < rows.len() ==> (#[trigger] rows[i]).0@ != date {
        let users = users_on(t, profile_id, date);
        assert forall|u: Uuid| !users.contains(u) by {
            if users.contains(u) {
                assert(users_on(t, profile_id, date).contains(u) && within(date));
            }
        }
        assert(users =~= Set::empty());
    }
}

/// The use that is read of a user's day by agent is the use stored, with the
/// agent that the user is one of.
pub proof fn use_is_read_by_agent(
    t: Tables,
    profile_id: Uuid,
    within: spec_fn(Seq<char>) -> bool,
    rows: Seq<StoredAgentUsage>,
    keys: Seq<(Uuid, Seq<char>)>,
    u: Uuid,
    date: Seq<char>,
)
    requires
        answers_use_by_agent(t, profile_id, within, rows, keys),
        users_on(t, profile_id, date).contains(u),
        within(date),
    ensures
        exists|i: int| 0 <= i < rows.len() && holds_use(#[trigger] rows[i], t, u, date),
{
    assert(keys.contains((u, date)));
    let i = keys.index_of((u, date));
    assert(holds_use(rows[i], t, keys[i].0, keys[i].1));
}

/// The use that a user adds to a day is added to the use of that day by the
/// user's profile, on whichever agent it was; every other sum stays as it was.
pub proof fn use_adds_to_the_profile(
    w: Write,
    t: Tables,
    profile_id: Uuid,
    date: Seq<char>,
    before: i64,
    after: i64,
)
    requires
        w is AddUsage,
        answers_profile_use(t, profile_id, date, before),
        tables::effect(w, t) matches Some(next) && answers_profile_use(
            next,
            profile_id,
            date,
            after,
        ),
    ensures
        after == before + (if w->AddUsage_date@ == date && t.agent_users.contains_key(
            w->AddUsage_agent_user_id,
        ) && t.agent_users[w->AddUsage_agent_user_id].profile_id == Some(profile_id) {
            w->AddUsage_seconds as int
        } else {
            0
        }),
{
    let next = tables::effect(w, t)->0;
    let u = w->AddUsage_agent_user_id;
    let old_keys = users_on(t, profile_id, date);
    let new_keys = users_on(next, profile_id, date);
    let others = old_keys.remove(u);
    lemma_total_same(others, seconds_on(t, date), seconds_on(next, date));
    if old_keys.contains(u) {
        assert(others.insert(u) =~= old_keys);
        lemma_total_insert(others, seconds_on(t, date), u);
    } else {
        assert(others =~= old_keys);
    }
    if new_keys.contains(u) {
        assert(others.insert(u) =~= new_keys);
        lemma_total_insert(others, seconds_on(next, date), u);
    } else {
        assert(others =~= new_keys);
    }
}

} // verus!
