//! What holds of the store as a whole.

use crate::db::agents;
use crate::db::agents::LocalUser;
use crate::db::tables;
use crate::db::tables::{AgentUserRow, EnforcementRow, Tables};
use crate::db::usage;
use crate::db::write::Write;
use crate::ids::Uuid;
use vstd::prelude::*;

verus! {

/// A list of changes, made one by one, breaks no constraint of the tables,
/// wherever it stops.
pub proof fn a_run_keeps_the_tables_well_formed(ws: Seq<Write>, t: Tables)
    requires
        t.wf(),
    ensures
        tables::effects(ws, t).0.wf(),
    decreases ws.len(),
{
    if ws.len() > 0 {
        a_run_keeps_the_tables_well_formed(ws.drop_last(), t);
        let before = tables::effects(ws.drop_last(), t).0;
        if tables::effect(ws.last(), before) is Some {
            tables::a_write_keeps_the_tables_well_formed(ws.last(), before);
        }
    }
}

// Use of a day.

/// What a heartbeat reports is added to the use of that user's day, and to no
/// other.
pub proof fn a_heartbeat_adds(w: Write, t: Tables, user: Uuid, day: Seq<char>)
    requires
        w matches Write::AddUsage { agent_user_id, .. } && t.agent_users.contains_key(agent_user_id),
    ensures
        tables::effect(w, t) matches Some(after) && (w matches Write::AddUsage {
            agent_user_id,
            date,
            seconds,
            ..
        } && tables::used_on(after, user, day) == tables::used_on(t, user, day) + (if user
            == agent_user_id && day == date@ {
            seconds as int
        } else {
            0
        })),
{
}

/// A total that an agent sends never lowers the use of a day: afterwards it is
/// the greater of the two.
pub proof fn a_sync_never_lowers(w: Write, t: Tables, user: Uuid, day: Seq<char>, total: int)
    requires
        t.agent_users.contains_key(user),
        w matches Write::SetUsage { agent_user_id, date, seconds, .. } && agent_user_id == user
            && date@ == day && seconds == usage::reconciled(total, tables::used_on(t, user, day)),
    ensures
        tables::effect(w, t) matches Some(after) && tables::used_on(after, user, day)
            >= tables::used_on(t, user, day) && tables::used_on(after, user, day) >= total && (
        tables::used_on(after, user, day) == total || tables::used_on(after, user, day)
            == tables::used_on(t, user, day)),
{
}

/// A total that is sent again counts once: after the second time the use of the
/// day is what it was after the first.
pub proof fn a_repeated_sync_counts_once(
    first: Write,
    second: Write,
    t: Tables,
    user: Uuid,
    day: Seq<char>,
    total: int,
)
    requires
        t.agent_users.contains_key(user),
        first matches Write::SetUsage { agent_user_id, date, seconds, .. } && agent_user_id == user
            && date@ == day && seconds == usage::reconciled(total, tables::used_on(t, user, day)),
        tables::effect(first, t) matches Some(mid) && (second matches Write::SetUsage {
            agent_user_id,
            date,
            seconds,
            ..
        } && agent_user_id == user && date@ == day && seconds == usage::reconciled(
            total,
            tables::used_on(mid, user, day),
        )),
    ensures
        tables::effect(first, t) matches Some(mid) && (tables::effect(second, mid) matches Some(
            after,
        ) && tables::used_on(after, user, day) == tables::used_on(mid, user, day)),
{
}

/// A sync leaves the use of every other day and user as it was.
pub proof fn a_sync_leaves_other_days_alone(w: Write, t: Tables, user: Uuid, day: Seq<char>)
    requires
        w matches Write::SetUsage { agent_user_id, date, .. } && (agent_user_id != user || date@
            != day),
        tables::effect(w, t) is Some,
    ensures
        tables::used_on(tables::effect(w, t)->0, user, day) == tables::used_on(t, user, day),
{
}

// Agents.

/// An agent that asks to be accepted again waits again, but a disabled one stays
/// disabled, and it is the same agent with the name and the token that it had.
pub proof fn a_disabled_agent_stays_disabled(w: Write, t: Tables, id: Uuid)
    requires
        t.agents.contains_key(id),
        w matches Write::RefreshAgent { machine_id, .. } && machine_id@ == t.agents[id].machine_id,
    ensures
        tables::effect(w, t) matches Some(after) && after.agents.contains_key(id)
            && after.agents[id].status == (if t.agents[id].status == "disabled"@ {
            "disabled"@
        } else {
            "pending"@
        }) && after.agents[id].display_name == t.agents[id].display_name
            && after.agents[id].auth_token_hash == t.agents[id].auth_token_hash
            && after.agents[id].created_at == t.agents[id].created_at,
{
}

/// A request to be accepted is never refused by the store: a machine that has an
/// agent refreshes that agent and no other, and a machine that has none gets a
/// new one that waits.
pub proof fn a_pairing_request_is_stored(w: Write, t: Tables, machine: Seq<char>)
    requires
        t.wf(),
        if t.has_machine(machine) {
            w matches Write::RefreshAgent { machine_id, .. } && machine_id@ == machine
        } else {
            w matches Write::InsertAgent { id, machine_id, .. } && machine_id@ == machine
                && !t.agents.contains_key(id)
        },
    ensures
        tables::effect(w, t) matches Some(after) && after.has_machine(machine) && forall|a: Uuid|
            #[trigger] t.agents.contains_key(a) && t.agents[a].machine_id != machine
                ==> after.agents.contains_key(a) && after.agents[a] == t.agents[a],
{
    let after = tables::effect(w, t)->0;
    if t.has_machine(machine) {
        let a = choose|a: Uuid| #[trigger]
            t.agents.contains_key(a) && t.agents[a].machine_id == machine;
        assert(after.agents.contains_key(a) && after.agents[a].machine_id == machine);
    } else {
        let id = w->InsertAgent_id;
        assert(after.agents.contains_key(id) && after.agents[id].machine_id == machine);
    }
}

/// Only an agent that waits to be deleted is restored; it is then paired.
pub proof fn only_a_pending_deletion_is_restored(t: Tables, id: Uuid)
    requires
        t.agents.contains_key(id),
    ensures
        ({
            let w = Write::RestoreAgent { id };
            tables::effect(w, t) matches Some(after) && after.agents.contains_key(id) && (
            t.agents[id].status == "pending_delete"@ ==> after.agents[id].status == "paired"@) && (
            t.agents[id].status != "pending_delete"@ ==> after == t)
        }),
{
    let after = tables::effect(Write::RestoreAgent { id }, t)->0;
    if t.agents[id].status != "pending_delete"@ {
        assert(after.agents =~= t.agents);
    }
}

/// Marking an agent for deletion and restoring it leaves a paired agent as it
/// was.
pub proof fn a_marked_agent_can_be_restored(t: Tables, id: Uuid)
    requires
        t.agents.contains_key(id),
        t.agents[id].status == "paired"@,
    ensures
        tables::effects(seq![Write::MarkAgentPendingDelete { id }, Write::RestoreAgent { id }], t) == (
            t,
            true,
        ),
{
    let ws = seq![Write::MarkAgentPendingDelete { id }, Write::RestoreAgent { id }];
    lemma_run_two(ws[0], ws[1], t);
    let mid = tables::effect(ws[0], t)->0;
    let after = tables::effect(ws[1], mid)->0;
    reveal_strlit("pending_delete");
    reveal_strlit("paired");
    assert(after.agents =~= t.agents);
}

pub(crate) proof fn lemma_run_one(w: Write, t: Tables)
    ensures
        tables::effects(seq![w], t) == match tables::effect(w, t) {
            Some(after) => (after, true),
            None => (t, false),
        },
{
    reveal_with_fuel(tables::effects, 2);
    assert(seq![w].drop_last() =~= Seq::<Write>::empty());
}

proof fn lemma_run_two(a: Write, b: Write, t: Tables)
    requires
        tables::effect(a, t) is Some,
        tables::effect(b, tables::effect(a, t)->0) is Some,
    ensures
        tables::effects(seq![a, b], t) == (
            tables::effect(b, tables::effect(a, t)->0)->0,
            true,
        ),
{
    assert(seq![a, b].drop_last() =~= seq![a]);
    lemma_run_one(a, t);
}

/// An agent that is deleted takes its users and their use with it, and nothing
/// else.
pub proof fn deleting_an_agent_deletes_its_users(t: Tables, id: Uuid)
    requires
        t.wf(),
    ensures
        tables::effect(Write::DeleteAgent { id }, t) matches Some(after) && {
            &&& !after.agents.contains_key(id)
            &&& forall|u: Uuid| #[trigger]
                after.agent_users.contains_key(u) <==> t.agent_users.contains_key(u)
                    && t.agent_users[u].agent_id != id
            &&& forall|k: (Uuid, Seq<char>)| #[trigger]
                after.usage.contains_key(k) <==> t.usage.contains_key(k)
                    && t.agent_users[k.0].agent_id != id
            &&& after.profiles == t.profiles && after.blocked == t.blocked && after.schedules
                == t.schedules && after.limits == t.limits
        },
{
}

// Users of agents.

/// A user that an agent reports is stored whatever was stored of it before: with
/// the name that was reported, not deleted, and with the profile that it had.
pub proof fn a_reported_user_is_stored(
    w: Write,
    t: Tables,
    agent: Uuid,
    u: LocalUser,
    drawn: Uuid,
    now: i64,
)
    requires
        t.wf(),
        t.agents.contains_key(agent),
        agents::reports_user(w, agent, u, t.has_user(agent, u.local_uid), drawn, now),
        w matches Write::InsertAgentUser { id, .. } ==> !t.agent_users.contains_key(id),
    ensures
        tables::effect(w, t) matches Some(after) && after.has_user(agent, u.local_uid) && forall|
            k: Uuid,
        | #[trigger]
            after.agent_users.contains_key(k) && after.agent_users[k].agent_id == agent
                && after.agent_users[k].local_uid == u.local_uid ==> {
                let row = after.agent_users[k];
                &&& row.local_username == u.username@
                &&& row.display_name == Some(u.display_name@)
                &&& row.last_reported_at == now
                &&& row.status != "deleted"@
                &&& row.profile_id == (if t.agent_users.contains_key(k) {
                    t.agent_users[k].profile_id
                } else {
                    None
                })
            },
{
    reveal_strlit("deleted");
    reveal_strlit("unmanaged");
    assert("deleted"@.len() != "unmanaged"@.len());
    let after = tables::effect(w, t)->0;
    if t.has_user(agent, u.local_uid) {
        let k = choose|k: Uuid| #[trigger]
            t.agent_users.contains_key(k) && t.agent_users[k].agent_id == agent
                && t.agent_users[k].local_uid == u.local_uid;
        assert(after.agent_users.contains_key(k));
    } else {
        let id = w->InsertAgentUser_id;
        assert(after.agent_users.contains_key(id));
        assert forall|k: Uuid| #[trigger]
            after.agent_users.contains_key(k) && after.agent_users[k].agent_id == agent
                && after.agent_users[k].local_uid == u.local_uid implies k == id by {
            if k != id {
                assert(t.agent_users.contains_key(k));
            }
        }
    }
}

/// The changes take in the users of a report one by one, each decided on what is
/// stored by then, with `drawn[i]` for the user at position `i` if it is new.
pub open spec fn takes_in_report(
    ws: Seq<Write>,
    t: Tables,
    agent: Uuid,
    users: Seq<LocalUser>,
    drawn: Seq<Uuid>,
    now: i64,
) -> bool {
    &&& ws.len() == users.len()
    &&& drawn.len() == users.len()
    &&& forall|i: int|
        0 <= i < ws.len() ==> agents::reports_user(
            #[trigger] ws[i],
            agent,
            users[i],
            tables::effects(ws.take(i), t).0.has_user(agent, users[i].local_uid),
            drawn[i],
            now,
        )
}

/// The identifier under which a change stores a new user, if it does.
pub open spec fn new_user_id(w: Write) -> Option<Uuid> {
    match w {
        Write::InsertAgentUser { id, .. } => Some(id),
        _ => None,
    }
}

/// A report lists a user of that number.
pub open spec fn lists_uid(users: Seq<LocalUser>, n: int, uid: u32) -> bool {
    exists|i: int| 0 <= i < n && (#[trigger] users[i]).local_uid == uid
}

/// Of one table to the next, a report of the first `n` users touches only the
/// users that it lists of that agent: every other row stays as it was, and every
/// new row is of one of them.
pub open spec fn touches_only(
    after: Tables,
    t: Tables,
    agent: Uuid,
    users: Seq<LocalUser>,
    n: int,
) -> bool {
    &&& after == (Tables { agent_users: after.agent_users, ..t })
    &&& forall|k: Uuid| #[trigger]
        t.agent_users.contains_key(k) ==> after.agent_users.contains_key(k) && ((
        t.agent_users[k].agent_id != agent || !lists_uid(users, n, t.agent_users[k].local_uid))
            ==> after.agent_users[k] == t.agent_users[k])
    &&& forall|k: Uuid| #[trigger]
        after.agent_users.contains_key(k) && !t.agent_users.contains_key(k)
            ==> after.agent_users[k].agent_id == agent && lists_uid(
            users,
            n,
            after.agent_users[k].local_uid,
        )
    &&& forall|k: Uuid| #[trigger]
        t.agent_users.contains_key(k) ==> after.agent_users[k].agent_id == t.agent_users[k].agent_id
            && after.agent_users[k].local_uid == t.agent_users[k].local_uid
}

/// The user at position `i` is not listed again among the first `n`.
pub open spec fn last_listing(users: Seq<LocalUser>, n: int, i: int) -> bool {
    forall|j: int| i < j < n ==> (#[trigger] users[j]).local_uid != users[i].local_uid
}

/// A row after a report that lists its user: one that was stored keeps its
/// profile, the time at which it was first seen and its state, but for a deleted
/// one, which is unmanaged again; a new one is unmanaged, with no profile and
/// first seen now.
pub open spec fn comes_of(row: AgentUserRow, t: Tables, k: Uuid, now: i64) -> bool {
    &&& row.last_reported_at == now
    &&& if t.agent_users.contains_key(k) {
        let was = t.agent_users[k];
        &&& row.profile_id == was.profile_id
        &&& row.first_seen_at == was.first_seen_at
        &&& row.status == if was.status == "deleted"@ {
            "unmanaged"@
        } else {
            was.status
        }
    } else {
        &&& row.profile_id is None
        &&& row.first_seen_at == now
        &&& row.status == "unmanaged"@
    }
}

/// After a report of the first `n` users, every row of a user that it lists comes
/// of what was stored before, under the names of that user's last listing.
pub open spec fn rows_come_of(
    after: Tables,
    t: Tables,
    agent: Uuid,
    users: Seq<LocalUser>,
    now: i64,
    n: int,
) -> bool {
    &&& forall|k: Uuid| #[trigger]
        after.agent_users.contains_key(k) && after.agent_users[k].agent_id == agent && lists_uid(
            users,
            n,
            after.agent_users[k].local_uid,
        ) ==> comes_of(after.agent_users[k], t, k, now)
    &&& forall|i: int, k: Uuid|
        #![trigger users[i], after.agent_users[k]]
        0 <= i < n && last_listing(users, n, i) && after.agent_users.contains_key(k)
            && after.agent_users[k].agent_id == agent && after.agent_users[k].local_uid
            == users[i].local_uid ==> after.agent_users[k].local_username == users[i].username@
            && after.agent_users[k].display_name == Some(users[i].display_name@)
}

/// A report is taken in whole: where no identifier for a new user is in use or
/// given twice, no change is refused, and afterwards every user that was reported
/// is stored, however often it was listed, under the names of its last listing. A
/// user that was stored keeps its profile, when it was first seen and its state,
/// but for a deleted one, which is unmanaged again; a new one is unmanaged and has
/// no profile. The users that it does not list, and those of other agents, stay
/// as they were.
pub proof fn a_report_is_taken_in_whole(
    ws: Seq<Write>,
    t: Tables,
    agent: Uuid,
    users: Seq<LocalUser>,
    drawn: Seq<Uuid>,
    now: i64,
)
    requires
        t.wf(),
        t.agents.contains_key(agent),
        takes_in_report(ws, t, agent, users, drawn, now),
        forall|i: int|
            0 <= i < ws.len() ==> (new_user_id(#[trigger] ws[i]) matches Some(id)
                ==> !t.agent_users.contains_key(id)),
        forall|i: int, j: int|
            0 <= i < j < ws.len() && new_user_id(#[trigger] ws[i]) is Some ==> new_user_id(ws[i])
                != new_user_id(#[trigger] ws[j]),
    ensures
        tables::effects(ws, t).1,
        forall|i: int|
            0 <= i < users.len() ==> tables::effects(ws, t).0.has_user(
                agent,
                (#[trigger] users[i]).local_uid,
            ),
        touches_only(tables::effects(ws, t).0, t, agent, users, users.len() as int),
        rows_come_of(tables::effects(ws, t).0, t, agent, users, now, users.len() as int),
{
    lemma_report_prefix(ws, t, agent, users, drawn, now, ws.len() as int);
    assert(ws.take(ws.len() as int) =~= ws);
}

proof fn lemma_rows_one_more(
    w: Write,
    t: Tables,
    before: Tables,
    agent: Uuid,
    users: Seq<LocalUser>,
    drawn: Uuid,
    now: i64,
    n: int,
)
    requires
        0 < n <= users.len(),
        touches_only(before, t, agent, users, n - 1),
        rows_come_of(before, t, agent, users, now, n - 1),
        agents::reports_user(
            w,
            agent,
            users[n - 1],
            before.has_user(agent, users[n - 1].local_uid),
            drawn,
            now,
        ),
        w matches Write::InsertAgentUser { id, .. } ==> !before.agent_users.contains_key(id),
        tables::effect(w, before) is Some,
    ensures
        rows_come_of(tables::effect(w, before)->0, t, agent, users, now, n),
{
    reveal_strlit("deleted");
    reveal_strlit("unmanaged");
    assert("deleted"@.len() != "unmanaged"@.len());
    let after = tables::effect(w, before)->0;
    let u = users[n - 1];
    assert forall|k: Uuid| #[trigger]
        after.agent_users.contains_key(k) && after.agent_users[k].agent_id == agent && lists_uid(
            users,
            n,
            after.agent_users[k].local_uid,
        ) implies comes_of(after.agent_users[k], t, k, now) by {
        let uid = after.agent_users[k].local_uid;
        if before.agent_users.contains_key(k) {
            if lists_uid(users, n - 1, uid) {
                assert(comes_of(before.agent_users[k], t, k, now));
            } else {
                let i = choose|i: int| 0 <= i < n && (#[trigger] users[i]).local_uid == uid;
                assert(i == n - 1);
                assert(t.agent_users.contains_key(k));
                assert(before.agent_users[k] == t.agent_users[k]);
            }
        } else {
            assert(!t.agent_users.contains_key(k));
        }
    }
    assert forall|i: int, k: Uuid|
        #![trigger users[i], after.agent_users[k]]
        0 <= i < n && last_listing(users, n, i) && after.agent_users.contains_key(k)
            && after.agent_users[k].agent_id == agent && after.agent_users[k].local_uid
            == users[i].local_uid implies after.agent_users[k].local_username == users[i].username@
        && after.agent_users[k].display_name == Some(users[i].display_name@) by {
        if i < n - 1 {
            assert(users[n - 1].local_uid != users[i].local_uid);
            assert(before.agent_users.contains_key(k));
            assert(before.agent_users[k] == after.agent_users[k]);
            assert(last_listing(users, n - 1, i));
        }
    }
}

#[verifier::rlimit(40)]
proof fn lemma_report_prefix(
    ws: Seq<Write>,
    t: Tables,
    agent: Uuid,
    users: Seq<LocalUser>,
    drawn: Seq<Uuid>,
    now: i64,
    n: int,
)
    requires
        0 <= n <= ws.len(),
        t.wf(),
        t.agents.contains_key(agent),
        takes_in_report(ws, t, agent, users, drawn, now),
        forall|i: int|
            0 <= i < ws.len() ==> (new_user_id(#[trigger] ws[i]) matches Some(id)
                ==> !t.agent_users.contains_key(id)),
        forall|i: int, j: int|
            0 <= i < j < ws.len() && new_user_id(#[trigger] ws[i]) is Some ==> new_user_id(ws[i])
                != new_user_id(#[trigger] ws[j]),
    ensures
        ({
            let (after, fine) = tables::effects(ws.take(n), t);
            &&& fine
            &&& after.wf()
            &&& after.agents == t.agents
            &&& touches_only(after, t, agent, users, n)
            &&& rows_come_of(after, t, agent, users, now, n)
            &&& forall|i: int|
                0 <= i < n ==> after.has_user(agent, (#[trigger] users[i]).local_uid)
            &&& forall|k: Uuid| #[trigger]
                after.agent_users.contains_key(k) ==> t.agent_users.contains_key(k) || exists|
                    j: int,
                |
                    0 <= j < n && new_user_id(#[trigger] ws[j]) == Some(k)
        }),
    decreases n,
{
    if n == 0 {
        assert(ws.take(0) =~= Seq::<Write>::empty());
    } else {
        lemma_report_prefix(ws, t, agent, users, drawn, now, n - 1);
        assert(ws.take(n).drop_last() =~= ws.take(n - 1));
        assert(ws.take(n).last() == ws[n - 1]);
        let before = tables::effects(ws.take(n - 1), t).0;
        let w = ws[n - 1];
        let u = users[n - 1];
        let new_id = drawn[n - 1];
        assert(agents::reports_user(w, agent, u, before.has_user(agent, u.local_uid), new_id, now));
        if new_user_id(w) is Some {
            let id = new_user_id(w)->0;
            if before.agent_users.contains_key(id) {
                let j = choose|j: int| 0 <= j < n - 1 && new_user_id(#[trigger] ws[j]) == Some(id);
                assert(new_user_id(ws[j]) != new_user_id(ws[n - 1]));
            }
        }
        a_reported_user_is_stored(w, before, agent, u, new_id, now);
        tables::a_write_keeps_the_tables_well_formed(w, before);
        let after = tables::effect(w, before)->0;
        lemma_touches_one_more(w, t, before, agent, users, new_id, now, n);
        lemma_rows_one_more(w, t, before, agent, users, new_id, now, n);
        assert forall|i: int| 0 <= i < n implies after.has_user(
            agent,
            (#[trigger] users[i]).local_uid,
        ) by {
            if i < n - 1 {
                let k = choose|k: Uuid| #[trigger]
                    before.agent_users.contains_key(k) && before.agent_users[k].agent_id == agent
                        && before.agent_users[k].local_uid == users[i].local_uid;
                assert(after.agent_users.contains_key(k));
            }
        }
        assert forall|k: Uuid| #[trigger] after.agent_users.contains_key(
            k,
        ) implies t.agent_users.contains_key(k) || exists|j: int|
            0 <= j < n && new_user_id(#[trigger] ws[j]) == Some(k) by {
            if before.agent_users.contains_key(k) {
                if !t.agent_users.contains_key(k) {
                    let j = choose|j: int|
                        0 <= j < n - 1 && new_user_id(#[trigger] ws[j]) == Some(k);
                    assert(0 <= j < n);
                }
            } else {
                assert(new_user_id(ws[n - 1]) == Some(k));
            }
        }
    }
}

proof fn lemma_touches_one_more(
    w: Write,
    t: Tables,
    before: Tables,
    agent: Uuid,
    users: Seq<LocalUser>,
    drawn: Uuid,
    now: i64,
    n: int,
)
    requires
        0 < n <= users.len(),
        touches_only(before, t, agent, users, n - 1),
        agents::reports_user(
            w,
            agent,
            users[n - 1],
            before.has_user(agent, users[n - 1].local_uid),
            drawn,
            now,
        ),
        w matches Write::InsertAgentUser { id, .. } ==> !before.agent_users.contains_key(id),
        tables::effect(w, before) is Some,
    ensures
        touches_only(tables::effect(w, before)->0, t, agent, users, n),
{
    let after = tables::effect(w, before)->0;
    let uid = users[n - 1].local_uid;
    assert(after == (Tables { agent_users: after.agent_users, ..before }));
    assert forall|x: u32| lists_uid(users, n, x) <==> lists_uid(users, n - 1, x) || x == uid by {
        if lists_uid(users, n, x) {
            let i = choose|i: int| 0 <= i < n && (#[trigger] users[i]).local_uid == x;
            assert(i < n - 1 || i == n - 1);
        }
        if lists_uid(users, n - 1, x) {
            let i = choose|i: int| 0 <= i < n - 1 && (#[trigger] users[i]).local_uid == x;
            assert(0 <= i < n);
        }
        if x == uid {
            assert(users[n - 1].local_uid == x);
        }
    }
    assert forall|k: Uuid| #[trigger]
        before.agent_users.contains_key(k) implies after.agent_users.contains_key(k)
        && after.agent_users[k].agent_id == before.agent_users[k].agent_id
        && after.agent_users[k].local_uid == before.agent_users[k].local_uid && ((
    before.agent_users[k].agent_id != agent || before.agent_users[k].local_uid != uid)
        ==> after.agent_users[k] == before.agent_users[k]) by {}
    assert forall|k: Uuid| #[trigger]
        t.agent_users.contains_key(k) implies after.agent_users.contains_key(k) && ((
    t.agent_users[k].agent_id != agent || !lists_uid(users, n, t.agent_users[k].local_uid))
        ==> after.agent_users[k] == t.agent_users[k]) && after.agent_users[k].agent_id
        == t.agent_users[k].agent_id && after.agent_users[k].local_uid
        == t.agent_users[k].local_uid by {
        assert(before.agent_users.contains_key(k));
    }
    assert forall|k: Uuid| #[trigger]
        after.agent_users.contains_key(k) && !t.agent_users.contains_key(
            k,
        ) implies after.agent_users[k].agent_id == agent && lists_uid(
        users,
        n,
        after.agent_users[k].local_uid,
    ) by {
        if before.agent_users.contains_key(k) {
            assert(lists_uid(users, n - 1, before.agent_users[k].local_uid));
        }
    }
}

/// A user that was deleted comes back unmanaged when it is reported again; any
/// other keeps its state.
pub proof fn a_deleted_user_comes_back_unmanaged(
    w: Write,
    t: Tables,
    k: Uuid,
    u: LocalUser,
    drawn: Uuid,
    now: i64,
)
    requires
        t.agent_users.contains_key(k),
        t.agent_users[k].local_uid == u.local_uid,
        agents::reports_user(w, t.agent_users[k].agent_id, u, true, drawn, now),
    ensures
        tables::effect(w, t) matches Some(after) && after.agent_users[k].status == (
        if t.agent_users[k].status == "deleted"@ {
            "unmanaged"@
        } else {
            t.agent_users[k].status
        }),
{
}

/// What is not given is not changed: a user whose profile and state are both
/// left out stays as it is.
pub proof fn an_empty_update_changes_nothing(t: Tables, id: Uuid)
    ensures
        tables::effect(
            Write::AssignAgentUser { id, to_profile: None, to_status: None },
            t,
        ) == Some(t),
{
    let after = tables::effect(
        Write::AssignAgentUser { id, to_profile: None, to_status: None },
        t,
    )->0;
    assert(after.agent_users =~= t.agent_users);
}

/// A user that is given a profile and a state has them; one that is given only a
/// state keeps its profile.
pub proof fn an_update_is_read_back(w: Write, t: Tables)
    requires
        w matches Write::AssignAgentUser { id, .. } && t.agent_users.contains_key(id),
        tables::effect(w, t) is Some,
    ensures
        w matches Write::AssignAgentUser { id, to_profile, to_status } && ({
            let row = (tables::effect(w, t)->0).agent_users[id];
            &&& row.profile_id == (if to_profile is Some {
                to_profile
            } else {
                t.agent_users[id].profile_id
            })
            &&& row.status == match to_status {
                Some(s) => s@,
                None => t.agent_users[id].status,
            }
        }),
{
}

// Settings and versions of a profile.

/// A setting that is stored is read back, and the other settings stay.
pub proof fn settings_are_read_back(t: Tables, profile_id: Uuid, preserve: bool, minutes: i32)
    requires
        t.enforcement.contains_key(profile_id),
    ensures
        tables::effect(Write::SetPreserveTasks { profile_id, preserve }, t) matches Some(a)
            && a.enforcement[profile_id] == (EnforcementRow {
            preserve_tasks_on_lock: preserve,
            ..t.enforcement[profile_id]
        }),
        tables::effect(Write::SetLockoutGrace { profile_id, minutes }, t) matches Some(b)
            && b.enforcement[profile_id] == (EnforcementRow {
            lockout_grace_minutes: minutes as int,
            ..t.enforcement[profile_id]
        }),
{
}

/// The version of a profile's configuration, the first where none is stored.
pub open spec fn version_of(t: Tables, profile_id: Uuid) -> int {
    if t.versions.contains_key(profile_id) {
        t.versions[profile_id].version
    } else {
        1
    }
}

/// Counting up a version makes it greater by one; a profile without a version
/// gets the first. The versions of other profiles stay.
pub proof fn a_bump_counts_up_by_one(t: Tables, profile_id: Uuid, at: i64, other: Uuid)
    requires
        t.wf(),
        t.profiles.contains_key(profile_id),
    ensures
        tables::effect(Write::BumpConfigVersion { profile_id, at }, t) matches Some(after)
            && version_of(after, profile_id) == (if t.versions.contains_key(profile_id) {
            version_of(t, profile_id) + 1
        } else {
            1
        }) && (other != profile_id ==> version_of(after, other) == version_of(t, other)),
{
}

/// A profile that is deleted takes with it everything that belongs to it, and
/// leaves its users in place without a profile.
pub proof fn deleting_a_profile_deletes_what_it_owns(t: Tables, id: Uuid)
    requires
        t.wf(),
    ensures
        tables::effect(Write::DeleteProfile { id }, t) matches Some(after) && {
            &&& !after.profiles.contains_key(id)
            &&& !after.enforcement.contains_key(id)
            &&& !after.versions.contains_key(id)
            &&& forall|s: Uuid| #[trigger]
                after.schedules.contains_key(s) <==> t.schedules.contains_key(s)
                    && t.schedules[s].profile_id != id
            &&& forall|k: (Uuid, int)| #[trigger]
                after.limits.contains_key(k) <==> t.limits.contains_key(k) && k.0 != id
            &&& forall|a: Uuid| #[trigger]
                after.adjustments.contains_key(a) <==> t.adjustments.contains_key(a)
                    && t.adjustments[a].profile_id != id
            &&& forall|b: Uuid| #[trigger]
                after.blocked.contains_key(b) <==> t.blocked.contains_key(b)
                    && t.blocked[b].profile_id != id
            &&& forall|u: Uuid| #[trigger]
                after.agent_users.contains_key(u) <==> t.agent_users.contains_key(u)
            &&& forall|u: Uuid| #[trigger]
                after.agent_users.contains_key(u) ==> after.agent_users[u].profile_id != Some(id)
                    && after.agent_users[u].status == t.agent_users[u].status
            &&& after.usage == t.usage
        },
{
}

} // verus!
