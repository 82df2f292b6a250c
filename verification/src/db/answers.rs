//! What the database's answers hold: for each request, which rows of the tables
//! come back. Where a request asks for the rows in the order of a number, the
//! answer has them in that order; how texts are ordered is left to the database.

use crate::db::agents;
use crate::db::agents::LocalUser;
use crate::db::laws;
use crate::db::list_laws;
use crate::db::models;
use crate::db::models::{
    StoredAdjustment, StoredAdmin, StoredAgent, StoredAgentUser, StoredBlockedDomain, StoredDailyLimit,
    StoredEnforcement, StoredProfile, StoredSchedule,
};
use crate::db::tables;
use crate::db::tables::{
    AdjustmentRow, AgentRow, AgentUserRow, BlockedRow, ProfileRow, ScheduleRow, Tables,
};
use crate::db::write::Write;
use crate::ids;
use crate::ids::Uuid;
use crate::text;
use vstd::prelude::*;

verus! {

/// The rows that come back are those of the table that `pick` picks, each once,
/// the one of `ids[i]` at position `i`.
pub open spec fn lists_rows<S, V>(
    rows: Seq<S>,
    ids: Seq<Uuid>,
    table: Map<Uuid, V>,
    pick: spec_fn(V) -> bool,
    holds: spec_fn(S, Uuid, V) -> bool,
) -> bool {
    &&& ids.no_duplicates()
    &&& rows.len() == ids.len()
    &&& forall|id: Uuid| #[trigger]
        ids.contains(id) <==> table.contains_key(id) && pick(table[id])
    &&& forall|i: int|
        0 <= i < ids.len() ==> holds(#[trigger] rows[i], ids[i], table[ids[i]])
}

/// Picks every agent.
pub open spec fn any_agent() -> spec_fn(AgentRow) -> bool {
    |a: AgentRow| true
}

/// All columns of an agent.
pub open spec fn agent_columns() -> spec_fn(StoredAgent, Uuid, AgentRow) -> bool {
    |r: StoredAgent, id: Uuid, a: AgentRow| r.holds(id, a)
}

/// Picks every profile.
pub open spec fn any_profile() -> spec_fn(ProfileRow) -> bool {
    |p: ProfileRow| true
}

/// All columns of a profile.
pub open spec fn profile_columns() -> spec_fn(StoredProfile, Uuid, ProfileRow) -> bool {
    |r: StoredProfile, id: Uuid, p: ProfileRow| r.holds(id, p)
}

/// Picks the users of an agent that are not deleted.
pub open spec fn live_user_of(agent_id: Uuid) -> spec_fn(AgentUserRow) -> bool {
    |u: AgentUserRow| u.agent_id == agent_id && u.status != "deleted"@
}

/// Picks the managed users of a profile.
pub open spec fn managed_user_of(profile_id: Uuid) -> spec_fn(AgentUserRow) -> bool {
    |u: AgentUserRow| u.profile_id == Some(profile_id) && u.status == "managed"@
}

/// Picks the windows of a profile.
pub open spec fn window_of(profile_id: Uuid) -> spec_fn(ScheduleRow) -> bool {
    |s: ScheduleRow| s.profile_id == profile_id
}

/// Picks the adjustments of a profile on the dates that `within` holds of.
pub open spec fn adjustment_of(
    profile_id: Uuid,
    within: spec_fn(Seq<char>) -> bool,
) -> spec_fn(AdjustmentRow) -> bool {
    |a: AdjustmentRow| a.profile_id == profile_id && within(a.target_date)
}

/// All columns of an adjustment.
pub open spec fn adjustment_columns() -> spec_fn(StoredAdjustment, Uuid, AdjustmentRow) -> bool {
    |r: StoredAdjustment, id: Uuid, a: AdjustmentRow| r.holds(id, a)
}

/// Picks the domains that a profile lists.
pub open spec fn domain_of(profile_id: Uuid) -> spec_fn(BlockedRow) -> bool {
    |b: BlockedRow| b.profile_id == profile_id
}

/// Picks the domains that a profile blocks.
pub open spec fn blocked_by(profile_id: Uuid) -> spec_fn(BlockedRow) -> bool {
    |b: BlockedRow| b.profile_id == profile_id && b.enabled
}

/// All columns of a user.
pub open spec fn user_columns() -> spec_fn(StoredAgentUser, Uuid, AgentUserRow) -> bool {
    |r: StoredAgentUser, id: Uuid, u: AgentUserRow| r.holds(id, u)
}

/// All columns of a window.
pub open spec fn window_columns() -> spec_fn(StoredSchedule, Uuid, ScheduleRow) -> bool {
    |r: StoredSchedule, id: Uuid, s: ScheduleRow| r.holds(id, s)
}

/// All columns of a listed domain.
pub open spec fn domain_columns() -> spec_fn(StoredBlockedDomain, Uuid, BlockedRow) -> bool {
    |r: StoredBlockedDomain, id: Uuid, b: BlockedRow| r.holds(id, b)
}

/// The name of a listed domain.
pub open spec fn domain_name() -> spec_fn(String, Uuid, BlockedRow) -> bool {
    |r: String, id: Uuid, b: BlockedRow| r@ == b.domain
}

/// The answer to the question how many administrators there are.
pub open spec fn answers_admin_count(t: Tables, n: i64) -> bool {
    t.admins.dom().finite() && n == t.admins.dom().len()
}

/// The agents that wait to be accepted.
pub open spec fn waiting_agents(t: Tables) -> Set<Uuid> {
    Set::new(|id: Uuid| t.agents.contains_key(id) && t.agents[id].status == "pending"@)
}

/// The answer to the question how many agents wait to be accepted.
pub open spec fn answers_pending_count(t: Tables, n: i64) -> bool {
    waiting_agents(t).finite() && n == waiting_agents(t).len()
}

/// The answer to a request for all agents, the newest first.
pub open spec fn answers_agents(t: Tables, rows: Seq<StoredAgent>) -> bool {
    &&& exists|ids: Seq<Uuid>| #[trigger]
        lists_rows(rows, ids, t.agents, any_agent(), agent_columns())
    &&& forall|i: int, j: int|
        0 <= i < j < rows.len() ==> (#[trigger] rows[i]).created_at >= (
        #[trigger] rows[j]).created_at
}

/// The answer to a request for the administrator of a name.
pub open spec fn answers_username(
    t: Tables,
    username: Seq<char>,
    row: Option<StoredAdmin>,
) -> bool {
    match row {
        Some(r) => exists|id: Uuid| #[trigger]
            t.admins.contains_key(id) && t.admins[id].username == username && r.holds(
                id,
                t.admins[id],
            ),
        None => !t.has_username(username),
    }
}

/// The answer to a request for an agent.
pub open spec fn answers_agent(t: Tables, id: Uuid, row: Option<StoredAgent>) -> bool {
    match row {
        Some(r) => t.agents.contains_key(id) && r.holds(id, t.agents[id]),
        None => !t.agents.contains_key(id),
    }
}

/// The answer to a request for the users of an agent that are not deleted, by
/// number.
pub open spec fn answers_agent_users(
    t: Tables,
    agent_id: Uuid,
    rows: Seq<StoredAgentUser>,
) -> bool {
    &&& exists|ids: Seq<Uuid>| #[trigger]
        lists_rows(
            rows,
            ids,
            t.agent_users,
            live_user_of(agent_id),
            user_columns(),
        )
    &&& forall|i: int, j: int|
        0 <= i < j < rows.len() ==> (#[trigger] rows[i]).local_uid <= (
        #[trigger] rows[j]).local_uid
}

/// The answer to a request for the managed users of a profile.
pub open spec fn answers_managed_users(
    t: Tables,
    profile_id: Uuid,
    rows: Seq<StoredAgentUser>,
) -> bool {
    exists|ids: Seq<Uuid>| #[trigger]
        lists_rows(
            rows,
            ids,
            t.agent_users,
            managed_user_of(profile_id),
            user_columns(),
        )
}

/// The answer to a request for a profile.
pub open spec fn answers_profile(t: Tables, id: Uuid, row: Option<StoredProfile>) -> bool {
    match row {
        Some(r) => t.profiles.contains_key(id) && r.holds(id, t.profiles[id]),
        None => !t.profiles.contains_key(id),
    }
}

/// The answer to a request for all profiles.
pub open spec fn answers_profiles(t: Tables, rows: Seq<StoredProfile>) -> bool {
    exists|ids: Seq<Uuid>| #[trigger]
        lists_rows(rows, ids, t.profiles, any_profile(), profile_columns())
}

/// The answer to a request for a profile's windows, by day.
pub open spec fn answers_schedules(
    t: Tables,
    profile_id: Uuid,
    rows: Seq<StoredSchedule>,
) -> bool {
    &&& exists|ids: Seq<Uuid>| #[trigger]
        lists_rows(
            rows,
            ids,
            t.schedules,
            window_of(profile_id),
            window_columns(),
        )
    &&& forall|i: int, j: int|
        0 <= i < j < rows.len() ==> (#[trigger] rows[i]).day_of_week <= (
        #[trigger] rows[j]).day_of_week
}

/// The answer to a request for a profile's daily limits, by day.
pub open spec fn answers_limits(t: Tables, profile_id: Uuid, rows: Seq<StoredDailyLimit>) -> bool {
    &&& forall|i: int|
        0 <= i < rows.len() ==> {
            let r = #[trigger] rows[i];
            &&& r.profile_id@ == ids::hyphenated(profile_id)
            &&& t.limits.contains_key((profile_id, r.day_of_week as int))
            &&& r.allowed_minutes == t.limits[(profile_id, r.day_of_week as int)]
        }
    &&& forall|day: int| #[trigger]
        t.limits.contains_key((profile_id, day)) ==> exists|i: int|
            0 <= i < rows.len() && (#[trigger] rows[i]).day_of_week == day
    &&& forall|i: int, j: int|
        0 <= i < j < rows.len() ==> (#[trigger] rows[i]).day_of_week < (
        #[trigger] rows[j]).day_of_week
}

/// An adjustment of a profile's day.
pub open spec fn adjusts(row: AdjustmentRow, profile_id: Uuid, date: Seq<char>) -> bool {
    row.profile_id == profile_id && row.target_date == date
}

/// The answer to a request for a profile's adjustments between two dates, where
/// `within` holds of the dates that the database counts as between them.
pub open spec fn answers_adjustments(
    t: Tables,
    profile_id: Uuid,
    within: spec_fn(Seq<char>) -> bool,
    rows: Seq<StoredAdjustment>,
) -> bool {
    exists|ids: Seq<Uuid>| #[trigger]
        lists_rows(
            rows,
            ids,
            t.adjustments,
            adjustment_of(profile_id, within),
            adjustment_columns(),
        )
}

/// The answer to a request for the reason of the latest adjustment of a profile's
/// day: that of one than which none was made later.
pub open spec fn answers_latest_reason(
    t: Tables,
    profile_id: Uuid,
    date: Seq<char>,
    row: Option<Option<String>>,
) -> bool {
    match row {
        Some(reason) => exists|id: Uuid| #[trigger]
            t.adjustments.contains_key(id) && adjusts(t.adjustments[id], profile_id, date)
                && text::opt_text(reason) == t.adjustments[id].reason && forall|other: Uuid|
                #[trigger]
                t.adjustments.contains_key(other) && adjusts(
                    t.adjustments[other],
                    profile_id,
                    date,
                ) ==> t.adjustments[other].created_at <= t.adjustments[id].created_at,
        None => forall|id: Uuid| #[trigger]
            t.adjustments.contains_key(id) ==> !adjusts(t.adjustments[id], profile_id, date),
    }
}

/// The answer to a request for a profile's enforcement settings.
pub open spec fn answers_enforcement(
    t: Tables,
    profile_id: Uuid,
    row: Option<StoredEnforcement>,
) -> bool {
    match row {
        Some(r) => t.enforcement.contains_key(profile_id) && r.holds(t.enforcement[profile_id]),
        None => !t.enforcement.contains_key(profile_id),
    }
}

/// The answer to a request for a user's use of a day.
pub open spec fn answers_used(
    t: Tables,
    user: Uuid,
    day: Seq<char>,
    row: Option<i64>,
) -> bool {
    match row {
        Some(s) => t.usage.contains_key((user, day)) && s == t.usage[(user, day)].used_seconds,
        None => !t.usage.contains_key((user, day)),
    }
}

/// The answer to a request for the version of a profile's configuration.
pub open spec fn answers_version(t: Tables, profile_id: Uuid, row: Option<i64>) -> bool {
    match row {
        Some(v) => t.versions.contains_key(profile_id) && v == t.versions[profile_id].version,
        None => !t.versions.contains_key(profile_id),
    }
}

/// The answer to a request for a profile's block list.
pub open spec fn answers_blocked(
    t: Tables,
    profile_id: Uuid,
    rows: Seq<StoredBlockedDomain>,
) -> bool {
    exists|ids: Seq<Uuid>| #[trigger]
        lists_rows(
            rows,
            ids,
            t.blocked,
            domain_of(profile_id),
            domain_columns(),
        )
}

/// The answer to a request for the domains that a profile blocks.
pub open spec fn answers_enabled(t: Tables, profile_id: Uuid, rows: Seq<String>) -> bool {
    exists|ids: Seq<Uuid>| #[trigger]
        lists_rows(
            rows,
            ids,
            t.blocked,
            blocked_by(profile_id),
            domain_name(),
        )
}

/// What is read of a user's use of a day is what is stored, or nothing where
/// nothing is.
pub proof fn the_use_that_is_read_is_the_use_stored(
    t: Tables,
    user: Uuid,
    day: Seq<char>,
    row: Option<i64>,
)
    requires
        answers_used(t, user, day, row),
    ensures
        tables::used_on(t, user, day) == match row {
            Some(s) => s as int,
            None => 0,
        },
{
}

/// A block list that is read holds every domain that the profile lists, blocked
/// or not as it is, and no other.
pub proof fn a_read_shows_the_block_list(
    t: Tables,
    profile_id: Uuid,
    rows: Seq<StoredBlockedDomain>,
    domain: Seq<char>,
    enabled: bool,
)
    requires
        answers_blocked(t, profile_id, rows),
    ensures
        list_laws::lists_as(t, profile_id, domain, enabled) <==> exists|i: int|
            0 <= i < rows.len() && (#[trigger] rows[i]).domain@ == domain && (rows[i].enabled != 0)
                == enabled,
{
    let ids = choose|ids: Seq<Uuid>| #[trigger]
        lists_rows(
            rows,
            ids,
            t.blocked,
            domain_of(profile_id),
            domain_columns(),
        );
    if list_laws::lists_as(t, profile_id, domain, enabled) {
        let b = choose|b: Uuid| #[trigger]
            t.blocked.contains_key(b) && t.blocked[b].profile_id == profile_id
                && t.blocked[b].domain == domain && t.blocked[b].enabled == enabled;
        assert(ids.contains(b));
        let i = ids.index_of(b);
        assert(rows[i].holds(ids[i], t.blocked[ids[i]]));
    }
    if exists|i: int|
        0 <= i < rows.len() && (#[trigger] rows[i]).domain@ == domain && (rows[i].enabled != 0)
            == enabled {
        let i = choose|i: int|
            0 <= i < rows.len() && (#[trigger] rows[i]).domain@ == domain && (rows[i].enabled != 0)
                == enabled;
        assert(rows[i].holds(ids[i], t.blocked[ids[i]]));
        assert(ids.contains(ids[i]));
    }
}

/// The domains that are read as blocked are those that the profile blocks, and
/// no other.
pub proof fn a_read_shows_what_is_blocked(
    t: Tables,
    profile_id: Uuid,
    rows: Seq<String>,
    domain: Seq<char>,
)
    requires
        answers_enabled(t, profile_id, rows),
    ensures
        list_laws::blocks(t, profile_id, domain) <==> exists|i: int|
            0 <= i < rows.len() && (#[trigger] rows[i])@ == domain,
{
    let ids = choose|ids: Seq<Uuid>| #[trigger]
        lists_rows(
            rows,
            ids,
            t.blocked,
            blocked_by(profile_id),
            domain_name(),
        );
    if list_laws::blocks(t, profile_id, domain) {
        let b = choose|b: Uuid| #[trigger]
            t.blocked.contains_key(b) && t.blocked[b].profile_id == profile_id
                && t.blocked[b].domain == domain && t.blocked[b].enabled;
        assert(ids.contains(b));
        let i = ids.index_of(b);
        assert(rows[i]@ == t.blocked[ids[i]].domain);
    }
    if exists|i: int| 0 <= i < rows.len() && (#[trigger] rows[i])@ == domain {
        let i = choose|i: int| 0 <= i < rows.len() && (#[trigger] rows[i])@ == domain;
        assert(rows[i]@ == t.blocked[ids[i]].domain);
        assert(ids.contains(ids[i]));
    }
}

/// The settings that are read after one of them was set have it as it was set,
/// and the others as they were.
pub proof fn settings_that_are_set_are_read(
    t: Tables,
    profile_id: Uuid,
    preserve: bool,
    minutes: i32,
    preserved: Option<StoredEnforcement>,
    graced: Option<StoredEnforcement>,
)
    requires
        t.enforcement.contains_key(profile_id),
        answers_enforcement(
            tables::effect(Write::SetPreserveTasks { profile_id, preserve }, t)->0,
            profile_id,
            preserved,
        ),
        answers_enforcement(
            tables::effect(Write::SetLockoutGrace { profile_id, minutes }, t)->0,
            profile_id,
            graced,
        ),
    ensures
        preserved matches Some(r) && (r.preserve_tasks_on_lock != 0) == preserve
            && r.lockout_grace_minutes == t.enforcement[profile_id].lockout_grace_minutes
            && r.warning_thresholds@ == t.enforcement[profile_id].warning_thresholds,
        graced matches Some(r) && r.lockout_grace_minutes == minutes && (r.preserve_tasks_on_lock
            != 0) == t.enforcement[profile_id].preserve_tasks_on_lock && r.warning_thresholds@
            == t.enforcement[profile_id].warning_thresholds,
{
}

/// The settings that are read of a profile that nobody has changed are those of
/// a profile that has none: five minutes, no preserved tasks, and warnings at
/// 15, 5 and 1 minutes.
pub proof fn default_settings_are_read(t: Tables, profile_id: Uuid, row: Option<StoredEnforcement>)
    requires
        t.enforcement.contains_key(profile_id),
        t.enforcement[profile_id] == tables::default_enforcement(),
        answers_enforcement(t, profile_id, row),
    ensures
        row matches Some(r) && r.lockout_grace_minutes == 5 && r.preserve_tasks_on_lock == 0
            && models::threshold_list(r.warning_thresholds@) == seq![15int, 5, 1],
{
    models::default_thresholds();
}

/// An administrator that is stored is found by name, with the identifier and the
/// password hash that were stored.
pub proof fn a_stored_administrator_is_found(w: Write, t: Tables, row: Option<StoredAdmin>)
    requires
        t.wf(),
        w is InsertAdmin,
        tables::effect(w, t) matches Some(after) && answers_username(
            after,
            w->InsertAdmin_username@,
            row,
        ),
    ensures
        row matches Some(r) && r.id@ == ids::hyphenated(w->InsertAdmin_id) && r.username@
            == w->InsertAdmin_username@ && r.password_hash@ == w->InsertAdmin_password_hash@
            && r.timezone@ == "UTC"@,
{
    let after = tables::effect(w, t)->0;
    assert(after.admins.contains_key(w->InsertAdmin_id));
    if row is None {
        assert(after.has_username(w->InsertAdmin_username@));
    } else {
        let id = choose|id: Uuid| #[trigger]
            after.admins.contains_key(id) && after.admins[id].username
                == w->InsertAdmin_username@ && (row->0).holds(id, after.admins[id]);
        if id != w->InsertAdmin_id {
            assert(t.admins.contains_key(id));
        }
    }
}

/// An agent that asked to be accepted is found afterwards: under the identifier
/// that was drawn for it, waiting, where it was new; and under the one it had where it was
/// known.
pub proof fn an_agent_that_asked_is_found(w: Write, t: Tables, id: Uuid, row: Option<StoredAgent>)
    requires
        w is InsertAgent ==> w->InsertAgent_id == id,
        w is RefreshAgent ==> t.agents.contains_key(id) && t.agents[id].machine_id
            == w->RefreshAgent_machine_id@,
        w is InsertAgent || w is RefreshAgent,
        tables::effect(w, t) matches Some(after) && answers_agent(after, id, row),
    ensures
        row matches Some(r) && r.id@ == ids::hyphenated(id) && (w is InsertAgent ==> r.status@
            == "pending"@ && r.hostname@ == w->InsertAgent_hostname@) && (w is RefreshAgent
            ==> r.hostname@ == w->RefreshAgent_hostname@ && (r.status@ == "pending"@ || r.status@
            == "disabled"@)),
{
}

/// A user that an agent reports is among the users that are read of that agent.
pub proof fn a_reported_user_is_read(
    w: Write,
    t: Tables,
    agent: Uuid,
    u: LocalUser,
    drawn: Uuid,
    now: i64,
    rows: Seq<StoredAgentUser>,
)
    requires
        t.wf(),
        t.agents.contains_key(agent),
        agents::reports_user(w, agent, u, t.has_user(agent, u.local_uid), drawn, now),
        w matches Write::InsertAgentUser { id, .. } ==> !t.agent_users.contains_key(id),
        answers_agent_users(tables::effect(w, t)->0, agent, rows),
    ensures
        exists|i: int|
            0 <= i < rows.len() && (#[trigger] rows[i]).local_uid == u.local_uid
                && rows[i].local_username@ == u.username@,
{
    laws::a_reported_user_is_stored(w, t, agent, u, drawn, now);
    let after = tables::effect(w, t)->0;
    let k = choose|k: Uuid| #[trigger]
        after.agent_users.contains_key(k) && after.agent_users[k].agent_id == agent
            && after.agent_users[k].local_uid == u.local_uid;
    let ids = choose|ids: Seq<Uuid>| #[trigger]
        lists_rows(rows, ids, after.agent_users, live_user_of(agent), user_columns());
    assert(ids.contains(k));
    let i = ids.index_of(k);
    assert(rows[i].holds(ids[i], after.agent_users[ids[i]]));
}

/// The users of an agent are read in the order of their numbers, each number
/// once.
pub proof fn users_are_read_by_number(
    t: Tables,
    agent_id: Uuid,
    rows: Seq<StoredAgentUser>,
    i: int,
    j: int,
)
    requires
        t.wf(),
        answers_agent_users(t, agent_id, rows),
        0 <= i < j < rows.len(),
    ensures
        rows[i].local_uid < rows[j].local_uid,
{
    let ids = choose|ids: Seq<Uuid>| #[trigger]
        lists_rows(rows, ids, t.agent_users, live_user_of(agent_id), user_columns());
    assert(ids.contains(ids[i]) && ids.contains(ids[j]));
    assert(rows[i].holds(ids[i], t.agent_users[ids[i]]));
    assert(rows[j].holds(ids[j], t.agent_users[ids[j]]));
    assert(ids[i] != ids[j]);
}

/// Every agent is read, with what is stored of it, and none was made after one
/// that is read before it.
pub proof fn agents_are_read_newest_first(t: Tables, rows: Seq<StoredAgent>, id: Uuid, i: int)
    requires
        answers_agents(t, rows),
        t.agents.contains_key(id),
        0 <= i < rows.len(),
    ensures
        exists|k: int| 0 <= k < rows.len() && (#[trigger] rows[k]).holds(id, t.agents[id]),
        forall|k: int|
            i < k < rows.len() ==> (#[trigger] rows[k]).created_at <= rows[i].created_at,
{
    let ids = choose|ids: Seq<Uuid>| #[trigger]
        lists_rows(rows, ids, t.agents, any_agent(), agent_columns());
    assert(ids.contains(id));
    let k = ids.index_of(id);
    assert(rows[k].holds(ids[k], t.agents[ids[k]]));
}

/// The columns hold a profile that is stored.
pub open spec fn holds_a_profile(r: StoredProfile, t: Tables) -> bool {
    exists|k: Uuid| #[trigger] t.profiles.contains_key(k) && r.holds(k, t.profiles[k])
}

/// A profile is among all profiles that are read exactly if it is stored, and as
/// it is stored.
pub proof fn every_profile_is_read(t: Tables, rows: Seq<StoredProfile>, id: Uuid)
    requires
        answers_profiles(t, rows),
    ensures
        t.profiles.contains_key(id) ==> exists|i: int|
            0 <= i < rows.len() && (#[trigger] rows[i]).holds(id, t.profiles[id]),
        forall|i: int| 0 <= i < rows.len() ==> holds_a_profile(#[trigger] rows[i], t),
{
    let ids = choose|ids: Seq<Uuid>| #[trigger]
        lists_rows(rows, ids, t.profiles, any_profile(), profile_columns());
    if t.profiles.contains_key(id) {
        assert(ids.contains(id));
        let i = ids.index_of(id);
        assert(rows[i].holds(ids[i], t.profiles[ids[i]]));
    }
    assert forall|i: int| 0 <= i < rows.len() implies holds_a_profile(#[trigger] rows[i], t) by {
        assert(ids.contains(ids[i]));
        assert(rows[i].holds(ids[i], t.profiles[ids[i]]));
    }
}

/// The limits that are read are those that the profile has, and no other: at
/// most one for each day of the week, in the order of the days.
pub proof fn a_read_shows_the_limits(
    t: Tables,
    profile_id: Uuid,
    rows: Seq<StoredDailyLimit>,
    day: int,
    minutes: int,
)
    requires
        t.wf(),
        answers_limits(t, profile_id, rows),
    ensures
        list_laws::limit_of(t, profile_id, day) == Some(minutes) <==> exists|i: int|
            0 <= i < rows.len() && (#[trigger] rows[i]).day_of_week == day
                && rows[i].allowed_minutes == minutes,
        rows.len() <= 7,
{
    if list_laws::limit_of(t, profile_id, day) == Some(minutes) {
        let i = choose|i: int| 0 <= i < rows.len() && (#[trigger] rows[i]).day_of_week == day;
        assert(rows[i].allowed_minutes == minutes);
    }
    if rows.len() > 7 {
        lemma_days_grow(t, profile_id, rows, 7);
        assert(t.limits.contains_key((profile_id, rows[7].day_of_week as int)));
    }
}

proof fn lemma_days_grow(t: Tables, profile_id: Uuid, rows: Seq<StoredDailyLimit>, i: int)
    requires
        t.wf(),
        answers_limits(t, profile_id, rows),
        0 <= i < rows.len(),
    ensures
        rows[i].day_of_week >= i,
    decreases i,
{
    assert(t.limits.contains_key((profile_id, rows[i].day_of_week as int)));
    if i > 0 {
        lemma_days_grow(t, profile_id, rows, i - 1);
    }
}

/// An adjustment that was made is read, as it was made, wherever its date is
/// asked for, and nowhere else.
pub proof fn an_adjustment_is_read(
    w: Write,
    t: Tables,
    profile_id: Uuid,
    within: spec_fn(Seq<char>) -> bool,
    rows: Seq<StoredAdjustment>,
)
    requires
        w is InsertAdjustment,
        tables::effect(w, t) matches Some(after) && answers_adjustments(
            after,
            profile_id,
            within,
            rows,
        ),
    ensures
        (exists|i: int|
            0 <= i < rows.len() && (#[trigger] rows[i]).id@ == ids::hyphenated(
                w->InsertAdjustment_id,
            ) && rows[i].adjustment_minutes == w->InsertAdjustment_minutes && rows[i].target_date@
                == w->InsertAdjustment_target_date@ && text::opt_text(rows[i].reason)
                == text::opt_text(w->InsertAdjustment_reason) && rows[i].created_at
                == w->InsertAdjustment_at) <== w->InsertAdjustment_profile_id == profile_id
            && within(w->InsertAdjustment_target_date@),
        forall|i: int|
            0 <= i < rows.len() ==> within((#[trigger] rows[i]).target_date@)
                && rows[i].profile_id@ == ids::hyphenated(profile_id),
{
    let after = tables::effect(w, t)->0;
    let id = w->InsertAdjustment_id;
    let ids = choose|ids: Seq<Uuid>| #[trigger]
        lists_rows(
            rows,
            ids,
            after.adjustments,
            adjustment_of(profile_id, within),
            adjustment_columns(),
        );
    assert(after.adjustments.contains_key(id));
    if w->InsertAdjustment_profile_id == profile_id && within(w->InsertAdjustment_target_date@) {
        assert(ids.contains(id));
        let i = ids.index_of(id);
        assert(rows[i].holds(ids[i], after.adjustments[ids[i]]));
    }
    assert forall|i: int| 0 <= i < rows.len() implies within((#[trigger] rows[i]).target_date@)
        && rows[i].profile_id@ == ids::hyphenated(profile_id) by {
        assert(ids.contains(ids[i]));
        assert(rows[i].holds(ids[i], after.adjustments[ids[i]]));
    }
}

/// After an adjustment later than any other of that day, its reason is the one
/// that is read, and it is the only one that can be.
pub proof fn the_latest_reason_is_read(w: Write, t: Tables, row: Option<Option<String>>)
    requires
        w matches Write::InsertAdjustment {
            id,
            profile_id,
            target_date,
            minutes,
            reason,
            created_by,
            at,
        } && (forall|other: Uuid| #[trigger]
            t.adjustments.contains_key(other) && adjusts(
                t.adjustments[other],
                profile_id,
                target_date@,
            ) ==> t.adjustments[other].created_at < at) && (tables::effect(w, t) matches Some(after)
            && answers_latest_reason(after, profile_id, target_date@, row)),
    ensures
        row matches Some(reason) && text::opt_text(reason) == text::opt_text(
            w->InsertAdjustment_reason,
        ),
{
    let after = tables::effect(w, t)->0;
    let id = w->InsertAdjustment_id;
    let p = w->InsertAdjustment_profile_id;
    let date = w->InsertAdjustment_target_date@;
    assert(after.adjustments.contains_key(id) && adjusts(after.adjustments[id], p, date));
    if row is Some {
        let found = choose|k: Uuid| #[trigger]
            after.adjustments.contains_key(k) && adjusts(after.adjustments[k], p, date)
                && text::opt_text(row->0) == after.adjustments[k].reason && forall|other: Uuid|
                #[trigger]
                after.adjustments.contains_key(other) && adjusts(
                    after.adjustments[other],
                    p,
                    date,
                ) ==> after.adjustments[other].created_at <= after.adjustments[k].created_at;
        if found != id {
            assert(t.adjustments.contains_key(found));
        }
    }
}

/// Every administrator that is stored counts as one more, so that there are none
/// exactly while the count is zero.
pub proof fn administrators_are_counted(w: Write, t: Tables, before: i64, after: i64)
    requires
        w is InsertAdmin,
        answers_admin_count(t, before),
        tables::effect(w, t) matches Some(then_on) && answers_admin_count(then_on, after),
    ensures
        after == before + 1,
        before == 0 <==> t.admins == Map::<Uuid, tables::AdminRow>::empty(),
{
    let next = tables::effect(w, t)->0;
    assert(next.admins.dom() =~= t.admins.dom().insert(w->InsertAdmin_id));
    if before == 0 {
        assert(t.admins.dom() =~= Set::empty());
        assert(t.admins =~= Map::<Uuid, tables::AdminRow>::empty());
    }
}

/// An agent that waits and is accepted is waited for no more: the count goes down
/// by one.
pub proof fn an_accepted_agent_is_not_waiting(
    t: Tables,
    id: Uuid,
    w: Write,
    before: i64,
    after: i64,
)
    requires
        w matches Write::AcceptAgent { id: i, .. } && i == id,
        t.agents.contains_key(id) && t.agents[id].status == "pending"@,
        answers_pending_count(t, before),
        answers_pending_count(tables::effect(w, t)->0, after),
    ensures
        after == before - 1,
{
    reveal_strlit("pending");
    reveal_strlit("paired");
    assert("pending"@.len() != "paired"@.len());
    let next = tables::effect(w, t)->0;
    assert(waiting_agents(t).contains(id));
    assert(waiting_agents(next) =~= waiting_agents(t).remove(id));
}

/// A user that is given a profile and managed is among the managed users that
/// are read of that profile; a user in another state is not.
pub proof fn only_managed_users_are_read(
    t: Tables,
    profile_id: Uuid,
    user: Uuid,
    rows: Seq<StoredAgentUser>,
)
    requires
        t.agent_users.contains_key(user),
        t.agent_users[user].profile_id == Some(profile_id),
        answers_managed_users(t, profile_id, rows),
    ensures
        t.agent_users[user].status == "managed"@ ==> exists|i: int|
            0 <= i < rows.len() && (#[trigger] rows[i]).id@ == ids::hyphenated(user),
        forall|i: int| 0 <= i < rows.len() ==> (#[trigger] rows[i]).status@ == "managed"@,
{
    let ids = choose|ids: Seq<Uuid>| #[trigger]
        lists_rows(rows, ids, t.agent_users, managed_user_of(profile_id), user_columns());
    if t.agent_users[user].status == "managed"@ {
        assert(ids.contains(user));
        let i = ids.index_of(user);
        assert(rows[i].holds(ids[i], t.agent_users[ids[i]]));
    }
    assert forall|i: int| 0 <= i < rows.len() implies (#[trigger] rows[i]).status@
        == "managed"@ by {
        assert(rows[i].holds(ids[i], t.agent_users[ids[i]]));
        assert(ids.contains(ids[i]));
    }
}

/// A profile's name and language are read as they were last set.
pub proof fn a_profile_is_read_as_it_was_set(
    t: Tables,
    renamed: Write,
    translated: Write,
    named: Option<StoredProfile>,
    spoken: Option<StoredProfile>,
)
    requires
        renamed matches Write::SetProfileName { id, .. } && t.profiles.contains_key(id)
            && answers_profile(tables::effect(renamed, t)->0, id, named),
        translated matches Write::SetProfileLanguage { id, .. } && t.profiles.contains_key(id)
            && answers_profile(tables::effect(translated, t)->0, id, spoken),
    ensures
        renamed matches Write::SetProfileName { id, name, at } && (named matches Some(r)
            && r.display_name@ == name@ && r.language@ == t.profiles[id].language && r.updated_at
            == at && r.created_at == t.profiles[id].created_at),
        translated matches Write::SetProfileLanguage { id, language, at } && (spoken matches Some(
            r,
        ) && r.language@ == language@ && r.display_name@ == t.profiles[id].display_name
            && r.updated_at == at && r.created_at == t.profiles[id].created_at),
{
}

/// The windows that are read are those that the profile has, and no other.
pub proof fn a_read_shows_the_windows(
    t: Tables,
    profile_id: Uuid,
    rows: Seq<StoredSchedule>,
    day: int,
    start: Seq<char>,
    end: Seq<char>,
)
    requires
        answers_schedules(t, profile_id, rows),
    ensures
        (exists|k: Uuid| #[trigger]
            t.schedules.contains_key(k) && t.schedules[k] == (ScheduleRow {
                profile_id,
                day_of_week: day,
                start_time: start,
                end_time: end,
            })) <==> (exists|i: int|
            0 <= i < rows.len() && (#[trigger] rows[i]).day_of_week == day && rows[i].start_time@
                == start && rows[i].end_time@ == end),
{
    let ids = choose|ids: Seq<Uuid>| #[trigger]
        lists_rows(rows, ids, t.schedules, window_of(profile_id), window_columns());
    let row = ScheduleRow { profile_id, day_of_week: day, start_time: start, end_time: end };
    if exists|k: Uuid| #[trigger] t.schedules.contains_key(k) && t.schedules[k] == row {
        let k = choose|k: Uuid| #[trigger] t.schedules.contains_key(k) && t.schedules[k] == row;
        assert(ids.contains(k));
        let i = ids.index_of(k);
        assert(rows[i].holds(ids[i], t.schedules[ids[i]]));
    }
    if exists|i: int|
        0 <= i < rows.len() && (#[trigger] rows[i]).day_of_week == day && rows[i].start_time@
            == start && rows[i].end_time@ == end {
        let i = choose|i: int|
            0 <= i < rows.len() && (#[trigger] rows[i]).day_of_week == day && rows[i].start_time@
                == start && rows[i].end_time@ == end;
        assert(rows[i].holds(ids[i], t.schedules[ids[i]]));
        assert(ids.contains(ids[i]));
        assert(t.schedules[ids[i]] == row);
    }
}

/// The version that is read after a count is one more than the version before.
pub proof fn a_counted_version_is_read(
    t: Tables,
    profile_id: Uuid,
    at: i64,
    before: Option<i64>,
    after: Option<i64>,
)
    requires
        t.profiles.contains_key(profile_id),
        answers_version(t, profile_id, before),
        answers_version(
            tables::effect(Write::BumpConfigVersion { profile_id, at }, t)->0,
            profile_id,
            after,
        ),
    ensures
        after matches Some(v) && v == match before {
            Some(b) => b + 1,
            None => 1,
        },
{
}

} // verus!
