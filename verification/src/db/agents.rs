//! Agents and the users that they report.

use crate::clock::now_timestamp;
use crate::db::query;
use crate::db::query::{
    bare, id_param, text_param, with_one, with_two, Param, ParamView, Query, QueryView,
};
use crate::db::write::Write;
use crate::ids;
use crate::ids::{new_uuid, uuid_parse, Uuid};
use crate::text;
use crate::text::own_opt;
use vstd::prelude::*;

verus! {

pub const AGENT_ID_BY_MACHINE: &'static str = "SELECT id FROM agents WHERE machine_id=$1";

pub const AGENT_BY_ID: &'static str =
    "SELECT id,machine_id,display_name,hostname,timezone,status,auth_token_hash, \
     agent_version,paired_at,last_seen_at,created_at,web_filter_available \
     FROM agents WHERE id=$1";

pub const AGENT_BY_MACHINE: &'static str =
    "SELECT id,machine_id,display_name,hostname,timezone,status,auth_token_hash, \
     agent_version,paired_at,last_seen_at,created_at,web_filter_available \
     FROM agents WHERE machine_id=$1";

pub const AGENTS_NEWEST_FIRST: &'static str =
    "SELECT id,machine_id,display_name,hostname,timezone,status,auth_token_hash, \
     agent_version,paired_at,last_seen_at,created_at,web_filter_available \
     FROM agents ORDER BY created_at DESC";

pub const PENDING_COUNT: &'static str = "SELECT COUNT(*) FROM agents WHERE status='pending'";

pub const AGENT_USER_ID: &'static str =
    "SELECT id FROM agent_users WHERE agent_id=$1 AND local_uid=$2";

pub const AGENT_USERS: &'static str =
    "SELECT id,agent_id,profile_id,local_uid,local_username,display_name,status, \
     first_seen_at,last_reported_at \
     FROM agent_users WHERE agent_id=$1 AND status!='deleted' ORDER BY local_uid";

pub const AGENT_USER_BY_ID: &'static str =
    "SELECT id,agent_id,profile_id,local_uid,local_username,display_name,status, \
     first_seen_at,last_reported_at \
     FROM agent_users WHERE id=$1";

pub const AGENT_USER_BY_UID: &'static str =
    "SELECT id,agent_id,profile_id,local_uid,local_username,display_name,status, \
     first_seen_at,last_reported_at \
     FROM agent_users WHERE agent_id=$1 AND local_uid=$2";

pub const MANAGED_USERS: &'static str =
    "SELECT id,agent_id,profile_id,local_uid,local_username,display_name,status, \
     first_seen_at,last_reported_at \
     FROM agent_users WHERE profile_id=$1 AND status='managed'";

/// Asks for the identifier of the agent on a machine.
pub fn find_agent_id(machine_id: &str) -> (r: Query)
    ensures
        r@ == (QueryView {
            sql: AGENT_ID_BY_MACHINE@,
            params: seq![ParamView::Text(machine_id@)],
        }),
{
    with_one(AGENT_ID_BY_MACHINE, text_param(machine_id))
}

/// The change that an agent makes when it asks to be accepted, and the identifier
/// to read the agent back by: an agent that is known is brought up to date, one
/// that is not is stored under the identifier `drawn`. That is also the one to
/// read by where the stored identifier is none.
pub open spec fn asks_to_be_accepted(
    r: (Uuid, Write),
    existing: Option<&str>,
    drawn: Uuid,
    machine: Seq<char>,
    host: Seq<char>,
    zone: Seq<char>,
    version: Seq<char>,
    now: i64,
) -> bool {
    match existing {
        Some(s) => {
            &&& r.1 matches Write::RefreshAgent {
                machine_id,
                hostname,
                timezone,
                agent_version,
                at,
            } && machine_id@ == machine && hostname@ == host && timezone@ == zone && agent_version@
                == version && at == now
            &&& r.0 == match ids::uuid_value(s@) {
                Some(id) => id,
                None => drawn,
            }
            &&& forall|id: Uuid| s@ == #[trigger] ids::hyphenated(id) ==> r.0 == id
        },
        None => {
            &&& r.1 matches Write::InsertAgent {
                id,
                machine_id,
                hostname,
                timezone,
                agent_version,
                at,
            } && id == drawn && machine_id@ == machine && hostname@ == host && timezone@ == zone
                && agent_version@ == version && at == now
            &&& r.0 == drawn
        },
    }
}

/// Takes in that an agent has asked to be accepted, given the stored identifier
/// of the agent on that machine, if there is one. An agent that is known is
/// brought up to date and waits again, unless it is disabled; a new one is
/// stored under an identifier that is drawn at random. Returns the identifier to
/// read the agent back by.
pub fn upsert_agent_pending(
    existing: Option<&str>,
    machine_id: &str,
    hostname: &str,
    timezone: &str,
    agent_version: &str,
) -> (r: (Uuid, Write))
    ensures
        exists|drawn: Uuid, now: i64|
            ids::is_random_uuid(drawn) && #[trigger] asks_to_be_accepted(
                r,
                existing,
                drawn,
                machine_id@,
                hostname@,
                timezone@,
                agent_version@,
                now,
            ),
{
    let now: i64 = now_timestamp();
    pending_at(existing, machine_id, hostname, timezone, agent_version, now)
}

/// Takes in that an agent has asked to be accepted at the time `now`.
pub fn pending_at(
    existing: Option<&str>,
    machine_id: &str,
    hostname: &str,
    timezone: &str,
    agent_version: &str,
    now: i64,
) -> (r: (Uuid, Write))
    ensures
        exists|drawn: Uuid|
            ids::is_random_uuid(drawn) && #[trigger] asks_to_be_accepted(
                r,
                existing,
                drawn,
                machine_id@,
                hostname@,
                timezone@,
                agent_version@,
                now,
            ),
{
    let drawn: Uuid = new_uuid();
    pending_with(existing, drawn, machine_id, hostname, timezone, agent_version, now)
}

/// Takes in that an agent has asked to be accepted at the time `now`, with
/// `drawn` for an agent that is new.
pub fn pending_with(
    existing: Option<&str>,
    drawn: Uuid,
    machine_id: &str,
    hostname: &str,
    timezone: &str,
    agent_version: &str,
    now: i64,
) -> (r: (Uuid, Write))
    ensures
        asks_to_be_accepted(
            r,
            existing,
            drawn,
            machine_id@,
            hostname@,
            timezone@,
            agent_version@,
            now,
        ),
{
    match existing {
        Some(s) => {
            let id = match uuid_parse(s) {
                Some(id) => id,
                None => drawn,
            };
            let w = Write::RefreshAgent {
                machine_id: machine_id.to_owned(),
                hostname: hostname.to_owned(),
                timezone: timezone.to_owned(),
                agent_version: agent_version.to_owned(),
                at: now,
            };
            (id, w)
        },
        None => {
            let w = Write::InsertAgent {
                id: drawn,
                machine_id: machine_id.to_owned(),
                hostname: hostname.to_owned(),
                timezone: timezone.to_owned(),
                agent_version: agent_version.to_owned(),
                at: now,
            };
            (drawn, w)
        },
    }
}

/// Asks for an agent.
pub fn get_agent_by_id(id: Uuid) -> (r: Query)
    ensures
        r@ == (QueryView { sql: AGENT_BY_ID@, params: seq![query::id_value(id)] }),
{
    with_one(AGENT_BY_ID, id_param(id))
}

/// Asks for the agent on a machine.
pub fn get_agent_by_machine_id(machine_id: &str) -> (r: Query)
    ensures
        r@ == (QueryView { sql: AGENT_BY_MACHINE@, params: seq![ParamView::Text(machine_id@)] }),
{
    with_one(AGENT_BY_MACHINE, text_param(machine_id))
}

/// Asks for all agents, the newest first.
pub fn list_agents() -> (r: Query)
    ensures
        r@ == (QueryView { sql: AGENTS_NEWEST_FIRST@, params: seq![] }),
{
    bare(AGENTS_NEWEST_FIRST)
}

/// Asks how many agents wait to be accepted.
pub fn pending_agent_count() -> (r: Query)
    ensures
        r@ == (QueryView { sql: PENDING_COUNT@, params: seq![] }),
{
    bare(PENDING_COUNT)
}

/// Accepts an agent.
pub fn accept_agent(agent_id: Uuid, auth_token_hash: &str) -> (r: Write)
    ensures
        r matches Write::AcceptAgent { id, auth_token_hash: h, at } && id == agent_id && h@
            == auth_token_hash@,
{
    accepted_at(agent_id, auth_token_hash, now_timestamp())
}

/// Accepts an agent at the time `now`.
pub fn accepted_at(agent_id: Uuid, auth_token_hash: &str, now: i64) -> (r: Write)
    ensures
        r matches Write::AcceptAgent { id, auth_token_hash: h, at } && id == agent_id && h@
            == auth_token_hash@ && at == now,
{
    Write::AcceptAgent { id: agent_id, auth_token_hash: auth_token_hash.to_owned(), at: now }
}

/// Notes that an agent was heard of now.
pub fn update_agent_last_seen(agent_id: Uuid) -> (r: Write)
    ensures
        r matches Write::SetAgentLastSeen { id, at } && id == agent_id,
{
    last_seen_at(agent_id, now_timestamp())
}

/// Notes that an agent was heard of at the time `at`.
pub fn last_seen_at(agent_id: Uuid, at: i64) -> (r: Write)
    ensures
        r == (Write::SetAgentLastSeen { id: agent_id, at }),
{
    Write::SetAgentLastSeen { id: agent_id, at }
}

/// Sets an agent's name and state, each where it is given, the name first.
pub fn update_agent_fields(
    agent_id: Uuid,
    display_name: Option<&str>,
    status: Option<&str>,
) -> (r: Vec<Write>)
    ensures
        match (display_name, status) {
            (Some(n), Some(s)) => {
                &&& r@.len() == 2
                &&& r@[0] matches Write::SetAgentName { id, name } && id == agent_id && name@ == n@
                &&& r@[1] matches Write::SetAgentStatus { id, status: t } && id == agent_id && t@
                    == s@
            },
            (Some(n), None) => {
                &&& r@.len() == 1
                &&& r@[0] matches Write::SetAgentName { id, name } && id == agent_id && name@ == n@
            },
            (None, Some(s)) => {
                &&& r@.len() == 1
                &&& r@[0] matches Write::SetAgentStatus { id, status: t } && id == agent_id && t@
                    == s@
            },
            (None, None) => r@.len() == 0,
        },
{
    let mut r: Vec<Write> = Vec::new();
    if let Some(n) = display_name {
        r.push(Write::SetAgentName { id: agent_id, name: n.to_owned() });
    }
    if let Some(s) = status {
        r.push(Write::SetAgentStatus { id: agent_id, status: s.to_owned() });
    }
    r
}

/// Stores what an agent says of itself in its greeting.
pub fn update_agent_hello(
    agent_id: Uuid,
    hostname: &str,
    timezone: &str,
    agent_version: &str,
) -> (r: Write)
    ensures
        r matches Write::SetAgentHello { id, hostname: h, timezone: z, agent_version: v, at } && id
            == agent_id && h@ == hostname@ && z@ == timezone@ && v@ == agent_version@,
{
    hello_at(agent_id, hostname, timezone, agent_version, now_timestamp())
}

/// Stores what an agent says of itself in its greeting at the time `now`.
pub fn hello_at(
    agent_id: Uuid,
    hostname: &str,
    timezone: &str,
    agent_version: &str,
    now: i64,
) -> (r: Write)
    ensures
        r matches Write::SetAgentHello { id, hostname: h, timezone: z, agent_version: v, at } && id
            == agent_id && h@ == hostname@ && z@ == timezone@ && v@ == agent_version@ && at == now,
{
    Write::SetAgentHello {
        id: agent_id,
        hostname: hostname.to_owned(),
        timezone: timezone.to_owned(),
        agent_version: agent_version.to_owned(),
        at: now,
    }
}

/// Marks an agent to be deleted.
pub fn mark_agent_pending_delete(id: Uuid) -> (r: Write)
    ensures
        r == (Write::MarkAgentPendingDelete { id }),
{
    Write::MarkAgentPendingDelete { id }
}

/// Takes back that an agent is to be deleted.
pub fn restore_agent(id: Uuid) -> (r: Write)
    ensures
        r == (Write::RestoreAgent { id }),
{
    Write::RestoreAgent { id }
}

/// Deletes an agent.
pub fn delete_agent(id: Uuid) -> (r: Write)
    ensures
        r == (Write::DeleteAgent { id }),
{
    Write::DeleteAgent { id }
}

/// Stores whether an agent can filter the web.
pub fn update_agent_web_filter(id: Uuid, available: bool) -> (r: Write)
    ensures
        r == (Write::SetAgentWebFilter { id, available }),
{
    Write::SetAgentWebFilter { id, available }
}

/// A user of a machine, as an agent reports it.
pub struct LocalUser {
    pub local_uid: u32,
    pub username: String,
    pub display_name: String,
}

impl Clone for LocalUser {
    fn clone(&self) -> (r: Self)
        ensures
            r.local_uid == self.local_uid,
            r.username@ == self.username@,
            r.display_name@ == self.display_name@,
    {
        LocalUser {
            local_uid: self.local_uid,
            username: self.username.clone(),
            display_name: self.display_name.clone(),
        }
    }
}

/// Asks whether a user of an agent is stored.
pub fn find_agent_user_id(agent_id: Uuid, local_uid: u32) -> (r: Query)
    ensures
        r@ == (QueryView {
            sql: AGENT_USER_ID@,
            params: seq![query::id_value(agent_id), ParamView::Long(local_uid as i64)],
        }),
{
    with_two(AGENT_USER_ID, id_param(agent_id), Param::Long(local_uid as i64))
}

/// The change that a reported user makes is: bring a stored one up to date, or
/// store a new one under the identifier `drawn`.
pub open spec fn reports_user(
    w: Write,
    agent: Uuid,
    u: LocalUser,
    exists: bool,
    drawn: Uuid,
    now: i64,
) -> bool {
    if exists {
        w matches Write::RefreshAgentUser { agent_id, local_uid, username, display_name, at }
            && agent_id == agent && local_uid == u.local_uid && username@ == u.username@
            && display_name@ == u.display_name@ && at == now
    } else {
        w matches Write::InsertAgentUser { id, agent_id, local_uid, username, display_name, at }
            && id == drawn && agent_id == agent && local_uid == u.local_uid && username@
            == u.username@ && display_name@ == u.display_name@ && at == now
    }
}

/// Takes in one of the users that an agent reports, given whether that user is
/// stored; a new one is stored under an identifier that is drawn at random. The
/// users of one report are taken in one by one, all at one time.
pub fn upsert_agent_users(agent_id: Uuid, user: &LocalUser, exists: bool, now: i64) -> (w: Write)
    ensures
        exists|drawn: Uuid|
            ids::is_random_uuid(drawn) && #[trigger] reports_user(
                w,
                agent_id,
                *user,
                exists,
                drawn,
                now,
            ),
{
    let drawn: Uuid = new_uuid();
    user_reported_with(agent_id, user, exists, drawn, now)
}

/// Takes in one of the users that an agent reports, with `drawn` for a user that
/// is new.
pub fn user_reported_with(
    agent_id: Uuid,
    user: &LocalUser,
    exists: bool,
    drawn: Uuid,
    now: i64,
) -> (w: Write)
    ensures
        reports_user(w, agent_id, *user, exists, drawn, now),
{
    if exists {
        Write::RefreshAgentUser {
            agent_id,
            local_uid: user.local_uid,
            username: user.username.clone(),
            display_name: user.display_name.clone(),
            at: now,
        }
    } else {
        Write::InsertAgentUser {
            id: drawn,
            agent_id,
            local_uid: user.local_uid,
            username: user.username.clone(),
            display_name: user.display_name.clone(),
            at: now,
        }
    }
}

/// Marks users of an agent as deleted.
pub fn mark_agent_users_deleted(agent_id: Uuid, uids: &Vec<u32>) -> (r: Vec<Write>)
    ensures
        r@ == uids@.map_values(
            |u: u32| Write::MarkAgentUserDeleted { agent_id, local_uid: u },
        ),
{
    let mut r: Vec<Write> = Vec::new();
    let mut i: usize = 0;
    while i < uids.len()
        invariant
            i <= uids@.len(),
            r@.len() == i,
            forall|j: int|
                0 <= j < i ==> #[trigger] r@[j] == (Write::MarkAgentUserDeleted {
                    agent_id,
                    local_uid: uids@[j],
                }),
        decreases uids@.len() - i,
    {
        r.push(Write::MarkAgentUserDeleted { agent_id, local_uid: uids[i] });
        i += 1;
    }
    assert(r@ =~= uids@.map_values(
        |u: u32| Write::MarkAgentUserDeleted { agent_id, local_uid: u },
    ));
    r
}

/// Asks for the users of an agent that are not deleted, by number.
pub fn list_agent_users(agent_id: Uuid) -> (r: Query)
    ensures
        r@ == (QueryView { sql: AGENT_USERS@, params: seq![query::id_value(agent_id)] }),
{
    with_one(AGENT_USERS, id_param(agent_id))
}

/// Asks for a user.
pub fn get_agent_user_by_id(id: Uuid) -> (r: Query)
    ensures
        r@ == (QueryView { sql: AGENT_USER_BY_ID@, params: seq![query::id_value(id)] }),
{
    with_one(AGENT_USER_BY_ID, id_param(id))
}

/// Asks for a user of an agent.
pub fn get_agent_user(agent_id: Uuid, local_uid: u32) -> (r: Query)
    ensures
        r@ == (QueryView {
            sql: AGENT_USER_BY_UID@,
            params: seq![query::id_value(agent_id), ParamView::Long(local_uid as i64)],
        }),
{
    with_two(AGENT_USER_BY_UID, id_param(agent_id), Param::Long(local_uid as i64))
}

/// Sets a user's profile and state, each where it is given.
pub fn update_agent_user(
    user_id: Uuid,
    profile_id: Option<Uuid>,
    status: Option<&str>,
) -> (r: Write)
    ensures
        r matches Write::AssignAgentUser { id, to_profile, to_status } && id == user_id
            && to_profile == profile_id && text::opt_text(to_status) == text::opt_str(status),
{
    Write::AssignAgentUser { id: user_id, to_profile: profile_id, to_status: own_opt(status) }
}

/// Asks for the managed users of a profile.
pub fn get_agent_users_for_profile(profile_id: Uuid) -> (r: Query)
    ensures
        r@ == (QueryView { sql: MANAGED_USERS@, params: seq![query::id_value(profile_id)] }),
{
    with_one(MANAGED_USERS, id_param(profile_id))
}

} // verus!
