//! What is bound to each statement that changes the store, column by column, and
//! what the statement makes of the tables.

use crate::db::query::ParamView;
use crate::db::tables;
use crate::db::tables::{
    AdminRow, AgentRow, AgentUserRow, BlockedRow, EnforcementRow, ProfileRow, Tables, UsageRow,
    VersionRow,
};
use crate::db::write::Write;
use crate::ids;
use crate::ids::Uuid;
use vstd::prelude::*;

verus! {

/// A new administrator is stored with the name, the hash and the time that are bound
/// to those columns, and with UTC for a zone; a name or an identifier that is taken is
/// refused.
pub proof fn storing_an_administrator(
    t: Tables,
    id: Uuid,
    username: String,
    password_hash: String,
    at: i64,
)
    ensures
        ({
            let w = Write::InsertAdmin { id, username, password_hash, at };
            let v = w.values();
            &&& w.sql_text() == "INSERT INTO admin_users (id, username, password_hash, created_at) \
                VALUES ($1,$2,$3,$4)"@
            &&& v.len() == 4
            &&& v[0] == ParamView::Text(ids::hyphenated(id))
            &&& v[1] == ParamView::Text(username@)
            &&& v[2] == ParamView::Text(password_hash@)
            &&& v[3] == ParamView::Long(at)
            &&& tables::effect(w, t) is None <==> (t.admins.contains_key(id) || exists|a: Uuid| #[trigger]
                t.admins.contains_key(a) && t.admins[a].username == username@)
            &&& tables::effect(w, t) matches Some(after) ==> {
                let row = after.admins[id];
                &&& after == (Tables { admins: t.admins.insert(id, row), ..t })
                &&& v[1] == ParamView::Text(row.username)
                &&& v[2] == ParamView::Text(row.password_hash)
                &&& v[3] matches ParamView::Long(n) && row.created_at == n
                &&& row.timezone == "UTC"@
            }
        }),
{
}

/// The zone that is bound becomes the zone of the administrator that is bound, and
/// nothing else changes.
pub proof fn setting_a_time_zone(
    t: Tables,
    id: Uuid,
    timezone: String,
)
    ensures
        ({
            let w = Write::SetAdminTimezone { id, timezone };
            let v = w.values();
            &&& w.sql_text() == "UPDATE admin_users SET timezone=$1 WHERE id=$2"@
            &&& v.len() == 2
            &&& v[0] == ParamView::Text(timezone@)
            &&& v[1] == ParamView::Text(ids::hyphenated(id))
            &&& tables::effect(w, t) == Some(
                Tables {
                    admins: if t.admins.contains_key(id) {
                        t.admins.insert(id, AdminRow { timezone: timezone@, ..t.admins[id] })
                    } else {
                        t.admins
                    },
                    ..t
                },
            )
        }),
{
}

/// A new agent is stored with what is bound to its columns: it waits, has the name of
/// its host, was heard of when it was made, and has no token yet. A machine or an
/// identifier that is taken is refused.
pub proof fn storing_an_agent(
    t: Tables,
    id: Uuid,
    machine_id: String,
    hostname: String,
    timezone: String,
    agent_version: String,
    at: i64,
)
    ensures
        ({
            let w = Write::InsertAgent { id, machine_id, hostname, timezone, agent_version, at };
            let v = w.values();
            &&& w.sql_text() == "INSERT INTO agents \
                (id,machine_id,display_name,hostname,timezone,status,agent_version,created_at,last_seen_at) \
                VALUES ($1,$2,$3,$4,$5,'pending',$6,$7,$7)"@
            &&& v.len() == 7
            &&& v[0] == ParamView::Text(ids::hyphenated(id))
            &&& v[1] == ParamView::Text(machine_id@)
            &&& v[2] == ParamView::Text(hostname@)
            &&& v[3] == ParamView::Text(hostname@)
            &&& v[4] == ParamView::Text(timezone@)
            &&& v[5] == ParamView::Text(agent_version@)
            &&& v[6] == ParamView::Long(at)
            &&& tables::effect(w, t) is None <==> (t.agents.contains_key(id) || exists|a: Uuid| #[trigger]
                t.agents.contains_key(a) && t.agents[a].machine_id == machine_id@)
            &&& tables::effect(w, t) matches Some(after) ==> {
                let row = after.agents[id];
                &&& after == (Tables { agents: t.agents.insert(id, row), ..t })
                &&& v[1] == ParamView::Text(row.machine_id)
                &&& v[2] == ParamView::Text(row.display_name)
                &&& v[3] == ParamView::Text(row.hostname)
                &&& v[4] == ParamView::Text(row.timezone)
                &&& row.status == "pending"@
                &&& row.agent_version matches Some(s) && v[5] == ParamView::Text(s)
                &&& v[6] matches ParamView::Long(n) && row.created_at == n
                &&& v[6] matches ParamView::Long(n) && row.last_seen_at == Some(n as int)
                &&& row.auth_token_hash is None
                &&& row.paired_at is None
                &&& row.web_filter_available is None
            }
        }),
{
}

/// What is bound becomes the host, the zone, the version and the time of the agent on
/// the machine that is bound; unless it is disabled, it waits again.
pub proof fn bringing_an_agent_up_to_date(
    t: Tables,
    machine_id: String,
    hostname: String,
    timezone: String,
    agent_version: String,
    at: i64,
)
    ensures
        ({
            let w = Write::RefreshAgent { machine_id, hostname, timezone, agent_version, at };
            let v = w.values();
            &&& w.sql_text() == "UPDATE agents SET hostname=$1, timezone=$2, agent_version=$3, \
                last_seen_at=$4, status=CASE WHEN status='disabled' THEN 'disabled' \
                ELSE 'pending' END WHERE machine_id=$5"@
            &&& v.len() == 5
            &&& v[0] == ParamView::Text(hostname@)
            &&& v[1] == ParamView::Text(timezone@)
            &&& v[2] == ParamView::Text(agent_version@)
            &&& v[3] == ParamView::Long(at)
            &&& v[4] == ParamView::Text(machine_id@)
            &&& tables::effect(w, t) matches Some(after) && {
                &&& after == (Tables { agents: after.agents, ..t })
                &&& after.agents.dom() == t.agents.dom()
                &&& forall|k: Uuid| #[trigger]
                    t.agents.contains_key(k) ==> {
                        let row = t.agents[k];
                        after.agents[k] == if row.machine_id == machine_id@ {
                            AgentRow { hostname: hostname@,
                                timezone: timezone@,
                                agent_version: Some(agent_version@),
                                last_seen_at: Some(at as int),
                                status: if row.status == "disabled"@ {
                                    "disabled"@
                                } else {
                                    "pending"@
                                }, ..row }
                        } else {
                            row
                        }
                    }
            }
        }),
{
}

/// The agent that is bound is paired, with the hash and the time that are bound.
pub proof fn accepting_an_agent(
    t: Tables,
    id: Uuid,
    auth_token_hash: String,
    at: i64,
)
    ensures
        ({
            let w = Write::AcceptAgent { id, auth_token_hash, at };
            let v = w.values();
            &&& w.sql_text() == "UPDATE agents SET status='paired', auth_token_hash=$1, paired_at=$2 \
                WHERE id=$3"@
            &&& v.len() == 3
            &&& v[0] == ParamView::Text(auth_token_hash@)
            &&& v[1] == ParamView::Long(at)
            &&& v[2] == ParamView::Text(ids::hyphenated(id))
            &&& tables::effect(w, t) == Some(
                Tables {
                    agents: if t.agents.contains_key(id) {
                        t.agents.insert(id, AgentRow { status: "paired"@, auth_token_hash: Some(auth_token_hash@), paired_at: Some(at as int), ..t.agents[id] })
                    } else {
                        t.agents
                    },
                    ..t
                },
            )
        }),
{
}

/// The agent that is bound was last heard of at the time that is bound.
pub proof fn noting_an_agent(
    t: Tables,
    id: Uuid,
    at: i64,
)
    ensures
        ({
            let w = Write::SetAgentLastSeen { id, at };
            let v = w.values();
            &&& w.sql_text() == "UPDATE agents SET last_seen_at=$1 WHERE id=$2"@
            &&& v.len() == 2
            &&& v[0] == ParamView::Long(at)
            &&& v[1] == ParamView::Text(ids::hyphenated(id))
            &&& tables::effect(w, t) == Some(
                Tables {
                    agents: if t.agents.contains_key(id) {
                        t.agents.insert(id, AgentRow { last_seen_at: Some(at as int), ..t.agents[id] })
                    } else {
                        t.agents
                    },
                    ..t
                },
            )
        }),
{
}

/// The name that is bound becomes that of the agent that is bound.
pub proof fn naming_an_agent(
    t: Tables,
    id: Uuid,
    name: String,
)
    ensures
        ({
            let w = Write::SetAgentName { id, name };
            let v = w.values();
            &&& w.sql_text() == "UPDATE agents SET display_name=$1 WHERE id=$2"@
            &&& v.len() == 2
            &&& v[0] == ParamView::Text(name@)
            &&& v[1] == ParamView::Text(ids::hyphenated(id))
            &&& tables::effect(w, t) == Some(
                Tables {
                    agents: if t.agents.contains_key(id) {
                        t.agents.insert(id, AgentRow { display_name: name@, ..t.agents[id] })
                    } else {
                        t.agents
                    },
                    ..t
                },
            )
        }),
{
}

/// The state that is bound becomes that of the agent that is bound; for an agent that
/// is there, a text that is no state is refused.
pub proof fn setting_the_state_of_an_agent(
    t: Tables,
    id: Uuid,
    status: String,
)
    ensures
        ({
            let w = Write::SetAgentStatus { id, status };
            let v = w.values();
            &&& w.sql_text() == "UPDATE agents SET status=$1 WHERE id=$2"@
            &&& v.len() == 2
            &&& v[0] == ParamView::Text(status@)
            &&& v[1] == ParamView::Text(ids::hyphenated(id))
            &&& tables::effect(w, t) is None <==> t.agents.contains_key(id) && status@ != "pending"@
                && status@ != "paired"@ && status@ != "disabled"@ && status@ != "pending_delete"@
            &&& tables::effect(w, t) matches Some(after) ==> after == (Tables {
                agents: if t.agents.contains_key(id) {
                    t.agents.insert(id, AgentRow { status: status@, ..t.agents[id] })
                } else {
                    t.agents
                },
                ..t
            })
        }),
{
}

/// What is bound becomes the host, the zone, the version and the time of the agent that
/// is bound; its state stays.
pub proof fn taking_in_a_greeting(
    t: Tables,
    id: Uuid,
    hostname: String,
    timezone: String,
    agent_version: String,
    at: i64,
)
    ensures
        ({
            let w = Write::SetAgentHello { id, hostname, timezone, agent_version, at };
            let v = w.values();
            &&& w.sql_text() == "UPDATE agents SET hostname=$1, timezone=$2, agent_version=$3, \
                last_seen_at=$4 WHERE id=$5"@
            &&& v.len() == 5
            &&& v[0] == ParamView::Text(hostname@)
            &&& v[1] == ParamView::Text(timezone@)
            &&& v[2] == ParamView::Text(agent_version@)
            &&& v[3] == ParamView::Long(at)
            &&& v[4] == ParamView::Text(ids::hyphenated(id))
            &&& tables::effect(w, t) == Some(
                Tables {
                    agents: if t.agents.contains_key(id) {
                        t.agents.insert(id, AgentRow { hostname: hostname@,
                                timezone: timezone@,
                                agent_version: Some(agent_version@),
                                last_seen_at: Some(at as int), ..t.agents[id] })
                    } else {
                        t.agents
                    },
                    ..t
                },
            )
        }),
{
}

/// The agent that is bound waits to be deleted.
pub proof fn marking_an_agent(
    t: Tables,
    id: Uuid,
)
    ensures
        ({
            let w = Write::MarkAgentPendingDelete { id };
            let v = w.values();
            &&& w.sql_text() == "UPDATE agents SET status='pending_delete' WHERE id=$1"@
            &&& v.len() == 1
            &&& v[0] == ParamView::Text(ids::hyphenated(id))
            &&& tables::effect(w, t) == Some(
                Tables {
                    agents: if t.agents.contains_key(id) {
                        t.agents.insert(id, AgentRow { status: "pending_delete"@, ..t.agents[id] })
                    } else {
                        t.agents
                    },
                    ..t
                },
            )
        }),
{
}

/// The agent that is bound is paired again where it waits to be deleted; any other stays
/// as it is.
pub proof fn restoring_an_agent(
    t: Tables,
    id: Uuid,
)
    ensures
        ({
            let w = Write::RestoreAgent { id };
            let v = w.values();
            &&& w.sql_text() == "UPDATE agents SET status='paired' WHERE id=$1 AND \
                status='pending_delete'"@
            &&& v.len() == 1
            &&& v[0] == ParamView::Text(ids::hyphenated(id))
            &&& tables::effect(w, t) == Some(
                Tables {
                    agents: if t.agents.contains_key(id) && t.agents[id].status
                        == "pending_delete"@ {
                        t.agents.insert(id, AgentRow { status: "paired"@, ..t.agents[id] })
                    } else {
                        t.agents
                    },
                    ..t
                },
            )
        }),
{
    if t.agents.contains_key(id) {
        assert(t.agents.insert(id, t.agents[id]) =~= t.agents);
    }
}

/// The agent that is bound goes, and with it its users and their use; all else stays.
pub proof fn deleting_an_agent(
    t: Tables,
    id: Uuid,
)
    ensures
        ({
            let w = Write::DeleteAgent { id };
            let v = w.values();
            &&& w.sql_text() == "DELETE FROM agents WHERE id=$1"@
            &&& v.len() == 1
            &&& v[0] == ParamView::Text(ids::hyphenated(id))
            &&& tables::effect(w, t) matches Some(after) && {
                &&& after == (Tables {
                    agents: t.agents.remove(id),
                    agent_users: after.agent_users,
                    usage: after.usage,
                    ..t
                })
                &&& forall|u: Uuid| #[trigger]
                    after.agent_users.contains_key(u) <==> t.agent_users.contains_key(u)
                        && t.agent_users[u].agent_id != id
                &&& forall|u: Uuid| #[trigger]
                    after.agent_users.contains_key(u) ==> after.agent_users[u] == t.agent_users[u]
                &&& forall|k: (Uuid, Seq<char>)| #[trigger]
                    after.usage.contains_key(k) <==> t.usage.contains_key(k) && !(
                    t.agent_users.contains_key(k.0) && t.agent_users[k.0].agent_id == id)
                &&& forall|k: (Uuid, Seq<char>)| #[trigger]
                    after.usage.contains_key(k) ==> after.usage[k] == t.usage[k]
            }
        }),
{
}

/// The agent that is bound can filter the web where a one is bound, and cannot where a
/// zero is.
pub proof fn noting_a_web_filter(
    t: Tables,
    id: Uuid,
    available: bool,
)
    ensures
        ({
            let w = Write::SetAgentWebFilter { id, available };
            let v = w.values();
            &&& w.sql_text() == "UPDATE agents SET web_filter_available=$1 WHERE id=$2"@
            &&& v.len() == 2
            &&& v[0] == ParamView::Int(
                if available {
                    1
                } else {
                    0
                },
            )
            &&& v[1] == ParamView::Text(ids::hyphenated(id))
            &&& tables::effect(w, t) == Some(
                Tables {
                    agents: if t.agents.contains_key(id) {
                        t.agents.insert(id, AgentRow { web_filter_available: Some(available), ..t.agents[id] })
                    } else {
                        t.agents
                    },
                    ..t
                },
            )
        }),
{
}

/// A new user of an agent is stored with what is bound to its columns: not managed,
/// without a profile, and seen first and last at the time that is bound. An agent that
/// is not there, a number that it has and an identifier that is taken are refused.
pub proof fn storing_a_user(
    t: Tables,
    id: Uuid,
    agent_id: Uuid,
    local_uid: u32,
    username: String,
    display_name: String,
    at: i64,
)
    ensures
        ({
            let w = Write::InsertAgentUser { id, agent_id, local_uid, username, display_name, at };
            let v = w.values();
            &&& w.sql_text() == "INSERT INTO agent_users \
                (id,agent_id,local_uid,local_username,display_name,status,first_seen_at,last_reported_at) \
                VALUES ($1,$2,$3,$4,$5,'unmanaged',$6,$6)"@
            &&& v.len() == 6
            &&& v[0] == ParamView::Text(ids::hyphenated(id))
            &&& v[1] == ParamView::Text(ids::hyphenated(agent_id))
            &&& v[2] == ParamView::Long(local_uid as i64)
            &&& v[3] == ParamView::Text(username@)
            &&& v[4] == ParamView::Text(display_name@)
            &&& v[5] == ParamView::Long(at)
            &&& tables::effect(w, t) is None <==> (t.agent_users.contains_key(id) || !t.agents.contains_key(agent_id)
                || exists|u: Uuid| #[trigger]
                t.agent_users.contains_key(u) && t.agent_users[u].agent_id == agent_id
                    && t.agent_users[u].local_uid == local_uid)
            &&& tables::effect(w, t) matches Some(after) ==> {
                let row = after.agent_users[id];
                &&& after == (Tables { agent_users: t.agent_users.insert(id, row), ..t })
                &&& v[1] == ParamView::Text(ids::hyphenated(row.agent_id))
                &&& v[2] matches ParamView::Long(n) && row.local_uid == n
                &&& v[3] == ParamView::Text(row.local_username)
                &&& row.display_name matches Some(s) && v[4] == ParamView::Text(s)
                &&& row.profile_id is None
                &&& row.status == "unmanaged"@
                &&& v[5] matches ParamView::Long(n) && row.first_seen_at == n
                &&& v[5] matches ParamView::Long(n) && row.last_reported_at == n
            }
        }),
{
}

/// What is bound becomes the names and the time of the user of that number on the agent
/// that is bound; one that was deleted is back, and not managed.
pub proof fn bringing_a_user_up_to_date(
    t: Tables,
    agent_id: Uuid,
    local_uid: u32,
    username: String,
    display_name: String,
    at: i64,
)
    ensures
        ({
            let w = Write::RefreshAgentUser { agent_id, local_uid, username, display_name, at };
            let v = w.values();
            &&& w.sql_text() == "UPDATE agent_users SET local_username=$1, display_name=$2, \
                last_reported_at=$3, status=CASE WHEN status='deleted' THEN \
                'unmanaged' ELSE status END WHERE agent_id=$4 AND local_uid=$5"@
            &&& v.len() == 5
            &&& v[0] == ParamView::Text(username@)
            &&& v[1] == ParamView::Text(display_name@)
            &&& v[2] == ParamView::Long(at)
            &&& v[3] == ParamView::Text(ids::hyphenated(agent_id))
            &&& v[4] == ParamView::Long(local_uid as i64)
            &&& tables::effect(w, t) matches Some(after) && {
                &&& after == (Tables { agent_users: after.agent_users, ..t })
                &&& after.agent_users.dom() == t.agent_users.dom()
                &&& forall|k: Uuid| #[trigger]
                    t.agent_users.contains_key(k) ==> {
                        let row = t.agent_users[k];
                        after.agent_users[k] == if row.agent_id == agent_id && row.local_uid == local_uid {
                            AgentUserRow { local_username: username@,
                                display_name: Some(display_name@),
                                last_reported_at: at as int,
                                status: if row.status == "deleted"@ {
                                    "unmanaged"@
                                } else {
                                    row.status
                                }, ..row }
                        } else {
                            row
                        }
                    }
            }
        }),
{
}

/// The user of that number on the agent that is bound is deleted; all others stay.
pub proof fn marking_a_user(
    t: Tables,
    agent_id: Uuid,
    local_uid: u32,
)
    ensures
        ({
            let w = Write::MarkAgentUserDeleted { agent_id, local_uid };
            let v = w.values();
            &&& w.sql_text() == "UPDATE agent_users SET status='deleted' WHERE agent_id=$1 AND \
                local_uid=$2"@
            &&& v.len() == 2
            &&& v[0] == ParamView::Text(ids::hyphenated(agent_id))
            &&& v[1] == ParamView::Long(local_uid as i64)
            &&& tables::effect(w, t) matches Some(after) && {
                &&& after == (Tables { agent_users: after.agent_users, ..t })
                &&& after.agent_users.dom() == t.agent_users.dom()
                &&& forall|k: Uuid| #[trigger]
                    t.agent_users.contains_key(k) ==> {
                        let row = t.agent_users[k];
                        after.agent_users[k] == if row.agent_id == agent_id && row.local_uid == local_uid {
                            AgentUserRow { status: "deleted"@, ..row }
                        } else {
                            row
                        }
                    }
            }
        }),
{
}

/// The profile and the state of the user that is bound become those that are bound; where
/// nothing is bound they stay. For a user that is there, a profile that is not and a text
/// that is no state are refused.
pub proof fn assigning_a_user(
    t: Tables,
    id: Uuid,
    to_profile: Option<Uuid>,
    to_status: Option<String>,
)
    ensures
        ({
            let w = Write::AssignAgentUser { id, to_profile, to_status };
            let v = w.values();
            &&& w.sql_text() == "UPDATE agent_users SET profile_id=COALESCE($1, profile_id), \
                status=COALESCE($2, status) WHERE id=$3"@
            &&& v.len() == 3
            &&& v[0] == ParamView::OptText(
                match to_profile {
                    Some(i) => Some(ids::hyphenated(i)),
                    None => None,
                },
            )
            &&& v[1] == ParamView::OptText(
                match to_status {
                    Some(s) => Some(s@),
                    None => None,
                },
            )
            &&& v[2] == ParamView::Text(ids::hyphenated(id))
            &&& tables::effect(w, t) is None <==> t.agent_users.contains_key(id) && ((
            to_profile matches Some(p) && !t.profiles.contains_key(p)) || (to_status matches Some(s)
                && s@ != "unmanaged"@ && s@ != "managed"@ && s@ != "deleted"@))
            &&& tables::effect(w, t) matches Some(after) ==> after == (Tables {
                agent_users: if t.agent_users.contains_key(id) {
                    t.agent_users.insert(
                        id,
                        AgentUserRow {
                            profile_id: match to_profile {
                                Some(p) => Some(p),
                                None => t.agent_users[id].profile_id,
                            },
                            status: match to_status {
                                Some(s) => s@,
                                None => t.agent_users[id].status,
                            },
                            ..t.agent_users[id]
                        },
                    )
                } else {
                    t.agent_users
                },
                ..t
            })
        }),
{
}

/// A new profile is stored with the name that is bound, made and changed at the time
/// that is bound, in English; an identifier that is taken is refused.
pub proof fn storing_a_profile(
    t: Tables,
    id: Uuid,
    name: String,
    at: i64,
)
    ensures
        ({
            let w = Write::InsertProfile { id, name, at };
            let v = w.values();
            &&& w.sql_text() == "INSERT INTO user_profiles (id, display_name, created_at, updated_at) \
                VALUES ($1,$2,$3,$3)"@
            &&& v.len() == 3
            &&& v[0] == ParamView::Text(ids::hyphenated(id))
            &&& v[1] == ParamView::Text(name@)
            &&& v[2] == ParamView::Long(at)
            &&& tables::effect(w, t) is None <==> t.profiles.contains_key(id)
            &&& tables::effect(w, t) matches Some(after) ==> {
                let row = after.profiles[id];
                &&& after == (Tables { profiles: t.profiles.insert(id, row), ..t })
                &&& v[1] == ParamView::Text(row.display_name)
                &&& row.language == "en"@
                &&& v[2] matches ParamView::Long(n) && row.created_at == n
                &&& v[2] matches ParamView::Long(n) && row.updated_at == n
            }
        }),
{
}

/// The profile that is bound gets five minutes of grace, warnings at 15, 5 and 1 minutes,
/// and no preserved tasks; one that is not there or has settings is refused.
pub proof fn storing_settings(
    t: Tables,
    profile_id: Uuid,
)
    ensures
        ({
            let w = Write::InsertEnforcement { profile_id };
            let v = w.values();
            &&& w.sql_text() == "INSERT INTO enforcement_settings (profile_id) VALUES ($1)"@
            &&& v.len() == 1
            &&& v[0] == ParamView::Text(ids::hyphenated(profile_id))
            &&& tables::effect(w, t) is None <==> t.enforcement.contains_key(profile_id)
                || !t.profiles.contains_key(profile_id)
            &&& tables::effect(w, t) matches Some(after) ==> {
                let row = after.enforcement[profile_id];
                &&& after == (Tables { enforcement: t.enforcement.insert(profile_id, row), ..t })
                &&& row.lockout_grace_minutes == 5
                &&& row.warning_thresholds == "15,5,1"@
                &&& !row.preserve_tasks_on_lock
            }
        }),
{
}

/// The configuration of the profile that is bound has the version one from the time that
/// is bound on; a profile that is not there or has a version is refused.
pub proof fn storing_a_first_version(
    t: Tables,
    profile_id: Uuid,
    at: i64,
)
    ensures
        ({
            let w = Write::InsertConfigVersion { profile_id, at };
            let v = w.values();
            &&& w.sql_text() == "INSERT INTO config_versions (profile_id, version, updated_at) VALUES \
                ($1, 1, $2)"@
            &&& v.len() == 2
            &&& v[0] == ParamView::Text(ids::hyphenated(profile_id))
            &&& v[1] == ParamView::Long(at)
            &&& tables::effect(w, t) is None <==> t.versions.contains_key(profile_id)
                || !t.profiles.contains_key(profile_id)
            &&& tables::effect(w, t) matches Some(after) ==> {
                let row = after.versions[profile_id];
                &&& after == (Tables { versions: t.versions.insert(profile_id, row), ..t })
                &&& row.version == 1
                &&& v[1] matches ParamView::Long(n) && row.updated_at == n
            }
        }),
{
}

/// The domain that is bound is listed for the profile that is bound, and not blocked. One
/// that is listed stays as it is; a profile that is not there is refused.
pub proof fn seeding_a_domain(
    t: Tables,
    id: Uuid,
    profile_id: Uuid,
    domain: String,
    at: i64,
)
    ensures
        ({
            let w = Write::SeedBlockedDomain { id, profile_id, domain, at };
            let v = w.values();
            &&& w.sql_text() == "INSERT INTO blocked_domains (id, profile_id, domain, enabled, \
                created_at) VALUES ($1, $2, $3, 0, $4) ON CONFLICT DO NOTHING"@
            &&& v.len() == 4
            &&& v[0] == ParamView::Text(ids::hyphenated(id))
            &&& v[1] == ParamView::Text(ids::hyphenated(profile_id))
            &&& v[2] == ParamView::Text(domain@)
            &&& v[3] == ParamView::Long(at)
            &&& ({
                let listed = t.blocked.contains_key(id) || exists|b: Uuid| #[trigger]
                    t.blocked.contains_key(b) && t.blocked[b].profile_id == profile_id
                        && t.blocked[b].domain == domain@;
                &&& listed ==> tables::effect(w, t) == Some(t)
                &&& !listed ==> (tables::effect(w, t) is None <==> !t.profiles.contains_key(
                    profile_id,
                ))
                &&& !listed ==> (tables::effect(w, t) matches Some(after) ==> {
                    let row = after.blocked[id];
                    &&& after == (Tables { blocked: t.blocked.insert(id, row), ..t })
                    &&& v[1] == ParamView::Text(ids::hyphenated(row.profile_id))
                    &&& v[2] == ParamView::Text(row.domain)
                    &&& !row.enabled
                    &&& v[3] matches ParamView::Long(n) && row.created_at == n
                })
            })
        }),
{
}

/// The language that is bound becomes that of the profile that is bound, changed at the
/// time that is bound.
pub proof fn setting_a_language(
    t: Tables,
    id: Uuid,
    language: String,
    at: i64,
)
    ensures
        ({
            let w = Write::SetProfileLanguage { id, language, at };
            let v = w.values();
            &&& w.sql_text() == "UPDATE user_profiles SET language=$1, updated_at=$2 WHERE id=$3"@
            &&& v.len() == 3
            &&& v[0] == ParamView::Text(language@)
            &&& v[1] == ParamView::Long(at)
            &&& v[2] == ParamView::Text(ids::hyphenated(id))
            &&& tables::effect(w, t) == Some(
                Tables {
                    profiles: if t.profiles.contains_key(id) {
                        t.profiles.insert(id, ProfileRow { language: language@, updated_at: at as int, ..t.profiles[id] })
                    } else {
                        t.profiles
                    },
                    ..t
                },
            )
        }),
{
}

/// The name that is bound becomes that of the profile that is bound, changed at the time
/// that is bound.
pub proof fn naming_a_profile(
    t: Tables,
    id: Uuid,
    name: String,
    at: i64,
)
    ensures
        ({
            let w = Write::SetProfileName { id, name, at };
            let v = w.values();
            &&& w.sql_text() == "UPDATE user_profiles SET display_name=$1, updated_at=$2 WHERE id=$3"@
            &&& v.len() == 3
            &&& v[0] == ParamView::Text(name@)
            &&& v[1] == ParamView::Long(at)
            &&& v[2] == ParamView::Text(ids::hyphenated(id))
            &&& tables::effect(w, t) == Some(
                Tables {
                    profiles: if t.profiles.contains_key(id) {
                        t.profiles.insert(id, ProfileRow { display_name: name@, updated_at: at as int, ..t.profiles[id] })
                    } else {
                        t.profiles
                    },
                    ..t
                },
            )
        }),
{
}

/// The profile that is bound goes, and with it all that belongs to it; its users are left
/// without a profile, and all else stays.
pub proof fn deleting_a_profile(
    t: Tables,
    id: Uuid,
)
    ensures
        ({
            let w = Write::DeleteProfile { id };
            let v = w.values();
            &&& w.sql_text() == "DELETE FROM user_profiles WHERE id=$1"@
            &&& v.len() == 1
            &&& v[0] == ParamView::Text(ids::hyphenated(id))
            &&& tables::effect(w, t) matches Some(after) && {
                &&& after == (Tables {
                    profiles: t.profiles.remove(id),
                    enforcement: t.enforcement.remove(id),
                    versions: t.versions.remove(id),
                    agent_users: after.agent_users,
                    schedules: after.schedules,
                    limits: after.limits,
                    adjustments: after.adjustments,
                    blocked: after.blocked,
                    ..t
                })
                &&& after.agent_users.dom() == t.agent_users.dom()
                &&& forall|u: Uuid| #[trigger]
                    t.agent_users.contains_key(u) ==> after.agent_users[u] == AgentUserRow {
                        profile_id: if t.agent_users[u].profile_id == Some(id) {
                            None
                        } else {
                            t.agent_users[u].profile_id
                        },
                        ..t.agent_users[u]
                    }
                &&& forall|k: Uuid| #[trigger]
                    after.schedules.contains_key(k) <==> t.schedules.contains_key(k)
                        && t.schedules[k].profile_id != id
                &&& forall|k: Uuid| #[trigger]
                    after.schedules.contains_key(k) ==> after.schedules[k] == t.schedules[k]
                &&& forall|k: (Uuid, int)| #[trigger]
                    after.limits.contains_key(k) <==> t.limits.contains_key(k) && k.0 != id
                &&& forall|k: (Uuid, int)| #[trigger]
                    after.limits.contains_key(k) ==> after.limits[k] == t.limits[k]
                &&& forall|k: Uuid| #[trigger]
                    after.adjustments.contains_key(k) <==> t.adjustments.contains_key(k)
                        && t.adjustments[k].profile_id != id
                &&& forall|k: Uuid| #[trigger]
                    after.adjustments.contains_key(k) ==> after.adjustments[k] == t.adjustments[k]
                &&& forall|k: Uuid| #[trigger]
                    after.blocked.contains_key(k) <==> t.blocked.contains_key(k)
                        && t.blocked[k].profile_id != id
                &&& forall|k: Uuid| #[trigger]
                    after.blocked.contains_key(k) ==> after.blocked[k] == t.blocked[k]
            }
        }),
{
}

/// The windows of the profile that is bound go; all others stay.
pub proof fn clearing_windows(
    t: Tables,
    profile_id: Uuid,
)
    ensures
        ({
            let w = Write::ClearSchedules { profile_id };
            let v = w.values();
            &&& w.sql_text() == "DELETE FROM schedules WHERE profile_id=$1"@
            &&& v.len() == 1
            &&& v[0] == ParamView::Text(ids::hyphenated(profile_id))
            &&& tables::effect(w, t) matches Some(after) && {
                &&& after == (Tables { schedules: after.schedules, ..t })
                &&& forall|k: Uuid| #[trigger]
                    after.schedules.contains_key(k) <==> t.schedules.contains_key(k) && t.schedules[k].profile_id != profile_id
                &&& forall|k: Uuid| #[trigger]
                    after.schedules.contains_key(k) ==> after.schedules[k] == t.schedules[k]
            }
        }),
{
}

/// A window is stored with the profile, the day, the start and the end that are bound to
/// those very columns; a profile that is not there, a day that is none of the week and an
/// identifier that is taken are refused.
pub proof fn storing_a_window(
    t: Tables,
    id: Uuid,
    profile_id: Uuid,
    day_of_week: u8,
    start: String,
    end: String,
)
    ensures
        ({
            let w = Write::InsertSchedule { id, profile_id, day_of_week, start, end };
            let v = w.values();
            &&& w.sql_text() == "INSERT INTO schedules (id, profile_id, day_of_week, start_time, \
                end_time) VALUES ($1,$2,$3,$4,$5)"@
            &&& v.len() == 5
            &&& v[0] == ParamView::Text(ids::hyphenated(id))
            &&& v[1] == ParamView::Text(ids::hyphenated(profile_id))
            &&& v[2] == ParamView::Int(day_of_week as i32)
            &&& v[3] == ParamView::Text(start@)
            &&& v[4] == ParamView::Text(end@)
            &&& tables::effect(w, t) is None <==> t.schedules.contains_key(id)
                || !t.profiles.contains_key(profile_id) || day_of_week > 6
            &&& tables::effect(w, t) matches Some(after) ==> {
                let row = after.schedules[id];
                &&& after == (Tables { schedules: t.schedules.insert(id, row), ..t })
                &&& v[1] == ParamView::Text(ids::hyphenated(row.profile_id))
                &&& v[2] matches ParamView::Int(n) && row.day_of_week == n
                &&& v[3] == ParamView::Text(row.start_time)
                &&& v[4] == ParamView::Text(row.end_time)
            }
        }),
{
}

/// The limits of the profile that is bound go; all others stay.
pub proof fn clearing_limits(
    t: Tables,
    profile_id: Uuid,
)
    ensures
        ({
            let w = Write::ClearDailyLimits { profile_id };
            let v = w.values();
            &&& w.sql_text() == "DELETE FROM daily_limits WHERE profile_id=$1"@
            &&& v.len() == 1
            &&& v[0] == ParamView::Text(ids::hyphenated(profile_id))
            &&& tables::effect(w, t) matches Some(after) && {
                &&& after == (Tables { limits: after.limits, ..t })
                &&& forall|k: (Uuid, int)| #[trigger]
                    after.limits.contains_key(k) <==> t.limits.contains_key(k) && k.0 != profile_id
                &&& forall|k: (Uuid, int)| #[trigger]
                    after.limits.contains_key(k) ==> after.limits[k] == t.limits[k]
            }
        }),
{
}

/// The minutes that are bound become the limit of the day and the profile that are bound.
/// A profile that is not there, a day that is none of the week or has a limit, and a
/// negative limit are refused.
pub proof fn storing_a_limit(
    t: Tables,
    profile_id: Uuid,
    day_of_week: u8,
    minutes: i32,
)
    ensures
        ({
            let w = Write::InsertDailyLimit { profile_id, day_of_week, minutes };
            let v = w.values();
            &&& w.sql_text() == "INSERT INTO daily_limits (profile_id, day_of_week, allowed_minutes) \
                VALUES ($1,$2,$3)"@
            &&& v.len() == 3
            &&& v[0] == ParamView::Text(ids::hyphenated(profile_id))
            &&& v[1] == ParamView::Int(day_of_week as i32)
            &&& v[2] == ParamView::Int(minutes)
            &&& tables::effect(w, t) is None <==> t.limits.contains_key(
                (profile_id, day_of_week as int),
            ) || !t.profiles.contains_key(profile_id) || day_of_week > 6 || minutes < 0
            &&& tables::effect(w, t) matches Some(after) ==> after == (Tables {
                limits: t.limits.insert((profile_id, day_of_week as int), minutes as int),
                ..t
            })
        }),
{
}

/// An adjustment is stored with the profile, the date, the minutes, the reason, the
/// administrator and the time that are bound to those very columns; a profile or an
/// administrator that is not there and an identifier that is taken are refused.
pub proof fn storing_an_adjustment(
    t: Tables,
    id: Uuid,
    profile_id: Uuid,
    target_date: String,
    minutes: i32,
    reason: Option<String>,
    created_by: Option<Uuid>,
    at: i64,
)
    ensures
        ({
            let w = Write::InsertAdjustment { id, profile_id, target_date, minutes, reason, created_by, at };
            let v = w.values();
            &&& w.sql_text() == "INSERT INTO time_adjustments \
                (id,profile_id,target_date,adjustment_minutes,reason,created_by,created_at) \
                VALUES ($1,$2,$3,$4,$5,$6,$7)"@
            &&& v.len() == 7
            &&& v[0] == ParamView::Text(ids::hyphenated(id))
            &&& v[1] == ParamView::Text(ids::hyphenated(profile_id))
            &&& v[2] == ParamView::Text(target_date@)
            &&& v[3] == ParamView::Int(minutes)
            &&& v[4] == ParamView::OptText(
                match reason {
                    Some(s) => Some(s@),
                    None => None,
                },
            )
            &&& v[5] == ParamView::OptText(
                match created_by {
                    Some(i) => Some(ids::hyphenated(i)),
                    None => None,
                },
            )
            &&& v[6] == ParamView::Long(at)
            &&& tables::effect(w, t) is None <==> t.adjustments.contains_key(id)
                || !t.profiles.contains_key(profile_id) || (created_by matches Some(u)
                && !t.admins.contains_key(u))
            &&& tables::effect(w, t) matches Some(after) ==> {
                let row = after.adjustments[id];
                &&& after == (Tables { adjustments: t.adjustments.insert(id, row), ..t })
                &&& v[1] == ParamView::Text(ids::hyphenated(row.profile_id))
                &&& v[2] == ParamView::Text(row.target_date)
                &&& v[3] matches ParamView::Int(n) && row.minutes == n
                &&& v[4] == ParamView::OptText(row.reason)
                &&& row.created_by == created_by
                &&& v[6] matches ParamView::Long(n) && row.created_at == n
            }
        }),
{
}

/// The tasks of the profile that is bound are preserved where a one is bound, and not
/// where a zero is.
pub proof fn setting_preserved_tasks(
    t: Tables,
    profile_id: Uuid,
    preserve: bool,
)
    ensures
        ({
            let w = Write::SetPreserveTasks { profile_id, preserve };
            let v = w.values();
            &&& w.sql_text() == "UPDATE enforcement_settings SET preserve_tasks_on_lock=$1 WHERE \
                profile_id=$2"@
            &&& v.len() == 2
            &&& v[0] == ParamView::Int(
                if preserve {
                    1
                } else {
                    0
                },
            )
            &&& v[1] == ParamView::Text(ids::hyphenated(profile_id))
            &&& tables::effect(w, t) == Some(
                Tables {
                    enforcement: if t.enforcement.contains_key(profile_id) {
                        t.enforcement.insert(profile_id, EnforcementRow { preserve_tasks_on_lock: preserve, ..t.enforcement[profile_id] })
                    } else {
                        t.enforcement
                    },
                    ..t
                },
            )
        }),
{
}

/// The minutes that are bound become the grace of the profile that is bound.
pub proof fn setting_the_grace(
    t: Tables,
    profile_id: Uuid,
    minutes: i32,
)
    ensures
        ({
            let w = Write::SetLockoutGrace { profile_id, minutes };
            let v = w.values();
            &&& w.sql_text() == "UPDATE enforcement_settings SET lockout_grace_minutes=$1 WHERE \
                profile_id=$2"@
            &&& v.len() == 2
            &&& v[0] == ParamView::Int(minutes)
            &&& v[1] == ParamView::Text(ids::hyphenated(profile_id))
            &&& tables::effect(w, t) == Some(
                Tables {
                    enforcement: if t.enforcement.contains_key(profile_id) {
                        t.enforcement.insert(profile_id, EnforcementRow { lockout_grace_minutes: minutes as int, ..t.enforcement[profile_id] })
                    } else {
                        t.enforcement
                    },
                    ..t
                },
            )
        }),
{
}

/// The seconds that are bound are added to the use of the user on the date that are bound,
/// as of the time that is bound; a user that is not there is refused.
pub proof fn adding_use(
    t: Tables,
    agent_user_id: Uuid,
    date: String,
    seconds: i64,
    at: i64,
)
    ensures
        ({
            let w = Write::AddUsage { agent_user_id, date, seconds, at };
            let v = w.values();
            &&& w.sql_text() == "INSERT INTO daily_usage (agent_user_id, date, used_seconds, \
                reported_at) VALUES ($1,$2,$3,$4) ON CONFLICT(agent_user_id, date) DO \
                UPDATE SET \
                used_seconds=daily_usage.used_seconds+EXCLUDED.used_seconds, \
                reported_at=EXCLUDED.reported_at"@
            &&& v.len() == 4
            &&& v[0] == ParamView::Text(ids::hyphenated(agent_user_id))
            &&& v[1] == ParamView::Text(date@)
            &&& v[2] == ParamView::Long(seconds)
            &&& v[3] == ParamView::Long(at)
            &&& tables::effect(w, t) is None <==> !t.agent_users.contains_key(agent_user_id)
            &&& tables::effect(w, t) matches Some(after) ==> after == (Tables {
                usage: t.usage.insert(
                    (agent_user_id, date@),
                    UsageRow {
                        used_seconds: if t.usage.contains_key((agent_user_id, date@)) {
                            t.usage[(agent_user_id, date@)].used_seconds + seconds
                        } else {
                            seconds as int
                        },
                        reported_at: at as int,
                    },
                ),
                ..t
            })
        }),
{
}

/// The seconds that are bound become the use of the user on the date that are bound, as of
/// the time that is bound; a user that is not there is refused.
pub proof fn setting_use(
    t: Tables,
    agent_user_id: Uuid,
    date: String,
    seconds: i64,
    at: i64,
)
    ensures
        ({
            let w = Write::SetUsage { agent_user_id, date, seconds, at };
            let v = w.values();
            &&& w.sql_text() == "INSERT INTO daily_usage (agent_user_id, date, used_seconds, \
                reported_at) VALUES ($1,$2,$3,$4) ON CONFLICT(agent_user_id, date) DO \
                UPDATE SET used_seconds=EXCLUDED.used_seconds, \
                reported_at=EXCLUDED.reported_at"@
            &&& v.len() == 4
            &&& v[0] == ParamView::Text(ids::hyphenated(agent_user_id))
            &&& v[1] == ParamView::Text(date@)
            &&& v[2] == ParamView::Long(seconds)
            &&& v[3] == ParamView::Long(at)
            &&& tables::effect(w, t) is None <==> !t.agent_users.contains_key(agent_user_id)
            &&& tables::effect(w, t) matches Some(after) ==> after == (Tables {
                usage: t.usage.insert(
                    (agent_user_id, date@),
                    UsageRow {
                        used_seconds: seconds as int,
                        reported_at: at as int,
                    },
                ),
                ..t
            })
        }),
{
}

/// The domains of the profile that is bound go; all others stay.
pub proof fn clearing_a_block_list(
    t: Tables,
    profile_id: Uuid,
)
    ensures
        ({
            let w = Write::ClearBlockedDomains { profile_id };
            let v = w.values();
            &&& w.sql_text() == "DELETE FROM blocked_domains WHERE profile_id=$1"@
            &&& v.len() == 1
            &&& v[0] == ParamView::Text(ids::hyphenated(profile_id))
            &&& tables::effect(w, t) matches Some(after) && {
                &&& after == (Tables { blocked: after.blocked, ..t })
                &&& forall|k: Uuid| #[trigger]
                    after.blocked.contains_key(k) <==> t.blocked.contains_key(k) && t.blocked[k].profile_id != profile_id
                &&& forall|k: Uuid| #[trigger]
                    after.blocked.contains_key(k) ==> after.blocked[k] == t.blocked[k]
            }
        }),
{
}

/// A domain is listed with the profile, the name, the mark and the time that are bound to
/// those very columns; a profile that is not there, a domain that it lists and an
/// identifier that is taken are refused.
pub proof fn listing_a_domain(
    t: Tables,
    id: Uuid,
    profile_id: Uuid,
    domain: String,
    enabled: bool,
    at: i64,
)
    ensures
        ({
            let w = Write::InsertBlockedDomain { id, profile_id, domain, enabled, at };
            let v = w.values();
            &&& w.sql_text() == "INSERT INTO blocked_domains (id, profile_id, domain, enabled, \
                created_at) VALUES ($1, $2, $3, $4, $5)"@
            &&& v.len() == 5
            &&& v[0] == ParamView::Text(ids::hyphenated(id))
            &&& v[1] == ParamView::Text(ids::hyphenated(profile_id))
            &&& v[2] == ParamView::Text(domain@)
            &&& v[3] == ParamView::Int(
                if enabled {
                    1
                } else {
                    0
                },
            )
            &&& v[4] == ParamView::Long(at)
            &&& tables::effect(w, t) is None <==> (t.blocked.contains_key(id) || !t.profiles.contains_key(profile_id)
                || exists|b: Uuid| #[trigger]
                t.blocked.contains_key(b) && t.blocked[b].profile_id == profile_id
                    && t.blocked[b].domain == domain@)
            &&& tables::effect(w, t) matches Some(after) ==> {
                let row = after.blocked[id];
                &&& after == (Tables { blocked: t.blocked.insert(id, row), ..t })
                &&& v[1] == ParamView::Text(ids::hyphenated(row.profile_id))
                &&& v[2] == ParamView::Text(row.domain)
                &&& v[3] matches ParamView::Int(n) && row.enabled == (n == 1)
                &&& v[4] matches ParamView::Long(n) && row.created_at == n
            }
        }),
{
}

/// The domain that is bound is blocked where a one is bound, and not where a zero is.
pub proof fn marking_a_domain(
    t: Tables,
    id: Uuid,
    enabled: bool,
)
    ensures
        ({
            let w = Write::SetBlockedDomainEnabled { id, enabled };
            let v = w.values();
            &&& w.sql_text() == "UPDATE blocked_domains SET enabled=$1 WHERE id=$2"@
            &&& v.len() == 2
            &&& v[0] == ParamView::Int(
                if enabled {
                    1
                } else {
                    0
                },
            )
            &&& v[1] == ParamView::Text(ids::hyphenated(id))
            &&& tables::effect(w, t) == Some(
                Tables {
                    blocked: if t.blocked.contains_key(id) {
                        t.blocked.insert(id, BlockedRow { enabled, ..t.blocked[id] })
                    } else {
                        t.blocked
                    },
                    ..t
                },
            )
        }),
{
}

/// The domain that is bound goes; all others stay.
pub proof fn taking_a_domain_off(
    t: Tables,
    id: Uuid,
)
    ensures
        ({
            let w = Write::DeleteBlockedDomain { id };
            let v = w.values();
            &&& w.sql_text() == "DELETE FROM blocked_domains WHERE id=$1"@
            &&& v.len() == 1
            &&& v[0] == ParamView::Text(ids::hyphenated(id))
            &&& tables::effect(w, t) == Some(Tables { blocked: t.blocked.remove(id), ..t })
        }),
{
}

/// The version of the profile that is bound goes up by one, from the time that is bound on;
/// a profile without a version gets the first, and one that is not there is refused.
pub proof fn counting_up_a_version(
    t: Tables,
    profile_id: Uuid,
    at: i64,
)
    ensures
        ({
            let w = Write::BumpConfigVersion { profile_id, at };
            let v = w.values();
            &&& w.sql_text() == "INSERT INTO config_versions (profile_id, version, updated_at) VALUES \
                ($1, 1, $2) ON CONFLICT(profile_id) DO UPDATE SET \
                version=config_versions.version+1, updated_at=EXCLUDED.updated_at"@
            &&& v.len() == 2
            &&& v[0] == ParamView::Text(ids::hyphenated(profile_id))
            &&& v[1] == ParamView::Long(at)
            &&& tables::effect(w, t) is None <==> !t.versions.contains_key(profile_id)
                && !t.profiles.contains_key(profile_id)
            &&& tables::effect(w, t) matches Some(after) ==> after == (Tables {
                versions: t.versions.insert(
                    profile_id,
                    VersionRow {
                        version: if t.versions.contains_key(profile_id) {
                            t.versions[profile_id].version + 1
                        } else {
                            1
                        },
                        updated_at: at as int,
                    },
                ),
                ..t
            })
        }),
{
}

/// An entry of the audit log is stored with the administrator, the action, the target and
/// the time that are bound to those very columns; an administrator that is not there and
/// an identifier that is taken are refused.
pub proof fn noting_an_action(
    t: Tables,
    id: Uuid,
    admin_id: Option<Uuid>,
    action: String,
    target_type: Option<String>,
    target_id: Option<Uuid>,
    detail: Option<String>,
    at: i64,
)
    ensures
        ({
            let w = Write::InsertAudit { id, admin_id, action, target_type, target_id, detail, at };
            let v = w.values();
            &&& w.sql_text() == "INSERT INTO audit_log \
                (id,admin_user_id,action,target_type,target_id,detail,created_at) \
                VALUES ($1,$2,$3,$4,$5,$6,$7)"@
            &&& v.len() == 7
            &&& v[0] == ParamView::Text(ids::hyphenated(id))
            &&& v[1] == ParamView::OptText(
                match admin_id {
                    Some(i) => Some(ids::hyphenated(i)),
                    None => None,
                },
            )
            &&& v[2] == ParamView::Text(action@)
            &&& v[3] == ParamView::OptText(
                match target_type {
                    Some(s) => Some(s@),
                    None => None,
                },
            )
            &&& v[4] == ParamView::OptText(
                match target_id {
                    Some(i) => Some(ids::hyphenated(i)),
                    None => None,
                },
            )
            &&& v[5] == ParamView::OptText(
                match detail {
                    Some(s) => Some(s@),
                    None => None,
                },
            )
            &&& v[6] == ParamView::Long(at)
            &&& tables::effect(w, t) is None <==> t.audit.contains_key(id) || (admin_id matches Some(u)
                && !t.admins.contains_key(u))
            &&& tables::effect(w, t) matches Some(after) ==> {
                let row = after.audit[id];
                &&& after == (Tables { audit: t.audit.insert(id, row), ..t })
                &&& row.admin_id == admin_id
                &&& v[2] == ParamView::Text(row.action)
                &&& v[3] == ParamView::OptText(row.target_type)
                &&& row.target_id == target_id
                &&& v[5] == ParamView::OptText(row.detail)
                &&& v[6] matches ParamView::Long(n) && row.created_at == n
            }
        }),
{
}

} // verus!
