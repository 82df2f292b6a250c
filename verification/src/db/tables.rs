//! What the tables hold, and what each change of the store does to them.
//!
//! Identifiers stand for their hyphenated text. Amounts are unbounded integers.

use crate::db::write::Write;
use crate::ids::Uuid;
use crate::text;
use vstd::prelude::*;

verus! {

pub struct AdminRow {
    pub username: Seq<char>,
    pub password_hash: Seq<char>,
    pub timezone: Seq<char>,
    pub created_at: int,
}

pub struct AgentRow {
    pub machine_id: Seq<char>,
    pub display_name: Seq<char>,
    pub hostname: Seq<char>,
    pub timezone: Seq<char>,
    pub status: Seq<char>,
    pub auth_token_hash: Option<Seq<char>>,
    pub agent_version: Option<Seq<char>>,
    pub paired_at: Option<int>,
    pub last_seen_at: Option<int>,
    pub created_at: int,
    pub web_filter_available: Option<bool>,
}

pub struct AgentUserRow {
    pub agent_id: Uuid,
    pub profile_id: Option<Uuid>,
    pub local_uid: u32,
    pub local_username: Seq<char>,
    pub display_name: Option<Seq<char>>,
    pub status: Seq<char>,
    pub first_seen_at: int,
    pub last_reported_at: int,
}

pub struct ProfileRow {
    pub display_name: Seq<char>,
    pub language: Seq<char>,
    pub created_at: int,
    pub updated_at: int,
}

pub struct ScheduleRow {
    pub profile_id: Uuid,
    pub day_of_week: int,
    pub start_time: Seq<char>,
    pub end_time: Seq<char>,
}

pub struct AdjustmentRow {
    pub profile_id: Uuid,
    pub target_date: Seq<char>,
    pub minutes: int,
    pub reason: Option<Seq<char>>,
    pub created_by: Option<Uuid>,
    pub created_at: int,
}

pub struct EnforcementRow {
    pub lockout_grace_minutes: int,
    pub warning_thresholds: Seq<char>,
    pub preserve_tasks_on_lock: bool,
}

pub struct UsageRow {
    pub used_seconds: int,
    pub reported_at: int,
}

pub struct VersionRow {
    pub version: int,
    pub updated_at: int,
}

pub struct AuditRow {
    pub admin_id: Option<Uuid>,
    pub action: Seq<char>,
    pub target_type: Option<Seq<char>>,
    pub target_id: Option<Uuid>,
    pub detail: Option<Seq<char>>,
    pub created_at: int,
}

pub struct BlockedRow {
    pub profile_id: Uuid,
    pub domain: Seq<char>,
    pub enabled: bool,
    pub created_at: int,
}

/// The rows of every table, by primary key.
#[verifier::ext_equal]
pub struct Tables {
    pub admins: Map<Uuid, AdminRow>,
    pub agents: Map<Uuid, AgentRow>,
    pub agent_users: Map<Uuid, AgentUserRow>,
    pub profiles: Map<Uuid, ProfileRow>,
    pub schedules: Map<Uuid, ScheduleRow>,
    pub limits: Map<(Uuid, int), int>,
    pub adjustments: Map<Uuid, AdjustmentRow>,
    pub enforcement: Map<Uuid, EnforcementRow>,
    pub usage: Map<(Uuid, Seq<char>), UsageRow>,
    pub versions: Map<Uuid, VersionRow>,
    pub audit: Map<Uuid, AuditRow>,
    pub blocked: Map<Uuid, BlockedRow>,
}

/// The states of an agent.
pub open spec fn agent_status(s: Seq<char>) -> bool {
    s == "pending"@ || s == "paired"@ || s == "disabled"@ || s == "pending_delete"@
}

/// The states of a user of an agent.
pub open spec fn user_status(s: Seq<char>) -> bool {
    s == "unmanaged"@ || s == "managed"@ || s == "deleted"@
}

/// The rows that `keep` picks.
pub open spec fn kept<K, V>(m: Map<K, V>, keep: spec_fn(K, V) -> bool) -> Map<K, V> {
    Map::new(|k: K| m.contains_key(k) && keep(k, m[k]), |k: K| m[k])
}

/// The rows, each put through `f`.
pub open spec fn changed<K, V>(m: Map<K, V>, f: spec_fn(K, V) -> V) -> Map<K, V> {
    Map::new(|k: K| m.contains_key(k), |k: K| f(k, m[k]))
}

/// The rows with one of them put through `f`, if it is there.
pub open spec fn changed_at<K, V>(m: Map<K, V>, k: K, f: spec_fn(V) -> V) -> Map<K, V> {
    if m.contains_key(k) {
        m.insert(k, f(m[k]))
    } else {
        m
    }
}

impl Tables {
    /// No rows at all.
    pub open spec fn empty() -> Tables {
        Tables {
            admins: Map::empty(),
            agents: Map::empty(),
            agent_users: Map::empty(),
            profiles: Map::empty(),
            schedules: Map::empty(),
            limits: Map::empty(),
            adjustments: Map::empty(),
            enforcement: Map::empty(),
            usage: Map::empty(),
            versions: Map::empty(),
            audit: Map::empty(),
            blocked: Map::empty(),
        }
    }

    /// No two administrators share a name.
    pub open spec fn usernames_differ(self) -> bool {
        forall|a: Uuid, b: Uuid|
            #![trigger self.admins[a], self.admins[b]]
            self.admins.contains_key(a) && self.admins.contains_key(b) && self.admins[a].username
                == self.admins[b].username ==> a == b
    }

    /// No two agents run on one machine, and every agent has one of the states.
    pub open spec fn agents_wf(self) -> bool {
        &&& forall|a: Uuid, b: Uuid|
            #![trigger self.agents[a], self.agents[b]]
            self.agents.contains_key(a) && self.agents.contains_key(b) && self.agents[a].machine_id
                == self.agents[b].machine_id ==> a == b
        &&& forall|a: Uuid| #[trigger]
            self.agents.contains_key(a) ==> agent_status(self.agents[a].status)
    }

    /// Every user is one of an agent, known there by one number; the profile, if
    /// there is one, exists; the state is one of the states.
    pub open spec fn agent_users_wf(self) -> bool {
        &&& forall|u: Uuid| #[trigger]
            self.agent_users.contains_key(u) ==> {
                let row = self.agent_users[u];
                &&& self.agents.contains_key(row.agent_id)
                &&& row.profile_id matches Some(p) ==> self.profiles.contains_key(p)
                &&& user_status(row.status)
            }
        &&& forall|u: Uuid, v: Uuid|
            #![trigger self.agent_users[u], self.agent_users[v]]
            self.agent_users.contains_key(u) && self.agent_users.contains_key(v)
                && self.agent_users[u].agent_id == self.agent_users[v].agent_id
                && self.agent_users[u].local_uid == self.agent_users[v].local_uid ==> u == v
    }

    /// Everything that belongs to a profile belongs to one that exists, on real
    /// days of the week and with no limit below zero.
    pub open spec fn owned_wf(self) -> bool {
        &&& forall|s: Uuid| #[trigger]
            self.schedules.contains_key(s) ==> self.profiles.contains_key(
                self.schedules[s].profile_id,
            ) && 0 <= self.schedules[s].day_of_week <= 6
        &&& forall|k: (Uuid, int)| #[trigger]
            self.limits.contains_key(k) ==> self.profiles.contains_key(k.0) && 0 <= k.1 <= 6 && 0
                <= self.limits[k]
        &&& forall|p: Uuid| #[trigger]
            self.enforcement.contains_key(p) ==> self.profiles.contains_key(p)
        &&& forall|p: Uuid| #[trigger]
            self.versions.contains_key(p) ==> self.profiles.contains_key(p)
    }

    /// Every adjustment is of a profile that exists and by an administrator that
    /// does, if by any; so is every entry of the audit log.
    pub open spec fn records_wf(self) -> bool {
        &&& forall|a: Uuid| #[trigger]
            self.adjustments.contains_key(a) ==> {
                &&& self.profiles.contains_key(self.adjustments[a].profile_id)
                &&& self.adjustments[a].created_by matches Some(u) ==> self.admins.contains_key(u)
            }
        &&& forall|a: Uuid| #[trigger]
            self.audit.contains_key(a) ==> (self.audit[a].admin_id matches Some(u)
                ==> self.admins.contains_key(u))
        &&& forall|k: (Uuid, Seq<char>)| #[trigger]
            self.usage.contains_key(k) ==> self.agent_users.contains_key(k.0)
    }

    /// Every blocked domain is one of a profile that exists, listed there once.
    pub open spec fn blocked_wf(self) -> bool {
        &&& forall|b: Uuid| #[trigger]
            self.blocked.contains_key(b) ==> self.profiles.contains_key(self.blocked[b].profile_id)
        &&& forall|a: Uuid, b: Uuid|
            #![trigger self.blocked[a], self.blocked[b]]
            self.blocked.contains_key(a) && self.blocked.contains_key(b)
                && self.blocked[a].profile_id == self.blocked[b].profile_id
                && self.blocked[a].domain == self.blocked[b].domain ==> a == b
    }

    /// The tables keep every constraint that they were declared with.
    pub open spec fn wf(self) -> bool {
        &&& self.usernames_differ()
        &&& self.agents_wf()
        &&& self.agent_users_wf()
        &&& self.owned_wf()
        &&& self.records_wf()
        &&& self.blocked_wf()
    }

    /// A profile lists a domain.
    pub open spec fn lists_domain(self, profile_id: Uuid, domain: Seq<char>) -> bool {
        exists|b: Uuid| #[trigger]
            self.blocked.contains_key(b) && self.blocked[b].profile_id == profile_id
                && self.blocked[b].domain == domain
    }

    /// An agent has a user of that number.
    pub open spec fn has_user(self, agent_id: Uuid, local_uid: u32) -> bool {
        exists|u: Uuid| #[trigger]
            self.agent_users.contains_key(u) && self.agent_users[u].agent_id == agent_id
                && self.agent_users[u].local_uid == local_uid
    }

    /// Some agent runs on that machine.
    pub open spec fn has_machine(self, machine_id: Seq<char>) -> bool {
        exists|a: Uuid| #[trigger]
            self.agents.contains_key(a) && self.agents[a].machine_id == machine_id
    }

    /// Some administrator has that name.
    pub open spec fn has_username(self, username: Seq<char>) -> bool {
        exists|a: Uuid| #[trigger]
            self.admins.contains_key(a) && self.admins[a].username == username
    }

    /// The tables without an agent, its users and their use.
    pub open spec fn without_agent(self, id: Uuid) -> Tables {
        Tables {
            agents: self.agents.remove(id),
            agent_users: kept(self.agent_users, |u: Uuid, row: AgentUserRow| row.agent_id != id),
            usage: kept(
                self.usage,
                |k: (Uuid, Seq<char>), row: UsageRow|
                    !(self.agent_users.contains_key(k.0) && self.agent_users[k.0].agent_id == id),
            ),
            ..self
        }
    }

    /// The tables without a profile and what belongs to it; its users are left
    /// with no profile.
    pub open spec fn without_profile(self, id: Uuid) -> Tables {
        Tables {
            profiles: self.profiles.remove(id),
            agent_users: changed(
                self.agent_users,
                |u: Uuid, row: AgentUserRow|
                    if row.profile_id == Some(id) {
                        AgentUserRow { profile_id: None, ..row }
                    } else {
                        row
                    },
            ),
            schedules: kept(self.schedules, |s: Uuid, row: ScheduleRow| row.profile_id != id),
            limits: kept(self.limits, |k: (Uuid, int), m: int| k.0 != id),
            adjustments: kept(self.adjustments, |a: Uuid, row: AdjustmentRow| row.profile_id != id),
            enforcement: self.enforcement.remove(id),
            versions: self.versions.remove(id),
            blocked: kept(self.blocked, |b: Uuid, row: BlockedRow| row.profile_id != id),
            ..self
        }
    }
}

/// What a change of the store makes of the tables; `None` where a constraint
/// refuses it. A change of a row that is not there changes nothing.
pub open spec fn effect(w: Write, t: Tables) -> Option<Tables> {
    match w {
        Write::InsertAdmin { id, username, password_hash, at } => if t.admins.contains_key(id)
            || t.has_username(username@) {
            None
        } else {
            Some(
                Tables {
                    admins: t.admins.insert(
                        id,
                        AdminRow {
                            username: username@,
                            password_hash: password_hash@,
                            timezone: "UTC"@,
                            created_at: at as int,
                        },
                    ),
                    ..t
                },
            )
        },
        Write::SetAdminTimezone { id, timezone } => Some(
            Tables {
                admins: changed_at(
                    t.admins,
                    id,
                    |row: AdminRow| AdminRow { timezone: timezone@, ..row },
                ),
                ..t
            },
        ),
        Write::InsertAgent { .. } => insert_agent(w, t),
        Write::RefreshAgent { machine_id, hostname, timezone, agent_version, at } => Some(
            Tables {
                agents: changed(
                    t.agents,
                    |a: Uuid, row: AgentRow|
                        if row.machine_id == machine_id@ {
                            AgentRow {
                                hostname: hostname@,
                                timezone: timezone@,
                                agent_version: Some(agent_version@),
                                last_seen_at: Some(at as int),
                                status: if row.status == "disabled"@ {
                                    "disabled"@
                                } else {
                                    "pending"@
                                },
                                ..row
                            }
                        } else {
                            row
                        },
                ),
                ..t
            },
        ),
        Write::AcceptAgent { id, auth_token_hash, at } => Some(
            Tables {
                agents: changed_at(
                    t.agents,
                    id,
                    |row: AgentRow|
                        AgentRow {
                            status: "paired"@,
                            auth_token_hash: Some(auth_token_hash@),
                            paired_at: Some(at as int),
                            ..row
                        },
                ),
                ..t
            },
        ),
        Write::SetAgentLastSeen { id, at } => Some(
            Tables {
                agents: changed_at(
                    t.agents,
                    id,
                    |row: AgentRow| AgentRow { last_seen_at: Some(at as int), ..row },
                ),
                ..t
            },
        ),
        Write::SetAgentName { id, name } => Some(
            Tables {
                agents: changed_at(
                    t.agents,
                    id,
                    |row: AgentRow| AgentRow { display_name: name@, ..row },
                ),
                ..t
            },
        ),
        Write::SetAgentStatus { id, status } => if t.agents.contains_key(id) && !agent_status(
            status@,
        ) {
            None
        } else {
            Some(
                Tables {
                    agents: changed_at(
                        t.agents,
                        id,
                        |row: AgentRow| AgentRow { status: status@, ..row },
                    ),
                    ..t
                },
            )
        },
        Write::SetAgentHello { id, hostname, timezone, agent_version, at } => Some(
            Tables {
                agents: changed_at(
                    t.agents,
                    id,
                    |row: AgentRow|
                        AgentRow {
                            hostname: hostname@,
                            timezone: timezone@,
                            agent_version: Some(agent_version@),
                            last_seen_at: Some(at as int),
                            ..row
                        },
                ),
                ..t
            },
        ),
        Write::MarkAgentPendingDelete { id } => Some(
            Tables {
                agents: changed_at(
                    t.agents,
                    id,
                    |row: AgentRow| AgentRow { status: "pending_delete"@, ..row },
                ),
                ..t
            },
        ),
        Write::RestoreAgent { id } => Some(
            Tables {
                agents: changed_at(
                    t.agents,
                    id,
                    |row: AgentRow|
                        if row.status == "pending_delete"@ {
                            AgentRow { status: "paired"@, ..row }
                        } else {
                            row
                        },
                ),
                ..t
            },
        ),
        Write::DeleteAgent { id } => Some(t.without_agent(id)),
        Write::SetAgentWebFilter { id, available } => Some(
            Tables {
                agents: changed_at(
                    t.agents,
                    id,
                    |row: AgentRow| AgentRow { web_filter_available: Some(available), ..row },
                ),
                ..t
            },
        ),
        Write::InsertAgentUser { .. } => insert_agent_user(w, t),
        Write::RefreshAgentUser { agent_id, local_uid, username, display_name, at } => Some(
            Tables {
                agent_users: changed(
                    t.agent_users,
                    |u: Uuid, row: AgentUserRow|
                        if row.agent_id == agent_id && row.local_uid == local_uid {
                            AgentUserRow {
                                local_username: username@,
                                display_name: Some(display_name@),
                                last_reported_at: at as int,
                                status: if row.status == "deleted"@ {
                                    "unmanaged"@
                                } else {
                                    row.status
                                },
                                ..row
                            }
                        } else {
                            row
                        },
                ),
                ..t
            },
        ),
        Write::MarkAgentUserDeleted { agent_id, local_uid } => Some(
            Tables {
                agent_users: changed(
                    t.agent_users,
                    |u: Uuid, row: AgentUserRow|
                        if row.agent_id == agent_id && row.local_uid == local_uid {
                            AgentUserRow { status: "deleted"@, ..row }
                        } else {
                            row
                        },
                ),
                ..t
            },
        ),
        Write::AssignAgentUser { id, to_profile, to_status } => if t.agent_users.contains_key(id)
            && ((to_profile matches Some(p) && !t.profiles.contains_key(p)) || (
        to_status matches Some(s) && !user_status(s@))) {
            None
        } else {
            Some(
                Tables {
                    agent_users: changed_at(
                        t.agent_users,
                        id,
                        |row: AgentUserRow|
                            AgentUserRow {
                                profile_id: if to_profile is Some {
                                    to_profile
                                } else {
                                    row.profile_id
                                },
                                status: match to_status {
                                    Some(s) => s@,
                                    None => row.status,
                                },
                                ..row
                            },
                    ),
                    ..t
                },
            )
        },
        Write::InsertProfile { id, name, at } => if t.profiles.contains_key(id) {
            None
        } else {
            Some(
                Tables {
                    profiles: t.profiles.insert(
                        id,
                        ProfileRow {
                            display_name: name@,
                            language: "en"@,
                            created_at: at as int,
                            updated_at: at as int,
                        },
                    ),
                    ..t
                },
            )
        },
        Write::InsertEnforcement { profile_id } => if t.enforcement.contains_key(profile_id)
            || !t.profiles.contains_key(profile_id) {
            None
        } else {
            Some(
                Tables {
                    enforcement: t.enforcement.insert(profile_id, default_enforcement()),
                    ..t
                },
            )
        },
        Write::InsertConfigVersion { profile_id, at } => if t.versions.contains_key(profile_id)
            || !t.profiles.contains_key(profile_id) {
            None
        } else {
            Some(
                Tables {
                    versions: t.versions.insert(
                        profile_id,
                        VersionRow { version: 1, updated_at: at as int },
                    ),
                    ..t
                },
            )
        },
        Write::SeedBlockedDomain { id, profile_id, domain, at } => if t.blocked.contains_key(id)
            || t.lists_domain(profile_id, domain@) {
            Some(t)
        } else if !t.profiles.contains_key(profile_id) {
            None
        } else {
            Some(
                Tables {
                    blocked: t.blocked.insert(
                        id,
                        BlockedRow {
                            profile_id,
                            domain: domain@,
                            enabled: false,
                            created_at: at as int,
                        },
                    ),
                    ..t
                },
            )
        },
        Write::SetProfileLanguage { id, language, at } => Some(
            Tables {
                profiles: changed_at(
                    t.profiles,
                    id,
                    |row: ProfileRow|
                        ProfileRow { language: language@, updated_at: at as int, ..row },
                ),
                ..t
            },
        ),
        Write::SetProfileName { id, name, at } => Some(
            Tables {
                profiles: changed_at(
                    t.profiles,
                    id,
                    |row: ProfileRow|
                        ProfileRow { display_name: name@, updated_at: at as int, ..row },
                ),
                ..t
            },
        ),
        Write::DeleteProfile { id } => Some(t.without_profile(id)),
        Write::ClearSchedules { profile_id } => Some(
            Tables {
                schedules: kept(
                    t.schedules,
                    |s: Uuid, row: ScheduleRow| row.profile_id != profile_id,
                ),
                ..t
            },
        ),
        Write::InsertSchedule { id, profile_id, day_of_week, start, end } =>
            if t.schedules.contains_key(id) || !t.profiles.contains_key(profile_id) || day_of_week > 6 {
            None
        } else {
            Some(
                Tables {
                    schedules: t.schedules.insert(
                        id,
                        ScheduleRow {
                            profile_id,
                            day_of_week: day_of_week as int,
                            start_time: start@,
                            end_time: end@,
                        },
                    ),
                    ..t
                },
            )
        },
        Write::ClearDailyLimits { profile_id } => Some(
            Tables {
                limits: kept(t.limits, |k: (Uuid, int), m: int| k.0 != profile_id),
                ..t
            },
        ),
        Write::InsertDailyLimit { profile_id, day_of_week, minutes } => if t.limits.contains_key(
            (profile_id, day_of_week as int),
        ) || !t.profiles.contains_key(profile_id) || day_of_week > 6 || minutes < 0 {
            None
        } else {
            Some(
                Tables {
                    limits: t.limits.insert((profile_id, day_of_week as int), minutes as int),
                    ..t
                },
            )
        },
        Write::InsertAdjustment { id, profile_id, target_date, minutes, reason, created_by, at } =>
            if t.adjustments.contains_key(id) || !t.profiles.contains_key(profile_id) || (
        created_by matches Some(u) && !t.admins.contains_key(u)) {
            None
        } else {
            Some(
                Tables {
                    adjustments: t.adjustments.insert(
                        id,
                        AdjustmentRow {
                            profile_id,
                            target_date: target_date@,
                            minutes: minutes as int,
                            reason: text::opt_text(reason),
                            created_by,
                            created_at: at as int,
                        },
                    ),
                    ..t
                },
            )
        },
        Write::SetPreserveTasks { profile_id, preserve } => Some(
            Tables {
                enforcement: changed_at(
                    t.enforcement,
                    profile_id,
                    |row: EnforcementRow|
                        EnforcementRow { preserve_tasks_on_lock: preserve, ..row },
                ),
                ..t
            },
        ),
        Write::SetLockoutGrace { profile_id, minutes } => Some(
            Tables {
                enforcement: changed_at(
                    t.enforcement,
                    profile_id,
                    |row: EnforcementRow|
                        EnforcementRow { lockout_grace_minutes: minutes as int, ..row },
                ),
                ..t
            },
        ),
        Write::AddUsage { agent_user_id, date, seconds, at } => put_usage(
            t,
            agent_user_id,
            date@,
            used_on(t, agent_user_id, date@) + seconds,
            at as int,
        ),
        Write::SetUsage { agent_user_id, date, seconds, at } => put_usage(
            t,
            agent_user_id,
            date@,
            seconds as int,
            at as int,
        ),
        Write::ClearBlockedDomains { profile_id } => Some(
            Tables {
                blocked: kept(t.blocked, |b: Uuid, row: BlockedRow| row.profile_id != profile_id),
                ..t
            },
        ),
        Write::InsertBlockedDomain { id, profile_id, domain, enabled, at } =>
            if t.blocked.contains_key(id) || t.lists_domain(profile_id, domain@) || !t.profiles.contains_key(profile_id) {
            None
        } else {
            Some(
                Tables {
                    blocked: t.blocked.insert(
                        id,
                        BlockedRow { profile_id, domain: domain@, enabled, created_at: at as int },
                    ),
                    ..t
                },
            )
        },
        Write::SetBlockedDomainEnabled { id, enabled } => Some(
            Tables {
                blocked: changed_at(
                    t.blocked,
                    id,
                    |row: BlockedRow| BlockedRow { enabled, ..row },
                ),
                ..t
            },
        ),
        Write::DeleteBlockedDomain { id } => Some(Tables { blocked: t.blocked.remove(id), ..t }),
        Write::BumpConfigVersion { profile_id, at } => if t.versions.contains_key(profile_id) {
            Some(
                Tables {
                    versions: t.versions.insert(
                        profile_id,
                        VersionRow {
                            version: t.versions[profile_id].version + 1,
                            updated_at: at as int,
                        },
                    ),
                    ..t
                },
            )
        } else if !t.profiles.contains_key(profile_id) {
            None
        } else {
            Some(
                Tables {
                    versions: t.versions.insert(
                        profile_id,
                        VersionRow { version: 1, updated_at: at as int },
                    ),
                    ..t
                },
            )
        },
        Write::InsertAudit { .. } => insert_audit(w, t),
    }
}

/// A new agent waits to be accepted; its name is that of the host.
pub open spec fn insert_agent(w: Write, t: Tables) -> Option<Tables> {
    match w {
        Write::InsertAgent { id, machine_id, hostname, timezone, agent_version, at } =>
            if t.agents.contains_key(id) || t.has_machine(machine_id@) {
            None
        } else {
            Some(
                Tables {
                    agents: t.agents.insert(
                        id,
                        AgentRow {
                            machine_id: machine_id@,
                            display_name: hostname@,
                            hostname: hostname@,
                            timezone: timezone@,
                            status: "pending"@,
                            auth_token_hash: None,
                            agent_version: Some(agent_version@),
                            paired_at: None,
                            last_seen_at: Some(at as int),
                            created_at: at as int,
                            web_filter_available: None,
                        },
                    ),
                    ..t
                },
            )
        },
        _ => None,
    }
}

/// A new user of an agent is not managed and has no profile.
pub open spec fn insert_agent_user(w: Write, t: Tables) -> Option<Tables> {
    match w {
        Write::InsertAgentUser { id, agent_id, local_uid, username, display_name, at } =>
            if t.agent_users.contains_key(id) || t.has_user(agent_id, local_uid)
            || !t.agents.contains_key(agent_id) {
            None
        } else {
            Some(
                Tables {
                    agent_users: t.agent_users.insert(
                        id,
                        AgentUserRow {
                            agent_id,
                            profile_id: None,
                            local_uid,
                            local_username: username@,
                            display_name: Some(display_name@),
                            status: "unmanaged"@,
                            first_seen_at: at as int,
                            last_reported_at: at as int,
                        },
                    ),
                    ..t
                },
            )
        },
        _ => None,
    }
}

/// A new entry of the audit log.
pub open spec fn insert_audit(w: Write, t: Tables) -> Option<Tables> {
    match w {
        Write::InsertAudit { id, admin_id, action, target_type, target_id, detail, at } =>
            if t.audit.contains_key(id) || (admin_id matches Some(u) && !t.admins.contains_key(u)) {
            None
        } else {
            Some(
                Tables {
                    audit: t.audit.insert(
                        id,
                        AuditRow {
                            admin_id,
                            action: action@,
                            target_type: text::opt_text(target_type),
                            target_id,
                            detail: text::opt_text(detail),
                            created_at: at as int,
                        },
                    ),
                    ..t
                },
            )
        },
        _ => None,
    }
}

/// The settings of a profile that nobody has changed.
pub open spec fn default_enforcement() -> EnforcementRow {
    EnforcementRow {
        lockout_grace_minutes: 5,
        warning_thresholds: "15,5,1"@,
        preserve_tasks_on_lock: false,
    }
}

/// The seconds that a user has used on a date; none where nothing is stored.
pub open spec fn used_on(t: Tables, agent_user_id: Uuid, date: Seq<char>) -> int {
    if t.usage.contains_key((agent_user_id, date)) {
        t.usage[(agent_user_id, date)].used_seconds
    } else {
        0
    }
}

/// The tables with a user's use of a date set.
pub open spec fn put_usage(
    t: Tables,
    agent_user_id: Uuid,
    date: Seq<char>,
    used_seconds: int,
    reported_at: int,
) -> Option<Tables> {
    if !t.agent_users.contains_key(agent_user_id) {
        None
    } else {
        Some(
            Tables {
                usage: t.usage.insert(
                    (agent_user_id, date),
                    UsageRow { used_seconds, reported_at },
                ),
                ..t
            },
        )
    }
}

/// The tables after a list of changes made one by one up to the first that is
/// refused, and whether none was.
pub open spec fn effects(ws: Seq<Write>, t: Tables) -> (Tables, bool)
    decreases ws.len(),
{
    if ws.len() == 0 {
        (t, true)
    } else {
        let (before, fine) = effects(ws.drop_last(), t);
        if !fine {
            (before, false)
        } else {
            match effect(ws.last(), before) {
                Some(after) => (after, true),
                None => (before, false),
            }
        }
    }
}

/// No tables break a constraint by being empty.
pub proof fn empty_tables_are_well_formed()
    ensures
        Tables::empty().wf(),
{
}

proof fn lemma_admin_keeps_wf(w: Write, t: Tables)
    requires
        t.wf(),
        effect(w, t) is Some,
        w is InsertAdmin || w is SetAdminTimezone || w is InsertAudit,
    ensures
        (effect(w, t)->0).wf(),
{
}

proof fn lemma_agent_keeps_wf(w: Write, t: Tables)
    requires
        t.wf(),
        effect(w, t) is Some,
        w is InsertAgent || w is RefreshAgent || w is AcceptAgent || w is SetAgentLastSeen
            || w is SetAgentName || w is SetAgentStatus || w is SetAgentHello
            || w is MarkAgentPendingDelete || w is RestoreAgent || w is SetAgentWebFilter,
    ensures
        (effect(w, t)->0).wf(),
{
}

proof fn lemma_agent_deletion_keeps_wf(w: Write, t: Tables)
    requires
        t.wf(),
        effect(w, t) is Some,
        w is DeleteAgent,
    ensures
        (effect(w, t)->0).wf(),
{
}

proof fn lemma_user_keeps_wf(w: Write, t: Tables)
    requires
        t.wf(),
        effect(w, t) is Some,
        w is InsertAgentUser || w is RefreshAgentUser || w is MarkAgentUserDeleted
            || w is AssignAgentUser || w is AddUsage || w is SetUsage,
    ensures
        (effect(w, t)->0).wf(),
{
}

proof fn lemma_profile_keeps_wf(w: Write, t: Tables)
    requires
        t.wf(),
        effect(w, t) is Some,
        w is InsertProfile || w is SetProfileLanguage || w is SetProfileName,
    ensures
        (effect(w, t)->0).wf(),
{
}

proof fn lemma_profile_deletion_keeps_wf(w: Write, t: Tables)
    requires
        t.wf(),
        effect(w, t) is Some,
        w is DeleteProfile,
    ensures
        (effect(w, t)->0).wf(),
{
}

proof fn lemma_owned_keeps_wf(w: Write, t: Tables)
    requires
        t.wf(),
        effect(w, t) is Some,
        w is InsertEnforcement || w is InsertConfigVersion || w is ClearSchedules
            || w is InsertSchedule || w is ClearDailyLimits || w is InsertDailyLimit
            || w is InsertAdjustment || w is SetPreserveTasks || w is SetLockoutGrace
            || w is BumpConfigVersion,
    ensures
        (effect(w, t)->0).wf(),
{
}

proof fn lemma_blocked_keeps_wf(w: Write, t: Tables)
    requires
        t.wf(),
        effect(w, t) is Some,
        w is SeedBlockedDomain || w is ClearBlockedDomains || w is InsertBlockedDomain
            || w is SetBlockedDomainEnabled || w is DeleteBlockedDomain,
    ensures
        (effect(w, t)->0).wf(),
{
}

/// No change of the store breaks a constraint of the tables.
pub proof fn a_write_keeps_the_tables_well_formed(w: Write, t: Tables)
    requires
        t.wf(),
        effect(w, t) is Some,
    ensures
        (effect(w, t)->0).wf(),
{
    match w {
        Write::InsertAdmin { .. }
        | Write::SetAdminTimezone { .. }
        | Write::InsertAudit { .. } => lemma_admin_keeps_wf(w, t),
        Write::InsertAgent { .. }
        | Write::RefreshAgent { .. }
        | Write::AcceptAgent { .. }
        | Write::SetAgentLastSeen { .. }
        | Write::SetAgentName { .. }
        | Write::SetAgentStatus { .. }
        | Write::SetAgentHello { .. }
        | Write::MarkAgentPendingDelete { .. }
        | Write::RestoreAgent { .. }
        | Write::SetAgentWebFilter { .. } => lemma_agent_keeps_wf(w, t),
        Write::DeleteAgent { .. } => lemma_agent_deletion_keeps_wf(w, t),
        Write::InsertAgentUser { .. }
        | Write::RefreshAgentUser { .. }
        | Write::MarkAgentUserDeleted { .. }
        | Write::AssignAgentUser { .. }
        | Write::AddUsage { .. }
        | Write::SetUsage { .. } => lemma_user_keeps_wf(w, t),
        Write::InsertProfile { .. }
        | Write::SetProfileLanguage { .. }
        | Write::SetProfileName { .. } => lemma_profile_keeps_wf(w, t),
        Write::DeleteProfile { .. } => lemma_profile_deletion_keeps_wf(w, t),
        Write::InsertEnforcement { .. }
        | Write::InsertConfigVersion { .. }
        | Write::ClearSchedules { .. }
        | Write::InsertSchedule { .. }
        | Write::ClearDailyLimits { .. }
        | Write::InsertDailyLimit { .. }
        | Write::InsertAdjustment { .. }
        | Write::SetPreserveTasks { .. }
        | Write::SetLockoutGrace { .. }
        | Write::BumpConfigVersion { .. } => lemma_owned_keeps_wf(w, t),
        Write::SeedBlockedDomain { .. }
        | Write::ClearBlockedDomains { .. }
        | Write::InsertBlockedDomain { .. }
        | Write::SetBlockedDomainEnabled { .. }
        | Write::DeleteBlockedDomain { .. } => lemma_blocked_keeps_wf(w, t),
    }
}

} // verus!
