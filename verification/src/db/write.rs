//! The statements that change the store.

use crate::db::query;
use crate::db::query::{
    flag_param, id_param, opt_id_param, opt_text_param, text_param, Param, ParamView, Query,
    QueryView,
};
use crate::ids::Uuid;
use crate::text;
use vstd::prelude::*;

verus! {

/// A change of the store: one statement with what is bound to it.
pub enum Write {
    InsertAdmin { id: Uuid, username: String, password_hash: String, at: i64 },
    SetAdminTimezone { id: Uuid, timezone: String },
    InsertAgent {
        id: Uuid,
        machine_id: String,
        hostname: String,
        timezone: String,
        agent_version: String,
        at: i64,
    },
    RefreshAgent {
        machine_id: String,
        hostname: String,
        timezone: String,
        agent_version: String,
        at: i64,
    },
    AcceptAgent { id: Uuid, auth_token_hash: String, at: i64 },
    SetAgentLastSeen { id: Uuid, at: i64 },
    SetAgentName { id: Uuid, name: String },
    SetAgentStatus { id: Uuid, status: String },
    SetAgentHello {
        id: Uuid,
        hostname: String,
        timezone: String,
        agent_version: String,
        at: i64,
    },
    MarkAgentPendingDelete { id: Uuid },
    RestoreAgent { id: Uuid },
    DeleteAgent { id: Uuid },
    SetAgentWebFilter { id: Uuid, available: bool },
    InsertAgentUser {
        id: Uuid,
        agent_id: Uuid,
        local_uid: u32,
        username: String,
        display_name: String,
        at: i64,
    },
    RefreshAgentUser {
        agent_id: Uuid,
        local_uid: u32,
        username: String,
        display_name: String,
        at: i64,
    },
    MarkAgentUserDeleted { agent_id: Uuid, local_uid: u32 },
    AssignAgentUser { id: Uuid, to_profile: Option<Uuid>, to_status: Option<String> },
    InsertProfile { id: Uuid, name: String, at: i64 },
    InsertEnforcement { profile_id: Uuid },
    InsertConfigVersion { profile_id: Uuid, at: i64 },
    SeedBlockedDomain { id: Uuid, profile_id: Uuid, domain: String, at: i64 },
    SetProfileLanguage { id: Uuid, language: String, at: i64 },
    SetProfileName { id: Uuid, name: String, at: i64 },
    DeleteProfile { id: Uuid },
    ClearSchedules { profile_id: Uuid },
    InsertSchedule { id: Uuid, profile_id: Uuid, day_of_week: u8, start: String, end: String },
    ClearDailyLimits { profile_id: Uuid },
    InsertDailyLimit { profile_id: Uuid, day_of_week: u8, minutes: i32 },
    InsertAdjustment {
        id: Uuid,
        profile_id: Uuid,
        target_date: String,
        minutes: i32,
        reason: Option<String>,
        created_by: Option<Uuid>,
        at: i64,
    },
    SetPreserveTasks { profile_id: Uuid, preserve: bool },
    SetLockoutGrace { profile_id: Uuid, minutes: i32 },
    AddUsage { agent_user_id: Uuid, date: String, seconds: i64, at: i64 },
    SetUsage { agent_user_id: Uuid, date: String, seconds: i64, at: i64 },
    ClearBlockedDomains { profile_id: Uuid },
    InsertBlockedDomain { id: Uuid, profile_id: Uuid, domain: String, enabled: bool, at: i64 },
    SetBlockedDomainEnabled { id: Uuid, enabled: bool },
    DeleteBlockedDomain { id: Uuid },
    BumpConfigVersion { profile_id: Uuid, at: i64 },
    InsertAudit {
        id: Uuid,
        admin_id: Option<Uuid>,
        action: String,
        target_type: Option<String>,
        target_id: Option<Uuid>,
        detail: Option<String>,
        at: i64,
    },
}

pub const INSERT_ADMIN: &'static str =
    "INSERT INTO admin_users (id, username, password_hash, created_at) \
     VALUES ($1,$2,$3,$4)";

pub const SET_ADMIN_TIMEZONE: &'static str =
    "UPDATE admin_users SET timezone=$1 WHERE id=$2";

pub const INSERT_AGENT: &'static str =
    "INSERT INTO agents \
     (id,machine_id,display_name,hostname,timezone,status,agent_version,created_at,last_seen_at) \
     VALUES ($1,$2,$3,$4,$5,'pending',$6,$7,$7)";

pub const REFRESH_AGENT: &'static str =
    "UPDATE agents SET hostname=$1, timezone=$2, agent_version=$3, \
     last_seen_at=$4, status=CASE WHEN status='disabled' THEN 'disabled' \
     ELSE 'pending' END WHERE machine_id=$5";

pub const ACCEPT_AGENT: &'static str =
    "UPDATE agents SET status='paired', auth_token_hash=$1, paired_at=$2 \
     WHERE id=$3";

pub const SET_AGENT_LAST_SEEN: &'static str =
    "UPDATE agents SET last_seen_at=$1 WHERE id=$2";

pub const SET_AGENT_NAME: &'static str =
    "UPDATE agents SET display_name=$1 WHERE id=$2";

pub const SET_AGENT_STATUS: &'static str =
    "UPDATE agents SET status=$1 WHERE id=$2";

pub const SET_AGENT_HELLO: &'static str =
    "UPDATE agents SET hostname=$1, timezone=$2, agent_version=$3, \
     last_seen_at=$4 WHERE id=$5";

pub const MARK_AGENT_PENDING_DELETE: &'static str =
    "UPDATE agents SET status='pending_delete' WHERE id=$1";

pub const RESTORE_AGENT: &'static str =
    "UPDATE agents SET status='paired' WHERE id=$1 AND \
     status='pending_delete'";

pub const DELETE_AGENT: &'static str =
    "DELETE FROM agents WHERE id=$1";

pub const SET_AGENT_WEB_FILTER: &'static str =
    "UPDATE agents SET web_filter_available=$1 WHERE id=$2";

pub const INSERT_AGENT_USER: &'static str =
    "INSERT INTO agent_users \
     (id,agent_id,local_uid,local_username,display_name,status,first_seen_at,last_reported_at) \
     VALUES ($1,$2,$3,$4,$5,'unmanaged',$6,$6)";

pub const REFRESH_AGENT_USER: &'static str =
    "UPDATE agent_users SET local_username=$1, display_name=$2, \
     last_reported_at=$3, status=CASE WHEN status='deleted' THEN \
     'unmanaged' ELSE status END WHERE agent_id=$4 AND local_uid=$5";

pub const MARK_AGENT_USER_DELETED: &'static str =
    "UPDATE agent_users SET status='deleted' WHERE agent_id=$1 AND \
     local_uid=$2";

pub const ASSIGN_AGENT_USER: &'static str =
    "UPDATE agent_users SET profile_id=COALESCE($1, profile_id), \
     status=COALESCE($2, status) WHERE id=$3";

pub const INSERT_PROFILE: &'static str =
    "INSERT INTO user_profiles (id, display_name, created_at, updated_at) \
     VALUES ($1,$2,$3,$3)";

pub const INSERT_ENFORCEMENT: &'static str =
    "INSERT INTO enforcement_settings (profile_id) VALUES ($1)";

pub const INSERT_CONFIG_VERSION: &'static str =
    "INSERT INTO config_versions (profile_id, version, updated_at) VALUES \
     ($1, 1, $2)";

pub const SEED_BLOCKED_DOMAIN: &'static str =
    "INSERT INTO blocked_domains (id, profile_id, domain, enabled, \
     created_at) VALUES ($1, $2, $3, 0, $4) ON CONFLICT DO NOTHING";

pub const SET_PROFILE_LANGUAGE: &'static str =
    "UPDATE user_profiles SET language=$1, updated_at=$2 WHERE id=$3";

pub const SET_PROFILE_NAME: &'static str =
    "UPDATE user_profiles SET display_name=$1, updated_at=$2 WHERE id=$3";

pub const DELETE_PROFILE: &'static str =
    "DELETE FROM user_profiles WHERE id=$1";

pub const CLEAR_SCHEDULES: &'static str =
    "DELETE FROM schedules WHERE profile_id=$1";

pub const INSERT_SCHEDULE: &'static str =
    "INSERT INTO schedules (id, profile_id, day_of_week, start_time, \
     end_time) VALUES ($1,$2,$3,$4,$5)";

pub const CLEAR_DAILY_LIMITS: &'static str =
    "DELETE FROM daily_limits WHERE profile_id=$1";

pub const INSERT_DAILY_LIMIT: &'static str =
    "INSERT INTO daily_limits (profile_id, day_of_week, allowed_minutes) \
     VALUES ($1,$2,$3)";

pub const INSERT_ADJUSTMENT: &'static str =
    "INSERT INTO time_adjustments \
     (id,profile_id,target_date,adjustment_minutes,reason,created_by,created_at) \
     VALUES ($1,$2,$3,$4,$5,$6,$7)";

pub const SET_PRESERVE_TASKS: &'static str =
    "UPDATE enforcement_settings SET preserve_tasks_on_lock=$1 WHERE \
     profile_id=$2";

pub const SET_LOCKOUT_GRACE: &'static str =
    "UPDATE enforcement_settings SET lockout_grace_minutes=$1 WHERE \
     profile_id=$2";

pub const ADD_USAGE: &'static str =
    "INSERT INTO daily_usage (agent_user_id, date, used_seconds, \
     reported_at) VALUES ($1,$2,$3,$4) ON CONFLICT(agent_user_id, date) DO \
     UPDATE SET \
     used_seconds=daily_usage.used_seconds+EXCLUDED.used_seconds, \
     reported_at=EXCLUDED.reported_at";

pub const SET_USAGE: &'static str =
    "INSERT INTO daily_usage (agent_user_id, date, used_seconds, \
     reported_at) VALUES ($1,$2,$3,$4) ON CONFLICT(agent_user_id, date) DO \
     UPDATE SET used_seconds=EXCLUDED.used_seconds, \
     reported_at=EXCLUDED.reported_at";

pub const CLEAR_BLOCKED_DOMAINS: &'static str =
    "DELETE FROM blocked_domains WHERE profile_id=$1";

pub const INSERT_BLOCKED_DOMAIN: &'static str =
    "INSERT INTO blocked_domains (id, profile_id, domain, enabled, \
     created_at) VALUES ($1, $2, $3, $4, $5)";

pub const SET_BLOCKED_DOMAIN_ENABLED: &'static str =
    "UPDATE blocked_domains SET enabled=$1 WHERE id=$2";

pub const DELETE_BLOCKED_DOMAIN: &'static str =
    "DELETE FROM blocked_domains WHERE id=$1";

pub const BUMP_CONFIG_VERSION: &'static str =
    "INSERT INTO config_versions (profile_id, version, updated_at) VALUES \
     ($1, 1, $2) ON CONFLICT(profile_id) DO UPDATE SET \
     version=config_versions.version+1, updated_at=EXCLUDED.updated_at";

pub const INSERT_AUDIT: &'static str =
    "INSERT INTO audit_log \
     (id,admin_user_id,action,target_type,target_id,detail,created_at) \
     VALUES ($1,$2,$3,$4,$5,$6,$7)";

impl Write {
    /// The statement.
    pub open spec fn sql_text(self) -> Seq<char> {
        match self {
            Write::InsertAdmin { .. } => INSERT_ADMIN@,
            Write::SetAdminTimezone { .. } => SET_ADMIN_TIMEZONE@,
            Write::InsertAgent { .. } => INSERT_AGENT@,
            Write::RefreshAgent { .. } => REFRESH_AGENT@,
            Write::AcceptAgent { .. } => ACCEPT_AGENT@,
            Write::SetAgentLastSeen { .. } => SET_AGENT_LAST_SEEN@,
            Write::SetAgentName { .. } => SET_AGENT_NAME@,
            Write::SetAgentStatus { .. } => SET_AGENT_STATUS@,
            Write::SetAgentHello { .. } => SET_AGENT_HELLO@,
            Write::MarkAgentPendingDelete { .. } => MARK_AGENT_PENDING_DELETE@,
            Write::RestoreAgent { .. } => RESTORE_AGENT@,
            Write::DeleteAgent { .. } => DELETE_AGENT@,
            Write::SetAgentWebFilter { .. } => SET_AGENT_WEB_FILTER@,
            Write::InsertAgentUser { .. } => INSERT_AGENT_USER@,
            Write::RefreshAgentUser { .. } => REFRESH_AGENT_USER@,
            Write::MarkAgentUserDeleted { .. } => MARK_AGENT_USER_DELETED@,
            Write::AssignAgentUser { .. } => ASSIGN_AGENT_USER@,
            Write::InsertProfile { .. } => INSERT_PROFILE@,
            Write::InsertEnforcement { .. } => INSERT_ENFORCEMENT@,
            Write::InsertConfigVersion { .. } => INSERT_CONFIG_VERSION@,
            Write::SeedBlockedDomain { .. } => SEED_BLOCKED_DOMAIN@,
            Write::SetProfileLanguage { .. } => SET_PROFILE_LANGUAGE@,
            Write::SetProfileName { .. } => SET_PROFILE_NAME@,
            Write::DeleteProfile { .. } => DELETE_PROFILE@,
            Write::ClearSchedules { .. } => CLEAR_SCHEDULES@,
            Write::InsertSchedule { .. } => INSERT_SCHEDULE@,
            Write::ClearDailyLimits { .. } => CLEAR_DAILY_LIMITS@,
            Write::InsertDailyLimit { .. } => INSERT_DAILY_LIMIT@,
            Write::InsertAdjustment { .. } => INSERT_ADJUSTMENT@,
            Write::SetPreserveTasks { .. } => SET_PRESERVE_TASKS@,
            Write::SetLockoutGrace { .. } => SET_LOCKOUT_GRACE@,
            Write::AddUsage { .. } => ADD_USAGE@,
            Write::SetUsage { .. } => SET_USAGE@,
            Write::ClearBlockedDomains { .. } => CLEAR_BLOCKED_DOMAINS@,
            Write::InsertBlockedDomain { .. } => INSERT_BLOCKED_DOMAIN@,
            Write::SetBlockedDomainEnabled { .. } => SET_BLOCKED_DOMAIN_ENABLED@,
            Write::DeleteBlockedDomain { .. } => DELETE_BLOCKED_DOMAIN@,
            Write::BumpConfigVersion { .. } => BUMP_CONFIG_VERSION@,
            Write::InsertAudit { .. } => INSERT_AUDIT@,
        }
    }

    /// What is bound to the statement.
    pub open spec fn values(self) -> Seq<ParamView> {
        match self {
            Write::InsertAdmin { id, username, password_hash, at } => seq![
                query::id_value(id),
                ParamView::Text(username@),
                ParamView::Text(password_hash@),
                ParamView::Long(at),
            ],
            Write::SetAdminTimezone { timezone, id } => seq![
                ParamView::Text(timezone@),
                query::id_value(id),
            ],
            Write::InsertAgent { id, machine_id, hostname, timezone, agent_version, at } => seq![
                query::id_value(id),
                ParamView::Text(machine_id@),
                ParamView::Text(hostname@),
                ParamView::Text(hostname@),
                ParamView::Text(timezone@),
                ParamView::Text(agent_version@),
                ParamView::Long(at),
            ],
            Write::RefreshAgent { hostname, timezone, agent_version, at, machine_id } => seq![
                ParamView::Text(hostname@),
                ParamView::Text(timezone@),
                ParamView::Text(agent_version@),
                ParamView::Long(at),
                ParamView::Text(machine_id@),
            ],
            Write::AcceptAgent { auth_token_hash, at, id } => seq![
                ParamView::Text(auth_token_hash@),
                ParamView::Long(at),
                query::id_value(id),
            ],
            Write::SetAgentLastSeen { at, id } => seq![
                ParamView::Long(at),
                query::id_value(id),
            ],
            Write::SetAgentName { name, id } => seq![
                ParamView::Text(name@),
                query::id_value(id),
            ],
            Write::SetAgentStatus { status, id } => seq![
                ParamView::Text(status@),
                query::id_value(id),
            ],
            Write::SetAgentHello { hostname, timezone, agent_version, at, id } => seq![
                ParamView::Text(hostname@),
                ParamView::Text(timezone@),
                ParamView::Text(agent_version@),
                ParamView::Long(at),
                query::id_value(id),
            ],
            Write::MarkAgentPendingDelete { id } => seq![
                query::id_value(id),
            ],
            Write::RestoreAgent { id } => seq![
                query::id_value(id),
            ],
            Write::DeleteAgent { id } => seq![
                query::id_value(id),
            ],
            Write::SetAgentWebFilter { available, id } => seq![
                query::flag_value(available),
                query::id_value(id),
            ],
            Write::InsertAgentUser { id, agent_id, local_uid, username, display_name, at } => seq![
                query::id_value(id),
                query::id_value(agent_id),
                ParamView::Long(local_uid as i64),
                ParamView::Text(username@),
                ParamView::Text(display_name@),
                ParamView::Long(at),
            ],
            Write::RefreshAgentUser { username, display_name, at, agent_id, local_uid } => seq![
                ParamView::Text(username@),
                ParamView::Text(display_name@),
                ParamView::Long(at),
                query::id_value(agent_id),
                ParamView::Long(local_uid as i64),
            ],
            Write::MarkAgentUserDeleted { agent_id, local_uid } => seq![
                query::id_value(agent_id),
                ParamView::Long(local_uid as i64),
            ],
            Write::AssignAgentUser { to_profile, to_status, id } => seq![
                query::opt_id_value(to_profile),
                ParamView::OptText(text::opt_text(to_status)),
                query::id_value(id),
            ],
            Write::InsertProfile { id, name, at } => seq![
                query::id_value(id),
                ParamView::Text(name@),
                ParamView::Long(at),
            ],
            Write::InsertEnforcement { profile_id } => seq![
                query::id_value(profile_id),
            ],
            Write::InsertConfigVersion { profile_id, at } => seq![
                query::id_value(profile_id),
                ParamView::Long(at),
            ],
            Write::SeedBlockedDomain { id, profile_id, domain, at } => seq![
                query::id_value(id),
                query::id_value(profile_id),
                ParamView::Text(domain@),
                ParamView::Long(at),
            ],
            Write::SetProfileLanguage { language, at, id } => seq![
                ParamView::Text(language@),
                ParamView::Long(at),
                query::id_value(id),
            ],
            Write::SetProfileName { name, at, id } => seq![
                ParamView::Text(name@),
                ParamView::Long(at),
                query::id_value(id),
            ],
            Write::DeleteProfile { id } => seq![
                query::id_value(id),
            ],
            Write::ClearSchedules { profile_id } => seq![
                query::id_value(profile_id),
            ],
            Write::InsertSchedule { id, profile_id, day_of_week, start, end } => seq![
                query::id_value(id),
                query::id_value(profile_id),
                ParamView::Int(day_of_week as i32),
                ParamView::Text(start@),
                ParamView::Text(end@),
            ],
            Write::ClearDailyLimits { profile_id } => seq![
                query::id_value(profile_id),
            ],
            Write::InsertDailyLimit { profile_id, day_of_week, minutes } => seq![
                query::id_value(profile_id),
                ParamView::Int(day_of_week as i32),
                ParamView::Int(minutes),
            ],
            Write::InsertAdjustment {
                id,
                profile_id,
                target_date,
                minutes,
                reason,
                created_by,
                at,
            } => seq![
                query::id_value(id),
                query::id_value(profile_id),
                ParamView::Text(target_date@),
                ParamView::Int(minutes),
                ParamView::OptText(text::opt_text(reason)),
                query::opt_id_value(created_by),
                ParamView::Long(at),
            ],
            Write::SetPreserveTasks { preserve, profile_id } => seq![
                query::flag_value(preserve),
                query::id_value(profile_id),
            ],
            Write::SetLockoutGrace { minutes, profile_id } => seq![
                ParamView::Int(minutes),
                query::id_value(profile_id),
            ],
            Write::AddUsage { agent_user_id, date, seconds, at } => seq![
                query::id_value(agent_user_id),
                ParamView::Text(date@),
                ParamView::Long(seconds),
                ParamView::Long(at),
            ],
            Write::SetUsage { agent_user_id, date, seconds, at } => seq![
                query::id_value(agent_user_id),
                ParamView::Text(date@),
                ParamView::Long(seconds),
                ParamView::Long(at),
            ],
            Write::ClearBlockedDomains { profile_id } => seq![
                query::id_value(profile_id),
            ],
            Write::InsertBlockedDomain { id, profile_id, domain, enabled, at } => seq![
                query::id_value(id),
                query::id_value(profile_id),
                ParamView::Text(domain@),
                query::flag_value(enabled),
                ParamView::Long(at),
            ],
            Write::SetBlockedDomainEnabled { enabled, id } => seq![
                query::flag_value(enabled),
                query::id_value(id),
            ],
            Write::DeleteBlockedDomain { id } => seq![
                query::id_value(id),
            ],
            Write::BumpConfigVersion { profile_id, at } => seq![
                query::id_value(profile_id),
                ParamView::Long(at),
            ],
            Write::InsertAudit { id, admin_id, action, target_type, target_id, detail, at } => seq![
                query::id_value(id),
                query::opt_id_value(admin_id),
                ParamView::Text(action@),
                ParamView::OptText(text::opt_text(target_type)),
                query::opt_id_value(target_id),
                ParamView::OptText(text::opt_text(detail)),
                ParamView::Long(at),
            ],
        }
    }

    fn sql(&self) -> (r: &'static str)
        ensures
            r@ == self.sql_text(),
    {
        match self {
            Write::InsertAdmin { .. } => INSERT_ADMIN,
            Write::SetAdminTimezone { .. } => SET_ADMIN_TIMEZONE,
            Write::InsertAgent { .. } => INSERT_AGENT,
            Write::RefreshAgent { .. } => REFRESH_AGENT,
            Write::AcceptAgent { .. } => ACCEPT_AGENT,
            Write::SetAgentLastSeen { .. } => SET_AGENT_LAST_SEEN,
            Write::SetAgentName { .. } => SET_AGENT_NAME,
            Write::SetAgentStatus { .. } => SET_AGENT_STATUS,
            Write::SetAgentHello { .. } => SET_AGENT_HELLO,
            Write::MarkAgentPendingDelete { .. } => MARK_AGENT_PENDING_DELETE,
            Write::RestoreAgent { .. } => RESTORE_AGENT,
            Write::DeleteAgent { .. } => DELETE_AGENT,
            Write::SetAgentWebFilter { .. } => SET_AGENT_WEB_FILTER,
            Write::InsertAgentUser { .. } => INSERT_AGENT_USER,
            Write::RefreshAgentUser { .. } => REFRESH_AGENT_USER,
            Write::MarkAgentUserDeleted { .. } => MARK_AGENT_USER_DELETED,
            Write::AssignAgentUser { .. } => ASSIGN_AGENT_USER,
            Write::InsertProfile { .. } => INSERT_PROFILE,
            Write::InsertEnforcement { .. } => INSERT_ENFORCEMENT,
            Write::InsertConfigVersion { .. } => INSERT_CONFIG_VERSION,
            Write::SeedBlockedDomain { .. } => SEED_BLOCKED_DOMAIN,
            Write::SetProfileLanguage { .. } => SET_PROFILE_LANGUAGE,
            Write::SetProfileName { .. } => SET_PROFILE_NAME,
            Write::DeleteProfile { .. } => DELETE_PROFILE,
            Write::ClearSchedules { .. } => CLEAR_SCHEDULES,
            Write::InsertSchedule { .. } => INSERT_SCHEDULE,
            Write::ClearDailyLimits { .. } => CLEAR_DAILY_LIMITS,
            Write::InsertDailyLimit { .. } => INSERT_DAILY_LIMIT,
            Write::InsertAdjustment { .. } => INSERT_ADJUSTMENT,
            Write::SetPreserveTasks { .. } => SET_PRESERVE_TASKS,
            Write::SetLockoutGrace { .. } => SET_LOCKOUT_GRACE,
            Write::AddUsage { .. } => ADD_USAGE,
            Write::SetUsage { .. } => SET_USAGE,
            Write::ClearBlockedDomains { .. } => CLEAR_BLOCKED_DOMAINS,
            Write::InsertBlockedDomain { .. } => INSERT_BLOCKED_DOMAIN,
            Write::SetBlockedDomainEnabled { .. } => SET_BLOCKED_DOMAIN_ENABLED,
            Write::DeleteBlockedDomain { .. } => DELETE_BLOCKED_DOMAIN,
            Write::BumpConfigVersion { .. } => BUMP_CONFIG_VERSION,
            Write::InsertAudit { .. } => INSERT_AUDIT,
        }
    }

    fn params(&self) -> (r: Vec<Param>)
        ensures
            query::params_view(r@) == self.values(),
    {
        let r = match self {
            Write::InsertAdmin { id, username, password_hash, at } => vec![
                id_param(*id),
                text_param(username.as_str()),
                text_param(password_hash.as_str()),
                Param::Long(*at),
            ],
            Write::SetAdminTimezone { timezone, id } => vec![
                text_param(timezone.as_str()),
                id_param(*id),
            ],
            Write::InsertAgent { id, machine_id, hostname, timezone, agent_version, at } => vec![
                id_param(*id),
                text_param(machine_id.as_str()),
                text_param(hostname.as_str()),
                text_param(hostname.as_str()),
                text_param(timezone.as_str()),
                text_param(agent_version.as_str()),
                Param::Long(*at),
            ],
            Write::RefreshAgent { hostname, timezone, agent_version, at, machine_id } => vec![
                text_param(hostname.as_str()),
                text_param(timezone.as_str()),
                text_param(agent_version.as_str()),
                Param::Long(*at),
                text_param(machine_id.as_str()),
            ],
            Write::AcceptAgent { auth_token_hash, at, id } => vec![
                text_param(auth_token_hash.as_str()),
                Param::Long(*at),
                id_param(*id),
            ],
            Write::SetAgentLastSeen { at, id } => vec![
                Param::Long(*at),
                id_param(*id),
            ],
            Write::SetAgentName { name, id } => vec![
                text_param(name.as_str()),
                id_param(*id),
            ],
            Write::SetAgentStatus { status, id } => vec![
                text_param(status.as_str()),
                id_param(*id),
            ],
            Write::SetAgentHello { hostname, timezone, agent_version, at, id } => vec![
                text_param(hostname.as_str()),
                text_param(timezone.as_str()),
                text_param(agent_version.as_str()),
                Param::Long(*at),
                id_param(*id),
            ],
            Write::MarkAgentPendingDelete { id } => vec![
                id_param(*id),
            ],
            Write::RestoreAgent { id } => vec![
                id_param(*id),
            ],
            Write::DeleteAgent { id } => vec![
                id_param(*id),
            ],
            Write::SetAgentWebFilter { available, id } => vec![
                flag_param(*available),
                id_param(*id),
            ],
            Write::InsertAgentUser { id, agent_id, local_uid, username, display_name, at } => vec![
                id_param(*id),
                id_param(*agent_id),
                Param::Long(*local_uid as i64),
                text_param(username.as_str()),
                text_param(display_name.as_str()),
                Param::Long(*at),
            ],
            Write::RefreshAgentUser { username, display_name, at, agent_id, local_uid } => vec![
                text_param(username.as_str()),
                text_param(display_name.as_str()),
                Param::Long(*at),
                id_param(*agent_id),
                Param::Long(*local_uid as i64),
            ],
            Write::MarkAgentUserDeleted { agent_id, local_uid } => vec![
                id_param(*agent_id),
                Param::Long(*local_uid as i64),
            ],
            Write::AssignAgentUser { to_profile, to_status, id } => vec![
                opt_id_param(*to_profile),
                opt_text_param(to_status),
                id_param(*id),
            ],
            Write::InsertProfile { id, name, at } => vec![
                id_param(*id),
                text_param(name.as_str()),
                Param::Long(*at),
            ],
            Write::InsertEnforcement { profile_id } => vec![
                id_param(*profile_id),
            ],
            Write::InsertConfigVersion { profile_id, at } => vec![
                id_param(*profile_id),
                Param::Long(*at),
            ],
            Write::SeedBlockedDomain { id, profile_id, domain, at } => vec![
                id_param(*id),
                id_param(*profile_id),
                text_param(domain.as_str()),
                Param::Long(*at),
            ],
            Write::SetProfileLanguage { language, at, id } => vec![
                text_param(language.as_str()),
                Param::Long(*at),
                id_param(*id),
            ],
            Write::SetProfileName { name, at, id } => vec![
                text_param(name.as_str()),
                Param::Long(*at),
                id_param(*id),
            ],
            Write::DeleteProfile { id } => vec![
                id_param(*id),
            ],
            Write::ClearSchedules { profile_id } => vec![
                id_param(*profile_id),
            ],
            Write::InsertSchedule { id, profile_id, day_of_week, start, end } => vec![
                id_param(*id),
                id_param(*profile_id),
                Param::Int(*day_of_week as i32),
                text_param(start.as_str()),
                text_param(end.as_str()),
            ],
            Write::ClearDailyLimits { profile_id } => vec![
                id_param(*profile_id),
            ],
            Write::InsertDailyLimit { profile_id, day_of_week, minutes } => vec![
                id_param(*profile_id),
                Param::Int(*day_of_week as i32),
                Param::Int(*minutes),
            ],
            Write::InsertAdjustment {
                id,
                profile_id,
                target_date,
                minutes,
                reason,
                created_by,
                at,
            } => vec![
                id_param(*id),
                id_param(*profile_id),
                text_param(target_date.as_str()),
                Param::Int(*minutes),
                opt_text_param(reason),
                opt_id_param(*created_by),
                Param::Long(*at),
            ],
            Write::SetPreserveTasks { preserve, profile_id } => vec![
                flag_param(*preserve),
                id_param(*profile_id),
            ],
            Write::SetLockoutGrace { minutes, profile_id } => vec![
                Param::Int(*minutes),
                id_param(*profile_id),
            ],
            Write::AddUsage { agent_user_id, date, seconds, at } => vec![
                id_param(*agent_user_id),
                text_param(date.as_str()),
                Param::Long(*seconds),
                Param::Long(*at),
            ],
            Write::SetUsage { agent_user_id, date, seconds, at } => vec![
                id_param(*agent_user_id),
                text_param(date.as_str()),
                Param::Long(*seconds),
                Param::Long(*at),
            ],
            Write::ClearBlockedDomains { profile_id } => vec![
                id_param(*profile_id),
            ],
            Write::InsertBlockedDomain { id, profile_id, domain, enabled, at } => vec![
                id_param(*id),
                id_param(*profile_id),
                text_param(domain.as_str()),
                flag_param(*enabled),
                Param::Long(*at),
            ],
            Write::SetBlockedDomainEnabled { enabled, id } => vec![
                flag_param(*enabled),
                id_param(*id),
            ],
            Write::DeleteBlockedDomain { id } => vec![
                id_param(*id),
            ],
            Write::BumpConfigVersion { profile_id, at } => vec![
                id_param(*profile_id),
                Param::Long(*at),
            ],
            Write::InsertAudit { id, admin_id, action, target_type, target_id, detail, at } => vec![
                id_param(*id),
                opt_id_param(*admin_id),
                text_param(action.as_str()),
                opt_text_param(target_type),
                opt_id_param(*target_id),
                opt_text_param(detail),
                Param::Long(*at),
            ],
        };
        assert(query::params_view(r@) =~= self.values());
        r
    }

    /// The statement with what is bound to it.
    pub fn query(&self) -> (r: Query)
        ensures
            r@ == (QueryView { sql: self.sql_text(), params: self.values() }),
    {
        Query { sql: self.sql(), params: self.params() }
    }
}

} // verus!
