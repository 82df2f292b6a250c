//! The statements that read the store and that set it up, word for word.

use crate::db::admins;
use crate::db::agents;
use crate::db::domains;
use crate::db::profiles;
use crate::db::schema;
use crate::db::usage;
use vstd::prelude::*;

verus! {

/// The statements that read the administrators.
pub proof fn administrators_are_read_by_these()
    ensures
        admins::ADMIN_COUNT@ == "SELECT COUNT(*) FROM admin_users"@,
        admins::ADMIN_BY_USERNAME@ == "SELECT id, username, password_hash, created_at, timezone FROM admin_users WHERE username=$1"@,
        admins::ADMIN_BY_ID@ == "SELECT id, username, password_hash, created_at, timezone FROM admin_users WHERE id=$1"@,
        admins::ADMIN_TIMEZONE@ == "SELECT timezone FROM admin_users LIMIT 1"@,
{
}

/// The statements that read the agents and their users.
pub proof fn agents_are_read_by_these()
    ensures
        agents::AGENT_ID_BY_MACHINE@ == "SELECT id FROM agents WHERE machine_id=$1"@,
        agents::AGENT_BY_ID@ == "SELECT id,machine_id,display_name,hostname,timezone,status,auth_token_hash, \
            agent_version,paired_at,last_seen_at,created_at,web_filter_available \
            FROM agents WHERE id=$1"@,
        agents::AGENT_BY_MACHINE@ == "SELECT id,machine_id,display_name,hostname,timezone,status,auth_token_hash, \
            agent_version,paired_at,last_seen_at,created_at,web_filter_available \
            FROM agents WHERE machine_id=$1"@,
        agents::AGENTS_NEWEST_FIRST@ == "SELECT id,machine_id,display_name,hostname,timezone,status,auth_token_hash, \
            agent_version,paired_at,last_seen_at,created_at,web_filter_available \
            FROM agents ORDER BY created_at DESC"@,
        agents::PENDING_COUNT@ == "SELECT COUNT(*) FROM agents WHERE status='pending'"@,
        agents::AGENT_USER_ID@ == "SELECT id FROM agent_users WHERE agent_id=$1 AND local_uid=$2"@,
        agents::AGENT_USERS@ == "SELECT id,agent_id,profile_id,local_uid,local_username,display_name,status, \
            first_seen_at,last_reported_at \
            FROM agent_users WHERE agent_id=$1 AND status!='deleted' ORDER BY local_uid"@,
        agents::AGENT_USER_BY_ID@ == "SELECT id,agent_id,profile_id,local_uid,local_username,display_name,status, \
            first_seen_at,last_reported_at \
            FROM agent_users WHERE id=$1"@,
        agents::AGENT_USER_BY_UID@ == "SELECT id,agent_id,profile_id,local_uid,local_username,display_name,status, \
            first_seen_at,last_reported_at \
            FROM agent_users WHERE agent_id=$1 AND local_uid=$2"@,
        agents::MANAGED_USERS@ == "SELECT id,agent_id,profile_id,local_uid,local_username,display_name,status, \
            first_seen_at,last_reported_at \
            FROM agent_users WHERE profile_id=$1 AND status='managed'"@,
{
}

/// The statements that read the profiles and what belongs to them.
pub proof fn profiles_are_read_by_these()
    ensures
        profiles::PROFILES_BY_NAME@ == "SELECT id, display_name, language, created_at, updated_at \
            FROM user_profiles ORDER BY display_name"@,
        profiles::PROFILE_BY_ID@ == "SELECT id, display_name, language, created_at, updated_at FROM user_profiles WHERE id=$1"@,
        profiles::SCHEDULES@ == "SELECT id, profile_id, day_of_week, start_time, end_time \
            FROM schedules WHERE profile_id=$1 ORDER BY day_of_week, start_time"@,
        profiles::DAILY_LIMITS@ == "SELECT profile_id, day_of_week, allowed_minutes \
            FROM daily_limits WHERE profile_id=$1 ORDER BY day_of_week"@,
        profiles::ADJUSTMENTS@ == "SELECT id,profile_id,target_date,adjustment_minutes,reason,created_at \
            FROM time_adjustments \
            WHERE profile_id=$1 AND target_date>=$2 AND target_date<=$3 \
            ORDER BY target_date DESC"@,
        profiles::LATEST_REASON@ == "SELECT reason FROM time_adjustments \
            WHERE profile_id=$1 AND target_date=$2 \
            ORDER BY created_at DESC LIMIT 1"@,
        profiles::ADJUSTMENT_SUM@ == "SELECT COALESCE(SUM(adjustment_minutes),0) \
            FROM time_adjustments WHERE profile_id=$1 AND target_date=$2"@,
        profiles::ENFORCEMENT@ == "SELECT lockout_grace_minutes, warning_thresholds, preserve_tasks_on_lock \
            FROM enforcement_settings WHERE profile_id=$1"@,
        profiles::CONFIG_VERSION@ == "SELECT version FROM config_versions WHERE profile_id=$1"@,
{
}

/// The statements that read the block lists.
pub proof fn block_lists_are_read_by_these()
    ensures
        domains::BLOCKED_DOMAINS@ == "SELECT id, profile_id, domain, enabled, created_at \
            FROM blocked_domains WHERE profile_id=$1 ORDER BY domain"@,
        domains::ENABLED_DOMAINS@ == "SELECT domain FROM blocked_domains WHERE profile_id=$1 AND enabled=1 ORDER BY domain"@,
{
}

/// The statements that read the use of the days.
pub proof fn use_is_read_by_these()
    ensures
        usage::USED_ON@ == "SELECT used_seconds FROM daily_usage WHERE agent_user_id=$1 AND date=$2"@,
        usage::USED_BY_PROFILE@ == "SELECT COALESCE(SUM(du.used_seconds),0) \
            FROM daily_usage du \
            JOIN agent_users au ON au.id=du.agent_user_id \
            WHERE au.profile_id=$1 AND du.date=$2"@,
        usage::USAGE_BY_AGENT@ == "SELECT au.agent_id, au.id, du.date, du.used_seconds \
            FROM daily_usage du \
            JOIN agent_users au ON au.id=du.agent_user_id \
            WHERE au.profile_id=$1 AND du.date>=$2 AND du.date<=$3 \
            ORDER BY du.date DESC"@,
        usage::USAGE_BY_DAY@ == "SELECT du.date, COALESCE(SUM(du.used_seconds),0) as total \
            FROM daily_usage du \
            JOIN agent_users au ON au.id=du.agent_user_id \
            WHERE au.profile_id=$1 AND du.date>=$2 AND du.date<=$3 \
            GROUP BY du.date ORDER BY du.date DESC"@,
{
}

/// The statements that set a store up and bring it up to date.
pub proof fn stores_are_set_up_by_these()
    ensures
        schema::CREATE_ADMIN_USERS@ == "CREATE TABLE IF NOT EXISTS admin_users (id TEXT NOT NULL PRIMARY KEY, \
            username TEXT NOT NULL UNIQUE, password_hash TEXT NOT NULL, timezone \
            TEXT NOT NULL DEFAULT 'UTC', created_at INTEGER NOT NULL)"@,
        schema::CREATE_AGENTS@ == "CREATE TABLE IF NOT EXISTS agents (id TEXT NOT NULL PRIMARY KEY, \
            machine_id TEXT NOT NULL UNIQUE, display_name TEXT NOT NULL, hostname \
            TEXT NOT NULL, timezone TEXT NOT NULL DEFAULT 'UTC', status TEXT NOT \
            NULL DEFAULT 'pending' CHECK (status IN \
            ('pending','paired','disabled','pending_delete')), auth_token_hash TEXT, \
            agent_version TEXT, paired_at INTEGER, last_seen_at INTEGER, created_at \
            INTEGER NOT NULL, web_filter_available INTEGER)"@,
        schema::CREATE_USER_PROFILES@ == "CREATE TABLE IF NOT EXISTS user_profiles (id TEXT NOT NULL PRIMARY KEY, \
            display_name TEXT NOT NULL, language TEXT NOT NULL DEFAULT 'en', \
            created_at INTEGER NOT NULL, updated_at INTEGER NOT NULL)"@,
        schema::CREATE_AGENT_USERS@ == "CREATE TABLE IF NOT EXISTS agent_users (id TEXT NOT NULL PRIMARY KEY, \
            agent_id TEXT NOT NULL REFERENCES agents(id) ON DELETE CASCADE, \
            profile_id TEXT REFERENCES user_profiles(id) ON DELETE SET NULL, \
            local_uid INTEGER NOT NULL, local_username TEXT NOT NULL, display_name \
            TEXT, status TEXT NOT NULL DEFAULT 'unmanaged' CHECK (status IN \
            ('unmanaged','managed','deleted')), first_seen_at INTEGER NOT NULL, \
            last_reported_at INTEGER NOT NULL, UNIQUE(agent_id, local_uid))"@,
        schema::CREATE_SCHEDULES@ == "CREATE TABLE IF NOT EXISTS schedules (id TEXT NOT NULL PRIMARY KEY, \
            profile_id TEXT NOT NULL REFERENCES user_profiles(id) ON DELETE CASCADE, \
            day_of_week INTEGER NOT NULL CHECK (day_of_week BETWEEN 0 AND 6), \
            start_time TEXT NOT NULL, end_time TEXT NOT NULL)"@,
        schema::CREATE_DAILY_LIMITS@ == "CREATE TABLE IF NOT EXISTS daily_limits (profile_id TEXT NOT NULL \
            REFERENCES user_profiles(id) ON DELETE CASCADE, day_of_week INTEGER NOT \
            NULL CHECK (day_of_week BETWEEN 0 AND 6), allowed_minutes INTEGER NOT \
            NULL CHECK (allowed_minutes >= 0), PRIMARY KEY (profile_id, \
            day_of_week))"@,
        schema::CREATE_TIME_ADJUSTMENTS@ == "CREATE TABLE IF NOT EXISTS time_adjustments (id TEXT NOT NULL PRIMARY \
            KEY, profile_id TEXT NOT NULL REFERENCES user_profiles(id) ON DELETE \
            CASCADE, target_date TEXT NOT NULL, adjustment_minutes INTEGER NOT NULL, \
            reason TEXT, created_by TEXT REFERENCES admin_users(id), created_at \
            INTEGER NOT NULL, synced_to_agents INTEGER NOT NULL DEFAULT 0)"@,
        schema::CREATE_ENFORCEMENT_SETTINGS@ == "CREATE TABLE IF NOT EXISTS enforcement_settings (profile_id TEXT NOT \
            NULL PRIMARY KEY REFERENCES user_profiles(id) ON DELETE CASCADE, \
            lockout_grace_minutes INTEGER NOT NULL DEFAULT 5, warning_thresholds \
            TEXT NOT NULL DEFAULT '15,5,1', preserve_tasks_on_lock INTEGER NOT NULL \
            DEFAULT 0)"@,
        schema::CREATE_DAILY_USAGE@ == "CREATE TABLE IF NOT EXISTS daily_usage (agent_user_id TEXT NOT NULL \
            REFERENCES agent_users(id) ON DELETE CASCADE, date TEXT NOT NULL, \
            used_seconds INTEGER NOT NULL DEFAULT 0, reported_at INTEGER NOT NULL, \
            PRIMARY KEY (agent_user_id, date))"@,
        schema::CREATE_CONFIG_VERSIONS@ == "CREATE TABLE IF NOT EXISTS config_versions (profile_id TEXT NOT NULL \
            PRIMARY KEY REFERENCES user_profiles(id) ON DELETE CASCADE, version \
            INTEGER NOT NULL DEFAULT 1, updated_at INTEGER NOT NULL)"@,
        schema::CREATE_AUDIT_LOG@ == "CREATE TABLE IF NOT EXISTS audit_log (id TEXT NOT NULL PRIMARY KEY, \
            admin_user_id TEXT REFERENCES admin_users(id), action TEXT NOT NULL, \
            target_type TEXT, target_id TEXT, detail TEXT, created_at INTEGER NOT \
            NULL)"@,
        schema::CREATE_BLOCKED_DOMAINS@ == "CREATE TABLE IF NOT EXISTS blocked_domains (id TEXT NOT NULL PRIMARY \
            KEY, profile_id TEXT NOT NULL REFERENCES user_profiles(id) ON DELETE \
            CASCADE, domain TEXT NOT NULL, enabled INTEGER NOT NULL DEFAULT 0, \
            created_at INTEGER NOT NULL, UNIQUE (profile_id, domain))"@,
        schema::INDEX_AGENT_USERS_AGENT@ == "CREATE INDEX IF NOT EXISTS idx_agent_users_agent ON \
            agent_users(agent_id)"@,
        schema::INDEX_AGENT_USERS_PROFILE@ == "CREATE INDEX IF NOT EXISTS idx_agent_users_profile ON \
            agent_users(profile_id)"@,
        schema::INDEX_SCHEDULES_PROFILE@ == "CREATE INDEX IF NOT EXISTS idx_schedules_profile ON \
            schedules(profile_id)"@,
        schema::INDEX_DAILY_USAGE_DATE@ == "CREATE INDEX IF NOT EXISTS idx_daily_usage_date ON daily_usage(date)"@,
        schema::INDEX_ADJUSTMENTS_PROFILE@ == "CREATE INDEX IF NOT EXISTS idx_adjustments_profile ON \
            time_adjustments(profile_id, target_date)"@,
        schema::INDEX_BLOCKED_DOMAINS_PROFILE@ == "CREATE INDEX IF NOT EXISTS idx_blocked_domains_profile ON \
            blocked_domains(profile_id)"@,
        schema::FOREIGN_KEYS_OFF@ == "PRAGMA foreign_keys = OFF"@,
        schema::FOREIGN_KEYS_ON@ == "PRAGMA foreign_keys = ON"@,
        schema::CREATE_AGENTS_V1@ == "CREATE TABLE agents_v1 (id TEXT PRIMARY KEY, machine_id TEXT NOT NULL \
            UNIQUE, display_name TEXT NOT NULL, hostname TEXT NOT NULL, timezone \
            TEXT NOT NULL DEFAULT 'UTC', status TEXT NOT NULL DEFAULT 'pending' \
            CHECK (status IN ('pending','paired','disabled','pending_delete')), \
            auth_token_hash TEXT, agent_version TEXT, paired_at INTEGER, \
            last_seen_at INTEGER, created_at INTEGER NOT NULL, web_filter_available \
            INTEGER)"@,
        schema::COPY_AGENTS_V1@ == "INSERT INTO agents_v1 \
            (id,machine_id,display_name,hostname,timezone,status, \
            auth_token_hash,agent_version,paired_at,last_seen_at,created_at) SELECT \
            id,machine_id,display_name,hostname,timezone,status, \
            auth_token_hash,agent_version,paired_at,last_seen_at,created_at FROM \
            agents"@,
        schema::DROP_AGENTS@ == "DROP TABLE agents"@,
        schema::RENAME_AGENTS_V1@ == "ALTER TABLE agents_v1 RENAME TO agents"@,
        schema::ADD_PROFILE_LANGUAGE@ == "ALTER TABLE user_profiles ADD COLUMN language TEXT NOT NULL DEFAULT 'en'"@,
        schema::ADD_ADMIN_TIMEZONE@ == "ALTER TABLE admin_users ADD COLUMN timezone TEXT NOT NULL DEFAULT 'UTC'"@,
        schema::CREATE_DAILY_LIMITS_V4@ == "CREATE TABLE daily_limits_v4 (profile_id TEXT NOT NULL REFERENCES \
            user_profiles(id) ON DELETE CASCADE, day_of_week INTEGER NOT NULL CHECK \
            (day_of_week BETWEEN 0 AND 6), allowed_minutes INTEGER NOT NULL CHECK \
            (allowed_minutes >= 0), PRIMARY KEY (profile_id, day_of_week))"@,
        schema::COPY_DAILY_LIMITS_V4@ == "INSERT INTO daily_limits_v4 SELECT * FROM daily_limits"@,
        schema::DROP_DAILY_LIMITS@ == "DROP TABLE daily_limits"@,
        schema::RENAME_DAILY_LIMITS_V4@ == "ALTER TABLE daily_limits_v4 RENAME TO daily_limits"@,
        schema::ADD_PRESERVE_TASKS@ == "ALTER TABLE enforcement_settings ADD COLUMN preserve_tasks_on_lock \
            INTEGER NOT NULL DEFAULT 0"@,
        schema::ADD_WEB_FILTER@ == "ALTER TABLE agents ADD COLUMN web_filter_available INTEGER"@,
        schema::AGENTS_SCHEMA@ == "SELECT sql FROM sqlite_master WHERE type='table' AND name='agents'"@,
        schema::DAILY_LIMITS_SCHEMA@ == "SELECT sql FROM sqlite_master WHERE type='table' AND name='daily_limits'"@,
        schema::READ_VERSION@ == "SELECT version FROM _schema_version LIMIT 1"@,
        schema::CREATE_VERSION_TABLE@ == "CREATE TABLE IF NOT EXISTS _schema_version (version INTEGER NOT NULL \
            DEFAULT 0)"@,
        schema::READ_USER_VERSION@ == "PRAGMA user_version"@,
        schema::INSERT_VERSION@ == "INSERT INTO _schema_version (version) VALUES ($1)"@,
        schema::UPDATE_VERSION@ == "UPDATE _schema_version SET version = $1"@,
        schema::JOURNAL_MODE@ == "PRAGMA journal_mode=WAL"@,
        schema::ENFORCE_FOREIGN_KEYS@ == "PRAGMA foreign_keys=ON"@,
        schema::CURRENT_VERSION == 6,
{
}

} // verus!
