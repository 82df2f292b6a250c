//! The store's statements on an SQLite database in memory.

use screenguard::db::admins;
use screenguard::db::agents;
use screenguard::db::agents::LocalUser;
use screenguard::db::domains;
use screenguard::db::domains::NewDomain;
use screenguard::db::models::{
    read_enforcement_settings, row_to_adjustment, row_to_admin, row_to_agent, row_to_agent_user,
    row_to_blocked_domain, row_to_daily_limit, row_to_profile, row_to_schedule, AdminUser, Agent,
    AgentUser, BlockedDomain, DailyLimit, EnforcementSettings, Schedule, StoredAdjustment,
    StoredAdmin, StoredAgent, StoredAgentUser, StoredBlockedDomain, StoredDailyLimit,
    StoredEnforcement, StoredProfile, StoredSchedule, TimeAdjustment, UserProfile,
};
use screenguard::db::profiles;
use screenguard::db::profiles::{NewLimit, NewWindow};
use screenguard::db::query::{Param, Query};
use screenguard::db::schema;
use screenguard::db::schema::{MigrationStatement, MigrationStep};
use screenguard::db::usage;
use screenguard::db::usage::{row_to_agent_usage, AgentUsage, StoredAgentUsage};
use screenguard::db::write::Write;
use sqlx::any::AnyRow;
use sqlx::Row;

struct Store {
    rt: tokio::runtime::Runtime,
    pool: sqlx::AnyPool,
}

impl Store {
    fn empty() -> Store {
        let rt = tokio::runtime::Builder::new_current_thread().enable_all().build().unwrap();
        sqlx::any::install_default_drivers();
        let pool = rt
            .block_on(
                sqlx::pool::PoolOptions::<sqlx::Any>::new()
                    .max_connections(1)
                    .connect("sqlite::memory:"),
            )
            .unwrap();
        Store { rt, pool }
    }

    fn new() -> Store {
        let store = Store::empty();
        store.plain("PRAGMA foreign_keys=ON").unwrap();
        for sql in schema::create_tables() {
            store.plain(sql).unwrap();
        }
        store.migrate();
        store
    }

    /// The store as it was before tasks could be preserved.
    fn before_v5() -> Store {
        let store = Store::empty();
        for sql in schema::create_tables() {
            if sql == schema::CREATE_ENFORCEMENT_SETTINGS {
                store
                    .plain(
                        "CREATE TABLE enforcement_settings (profile_id TEXT NOT NULL PRIMARY KEY \
                         REFERENCES user_profiles(id) ON DELETE CASCADE, \
                         lockout_grace_minutes INTEGER NOT NULL DEFAULT 5, \
                         warning_thresholds TEXT NOT NULL DEFAULT '15,5,1')",
                    )
                    .unwrap();
            } else {
                store.plain(sql).unwrap();
            }
        }
        store.plain(schema::CREATE_VERSION_TABLE).unwrap();
        store.query(&schema::insert_schema_version(4)).unwrap();
        store
    }

    fn plain(&self, sql: &str) -> Result<u64, sqlx::Error> {
        let r = self.rt.block_on(sqlx::query(sql).execute(&self.pool))?;
        Ok(r.rows_affected())
    }

    fn query(&self, q: &Query) -> Result<u64, sqlx::Error> {
        let r = self.rt.block_on(bound(q).execute(&self.pool))?;
        Ok(r.rows_affected())
    }

    fn write(&self, w: &Write) -> Result<u64, sqlx::Error> {
        self.query(&w.query())
    }

    fn write_all(&self, ws: &[Write]) -> Result<(), sqlx::Error> {
        for w in ws {
            self.write(w)?;
        }
        Ok(())
    }

    fn rows(&self, q: &Query) -> Vec<AnyRow> {
        self.rt.block_on(bound(q).fetch_all(&self.pool)).unwrap()
    }

    fn first(&self, q: &Query) -> Option<AnyRow> {
        self.rows(q).into_iter().next()
    }

    fn text(&self, sql: &'static str) -> Option<String> {
        let q = Query { sql, params: vec![] };
        self.first(&q).map(|r| r.get::<String, _>(0))
    }

    fn version(&self) -> i32 {
        let q = Query { sql: schema::READ_VERSION, params: vec![] };
        let stored = match self.rt.block_on(bound(&q).fetch_optional(&self.pool)) {
            Ok(Some(r)) => Some(r.get::<i32, _>(0)),
            _ => None,
        };
        if stored.is_some() {
            return schema::get_schema_version(stored, true, None);
        }
        self.plain(schema::CREATE_VERSION_TABLE).unwrap();
        let q = Query { sql: schema::READ_USER_VERSION, params: vec![] };
        let carried = self.first(&q).map(|r| r.get::<i32, _>(0));
        let v = schema::get_schema_version(None, true, carried);
        self.query(&schema::insert_schema_version(v)).unwrap();
        v
    }

    fn apply(&self, statements: Vec<MigrationStatement>) {
        for s in statements {
            let r = self.plain(s.sql);
            if !s.may_fail {
                r.unwrap();
            }
        }
    }

    fn apply_migration(&self, n: i32) {
        match n {
            1 => {
                let schema_text = self.text(schema::AGENTS_SCHEMA);
                for sql in schema::apply_v1(schema_text.as_deref()) {
                    self.plain(sql).unwrap();
                }
            }
            2 => self.apply(schema::apply_v2()),
            3 => self.apply(schema::apply_v3()),
            4 => {
                let schema_text = self.text(schema::DAILY_LIMITS_SCHEMA);
                for sql in schema::apply_v4(schema_text.as_deref()) {
                    self.plain(sql).unwrap();
                }
            }
            5 => self.apply(schema::apply_v5()),
            _ => self.apply(schema::apply_v6()),
        }
    }

    fn migrate(&self) -> Vec<MigrationStep> {
        let v = self.version();
        let admins = self.count(&admins::admin_count());
        let steps = schema::run_migrations(v, true, admins);
        for step in &steps {
            match step {
                MigrationStep::Apply(n) => self.apply_migration(*n),
                MigrationStep::SetVersion(n) => {
                    self.query(&schema::set_schema_version(*n)).unwrap();
                }
            }
        }
        steps
    }

    fn count(&self, q: &Query) -> i64 {
        self.first(q).unwrap().get::<i64, _>(0)
    }

    fn create_profile(&self, name: &str) -> UserProfile {
        let (profile, ws) = profiles::create_profile(name);
        self.write_all(&ws).unwrap();
        profile
    }

    fn settings(&self, profile: u128) -> EnforcementSettings {
        let row = self.first(&profiles::get_enforcement_settings(profile));
        read_enforcement_settings(row.map(|r| StoredEnforcement {
            lockout_grace_minutes: r.get("lockout_grace_minutes"),
            warning_thresholds: r.get("warning_thresholds"),
            preserve_tasks_on_lock: r.get("preserve_tasks_on_lock"),
        }))
    }

    fn blocked(&self, profile: u128) -> Vec<BlockedDomain> {
        self.rows(&domains::get_blocked_domains(profile))
            .into_iter()
            .map(|r| {
                row_to_blocked_domain(StoredBlockedDomain {
                    id: r.get("id"),
                    profile_id: r.get("profile_id"),
                    domain: r.get("domain"),
                    enabled: r.get("enabled"),
                    created_at: r.get("created_at"),
                })
            })
            .collect()
    }

    fn enabled(&self, profile: u128) -> Vec<String> {
        self.rows(&domains::get_enabled_blocked_domains(profile))
            .into_iter()
            .map(|r| r.get::<String, _>("domain"))
            .collect()
    }

    fn agent(&self, q: &Query) -> Option<Agent> {
        self.agents(q).into_iter().next()
    }

    fn agents(&self, q: &Query) -> Vec<Agent> {
        self.rows(q)
            .into_iter()
            .map(|r| {
                row_to_agent(StoredAgent {
                    id: r.get("id"),
                    machine_id: r.get("machine_id"),
                    display_name: r.get("display_name"),
                    hostname: r.get("hostname"),
                    timezone: r.get("timezone"),
                    status: r.get("status"),
                    auth_token_hash: r.get("auth_token_hash"),
                    agent_version: r.get("agent_version"),
                    paired_at: r.get("paired_at"),
                    last_seen_at: r.get("last_seen_at"),
                    created_at: r.get("created_at"),
                    web_filter_available: r.get("web_filter_available"),
                })
            })
            .collect()
    }

    fn users(&self, q: &Query) -> Vec<AgentUser> {
        self.rows(q)
            .into_iter()
            .map(|r| {
                row_to_agent_user(StoredAgentUser {
                    id: r.get("id"),
                    agent_id: r.get("agent_id"),
                    profile_id: r.get("profile_id"),
                    local_uid: r.get("local_uid"),
                    local_username: r.get("local_username"),
                    display_name: r.get("display_name"),
                    status: r.get("status"),
                    first_seen_at: r.get("first_seen_at"),
                    last_reported_at: r.get("last_reported_at"),
                })
            })
            .collect()
    }

    fn admin(&self, q: &Query) -> Option<AdminUser> {
        self.first(q).map(|r| {
            row_to_admin(StoredAdmin {
                id: r.get("id"),
                username: r.get("username"),
                password_hash: r.get("password_hash"),
                created_at: r.get("created_at"),
                timezone: r.get("timezone"),
            })
        })
    }

    fn pair(&self, machine: &str, host: &str) -> Agent {
        let existing =
            self.first(&agents::find_agent_id(machine)).map(|r| r.get::<String, _>("id"));
        let (id, w) =
            agents::upsert_agent_pending(existing.as_deref(), machine, host, "UTC", "1.0");
        self.write(&w).unwrap();
        self.agent(&agents::get_agent_by_id(id)).unwrap()
    }

    fn report(&self, agent: u128, users: &[LocalUser]) {
        for u in users {
            let exists =
                self.first(&agents::find_agent_user_id(agent, u.local_uid)).is_some();
            self.write(&agents::upsert_agent_users(agent, u, exists, 1_700_000_000)).unwrap();
        }
    }

    fn used(&self, user: u128, date: &str) -> Option<i64> {
        self.first(&usage::find_used_seconds(user, date)).map(|r| r.get::<i64, _>(0))
    }

    fn sync(&self, user: u128, date: &str, total: i64) {
        let stored = self.used(user, date);
        self.write(&usage::reconcile_usage_seconds(user, date, total, stored)).unwrap();
    }

    fn schedules(&self, profile: u128) -> Vec<Schedule> {
        self.rows(&profiles::get_schedules(profile))
            .into_iter()
            .map(|r| {
                row_to_schedule(StoredSchedule {
                    id: r.get("id"),
                    profile_id: r.get("profile_id"),
                    day_of_week: r.get("day_of_week"),
                    start_time: r.get("start_time"),
                    end_time: r.get("end_time"),
                })
            })
            .collect()
    }

    fn limits(&self, profile: u128) -> Vec<DailyLimit> {
        self.rows(&profiles::get_daily_limits(profile))
            .into_iter()
            .map(|r| {
                row_to_daily_limit(StoredDailyLimit {
                    profile_id: r.get("profile_id"),
                    day_of_week: r.get("day_of_week"),
                    allowed_minutes: r.get("allowed_minutes"),
                })
            })
            .collect()
    }

    fn adjustments(&self, q: &Query) -> Vec<TimeAdjustment> {
        self.rows(q)
            .into_iter()
            .map(|r| {
                row_to_adjustment(StoredAdjustment {
                    id: r.get("id"),
                    profile_id: r.get("profile_id"),
                    target_date: r.get("target_date"),
                    adjustment_minutes: r.get("adjustment_minutes"),
                    reason: r.get("reason"),
                    created_at: r.get("created_at"),
                })
            })
            .collect()
    }

    fn profile(&self, id: u128) -> Option<UserProfile> {
        self.first(&profiles::get_profile(id)).map(|r| {
            row_to_profile(StoredProfile {
                id: r.get("id"),
                display_name: r.get("display_name"),
                language: r.get("language"),
                created_at: r.get("created_at"),
                updated_at: r.get("updated_at"),
            })
        })
    }
}

fn bound(q: &Query) -> sqlx::query::Query<'_, sqlx::Any, sqlx::any::AnyArguments<'_>> {
    let mut query = sqlx::query(q.sql);
    for p in &q.params {
        query = match p {
            Param::Text(s) => query.bind(s.clone()),
            Param::OptText(s) => query.bind(s.clone()),
            Param::Int(n) => query.bind(*n),
            Param::Long(n) => query.bind(*n),
        };
    }
    query
}

fn listed(domain: &str, enabled: bool) -> NewDomain {
    NewDomain { domain: domain.to_string(), enabled }
}

fn test_user() -> LocalUser {
    LocalUser {
        local_uid: 1000,
        username: "test".to_string(),
        display_name: "Test User".to_string(),
    }
}

fn insert_paired_agent(store: &Store, machine: &str) -> u128 {
    let agent = store.pair(machine, "host");
    store.write(&agents::accept_agent(agent.id, "token-hash")).unwrap();
    agent.id
}

#[test]
fn new_profiles_default_preserve_tasks_to_false() {
    let store = Store::new();
    let profile = store.create_profile("Test profile");
    assert!(!store.settings(profile.id).preserve_tasks_on_lock);
}

#[test]
fn migration_defaults_existing_profiles_to_false() {
    let store = Store::before_v5();
    let id: u128 = 0x1234_5678_9abc_4def_8123_4567_89ab_cdef;
    let text = "12345678-9abc-4def-8123-456789abcdef".to_string();
    store
        .query(&Query {
            sql: "INSERT INTO user_profiles (id, display_name, created_at, updated_at, language) \
                  VALUES ($1, 'Existing profile', 1, 1, 'en')",
            params: vec![Param::Text(text)],
        })
        .unwrap();
    store.write(&Write::InsertEnforcement { profile_id: id }).unwrap();
    store.apply_migration(5);
    assert!(!store.settings(id).preserve_tasks_on_lock);
}

#[test]
fn stores_and_retrieves_preserve_tasks_setting() {
    let store = Store::new();
    let profile = store.create_profile("Test profile");

    store.write(&profiles::set_preserve_tasks_on_lock(profile.id, true)).unwrap();
    assert!(store.settings(profile.id).preserve_tasks_on_lock);

    store.write(&profiles::set_preserve_tasks_on_lock(profile.id, false)).unwrap();
    assert!(!store.settings(profile.id).preserve_tasks_on_lock);
}

#[test]
fn config_propagation_includes_preserve_tasks_setting() {
    let store = Store::new();
    let profile = store.create_profile("Test profile");
    store.write(&profiles::set_preserve_tasks_on_lock(profile.id, true)).unwrap();
    let agent_id = insert_paired_agent(&store, "machine");
    store.report(agent_id, &[test_user()]);
    let user = store.users(&agents::get_agent_user(agent_id, 1000)).remove(0);
    store
        .write(&agents::update_agent_user(user.id, Some(profile.id), Some("managed")))
        .unwrap();

    let users: Vec<AgentUser> = store.users(&agents::list_agent_users(agent_id));
    assert_eq!(users.len(), 1);
    assert!(store.settings(users[0].profile_id.unwrap()).preserve_tasks_on_lock);
}

#[test]
fn new_profile_seeds_default_blocked_domains() {
    let store = Store::new();
    let profile = store.create_profile("Test");
    let domains = store.blocked(profile.id);
    assert_eq!(domains.len(), profiles::default_blocked_domains().len());
    assert!(domains.iter().any(|d| d.domain == "youtube.com"));
    assert!(domains.iter().all(|d| !d.enabled));
}

#[test]
fn set_and_get_blocked_domains() {
    let store = Store::new();
    let profile = store.create_profile("Test");
    let ws = domains::set_blocked_domains(
        profile.id,
        &vec![listed("youtube.com", true), listed("tiktok.com", false)],
    );
    store.write_all(&ws).unwrap();
    let domains = store.blocked(profile.id);
    assert_eq!(domains.len(), 2);
    assert!(domains.iter().find(|d| d.domain == "youtube.com").unwrap().enabled);
    assert!(!domains.iter().find(|d| d.domain == "tiktok.com").unwrap().enabled);
}

#[test]
fn get_enabled_blocked_domains_returns_only_enabled() {
    let store = Store::new();
    let profile = store.create_profile("Test");
    let ws = domains::set_blocked_domains(
        profile.id,
        &vec![
            listed("youtube.com", true),
            listed("tiktok.com", false),
            listed("discord.com", true),
        ],
    );
    store.write_all(&ws).unwrap();
    let enabled = store.enabled(profile.id);
    assert_eq!(enabled.len(), 2);
    assert!(enabled.contains(&"youtube.com".to_string()));
    assert!(enabled.contains(&"discord.com".to_string()));
    assert!(!enabled.contains(&"tiktok.com".to_string()));
}

#[test]
fn patch_blocked_domain_toggles_enabled() {
    let store = Store::new();
    let profile = store.create_profile("Test");
    let (domain, w) = domains::add_blocked_domain(profile.id, "example.com", false);
    store.write(&w).unwrap();
    assert!(!domain.enabled);
    let n = store.write(&domains::patch_blocked_domain(domain.id, true)).unwrap();
    assert!(domains::found_row(n));
    let domains = store.blocked(profile.id);
    let d = domains.iter().find(|d| d.domain == "example.com").unwrap();
    assert!(d.enabled);
}

#[test]
fn delete_blocked_domain_removes_it() {
    let store = Store::new();
    let profile = store.create_profile("Test");
    let (domain, w) = domains::add_blocked_domain(profile.id, "example.com", true);
    store.write(&w).unwrap();
    let before = store.blocked(profile.id).len();
    store.write(&domains::delete_blocked_domain(domain.id)).unwrap();
    let after = store.blocked(profile.id).len();
    assert_eq!(after, before - 1);
}

#[test]
fn config_push_includes_enabled_blocked_domains() {
    let store = Store::new();
    let profile = store.create_profile("Test");
    let ws = domains::set_blocked_domains(
        profile.id,
        &vec![listed("youtube.com", true), listed("tiktok.com", false)],
    );
    store.write_all(&ws).unwrap();
    let agent_id = insert_paired_agent(&store, "machine2");
    store.report(agent_id, &[test_user()]);
    let user = store.users(&agents::get_agent_user(agent_id, 1000)).remove(0);
    store
        .write(&agents::update_agent_user(user.id, Some(profile.id), Some("managed")))
        .unwrap();

    let users: Vec<AgentUser> = store.users(&agents::list_agent_users(agent_id));
    assert_eq!(users.len(), 1);
    assert_eq!(store.enabled(users[0].profile_id.unwrap()), vec!["youtube.com"]);
}

#[test]
fn a_patch_or_deletion_of_nothing_finds_no_row() {
    let store = Store::new();
    let n = store.write(&domains::patch_blocked_domain(7, true)).unwrap();
    assert!(!domains::found_row(n));
    let n = store.write(&domains::delete_blocked_domain(7)).unwrap();
    assert!(!domains::found_row(n));
}

#[test]
fn a_domain_cannot_be_listed_twice() {
    let store = Store::new();
    let profile = store.create_profile("Test");
    let (_, w) = domains::add_blocked_domain(profile.id, "youtube.com", true);
    assert!(store.write(&w).is_err());
    let ws = domains::set_blocked_domains(
        profile.id,
        &vec![listed("a.com", true), listed("a.com", false), listed("b.com", true)],
    );
    assert!(store.write_all(&ws).is_err());
    assert_eq!(store.enabled(profile.id), vec!["a.com"]);
    let nobody = domains::add_blocked_domain(99, "c.com", true).1;
    assert!(store.write(&nobody).is_err());
}

#[test]
fn a_new_profile_reads_back_complete() {
    let store = Store::new();
    let profile = store.create_profile("Ada");
    let read = store.profile(profile.id).unwrap();
    assert_eq!(read.id, profile.id);
    assert_eq!(read.display_name, "Ada");
    assert_eq!(read.language, "en");
    assert_eq!(read.created_at, profile.created_at);
    assert_eq!(read.updated_at, profile.updated_at);
    let s = store.settings(profile.id);
    assert_eq!(s.lockout_grace_minutes, 5);
    assert_eq!(s.warning_thresholds, vec![15, 5, 1]);
    let v = store
        .first(&profiles::get_config_version(profile.id))
        .map(|r| r.get::<i64, _>("version"));
    assert_eq!(profiles::version_or_first(v), 1);
    assert!(store.profile(3).is_none());
}

#[test]
fn settings_of_an_unknown_profile_are_the_defaults() {
    let store = Store::new();
    let s = store.settings(5);
    assert_eq!(s.lockout_grace_minutes, 5);
    assert!(!s.preserve_tasks_on_lock);
    assert_eq!(s.warning_thresholds, vec![15, 5, 1]);
}

#[test]
fn grace_minutes_are_read_back() {
    let store = Store::new();
    let profile = store.create_profile("Test");
    store.write(&profiles::set_lockout_grace_minutes(profile.id, 12)).unwrap();
    assert_eq!(store.settings(profile.id).lockout_grace_minutes, 12);
    assert!(!store.settings(profile.id).preserve_tasks_on_lock);
}

#[test]
fn profiles_are_renamed_and_listed_by_name() {
    let store = Store::new();
    let b = store.create_profile("Bea");
    let a = store.create_profile("Cid");
    store.write(&profiles::update_profile(a.id, "Ada")).unwrap();
    store.write(&profiles::update_profile_language(b.id, "pl")).unwrap();
    let names: Vec<String> = store
        .rows(&profiles::list_profiles())
        .into_iter()
        .map(|r| r.get::<String, _>("display_name"))
        .collect();
    assert_eq!(names, vec!["Ada", "Bea"]);
    assert_eq!(store.profile(b.id).unwrap().language, "pl");
    assert_eq!(store.profile(a.id).unwrap().language, "en");
}

#[test]
fn a_deleted_profile_takes_its_lists_and_leaves_its_users() {
    let store = Store::new();
    let profile = store.create_profile("Test");
    let agent = insert_paired_agent(&store, "m");
    store.report(agent, &[test_user()]);
    let user = store.users(&agents::get_agent_user(agent, 1000)).remove(0);
    store
        .write(&agents::update_agent_user(user.id, Some(profile.id), Some("managed")))
        .unwrap();
    store.write(&profiles::delete_profile(profile.id)).unwrap();
    assert!(store.profile(profile.id).is_none());
    assert!(store.blocked(profile.id).is_empty());
    let left = store.users(&agents::get_agent_user_by_id(user.id)).remove(0);
    assert_eq!(left.profile_id, None);
    assert_eq!(left.status, "managed");
}

#[test]
fn windows_replace_each_other() {
    let store = Store::new();
    let profile = store.create_profile("Test");
    let other = store.create_profile("Other");
    let w = |d: u8, s: &str, e: &str| NewWindow {
        day_of_week: d,
        start_time: s.to_string(),
        end_time: e.to_string(),
    };
    let first = vec![w(4, "16:00", "18:00")];
    store.write_all(&profiles::replace_schedules(profile.id, &first)).unwrap();
    store.write_all(&profiles::replace_schedules(other.id, &first)).unwrap();
    let second = vec![w(6, "09:00", "11:00"), w(0, "15:00", "17:00"), w(0, "08:00", "09:00")];
    store.write_all(&profiles::replace_schedules(profile.id, &second)).unwrap();
    let read: Vec<(u8, String)> =
        store.schedules(profile.id).into_iter().map(|s| (s.day_of_week, s.start_time)).collect();
    assert_eq!(
        read,
        vec![(0, "08:00".to_string()), (0, "15:00".to_string()), (6, "09:00".to_string())]
    );
    assert_eq!(store.schedules(other.id).len(), 1);
    assert!(store.write_all(&profiles::replace_schedules(profile.id, &vec![w(7, "", "")])).is_err());
    assert!(store.schedules(profile.id).is_empty());
}

#[test]
fn limits_replace_each_other() {
    let store = Store::new();
    let profile = store.create_profile("Test");
    let l = |d: u8, m: i32| NewLimit { day_of_week: d, minutes: m };
    store.write_all(&profiles::replace_daily_limits(profile.id, &vec![l(1, 30)])).unwrap();
    store
        .write_all(&profiles::replace_daily_limits(profile.id, &vec![l(5, 120), l(0, 0)]))
        .unwrap();
    let read: Vec<(u8, i32)> =
        store.limits(profile.id).into_iter().map(|d| (d.day_of_week, d.allowed_minutes)).collect();
    assert_eq!(read, vec![(0, 0), (5, 120)]);
    assert!(store.limits(profile.id).iter().all(|d| d.profile_id == profile.id));
    let twice = vec![l(2, 10), l(2, 20)];
    assert!(store.write_all(&profiles::replace_daily_limits(profile.id, &twice)).is_err());
    let negative = vec![l(3, -1)];
    assert!(store.write_all(&profiles::replace_daily_limits(profile.id, &negative)).is_err());
}

#[test]
fn adjustments_are_summed_by_day() {
    let store = Store::new();
    let profile = store.create_profile("Test");
    let (a, w) = profiles::create_adjustment(profile.id, "2024-05-01", 30, Some("well done"), None);
    store.write(&w).unwrap();
    let (_, w) = profiles::create_adjustment(profile.id, "2024-05-01", -10, None, None);
    store.write(&w).unwrap();
    let (_, w) = profiles::create_adjustment(profile.id, "2024-05-03", 5, None, None);
    store.write(&w).unwrap();
    let sum = store.count(&profiles::sum_adjustments_for_date(profile.id, "2024-05-01"));
    assert_eq!(profiles::read_adjustment_sum(sum), 20);
    let sum = store.count(&profiles::sum_adjustments_for_date(profile.id, "2024-05-02"));
    assert_eq!(profiles::read_adjustment_sum(sum), 0);
    let all = store.adjustments(&profiles::get_adjustments(profile.id, None, None));
    assert_eq!(all.len(), 3);
    assert_eq!(all[0].target_date, "2024-05-03");
    let some =
        store.adjustments(&profiles::get_adjustments(profile.id, None, Some("2024-05-02")));
    assert_eq!(some.len(), 2);
    let first = some.iter().find(|x| x.id == a).unwrap();
    assert_eq!(first.reason.as_deref(), Some("well done"));
    assert_eq!(first.adjustment_minutes, 30);
    let late =
        store.adjustments(&profiles::get_adjustments(profile.id, Some("2024-05-02"), None));
    assert_eq!(late.len(), 1);
    let by_nobody = profiles::create_adjustment(profile.id, "2024-05-01", 1, None, Some(9)).1;
    assert!(store.write(&by_nobody).is_err());
}

#[test]
fn the_latest_reason_is_found() {
    let store = Store::new();
    let profile = store.create_profile("Test");
    let add = |at: i64, reason: Option<&str>| {
        let w = Write::InsertAdjustment {
            id: at as u128,
            profile_id: profile.id,
            target_date: "2024-05-01".to_string(),
            minutes: 1,
            reason: reason.map(|r| r.to_string()),
            created_by: None,
            at,
        };
        store.write(&w).unwrap();
    };
    let find = || {
        let found = store
            .first(&profiles::latest_adjustment_reason_for_date(profile.id, "2024-05-01"))
            .map(|r| r.get::<Option<String>, _>(0));
        profiles::read_reason(found)
    };
    assert_eq!(find(), None);
    add(10, Some("old"));
    add(20, Some("new"));
    assert_eq!(find().as_deref(), Some("new"));
    add(30, None);
    assert_eq!(find(), None);
}

#[test]
fn versions_count_up() {
    let store = Store::new();
    let profile = store.create_profile("Test");
    let other = store.create_profile("Other");
    let read = |id: u128| {
        profiles::version_or_first(
            store.first(&profiles::get_config_version(id)).map(|r| r.get::<i64, _>("version")),
        )
    };
    store.write(&profiles::bump_config_version(profile.id)).unwrap();
    store.write(&profiles::bump_config_version(profile.id)).unwrap();
    assert_eq!(read(profile.id), 3);
    assert_eq!(read(other.id), 1);
    assert_eq!(read(12345), 1);
    assert!(store.write(&profiles::bump_config_version(12345)).is_err());
}

#[test]
fn heartbeats_add_and_syncs_do_not() {
    let store = Store::new();
    let agent = insert_paired_agent(&store, "m");
    store.report(agent, &[test_user()]);
    let user = store.users(&agents::get_agent_user(agent, 1000)).remove(0).id;
    assert_eq!(store.used(user, "2024-05-01"), None);
    store.write(&usage::add_usage_seconds(user, "2024-05-01", 30)).unwrap();
    store.write(&usage::add_usage_seconds(user, "2024-05-01", 45)).unwrap();
    assert_eq!(store.used(user, "2024-05-01"), Some(75));
    store.sync(user, "2024-05-01", 100);
    assert_eq!(store.used(user, "2024-05-01"), Some(100));
    store.sync(user, "2024-05-01", 100);
    assert_eq!(store.used(user, "2024-05-01"), Some(100));
    store.sync(user, "2024-05-01", 60);
    assert_eq!(store.used(user, "2024-05-01"), Some(100));
    store.sync(user, "2024-05-02", 7);
    assert_eq!(store.used(user, "2024-05-02"), Some(7));
    assert_eq!(store.used(user, "2024-05-01"), Some(100));
    assert!(store.write(&usage::add_usage_seconds(4, "2024-05-01", 1)).is_err());
}

#[test]
fn use_is_added_up_by_profile() {
    let store = Store::new();
    let profile = store.create_profile("Test");
    let mut ids = Vec::new();
    for machine in ["m1", "m2"] {
        let agent = insert_paired_agent(&store, machine);
        store.report(agent, &[test_user()]);
        let user = store.users(&agents::get_agent_user(agent, 1000)).remove(0);
        store
            .write(&agents::update_agent_user(user.id, Some(profile.id), Some("managed")))
            .unwrap();
        store.write(&usage::add_usage_seconds(user.id, "2024-05-01", 40)).unwrap();
        ids.push(agent);
    }
    let q = usage::get_used_seconds_for_profile_today(profile.id, "2024-05-01");
    assert_eq!(store.count(&q), 80);
    let days: Vec<(String, i64)> = store
        .rows(&usage::get_daily_usage_for_profile(profile.id, "2024-05-01", "2024-05-31"))
        .into_iter()
        .map(|r| (r.get::<String, _>("date"), r.get::<i64, _>("total")))
        .collect();
    assert_eq!(days, vec![("2024-05-01".to_string(), 80)]);
    let by_agent: Vec<AgentUsage> = store
        .rows(&usage::get_usage_by_agent_for_profile(profile.id, "2024-05-01", "2024-05-31"))
        .into_iter()
        .map(|r| {
            row_to_agent_usage(StoredAgentUsage {
                agent_id: r.get("agent_id"),
                agent_user_id: r.get("id"),
                date: r.get("date"),
                used_seconds: r.get("used_seconds"),
            })
        })
        .collect();
    assert_eq!(by_agent.len(), 2);
    assert!(by_agent.iter().all(|u| ids.contains(&u.agent_id) && u.used_seconds == 40));
    assert_eq!(store.users(&agents::get_agent_users_for_profile(profile.id)).len(), 2);
}

#[test]
fn an_agent_is_refreshed_and_a_disabled_one_stays_disabled() {
    let store = Store::new();
    let a = store.pair("machine", "old-host");
    assert_eq!(a.status, "pending");
    assert_eq!(a.display_name, "old-host");
    assert_eq!(a.web_filter_available, None);
    let count = store.count(&agents::pending_agent_count());
    assert_eq!(count, 1);
    store.write(&agents::accept_agent(a.id, "hash")).unwrap();
    let b = store.pair("machine", "new-host");
    assert_eq!(b.id, a.id);
    assert_eq!(b.status, "pending");
    assert_eq!(b.hostname, "new-host");
    assert_eq!(b.display_name, "old-host");
    assert_eq!(b.auth_token_hash.as_deref(), Some("hash"));
    store
        .write_all(&agents::update_agent_fields(a.id, Some("Desk"), Some("disabled")))
        .unwrap();
    let c = store.pair("machine", "new-host");
    assert_eq!(c.status, "disabled");
    assert_eq!(c.display_name, "Desk");
    assert!(store
        .write_all(&agents::update_agent_fields(a.id, None, Some("asleep")))
        .is_err());
    assert!(agents::update_agent_fields(a.id, None, None).is_empty());
}

#[test]
fn a_bad_stored_identifier_is_replaced_by_a_fresh_one() {
    let (id, w) = agents::upsert_agent_pending(Some("not an id"), "m", "h", "UTC", "1");
    assert!(matches!(w, Write::RefreshAgent { .. }));
    assert_ne!(id, 0);
}

#[test]
fn only_agents_to_be_deleted_are_restored() {
    let store = Store::new();
    let a = insert_paired_agent(&store, "m");
    let status = |id: u128| store.agent(&agents::get_agent_by_id(id)).unwrap().status;
    store.write(&agents::mark_agent_pending_delete(a)).unwrap();
    assert_eq!(status(a), "pending_delete");
    store.write(&agents::restore_agent(a)).unwrap();
    assert_eq!(status(a), "paired");
    let b = store.pair("m2", "h").id;
    store.write(&agents::restore_agent(b)).unwrap();
    assert_eq!(status(b), "pending");
    store.write(&agents::delete_agent(b)).unwrap();
    assert!(store.agent(&agents::get_agent_by_id(b)).is_none());
    assert_eq!(store.agents(&agents::list_agents()).len(), 1);
}

#[test]
fn greetings_and_capabilities_are_stored() {
    let store = Store::new();
    let a = insert_paired_agent(&store, "m");
    store.write(&agents::update_agent_hello(a, "desk", "Europe/Warsaw", "2.0")).unwrap();
    store.write(&agents::update_agent_last_seen(a)).unwrap();
    store.write(&agents::update_agent_web_filter(a, true)).unwrap();
    let read = store.agent(&agents::get_agent_by_machine_id("m")).unwrap();
    assert_eq!(read.id, a);
    assert_eq!(read.hostname, "desk");
    assert_eq!(read.timezone, "Europe/Warsaw");
    assert_eq!(read.agent_version.as_deref(), Some("2.0"));
    assert_eq!(read.web_filter_available, Some(true));
    assert_eq!(read.status, "paired");
    assert!(read.last_seen_at.unwrap() >= read.created_at);
    store.write(&agents::update_agent_web_filter(a, false)).unwrap();
    let read = store.agent(&agents::get_agent_by_id(a)).unwrap();
    assert_eq!(read.web_filter_available, Some(false));
}

#[test]
fn a_deleted_user_returns_unmanaged_with_its_profile() {
    let store = Store::new();
    let profile = store.create_profile("Test");
    let agent = insert_paired_agent(&store, "m");
    store.report(agent, &[test_user()]);
    let user = store.users(&agents::get_agent_user(agent, 1000)).remove(0);
    assert_eq!(user.status, "unmanaged");
    store
        .write(&agents::update_agent_user(user.id, Some(profile.id), Some("managed")))
        .unwrap();
    store.write_all(&agents::mark_agent_users_deleted(agent, &vec![1000, 2000])).unwrap();
    assert!(store.users(&agents::list_agent_users(agent)).is_empty());
    let mut again = test_user();
    again.display_name = "Renamed".to_string();
    store.report(agent, &[again]);
    let back = store.users(&agents::list_agent_users(agent)).remove(0);
    assert_eq!(back.id, user.id);
    assert_eq!(back.agent_id, agent);
    assert_eq!(back.status, "unmanaged");
    assert_eq!(back.profile_id, Some(profile.id));
    assert_eq!(back.display_name.as_deref(), Some("Renamed"));
    assert_eq!(back.local_uid, 1000);
}

#[test]
fn a_report_may_list_a_user_twice() {
    let store = Store::new();
    let agent = insert_paired_agent(&store, "m");
    let mut renamed = test_user();
    renamed.username = "later".to_string();
    let other = LocalUser {
        local_uid: 1001,
        username: "other".to_string(),
        display_name: "Other".to_string(),
    };
    store.report(agent, &[test_user(), other.clone(), renamed]);
    let names: Vec<(i64, String)> = store
        .users(&agents::list_agent_users(agent))
        .into_iter()
        .map(|u| (u.local_uid, u.local_username))
        .collect();
    assert_eq!(names, vec![(1000, "later".to_string()), (1001, "other".to_string())]);
}

#[test]
fn what_is_left_out_of_an_update_is_kept() {
    let store = Store::new();
    let profile = store.create_profile("Test");
    let agent = insert_paired_agent(&store, "m");
    store.report(agent, &[test_user()]);
    let user = store.users(&agents::get_agent_user(agent, 1000)).remove(0).id;
    store.write(&agents::update_agent_user(user, Some(profile.id), Some("managed"))).unwrap();
    store.write(&agents::update_agent_user(user, None, None)).unwrap();
    store.write(&agents::update_agent_user(user, None, Some("unmanaged"))).unwrap();
    let read = store.users(&agents::get_agent_user_by_id(user)).remove(0);
    assert_eq!(read.profile_id, Some(profile.id));
    assert_eq!(read.status, "unmanaged");
    assert!(store.write(&agents::update_agent_user(user, Some(77), None)).is_err());
    assert!(store.write(&agents::update_agent_user(user, None, Some("gone"))).is_err());
}

#[test]
fn a_deleted_agent_takes_its_users_and_their_use() {
    let store = Store::new();
    let agent = insert_paired_agent(&store, "m");
    store.report(agent, &[test_user()]);
    let user = store.users(&agents::get_agent_user(agent, 1000)).remove(0).id;
    store.write(&usage::add_usage_seconds(user, "2024-05-01", 30)).unwrap();
    store.write(&agents::delete_agent(agent)).unwrap();
    assert!(store.users(&agents::get_agent_user_by_id(user)).is_empty());
    assert_eq!(store.used(user, "2024-05-01"), None);
}

#[test]
fn admins_are_stored_and_found() {
    let store = Store::new();
    let zone = |s: &Store| {
        admins::timezone_or_utc(
            s.first(&admins::get_admin_timezone()).map(|r| r.get::<String, _>(0)),
        )
    };
    assert_eq!(store.count(&admins::admin_count()), 0);
    assert_eq!(zone(&store), "UTC");
    let (id, w) = admins::create_admin("root", "hash");
    store.write(&w).unwrap();
    assert_eq!(store.count(&admins::admin_count()), 1);
    let a = store.admin(&admins::get_admin_by_username("root")).unwrap();
    assert_eq!(a.id, id);
    assert_eq!(a.username, "root");
    assert_eq!(a.password_hash, "hash");
    assert_eq!(a.timezone, "UTC");
    store.write(&admins::update_admin_timezone(id, "Asia/Tokyo")).unwrap();
    assert_eq!(store.admin(&admins::get_admin_user_by_id(id)).unwrap().timezone, "Asia/Tokyo");
    assert_eq!(zone(&store), "Asia/Tokyo");
    assert!(store.admin(&admins::get_admin_by_username("nobody")).is_none());
    let (_, w) = admins::create_admin("root", "other");
    assert!(store.write(&w).is_err());
    let log = admins::audit(Some(id), "login", Some("admin"), Some(id), None);
    store.write(&log).unwrap();
    assert!(store.write(&admins::audit(Some(1), "login", None, None, None)).is_err());
}

#[test]
fn a_fresh_store_is_not_migrated() {
    let store = Store::empty();
    for sql in schema::create_tables() {
        store.plain(sql).unwrap();
    }
    assert_eq!(store.migrate(), vec![MigrationStep::SetVersion(6)]);
    assert_eq!(store.version(), 6);
    assert!(store.migrate().is_empty());
}

#[test]
fn an_old_store_is_migrated_step_by_step() {
    let store = Store::before_v5();
    let steps = store.migrate();
    assert_eq!(
        steps,
        vec![
            MigrationStep::Apply(5),
            MigrationStep::SetVersion(5),
            MigrationStep::Apply(6),
            MigrationStep::SetVersion(6),
        ]
    );
    assert_eq!(store.version(), 6);
    let profile = store.create_profile("Test");
    assert!(!store.settings(profile.id).preserve_tasks_on_lock);
}

#[test]
fn the_oldest_tables_are_rebuilt_once() {
    let store = Store::empty();
    store
        .plain(
            "CREATE TABLE agents (id TEXT PRIMARY KEY, machine_id TEXT NOT NULL UNIQUE, \
             display_name TEXT NOT NULL, hostname TEXT NOT NULL, \
             timezone TEXT NOT NULL DEFAULT 'UTC', status TEXT NOT NULL DEFAULT 'pending' \
             CHECK (status IN ('pending','paired','disabled')), auth_token_hash TEXT, \
             agent_version TEXT, paired_at INTEGER, last_seen_at INTEGER, \
             created_at INTEGER NOT NULL)",
        )
        .unwrap();
    store
        .plain(
            "CREATE TABLE daily_limits (profile_id TEXT NOT NULL REFERENCES user_profiles(id) \
             ON DELETE CASCADE, day_of_week INTEGER NOT NULL CHECK (day_of_week BETWEEN 0 AND 6), \
             allowed_minutes INTEGER NOT NULL CHECK (allowed_minutes > 0), \
             PRIMARY KEY (profile_id, day_of_week))",
        )
        .unwrap();
    for sql in schema::create_tables() {
        store.plain(sql).unwrap();
    }
    store.write(&admins::create_admin("root", "hash").1).unwrap();
    let (agent, w) = agents::upsert_agent_pending(None, "m", "h", "UTC", "1.0");
    store.write(&w).unwrap();
    let steps = store.migrate();
    assert_eq!(steps.len(), 12);
    assert_eq!(store.version(), 6);
    store.write(&agents::mark_agent_pending_delete(agent)).unwrap();
    assert_eq!(store.agent(&agents::get_agent_by_id(agent)).unwrap().status, "pending_delete");
    let profile = store.create_profile("Test");
    let none = vec![NewLimit { day_of_week: 0, minutes: 0 }];
    store.write_all(&profiles::replace_daily_limits(profile.id, &none)).unwrap();
    let agents_text = store.text(schema::AGENTS_SCHEMA);
    assert!(schema::apply_v1(agents_text.as_deref()).is_empty());
    let limits_text = store.text(schema::DAILY_LIMITS_SCHEMA);
    assert!(schema::apply_v4(limits_text.as_deref()).is_empty());
    assert!(schema::apply_v1(None).is_empty());
    assert!(schema::apply_v4(None).is_empty());
    assert!(store.migrate().is_empty());
}

#[test]
fn other_databases_begin_with_the_current_schema() {
    assert_eq!(schema::run_migrations(0, false, 3), vec![MigrationStep::SetVersion(6)]);
    assert!(schema::run_migrations(6, false, 3).is_empty());
    assert!(schema::run_migrations(9, true, 0).is_empty());
    assert_eq!(schema::run_migrations(-1, true, 0).len(), 12);
    assert_eq!(schema::get_schema_version(None, false, Some(4)), 0);
    assert_eq!(schema::get_schema_version(None, true, Some(4)), 4);
    assert_eq!(schema::get_schema_version(Some(2), true, Some(4)), 2);
}

#[test]
fn a_store_is_opened_by_url_or_by_file() {
    let p = schema::open(Some("postgres://h/db"), "/var/x.db");
    assert_eq!(p.url, "postgres://h/db");
    assert!(!p.is_sqlite && !p.makes_directory);
    let p = schema::open(Some("sqlite::memory:"), "/var/x.db");
    assert!(p.is_sqlite && !p.makes_directory);
    let p = schema::open(None, "/var/x.db");
    assert_eq!(p.url, "sqlite:/var/x.db");
    assert!(p.is_sqlite && p.makes_directory);
    assert_eq!(schema::open_statements(true).len(), 2);
    assert!(schema::open_statements(false).is_empty());
}

#[test]
fn times_are_stored_as_they_are_given() {
    let store = Store::new();
    let (id, w) = agents::pending_at(None, "m", "desk", "UTC", "1", 100);
    store.write(&w).unwrap();
    let find = || store.agent(&agents::get_agent_by_id(id)).unwrap();
    assert_eq!(find().created_at, 100);
    store.write(&agents::accepted_at(id, "hash", 110)).unwrap();
    assert_eq!((find().paired_at, find().last_seen_at), (Some(110), Some(100)));
    store.write(&agents::last_seen_at(id, 120)).unwrap();
    assert_eq!(find().last_seen_at, Some(120));
    store.write(&agents::hello_at(id, "h", "UTC", "2", 130)).unwrap();
    assert_eq!(find().last_seen_at, Some(130));
    let stored = store.first(&agents::find_agent_id("m")).map(|r| r.get::<String, _>("id"));
    let (again, w) = agents::pending_at(stored.as_deref(), "m", "h", "UTC", "3", 140);
    store.write(&w).unwrap();
    assert_eq!(again, id);
    assert_eq!((find().created_at, find().last_seen_at), (100, Some(140)));

    let (p, ws) = profiles::profile_made_at(7, "Kid", 200);
    store.write_all(&ws).unwrap();
    assert_eq!((p.id, p.created_at, p.updated_at), (7, 200, 200));
    store.write(&profiles::name_set_at(7, "Child", 210)).unwrap();
    assert_eq!(store.profile(7).unwrap().updated_at, 210);
    store.write(&profiles::language_set_at(7, "pl", 220)).unwrap();
    let read = store.profile(7).unwrap();
    assert_eq!((read.created_at, read.updated_at), (200, 220));
    assert_eq!((read.display_name.as_str(), read.language.as_str()), ("Child", "pl"));
    store.write(&profiles::adjusted_at(8, 7, "2024-05-01", 5, Some("x"), None, 230)).unwrap();
    let read = store.adjustments(&profiles::get_adjustments(7, None, None));
    assert_eq!((read[0].id, read[0].created_at), (8, 230));
    assert_eq!(
        profiles::version_bumped_at(7, 240).query().params.len(),
        profiles::bump_config_version(7).query().params.len()
    );
    assert!(matches!(
        profiles::version_bumped_at(7, 240),
        Write::BumpConfigVersion { profile_id: 7, at: 240 }
    ));

    store.write(&admins::admin_made_at(9, "root", "hash", 300)).unwrap();
    let read = store.admin(&admins::get_admin_user_by_id(9)).unwrap();
    assert_eq!((read.username.as_str(), read.created_at), ("root", 300));
    let w = admins::audited_at(10, Some(9), "login", None, None, Some("d"), 310);
    assert!(matches!(w, Write::InsertAudit { id: 10, admin_id: Some(9), at: 310, .. }));
    store.write(&w).unwrap();

    let (d, w) = domains::domain_added_at(11, 7, "a.example", true, 400);
    store.write(&w).unwrap();
    assert_eq!((d.id, d.created_at), (11, 400));
    let ws = domains::domains_set_at(7, &vec![listed("b.example", false)], 410);
    store.write_all(&ws).unwrap();
    assert_eq!(store.blocked(7).len(), 1);
    assert_eq!(store.blocked(7)[0].created_at, 410);

    assert!(matches!(
        usage::usage_added_at(1, "2024-05-01", 30, 500),
        Write::AddUsage { agent_user_id: 1, seconds: 30, at: 500, .. }
    ));
    assert!(matches!(
        usage::usage_reconciled_at(1, "2024-05-01", 30, Some(40), 510),
        Write::SetUsage { agent_user_id: 1, seconds: 40, at: 510, .. }
    ));
}

#[test]
fn numbers_order_what_is_read() {
    let store = Store::new();
    for (machine, at) in [("old", 10), ("new", 30), ("middle", 20)] {
        store.write(&agents::pending_at(None, machine, "h", "UTC", "1", at).1).unwrap();
    }
    let listed: Vec<String> =
        store.agents(&agents::list_agents()).into_iter().map(|a| a.machine_id).collect();
    assert_eq!(listed, vec!["new", "middle", "old"]);
    assert_eq!(store.count(&agents::pending_agent_count()), 3);
    let agent = insert_paired_agent(&store, "m");
    assert_eq!(store.count(&agents::pending_agent_count()), 3);
    let user = |uid: u32| LocalUser {
        local_uid: uid,
        username: format!("u{uid}"),
        display_name: String::new(),
    };
    store.report(agent, &[user(1010), user(999), user(1002)]);
    let uids: Vec<i64> = store
        .users(&agents::list_agent_users(agent))
        .into_iter()
        .map(|u| u.local_uid)
        .collect();
    assert_eq!(uids, vec![999, 1002, 1010]);
    let profile = store.create_profile("Test");
    let limits = [5u8, 0, 3].map(|day_of_week| NewLimit { day_of_week, minutes: 60 });
    store.write_all(&profiles::replace_daily_limits(profile.id, &limits.to_vec())).unwrap();
    let days: Vec<u8> = store.limits(profile.id).into_iter().map(|l| l.day_of_week).collect();
    assert_eq!(days, vec![0, 3, 5]);
}

#[test]
fn a_report_leaves_other_users_alone() {
    let store = Store::new();
    let first = insert_paired_agent(&store, "m1");
    let second = insert_paired_agent(&store, "m2");
    let user = |uid: u32, name: &str| LocalUser {
        local_uid: uid,
        username: name.to_string(),
        display_name: String::new(),
    };
    store.report(first, &[user(1, "a"), user(2, "b")]);
    store.report(second, &[user(1, "c")]);
    store.report(first, &[user(1, "z")]);
    let name = |agent: u128, uid: u32| {
        store.users(&agents::get_agent_user(agent, uid)).remove(0).local_username
    };
    assert_eq!(name(first, 1), "z");
    assert_eq!(name(first, 2), "b");
    assert_eq!(name(second, 1), "c");
}

#[test]
fn rows_are_stored_under_the_identifiers_that_were_drawn() {
    let store = Store::new();
    let seeds: Vec<u128> = (100..111).collect();
    let (p, ws) = profiles::profile_made_with(7, &seeds, "Kid", 200);
    store.write_all(&ws).unwrap();
    assert_eq!((p.id, p.created_at), (7, 200));
    let listed_now = store.blocked(7);
    assert_eq!(listed_now.len(), profiles::default_blocked_domains().len());
    let youtube = listed_now.iter().find(|d| d.domain == "youtube.com").unwrap();
    let roblox = listed_now.iter().find(|d| d.domain == "roblox.com").unwrap();
    assert_eq!((youtube.id, roblox.id), (100, 110));

    let new = vec![listed("b.example", true), listed("a.example", false)];
    store.write_all(&domains::domains_set_with(7, &new, &vec![5, 6], 300)).unwrap();
    let ids: Vec<(String, u128)> =
        store.blocked(7).into_iter().map(|d| (d.domain, d.id)).collect();
    assert_eq!(ids, vec![("a.example".to_string(), 6), ("b.example".to_string(), 5)]);

    let window = |day_of_week: u8| NewWindow {
        day_of_week,
        start_time: "08:00".to_string(),
        end_time: "09:00".to_string(),
    };
    let windows = vec![window(3), window(1)];
    store.write_all(&profiles::windows_set_with(7, &windows, &vec![21, 22])).unwrap();
    let ids: Vec<(u8, u128)> =
        store.schedules(7).into_iter().map(|w| (w.day_of_week, w.id)).collect();
    assert_eq!(ids, vec![(1, 22), (3, 21)]);

    let (id, w) = agents::pending_with(None, 31, "m", "h", "UTC", "1", 400);
    store.write(&w).unwrap();
    assert_eq!(id, 31);
    assert_eq!(store.agent(&agents::get_agent_by_machine_id("m")).unwrap().id, 31);
    assert_eq!(agents::pending_with(Some("no id"), 32, "m", "h", "UTC", "1", 400).0, 32);
    let text = "00000000-0000-0000-0000-00000000001f";
    assert_eq!(agents::pending_with(Some(text), 32, "m", "h", "UTC", "1", 400).0, 31);

    let w = agents::user_reported_with(31, &test_user(), false, 41, 500);
    store.write(&w).unwrap();
    let user = store.users(&agents::get_agent_user(31, 1000)).remove(0);
    assert_eq!((user.id, user.first_seen_at, user.status.as_str()), (41, 500, "unmanaged"));
    let w = agents::user_reported_with(31, &test_user(), true, 42, 600);
    store.write(&w).unwrap();
    let user = store.users(&agents::get_agent_user(31, 1000)).remove(0);
    assert_eq!((user.id, user.first_seen_at, user.last_reported_at), (41, 500, 600));
}

#[test]
fn drawn_identifiers_differ() {
    let store = Store::new();
    let profile = store.create_profile("Test");
    let mut ids: Vec<u128> = store.blocked(profile.id).into_iter().map(|d| d.id).collect();
    ids.sort();
    ids.dedup();
    assert_eq!(ids.len(), 11);
}
