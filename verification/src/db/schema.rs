//! The schema of the store and how an older store is brought up to it.

use crate::db::query::{with_one, Param, ParamView, Query, QueryView};
use crate::text;
use crate::text::{contains, starts_with};
use vstd::prelude::*;
use vstd::string::*;

verus! {

/// The version of the schema that is declared here.
pub const CURRENT_VERSION: i32 = 6;

pub const CREATE_ADMIN_USERS: &'static str =
    "CREATE TABLE IF NOT EXISTS admin_users (id TEXT NOT NULL PRIMARY KEY, \
     username TEXT NOT NULL UNIQUE, password_hash TEXT NOT NULL, timezone \
     TEXT NOT NULL DEFAULT 'UTC', created_at INTEGER NOT NULL)";

pub const CREATE_AGENTS: &'static str =
    "CREATE TABLE IF NOT EXISTS agents (id TEXT NOT NULL PRIMARY KEY, \
     machine_id TEXT NOT NULL UNIQUE, display_name TEXT NOT NULL, hostname \
     TEXT NOT NULL, timezone TEXT NOT NULL DEFAULT 'UTC', status TEXT NOT \
     NULL DEFAULT 'pending' CHECK (status IN \
     ('pending','paired','disabled','pending_delete')), auth_token_hash TEXT, \
     agent_version TEXT, paired_at INTEGER, last_seen_at INTEGER, created_at \
     INTEGER NOT NULL, web_filter_available INTEGER)";

pub const CREATE_USER_PROFILES: &'static str =
    "CREATE TABLE IF NOT EXISTS user_profiles (id TEXT NOT NULL PRIMARY KEY, \
     display_name TEXT NOT NULL, language TEXT NOT NULL DEFAULT 'en', \
     created_at INTEGER NOT NULL, updated_at INTEGER NOT NULL)";

pub const CREATE_AGENT_USERS: &'static str =
    "CREATE TABLE IF NOT EXISTS agent_users (id TEXT NOT NULL PRIMARY KEY, \
     agent_id TEXT NOT NULL REFERENCES agents(id) ON DELETE CASCADE, \
     profile_id TEXT REFERENCES user_profiles(id) ON DELETE SET NULL, \
     local_uid INTEGER NOT NULL, local_username TEXT NOT NULL, display_name \
     TEXT, status TEXT NOT NULL DEFAULT 'unmanaged' CHECK (status IN \
     ('unmanaged','managed','deleted')), first_seen_at INTEGER NOT NULL, \
     last_reported_at INTEGER NOT NULL, UNIQUE(agent_id, local_uid))";

pub const CREATE_SCHEDULES: &'static str =
    "CREATE TABLE IF NOT EXISTS schedules (id TEXT NOT NULL PRIMARY KEY, \
     profile_id TEXT NOT NULL REFERENCES user_profiles(id) ON DELETE CASCADE, \
     day_of_week INTEGER NOT NULL CHECK (day_of_week BETWEEN 0 AND 6), \
     start_time TEXT NOT NULL, end_time TEXT NOT NULL)";

pub const CREATE_DAILY_LIMITS: &'static str =
    "CREATE TABLE IF NOT EXISTS daily_limits (profile_id TEXT NOT NULL \
     REFERENCES user_profiles(id) ON DELETE CASCADE, day_of_week INTEGER NOT \
     NULL CHECK (day_of_week BETWEEN 0 AND 6), allowed_minutes INTEGER NOT \
     NULL CHECK (allowed_minutes >= 0), PRIMARY KEY (profile_id, \
     day_of_week))";

pub const CREATE_TIME_ADJUSTMENTS: &'static str =
    "CREATE TABLE IF NOT EXISTS time_adjustments (id TEXT NOT NULL PRIMARY \
     KEY, profile_id TEXT NOT NULL REFERENCES user_profiles(id) ON DELETE \
     CASCADE, target_date TEXT NOT NULL, adjustment_minutes INTEGER NOT NULL, \
     reason TEXT, created_by TEXT REFERENCES admin_users(id), created_at \
     INTEGER NOT NULL, synced_to_agents INTEGER NOT NULL DEFAULT 0)";

pub const CREATE_ENFORCEMENT_SETTINGS: &'static str =
    "CREATE TABLE IF NOT EXISTS enforcement_settings (profile_id TEXT NOT \
     NULL PRIMARY KEY REFERENCES user_profiles(id) ON DELETE CASCADE, \
     lockout_grace_minutes INTEGER NOT NULL DEFAULT 5, warning_thresholds \
     TEXT NOT NULL DEFAULT '15,5,1', preserve_tasks_on_lock INTEGER NOT NULL \
     DEFAULT 0)";

pub const CREATE_DAILY_USAGE: &'static str =
    "CREATE TABLE IF NOT EXISTS daily_usage (agent_user_id TEXT NOT NULL \
     REFERENCES agent_users(id) ON DELETE CASCADE, date TEXT NOT NULL, \
     used_seconds INTEGER NOT NULL DEFAULT 0, reported_at INTEGER NOT NULL, \
     PRIMARY KEY (agent_user_id, date))";

pub const CREATE_CONFIG_VERSIONS: &'static str =
    "CREATE TABLE IF NOT EXISTS config_versions (profile_id TEXT NOT NULL \
     PRIMARY KEY REFERENCES user_profiles(id) ON DELETE CASCADE, version \
     INTEGER NOT NULL DEFAULT 1, updated_at INTEGER NOT NULL)";

pub const CREATE_AUDIT_LOG: &'static str =
    "CREATE TABLE IF NOT EXISTS audit_log (id TEXT NOT NULL PRIMARY KEY, \
     admin_user_id TEXT REFERENCES admin_users(id), action TEXT NOT NULL, \
     target_type TEXT, target_id TEXT, detail TEXT, created_at INTEGER NOT \
     NULL)";

pub const CREATE_BLOCKED_DOMAINS: &'static str =
    "CREATE TABLE IF NOT EXISTS blocked_domains (id TEXT NOT NULL PRIMARY \
     KEY, profile_id TEXT NOT NULL REFERENCES user_profiles(id) ON DELETE \
     CASCADE, domain TEXT NOT NULL, enabled INTEGER NOT NULL DEFAULT 0, \
     created_at INTEGER NOT NULL, UNIQUE (profile_id, domain))";

pub const INDEX_AGENT_USERS_AGENT: &'static str =
    "CREATE INDEX IF NOT EXISTS idx_agent_users_agent ON \
     agent_users(agent_id)";

pub const INDEX_AGENT_USERS_PROFILE: &'static str =
    "CREATE INDEX IF NOT EXISTS idx_agent_users_profile ON \
     agent_users(profile_id)";

pub const INDEX_SCHEDULES_PROFILE: &'static str =
    "CREATE INDEX IF NOT EXISTS idx_schedules_profile ON \
     schedules(profile_id)";

pub const INDEX_DAILY_USAGE_DATE: &'static str =
    "CREATE INDEX IF NOT EXISTS idx_daily_usage_date ON daily_usage(date)";

pub const INDEX_ADJUSTMENTS_PROFILE: &'static str =
    "CREATE INDEX IF NOT EXISTS idx_adjustments_profile ON \
     time_adjustments(profile_id, target_date)";

pub const INDEX_BLOCKED_DOMAINS_PROFILE: &'static str =
    "CREATE INDEX IF NOT EXISTS idx_blocked_domains_profile ON \
     blocked_domains(profile_id)";

pub const FOREIGN_KEYS_OFF: &'static str =
    "PRAGMA foreign_keys = OFF";

pub const FOREIGN_KEYS_ON: &'static str =
    "PRAGMA foreign_keys = ON";

pub const CREATE_AGENTS_V1: &'static str =
    "CREATE TABLE agents_v1 (id TEXT PRIMARY KEY, machine_id TEXT NOT NULL \
     UNIQUE, display_name TEXT NOT NULL, hostname TEXT NOT NULL, timezone \
     TEXT NOT NULL DEFAULT 'UTC', status TEXT NOT NULL DEFAULT 'pending' \
     CHECK (status IN ('pending','paired','disabled','pending_delete')), \
     auth_token_hash TEXT, agent_version TEXT, paired_at INTEGER, \
     last_seen_at INTEGER, created_at INTEGER NOT NULL, web_filter_available \
     INTEGER)";

pub const COPY_AGENTS_V1: &'static str =
    "INSERT INTO agents_v1 \
     (id,machine_id,display_name,hostname,timezone,status, \
     auth_token_hash,agent_version,paired_at,last_seen_at,created_at) SELECT \
     id,machine_id,display_name,hostname,timezone,status, \
     auth_token_hash,agent_version,paired_at,last_seen_at,created_at FROM \
     agents";

pub const DROP_AGENTS: &'static str =
    "DROP TABLE agents";

pub const RENAME_AGENTS_V1: &'static str =
    "ALTER TABLE agents_v1 RENAME TO agents";

pub const ADD_PROFILE_LANGUAGE: &'static str =
    "ALTER TABLE user_profiles ADD COLUMN language TEXT NOT NULL DEFAULT 'en'";

pub const ADD_ADMIN_TIMEZONE: &'static str =
    "ALTER TABLE admin_users ADD COLUMN timezone TEXT NOT NULL DEFAULT 'UTC'";

pub const CREATE_DAILY_LIMITS_V4: &'static str =
    "CREATE TABLE daily_limits_v4 (profile_id TEXT NOT NULL REFERENCES \
     user_profiles(id) ON DELETE CASCADE, day_of_week INTEGER NOT NULL CHECK \
     (day_of_week BETWEEN 0 AND 6), allowed_minutes INTEGER NOT NULL CHECK \
     (allowed_minutes >= 0), PRIMARY KEY (profile_id, day_of_week))";

pub const COPY_DAILY_LIMITS_V4: &'static str =
    "INSERT INTO daily_limits_v4 SELECT * FROM daily_limits";

pub const DROP_DAILY_LIMITS: &'static str =
    "DROP TABLE daily_limits";

pub const RENAME_DAILY_LIMITS_V4: &'static str =
    "ALTER TABLE daily_limits_v4 RENAME TO daily_limits";

pub const ADD_PRESERVE_TASKS: &'static str =
    "ALTER TABLE enforcement_settings ADD COLUMN preserve_tasks_on_lock \
     INTEGER NOT NULL DEFAULT 0";

pub const ADD_WEB_FILTER: &'static str =
    "ALTER TABLE agents ADD COLUMN web_filter_available INTEGER";

pub const AGENTS_SCHEMA: &'static str =
    "SELECT sql FROM sqlite_master WHERE type='table' AND name='agents'";

pub const DAILY_LIMITS_SCHEMA: &'static str =
    "SELECT sql FROM sqlite_master WHERE type='table' AND name='daily_limits'";

pub const READ_VERSION: &'static str =
    "SELECT version FROM _schema_version LIMIT 1";

pub const CREATE_VERSION_TABLE: &'static str =
    "CREATE TABLE IF NOT EXISTS _schema_version (version INTEGER NOT NULL \
     DEFAULT 0)";

pub const READ_USER_VERSION: &'static str =
    "PRAGMA user_version";

pub const INSERT_VERSION: &'static str =
    "INSERT INTO _schema_version (version) VALUES ($1)";

pub const UPDATE_VERSION: &'static str =
    "UPDATE _schema_version SET version = $1";

pub const JOURNAL_MODE: &'static str =
    "PRAGMA journal_mode=WAL";

pub const ENFORCE_FOREIGN_KEYS: &'static str =
    "PRAGMA foreign_keys=ON";

/// How a store is opened.
pub struct OpenPlan {
    pub url: String,
    pub is_sqlite: bool,
    /// The directory of the database file is to be made first.
    pub makes_directory: bool,
}

/// Decides how to open the store: by its URL, if one is configured, and
/// otherwise as a SQLite file.
pub fn open(database_url: Option<&str>, db_path: &str) -> (r: OpenPlan)
    ensures
        match database_url {
            Some(u) => {
                &&& r.url@ == u@
                &&& r.is_sqlite == text::occurs_at(u@, "sqlite"@, 0)
                &&& !r.makes_directory
            },
            None => {
                &&& r.url@ == "sqlite:"@ + db_path@
                &&& r.is_sqlite
                &&& r.makes_directory
            },
        },
{
    match database_url {
        Some(u) => OpenPlan {
            url: u.to_owned(),
            is_sqlite: starts_with(u, "sqlite"),
            makes_directory: false,
        },
        None => {
            let mut url = "sqlite:".to_owned();
            url.append(db_path);
            OpenPlan { url, is_sqlite: true, makes_directory: true }
        },
    }
}

/// The characters of each statement of a list.
pub open spec fn statement_texts(v: Seq<&'static str>) -> Seq<Seq<char>> {
    v.map_values(|s: &'static str| s@)
}

/// What a new connection is told: SQLite is to write ahead and to hold rows to
/// their references.
pub fn open_statements(is_sqlite: bool) -> (r: Vec<&'static str>)
    ensures
        statement_texts(r@) == if is_sqlite {
            seq![JOURNAL_MODE@, ENFORCE_FOREIGN_KEYS@]
        } else {
            seq![]
        },
{
    let r = if is_sqlite {
        vec![JOURNAL_MODE, ENFORCE_FOREIGN_KEYS]
    } else {
        Vec::new()
    };
    assert(statement_texts(r@) =~= if is_sqlite {
        seq![JOURNAL_MODE@, ENFORCE_FOREIGN_KEYS@]
    } else {
        seq![]
    });
    r
}

/// Declares every table and index that is not there yet.
pub fn create_tables() -> (r: Vec<&'static str>)
    ensures
        statement_texts(r@) == seq![
            CREATE_ADMIN_USERS@,
            CREATE_AGENTS@,
            CREATE_USER_PROFILES@,
            CREATE_AGENT_USERS@,
            CREATE_SCHEDULES@,
            CREATE_DAILY_LIMITS@,
            CREATE_TIME_ADJUSTMENTS@,
            CREATE_ENFORCEMENT_SETTINGS@,
            CREATE_DAILY_USAGE@,
            CREATE_CONFIG_VERSIONS@,
            CREATE_AUDIT_LOG@,
            CREATE_BLOCKED_DOMAINS@,
            INDEX_AGENT_USERS_AGENT@,
            INDEX_AGENT_USERS_PROFILE@,
            INDEX_SCHEDULES_PROFILE@,
            INDEX_DAILY_USAGE_DATE@,
            INDEX_ADJUSTMENTS_PROFILE@,
            INDEX_BLOCKED_DOMAINS_PROFILE@,
        ],
{
    let r = vec![
        CREATE_ADMIN_USERS,
        CREATE_AGENTS,
        CREATE_USER_PROFILES,
        CREATE_AGENT_USERS,
        CREATE_SCHEDULES,
        CREATE_DAILY_LIMITS,
        CREATE_TIME_ADJUSTMENTS,
        CREATE_ENFORCEMENT_SETTINGS,
        CREATE_DAILY_USAGE,
        CREATE_CONFIG_VERSIONS,
        CREATE_AUDIT_LOG,
        CREATE_BLOCKED_DOMAINS,
        INDEX_AGENT_USERS_AGENT,
        INDEX_AGENT_USERS_PROFILE,
        INDEX_SCHEDULES_PROFILE,
        INDEX_DAILY_USAGE_DATE,
        INDEX_ADJUSTMENTS_PROFILE,
        INDEX_BLOCKED_DOMAINS_PROFILE,
    ];
    assert(statement_texts(r@) =~= seq![
        CREATE_ADMIN_USERS@,
        CREATE_AGENTS@,
        CREATE_USER_PROFILES@,
        CREATE_AGENT_USERS@,
        CREATE_SCHEDULES@,
        CREATE_DAILY_LIMITS@,
        CREATE_TIME_ADJUSTMENTS@,
        CREATE_ENFORCEMENT_SETTINGS@,
        CREATE_DAILY_USAGE@,
        CREATE_CONFIG_VERSIONS@,
        CREATE_AUDIT_LOG@,
        CREATE_BLOCKED_DOMAINS@,
        INDEX_AGENT_USERS_AGENT@,
        INDEX_AGENT_USERS_PROFILE@,
        INDEX_SCHEDULES_PROFILE@,
        INDEX_DAILY_USAGE_DATE@,
        INDEX_ADJUSTMENTS_PROFILE@,
        INDEX_BLOCKED_DOMAINS_PROFILE@,
    ]);
    r
}

/// The version of a store's schema: the one stored; else, for SQLite, the one
/// that the file carries, if it can be read; else the one before any.
pub open spec fn version_found(
    stored: Option<i32>,
    is_sqlite: bool,
    carried: Option<i32>,
) -> i32 {
    match (stored, carried) {
        (Some(v), _) => v,
        (None, Some(v)) => if is_sqlite {
            v
        } else {
            0
        },
        (None, None) => 0,
    }
}

/// The version of a store's schema.
pub fn get_schema_version(
    stored: Option<i32>,
    is_sqlite: bool,
    carried: Option<i32>,
) -> (r: i32)
    ensures
        r == version_found(stored, is_sqlite, carried),
{
    match stored {
        Some(v) => v,
        None => if is_sqlite {
            match carried {
                Some(v) => v,
                None => 0,
            }
        } else {
            0
        },
    }
}

/// Stores the version of a store that had none.
pub fn insert_schema_version(v: i32) -> (r: Query)
    ensures
        r@ == (QueryView { sql: INSERT_VERSION@, params: seq![ParamView::Int(v)] }),
{
    with_one(INSERT_VERSION, Param::Int(v))
}

/// Sets the version of a store.
pub fn set_schema_version(v: i32) -> (r: Query)
    ensures
        r@ == (QueryView { sql: UPDATE_VERSION@, params: seq![ParamView::Int(v)] }),
{
    with_one(UPDATE_VERSION, Param::Int(v))
}

/// One step of bringing a store up to date.
#[derive(Clone, Copy, Debug, PartialEq, Eq, Structural)]
pub enum MigrationStep {
    /// Run the migration of that number.
    Apply(i32),
    /// Store the version that has been reached.
    SetVersion(i32),
}

/// The migrations from number `n` on, each followed by storing its number.
pub open spec fn migrations_from(n: int) -> Seq<MigrationStep>
    decreases CURRENT_VERSION + 1 - n,
{
    if n > CURRENT_VERSION {
        seq![]
    } else {
        seq![MigrationStep::Apply(n as i32), MigrationStep::SetVersion(n as i32)] + migrations_from(
            n + 1,
        )
    }
}

/// The steps that bring a store of version `v` up to date. A SQLite store that
/// has no version and no administrators is new, and has nothing to be migrated;
/// any other runs every migration that it has not had. Other databases begin
/// with the current schema.
pub open spec fn migration_plan(v: i32, is_sqlite: bool, admins: i64) -> Seq<MigrationStep> {
    if is_sqlite {
        if v == 0 && admins == 0 {
            seq![MigrationStep::SetVersion(CURRENT_VERSION)]
        } else if v < 1 {
            migrations_from(1)
        } else {
            migrations_from(v + 1)
        }
    } else if v < CURRENT_VERSION {
        seq![MigrationStep::SetVersion(CURRENT_VERSION)]
    } else {
        seq![]
    }
}

/// Plans how to bring a store up to date, given the number of administrators,
/// which matters only for a SQLite store without a version.
pub fn run_migrations(v: i32, is_sqlite: bool, admins: i64) -> (r: Vec<MigrationStep>)
    ensures
        r@ == migration_plan(v, is_sqlite, admins),
{
    let mut steps: Vec<MigrationStep> = Vec::new();
    if !is_sqlite {
        if v < CURRENT_VERSION {
            steps.push(MigrationStep::SetVersion(CURRENT_VERSION));
        }
        assert(steps@ =~= migration_plan(v, is_sqlite, admins));
        return steps;
    }
    if v == 0 && admins == 0 {
        steps.push(MigrationStep::SetVersion(CURRENT_VERSION));
        assert(steps@ =~= migration_plan(v, is_sqlite, admins));
        return steps;
    }
    if v >= CURRENT_VERSION {
        assert(steps@ =~= migration_plan(v, is_sqlite, admins));
        return steps;
    }
    let mut n: i32 = if v < 1 {
        1
    } else {
        v + 1
    };
    let ghost all = migrations_from(n as int);
    assert(steps@ + migrations_from(n as int) =~= all);
    while n <= CURRENT_VERSION
        invariant
            1 <= n <= CURRENT_VERSION + 1,
            steps@ + migrations_from(n as int) == all,
        decreases CURRENT_VERSION + 1 - n,
    {
        let ghost before = steps@;
        steps.push(MigrationStep::Apply(n));
        steps.push(MigrationStep::SetVersion(n));
        assert(steps@ + migrations_from(n + 1) =~= before + migrations_from(n as int));
        n += 1;
    }
    assert(steps@ =~= all);
    steps
}

/// The version that a store has after some steps.
pub open spec fn version_after(steps: Seq<MigrationStep>, v: i32) -> i32
    decreases steps.len(),
{
    if steps.len() == 0 {
        v
    } else {
        match steps.last() {
            MigrationStep::SetVersion(n) => n,
            MigrationStep::Apply(_) => version_after(steps.drop_last(), v),
        }
    }
}

proof fn lemma_migrations_end(n: int)
    requires
        1 <= n <= CURRENT_VERSION,
    ensures
        migrations_from(n).len() > 0,
        migrations_from(n).last() == MigrationStep::SetVersion(CURRENT_VERSION),
    decreases CURRENT_VERSION + 1 - n,
{
    if n < CURRENT_VERSION {
        lemma_migrations_end(n + 1);
    } else {
        assert(migrations_from(n + 1) =~= seq![]);
    }
}

/// Every store of an older version ends up at the current one, a store of a
/// newer version is left alone, and a second run has nothing left to do.
pub proof fn migrations_reach_the_current_version(v: i32, is_sqlite: bool, admins: i64)
    ensures
        ({
            let reached = version_after(migration_plan(v, is_sqlite, admins), v);
            &&& reached == if v < CURRENT_VERSION {
                CURRENT_VERSION
            } else {
                v
            }
            &&& migration_plan(reached, is_sqlite, admins) == Seq::<MigrationStep>::empty()
        }),
{
    if is_sqlite && !(v == 0 && admins == 0) && v < CURRENT_VERSION {
        lemma_migrations_end(
            if v < 1 {
                1
            } else {
                v + 1
            },
        );
    }
}

/// A statement of a migration. One that may fail finds its work done before,
/// and the migration goes on.
#[derive(Clone, Copy, Debug)]
pub struct MigrationStatement {
    pub sql: &'static str,
    pub may_fail: bool,
}

/// The characters of each statement of a migration, and whether it may fail.
pub open spec fn migration_texts(v: Seq<MigrationStatement>) -> Seq<(Seq<char>, bool)> {
    v.map_values(|s: MigrationStatement| (s.sql@, s.may_fail))
}

/// Whether the agents' table, as it was declared, does not know of agents that
/// are to be deleted.
pub open spec fn needs_v1(schema: Option<&str>) -> bool {
    match schema {
        Some(s) => !text::occurs_in(s@, "pending_delete"@),
        None => false,
    }
}

/// The statements that declare a table anew and move its rows there.
pub open spec fn rebuild(create: Seq<char>, copy: Seq<char>, drop: Seq<char>, rename: Seq<char>) -> Seq<
    Seq<char>,
> {
    seq![FOREIGN_KEYS_OFF@, create, copy, drop, rename, FOREIGN_KEYS_ON@]
}

/// The first migration lets agents wait to be deleted. Given how the agents'
/// table was declared, if it was.
pub fn apply_v1(schema: Option<&str>) -> (r: Vec<&'static str>)
    ensures
        statement_texts(r@) == if needs_v1(schema) {
            rebuild(CREATE_AGENTS_V1@, COPY_AGENTS_V1@, DROP_AGENTS@, RENAME_AGENTS_V1@)
        } else {
            seq![]
        },
{
    let needed = match schema {
        Some(s) => !contains(s, "pending_delete"),
        None => false,
    };
    let r = if needed {
        vec![
            FOREIGN_KEYS_OFF,
            CREATE_AGENTS_V1,
            COPY_AGENTS_V1,
            DROP_AGENTS,
            RENAME_AGENTS_V1,
            FOREIGN_KEYS_ON,
        ]
    } else {
        Vec::new()
    };
    assert(statement_texts(r@) =~= if needs_v1(schema) {
        rebuild(CREATE_AGENTS_V1@, COPY_AGENTS_V1@, DROP_AGENTS@, RENAME_AGENTS_V1@)
    } else {
        seq![]
    });
    r
}

/// Whether the limits' table, as it was declared, refuses a limit of zero.
pub open spec fn needs_v4(schema: Option<&str>) -> bool {
    match schema {
        Some(s) => !text::occurs_in(s@, ">= 0"@) && text::occurs_in(s@, "> 0"@),
        None => false,
    }
}

/// The fourth migration allows a day without any time. Given how the limits'
/// table was declared, if it was.
pub fn apply_v4(schema: Option<&str>) -> (r: Vec<&'static str>)
    ensures
        statement_texts(r@) == if needs_v4(schema) {
            rebuild(
                CREATE_DAILY_LIMITS_V4@,
                COPY_DAILY_LIMITS_V4@,
                DROP_DAILY_LIMITS@,
                RENAME_DAILY_LIMITS_V4@,
            )
        } else {
            seq![]
        },
{
    let needed = match schema {
        Some(s) => !contains(s, ">= 0") && contains(s, "> 0"),
        None => false,
    };
    let r = if needed {
        vec![
            FOREIGN_KEYS_OFF,
            CREATE_DAILY_LIMITS_V4,
            COPY_DAILY_LIMITS_V4,
            DROP_DAILY_LIMITS,
            RENAME_DAILY_LIMITS_V4,
            FOREIGN_KEYS_ON,
        ]
    } else {
        Vec::new()
    };
    assert(statement_texts(r@) =~= if needs_v4(schema) {
        rebuild(
            CREATE_DAILY_LIMITS_V4@,
            COPY_DAILY_LIMITS_V4@,
            DROP_DAILY_LIMITS@,
            RENAME_DAILY_LIMITS_V4@,
        )
    } else {
        seq![]
    });
    r
}

fn one_addition(sql: &'static str) -> (r: Vec<MigrationStatement>)
    ensures
        migration_texts(r@) == seq![(sql@, true)],
{
    let r = vec![MigrationStatement { sql, may_fail: true }];
    assert(migration_texts(r@) =~= seq![(sql@, true)]);
    r
}

/// The second migration gives profiles a language.
pub fn apply_v2() -> (r: Vec<MigrationStatement>)
    ensures
        migration_texts(r@) == seq![(ADD_PROFILE_LANGUAGE@, true)],
{
    one_addition(ADD_PROFILE_LANGUAGE)
}

/// The third migration gives administrators a time zone.
pub fn apply_v3() -> (r: Vec<MigrationStatement>)
    ensures
        migration_texts(r@) == seq![(ADD_ADMIN_TIMEZONE@, true)],
{
    one_addition(ADD_ADMIN_TIMEZONE)
}

/// The fifth migration lets profiles preserve tasks on lock; no profile does so
/// at first.
pub fn apply_v5() -> (r: Vec<MigrationStatement>)
    ensures
        migration_texts(r@) == seq![(ADD_PRESERVE_TASKS@, true)],
{
    one_addition(ADD_PRESERVE_TASKS)
}

/// The sixth migration stores whether agents can filter the web, and block
/// lists.
pub fn apply_v6() -> (r: Vec<MigrationStatement>)
    ensures
        migration_texts(r@) == seq![
            (ADD_WEB_FILTER@, true),
            (CREATE_BLOCKED_DOMAINS@, false),
            (INDEX_BLOCKED_DOMAINS_PROFILE@, false),
        ],
{
    let r = vec![
        MigrationStatement { sql: ADD_WEB_FILTER, may_fail: true },
        MigrationStatement { sql: CREATE_BLOCKED_DOMAINS, may_fail: false },
        MigrationStatement { sql: INDEX_BLOCKED_DOMAINS_PROFILE, may_fail: false },
    ];
    assert(migration_texts(r@) =~= seq![
        (ADD_WEB_FILTER@, true),
        (CREATE_BLOCKED_DOMAINS@, false),
        (INDEX_BLOCKED_DOMAINS_PROFILE@, false),
    ]);
    r
}

} // verus!
