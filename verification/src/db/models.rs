//! The rows that come back from the store, and what is made of them.
//!
//! A `Stored` type holds the columns of a row as they are read. Of each there is
//! a statement of when it holds a row of the tables, and the function that reads
//! it gives back what that row holds.

use crate::db::tables::{
    AdjustmentRow, AdminRow, AgentRow, AgentUserRow, BlockedRow, EnforcementRow, ProfileRow,
    ScheduleRow,
};
use crate::ids;
use crate::ids::{read_id, uuid_parse, Uuid};
use crate::text;
use crate::text::{parse_i32, split, trim};
use vstd::prelude::*;

verus! {

/// A time that may be missing, as an integer.
pub open spec fn opt_int(n: Option<i64>) -> Option<int> {
    match n {
        Some(n) => Some(n as int),
        None => None,
    }
}

/// An administrator.
pub struct AdminUser {
    pub id: Uuid,
    pub username: String,
    pub password_hash: String,
    pub created_at: i64,
    pub timezone: String,
}

/// A row of the administrators.
pub struct StoredAdmin {
    pub id: String,
    pub username: String,
    pub password_hash: String,
    pub created_at: i64,
    pub timezone: String,
}

impl StoredAdmin {
    /// The columns hold the row `row` under `id`.
    pub open spec fn holds(self, id: Uuid, row: AdminRow) -> bool {
        &&& self.id@ == ids::hyphenated(id)
        &&& self.username@ == row.username
        &&& self.password_hash@ == row.password_hash
        &&& self.created_at == row.created_at
        &&& self.timezone@ == row.timezone
    }
}

impl AdminUser {
    /// What is known of the administrator is the row.
    pub open spec fn is(self, id: Uuid, row: AdminRow) -> bool {
        &&& self.id == id
        &&& self.username@ == row.username
        &&& self.password_hash@ == row.password_hash
        &&& self.created_at == row.created_at
        &&& self.timezone@ == row.timezone
    }
}

/// Reads a row of the administrators.
pub fn row_to_admin(r: StoredAdmin) -> (a: AdminUser)
    ensures
        a.id == ids::stored_id(r.id@),
        a.username == r.username,
        a.password_hash == r.password_hash,
        a.created_at == r.created_at,
        a.timezone == r.timezone,
        forall|id: Uuid, row: AdminRow| #[trigger] r.holds(id, row) ==> a.is(id, row),
{
    AdminUser {
        id: read_id(r.id.as_str()),
        username: r.username,
        password_hash: r.password_hash,
        created_at: r.created_at,
        timezone: r.timezone,
    }
}

/// An agent.
pub struct Agent {
    pub id: Uuid,
    pub machine_id: String,
    pub display_name: String,
    pub hostname: String,
    pub timezone: String,
    pub status: String,
    pub auth_token_hash: Option<String>,
    pub agent_version: Option<String>,
    pub paired_at: Option<i64>,
    pub last_seen_at: Option<i64>,
    pub created_at: i64,
    pub web_filter_available: Option<bool>,
}

/// A row of the agents.
pub struct StoredAgent {
    pub id: String,
    pub machine_id: String,
    pub display_name: String,
    pub hostname: String,
    pub timezone: String,
    pub status: String,
    pub auth_token_hash: Option<String>,
    pub agent_version: Option<String>,
    pub paired_at: Option<i64>,
    pub last_seen_at: Option<i64>,
    pub created_at: i64,
    pub web_filter_available: Option<i32>,
}

/// A stored number as a truth value: anything but zero is true.
pub open spec fn opt_flag(n: Option<i32>) -> Option<bool> {
    match n {
        Some(n) => Some(n != 0),
        None => None,
    }
}

impl StoredAgent {
    /// The columns hold the row `row` under `id`.
    pub open spec fn holds(self, id: Uuid, row: AgentRow) -> bool {
        &&& self.id@ == ids::hyphenated(id)
        &&& self.machine_id@ == row.machine_id
        &&& self.display_name@ == row.display_name
        &&& self.hostname@ == row.hostname
        &&& self.timezone@ == row.timezone
        &&& self.status@ == row.status
        &&& text::opt_text(self.auth_token_hash) == row.auth_token_hash
        &&& text::opt_text(self.agent_version) == row.agent_version
        &&& opt_int(self.paired_at) == row.paired_at
        &&& opt_int(self.last_seen_at) == row.last_seen_at
        &&& self.created_at == row.created_at
        &&& opt_flag(self.web_filter_available) == row.web_filter_available
    }
}

impl Agent {
    /// What is known of the agent is the row.
    pub open spec fn is(self, id: Uuid, row: AgentRow) -> bool {
        &&& self.id == id
        &&& self.machine_id@ == row.machine_id
        &&& self.display_name@ == row.display_name
        &&& self.hostname@ == row.hostname
        &&& self.timezone@ == row.timezone
        &&& self.status@ == row.status
        &&& text::opt_text(self.auth_token_hash) == row.auth_token_hash
        &&& text::opt_text(self.agent_version) == row.agent_version
        &&& opt_int(self.paired_at) == row.paired_at
        &&& opt_int(self.last_seen_at) == row.last_seen_at
        &&& self.created_at == row.created_at
        &&& self.web_filter_available == row.web_filter_available
    }
}

/// Reads a row of the agents.
pub fn row_to_agent(r: StoredAgent) -> (a: Agent)
    ensures
        a.id == ids::stored_id(r.id@),
        a.machine_id == r.machine_id,
        a.display_name == r.display_name,
        a.hostname == r.hostname,
        a.timezone == r.timezone,
        a.status == r.status,
        a.auth_token_hash == r.auth_token_hash,
        a.agent_version == r.agent_version,
        a.paired_at == r.paired_at,
        a.last_seen_at == r.last_seen_at,
        a.created_at == r.created_at,
        a.web_filter_available == opt_flag(r.web_filter_available),
        forall|id: Uuid, row: AgentRow| #[trigger] r.holds(id, row) ==> a.is(id, row),
{
    Agent {
        id: read_id(r.id.as_str()),
        machine_id: r.machine_id,
        display_name: r.display_name,
        hostname: r.hostname,
        timezone: r.timezone,
        status: r.status,
        auth_token_hash: r.auth_token_hash,
        agent_version: r.agent_version,
        paired_at: r.paired_at,
        last_seen_at: r.last_seen_at,
        created_at: r.created_at,
        web_filter_available: match r.web_filter_available {
            Some(n) => Some(n != 0),
            None => None,
        },
    }
}

/// A user of an agent.
pub struct AgentUser {
    pub id: Uuid,
    pub agent_id: Uuid,
    pub profile_id: Option<Uuid>,
    pub local_uid: i64,
    pub local_username: String,
    pub display_name: Option<String>,
    pub status: String,
    pub first_seen_at: i64,
    pub last_reported_at: i64,
}

/// A row of the users of agents.
pub struct StoredAgentUser {
    pub id: String,
    pub agent_id: String,
    pub profile_id: Option<String>,
    pub local_uid: i64,
    pub local_username: String,
    pub display_name: Option<String>,
    pub status: String,
    pub first_seen_at: i64,
    pub last_reported_at: i64,
}

/// The identifier that a text writes, if there is a text and it writes one.
pub open spec fn opt_stored_id(s: Option<String>) -> Option<Uuid> {
    match s {
        Some(s) => ids::uuid_value(s@),
        None => None,
    }
}

impl StoredAgentUser {
    /// The columns hold the row `row` under `id`.
    pub open spec fn holds(self, id: Uuid, row: AgentUserRow) -> bool {
        &&& self.id@ == ids::hyphenated(id)
        &&& self.agent_id@ == ids::hyphenated(row.agent_id)
        &&& text::opt_text(self.profile_id) == match row.profile_id {
            Some(p) => Some(ids::hyphenated(p)),
            None => None,
        }
        &&& self.local_uid == row.local_uid
        &&& self.local_username@ == row.local_username
        &&& text::opt_text(self.display_name) == row.display_name
        &&& self.status@ == row.status
        &&& self.first_seen_at == row.first_seen_at
        &&& self.last_reported_at == row.last_reported_at
    }
}

impl AgentUser {
    /// What is known of the user is the row.
    pub open spec fn is(self, id: Uuid, row: AgentUserRow) -> bool {
        &&& self.id == id
        &&& self.agent_id == row.agent_id
        &&& self.profile_id == row.profile_id
        &&& self.local_uid == row.local_uid
        &&& self.local_username@ == row.local_username
        &&& text::opt_text(self.display_name) == row.display_name
        &&& self.status@ == row.status
        &&& self.first_seen_at == row.first_seen_at
        &&& self.last_reported_at == row.last_reported_at
    }
}

fn read_opt_id(s: &Option<String>) -> (r: Option<Uuid>)
    ensures
        r == opt_stored_id(*s),
        forall|id: Uuid|
            text::opt_text(*s) == Some(#[trigger] ids::hyphenated(id)) ==> r == Some(id),
{
    match s {
        Some(s) => uuid_parse(s.as_str()),
        None => None,
    }
}

/// Reads a row of the users of agents.
pub fn row_to_agent_user(r: StoredAgentUser) -> (u: AgentUser)
    ensures
        u.id == ids::stored_id(r.id@),
        u.agent_id == ids::stored_id(r.agent_id@),
        u.profile_id == opt_stored_id(r.profile_id),
        u.local_uid == r.local_uid,
        u.local_username == r.local_username,
        u.display_name == r.display_name,
        u.status == r.status,
        u.first_seen_at == r.first_seen_at,
        u.last_reported_at == r.last_reported_at,
        forall|id: Uuid, row: AgentUserRow| #[trigger] r.holds(id, row) ==> u.is(id, row),
{
    AgentUser {
        id: read_id(r.id.as_str()),
        agent_id: read_id(r.agent_id.as_str()),
        profile_id: read_opt_id(&r.profile_id),
        local_uid: r.local_uid,
        local_username: r.local_username,
        display_name: r.display_name,
        status: r.status,
        first_seen_at: r.first_seen_at,
        last_reported_at: r.last_reported_at,
    }
}

/// A profile.
pub struct UserProfile {
    pub id: Uuid,
    pub display_name: String,
    pub language: String,
    pub created_at: i64,
    pub updated_at: i64,
}

/// A row of the profiles.
pub struct StoredProfile {
    pub id: String,
    pub display_name: String,
    pub language: String,
    pub created_at: i64,
    pub updated_at: i64,
}

impl StoredProfile {
    /// The columns hold the row `row` under `id`.
    pub open spec fn holds(self, id: Uuid, row: ProfileRow) -> bool {
        &&& self.id@ == ids::hyphenated(id)
        &&& self.display_name@ == row.display_name
        &&& self.language@ == row.language
        &&& self.created_at == row.created_at
        &&& self.updated_at == row.updated_at
    }
}

impl UserProfile {
    /// What is known of the profile is the row.
    pub open spec fn is(self, id: Uuid, row: ProfileRow) -> bool {
        &&& self.id == id
        &&& self.display_name@ == row.display_name
        &&& self.language@ == row.language
        &&& self.created_at == row.created_at
        &&& self.updated_at == row.updated_at
    }
}

/// Reads a row of the profiles.
pub fn row_to_profile(r: StoredProfile) -> (p: UserProfile)
    ensures
        p.id == ids::stored_id(r.id@),
        p.display_name == r.display_name,
        p.language == r.language,
        p.created_at == r.created_at,
        p.updated_at == r.updated_at,
        forall|id: Uuid, row: ProfileRow| #[trigger] r.holds(id, row) ==> p.is(id, row),
{
    UserProfile {
        id: read_id(r.id.as_str()),
        display_name: r.display_name,
        language: r.language,
        created_at: r.created_at,
        updated_at: r.updated_at,
    }
}

/// A window of a profile's week.
pub struct Schedule {
    pub id: Uuid,
    pub profile_id: Uuid,
    pub day_of_week: u8,
    pub start_time: String,
    pub end_time: String,
}

/// A row of the schedules.
pub struct StoredSchedule {
    pub id: String,
    pub profile_id: String,
    pub day_of_week: i64,
    pub start_time: String,
    pub end_time: String,
}

impl StoredSchedule {
    /// The columns hold the row `row` under `id`.
    pub open spec fn holds(self, id: Uuid, row: ScheduleRow) -> bool {
        &&& self.id@ == ids::hyphenated(id)
        &&& self.profile_id@ == ids::hyphenated(row.profile_id)
        &&& self.day_of_week == row.day_of_week
        &&& self.start_time@ == row.start_time
        &&& self.end_time@ == row.end_time
    }
}

impl Schedule {
    /// What is known of the window is the row.
    pub open spec fn is(self, id: Uuid, row: ScheduleRow) -> bool {
        &&& self.id == id
        &&& self.profile_id == row.profile_id
        &&& self.day_of_week == row.day_of_week
        &&& self.start_time@ == row.start_time
        &&& self.end_time@ == row.end_time
    }
}

/// Reads a row of the schedules. The day is one of the week in every row that
/// the tables can hold; of any other number the lowest eight bits count.
pub fn row_to_schedule(r: StoredSchedule) -> (s: Schedule)
    ensures
        s.id == ids::stored_id(r.id@),
        s.profile_id == ids::stored_id(r.profile_id@),
        s.day_of_week == r.day_of_week as u8,
        s.start_time == r.start_time,
        s.end_time == r.end_time,
        forall|id: Uuid, row: ScheduleRow|
            #[trigger] r.holds(id, row) && 0 <= row.day_of_week <= 6 ==> s.is(id, row),
{
    Schedule {
        id: read_id(r.id.as_str()),
        profile_id: read_id(r.profile_id.as_str()),
        day_of_week: r.day_of_week as u8,
        start_time: r.start_time,
        end_time: r.end_time,
    }
}

/// The minutes that a profile allows on a day of the week.
pub struct DailyLimit {
    pub profile_id: Uuid,
    pub day_of_week: u8,
    pub allowed_minutes: i32,
}

/// A row of the daily limits.
pub struct StoredDailyLimit {
    pub profile_id: String,
    pub day_of_week: i64,
    pub allowed_minutes: i32,
}

/// Reads a row of the daily limits.
pub fn row_to_daily_limit(r: StoredDailyLimit) -> (l: DailyLimit)
    ensures
        l.profile_id == ids::stored_id(r.profile_id@),
        l.day_of_week == r.day_of_week as u8,
        l.allowed_minutes == r.allowed_minutes,
        forall|id: Uuid| r.profile_id@ == #[trigger] ids::hyphenated(id) ==> l.profile_id == id,
        0 <= r.day_of_week <= 6 ==> l.day_of_week == r.day_of_week,
{
    DailyLimit {
        profile_id: read_id(r.profile_id.as_str()),
        day_of_week: r.day_of_week as u8,
        allowed_minutes: r.allowed_minutes,
    }
}

/// Time added to or taken from a day of a profile.
pub struct TimeAdjustment {
    pub id: Uuid,
    pub profile_id: Uuid,
    pub target_date: String,
    pub adjustment_minutes: i32,
    pub reason: Option<String>,
    pub created_at: i64,
}

/// A row of the adjustments.
pub struct StoredAdjustment {
    pub id: String,
    pub profile_id: String,
    pub target_date: String,
    pub adjustment_minutes: i32,
    pub reason: Option<String>,
    pub created_at: i64,
}

impl StoredAdjustment {
    /// The columns hold the row `row` under `id`.
    pub open spec fn holds(self, id: Uuid, row: AdjustmentRow) -> bool {
        &&& self.id@ == ids::hyphenated(id)
        &&& self.profile_id@ == ids::hyphenated(row.profile_id)
        &&& self.target_date@ == row.target_date
        &&& self.adjustment_minutes == row.minutes
        &&& text::opt_text(self.reason) == row.reason
        &&& self.created_at == row.created_at
    }
}

impl TimeAdjustment {
    /// What is known of the adjustment is the row.
    pub open spec fn is(self, id: Uuid, row: AdjustmentRow) -> bool {
        &&& self.id == id
        &&& self.profile_id == row.profile_id
        &&& self.target_date@ == row.target_date
        &&& self.adjustment_minutes == row.minutes
        &&& text::opt_text(self.reason) == row.reason
        &&& self.created_at == row.created_at
    }
}

/// Reads a row of the adjustments.
pub fn row_to_adjustment(r: StoredAdjustment) -> (a: TimeAdjustment)
    ensures
        a.id == ids::stored_id(r.id@),
        a.profile_id == ids::stored_id(r.profile_id@),
        a.target_date == r.target_date,
        a.adjustment_minutes == r.adjustment_minutes,
        a.reason == r.reason,
        a.created_at == r.created_at,
        forall|id: Uuid, row: AdjustmentRow| #[trigger] r.holds(id, row) ==> a.is(id, row),
{
    TimeAdjustment {
        id: read_id(r.id.as_str()),
        profile_id: read_id(r.profile_id.as_str()),
        target_date: r.target_date,
        adjustment_minutes: r.adjustment_minutes,
        reason: r.reason,
        created_at: r.created_at,
    }
}

/// A domain on a profile's block list.
pub struct BlockedDomain {
    pub id: Uuid,
    pub profile_id: Uuid,
    pub domain: String,
    pub enabled: bool,
    pub created_at: i64,
}

/// A row of the block lists.
pub struct StoredBlockedDomain {
    pub id: String,
    pub profile_id: String,
    pub domain: String,
    pub enabled: i32,
    pub created_at: i64,
}

impl StoredBlockedDomain {
    /// The columns hold the row `row` under `id`.
    pub open spec fn holds(self, id: Uuid, row: BlockedRow) -> bool {
        &&& self.id@ == ids::hyphenated(id)
        &&& self.profile_id@ == ids::hyphenated(row.profile_id)
        &&& self.domain@ == row.domain
        &&& (self.enabled != 0) == row.enabled
        &&& self.created_at == row.created_at
    }
}

impl BlockedDomain {
    /// What is known of the domain is the row.
    pub open spec fn is(self, id: Uuid, row: BlockedRow) -> bool {
        &&& self.id == id
        &&& self.profile_id == row.profile_id
        &&& self.domain@ == row.domain
        &&& self.enabled == row.enabled
        &&& self.created_at == row.created_at
    }
}

/// Reads a row of the block lists.
pub fn row_to_blocked_domain(r: StoredBlockedDomain) -> (d: BlockedDomain)
    ensures
        d.id == ids::stored_id(r.id@),
        d.profile_id == ids::stored_id(r.profile_id@),
        d.domain == r.domain,
        d.enabled == (r.enabled != 0),
        d.created_at == r.created_at,
        forall|id: Uuid, row: BlockedRow| #[trigger] r.holds(id, row) ==> d.is(id, row),
{
    BlockedDomain {
        id: read_id(r.id.as_str()),
        profile_id: read_id(r.profile_id.as_str()),
        domain: r.domain,
        enabled: r.enabled != 0,
        created_at: r.created_at,
    }
}

/// How a profile's limits are enforced.
pub struct EnforcementSettings {
    pub lockout_grace_minutes: i32,
    pub preserve_tasks_on_lock: bool,
    pub warning_thresholds: Vec<i32>,
}

/// A row of the enforcement settings.
pub struct StoredEnforcement {
    pub lockout_grace_minutes: i32,
    pub warning_thresholds: String,
    pub preserve_tasks_on_lock: i32,
}

impl StoredEnforcement {
    /// The columns hold the row `row`.
    pub open spec fn holds(self, row: EnforcementRow) -> bool {
        &&& self.lockout_grace_minutes == row.lockout_grace_minutes
        &&& self.warning_thresholds@ == row.warning_thresholds
        &&& (self.preserve_tasks_on_lock != 0) == row.preserve_tasks_on_lock
    }
}

/// The numbers among a list of texts, without the white space round each.
pub open spec fn numbers(pieces: Seq<Seq<char>>) -> Seq<int>
    decreases pieces.len(),
{
    if pieces.len() == 0 {
        seq![]
    } else {
        let before = numbers(pieces.drop_last());
        match text::int_value(text::trimmed(pieces.last())) {
            Some(n) => before.push(n),
            None => before,
        }
    }
}

/// The thresholds that a text lists with commas between; what is no number is
/// left out.
pub open spec fn threshold_list(s: Seq<char>) -> Seq<int> {
    numbers(text::pieces(s, ','))
}

fn read_thresholds(s: &str) -> (r: Vec<i32>)
    ensures
        r@.map_values(|n: i32| n as int) == threshold_list(s@),
{
    let parts = split(s, ',');
    let ghost all = text::texts(parts@);
    let mut r: Vec<i32> = Vec::new();
    let mut i: usize = 0;
    assert(all.take(0) =~= Seq::empty());
    assert(r@.map_values(|n: i32| n as int) =~= numbers(all.take(0)));
    while i < parts.len()
        invariant
            i <= parts@.len(),
            all == text::texts(parts@),
            r@.map_values(|n: i32| n as int) == numbers(all.take(i as int)),
        decreases parts@.len() - i,
    {
        let ghost before = r@.map_values(|n: i32| n as int);
        proof {
            assert(all.take(i + 1).drop_last() =~= all.take(i as int));
            assert(all.take(i + 1).last() == parts@[i as int]@);
        }
        let piece = trim(parts[i].as_str());
        match parse_i32(piece.as_str()) {
            Some(n) => {
                r.push(n);
                assert(r@.map_values(|n: i32| n as int) =~= before.push(n as int));
            },
            None => {},
        }
        i += 1;
    }
    assert(all.take(i as int) =~= all);
    r
}

/// Reads the enforcement settings of a profile: five minutes of grace, warnings
/// at 15, 5 and 1 minutes and no preserved tasks where none are stored.
pub fn read_enforcement_settings(row: Option<StoredEnforcement>) -> (s: EnforcementSettings)
    ensures
        match row {
            Some(r) => {
                &&& s.lockout_grace_minutes == r.lockout_grace_minutes
                &&& s.preserve_tasks_on_lock == (r.preserve_tasks_on_lock != 0)
                &&& s.warning_thresholds@.map_values(|n: i32| n as int) == threshold_list(
                    r.warning_thresholds@,
                )
            },
            None => {
                &&& s.lockout_grace_minutes == 5
                &&& !s.preserve_tasks_on_lock
                &&& s.warning_thresholds@ == seq![15i32, 5, 1]
            },
        },
{
    match row {
        Some(r) => EnforcementSettings {
            lockout_grace_minutes: r.lockout_grace_minutes,
            preserve_tasks_on_lock: r.preserve_tasks_on_lock != 0,
            warning_thresholds: read_thresholds(r.warning_thresholds.as_str()),
        },
        None => {
            let warning_thresholds = read_thresholds("15,5,1");
            proof {
                default_thresholds();
                let v = warning_thresholds@.map_values(|n: i32| n as int);
                assert(v.len() == 3);
                assert(v[0] == warning_thresholds@[0] && v[1] == warning_thresholds@[1] && v[2]
                    == warning_thresholds@[2]);
                assert(warning_thresholds@ =~= seq![15i32, 5, 1]);
            }
            EnforcementSettings {
                lockout_grace_minutes: 5,
                preserve_tasks_on_lock: false,
                warning_thresholds,
            }
        },
    }
}

/// The thresholds of a profile that nobody has changed are 15, 5 and 1 minutes.
pub proof fn default_thresholds()
    ensures
        threshold_list("15,5,1"@) == seq![15int, 5, 1],
{
    reveal_strlit("15,5,1");
    let s = "15,5,1"@;
    reveal_with_fuel(numbers, 4);
    reveal_with_fuel(text::strip_front, 2);
    reveal_with_fuel(text::strip_back, 2);
    reveal_with_fuel(text::digits_value, 3);
    assert(s =~= seq!['1', '5', ',', '5', ',', '1']);
    let s5 = seq!['1', '5', ',', '5', ','];
    let s4 = seq!['1', '5', ',', '5'];
    let s3 = seq!['1', '5', ','];
    let s2 = seq!['1', '5'];
    let s1 = seq!['1'];
    assert(s.drop_last() =~= s5 && s5.drop_last() =~= s4 && s4.drop_last() =~= s3
        && s3.drop_last() =~= s2 && s2.drop_last() =~= s1 && s1.drop_last() =~= Seq::<char>::empty());
    let none = Seq::<char>::empty();
    assert(text::pieces(none, ',') == seq![none]);
    assert(none.push('1') =~= s1);
    assert(text::pieces(s1, ',') =~~= seq![s1]);
    assert(text::pieces(s2, ',') =~~= seq![seq!['1', '5']]);
    assert(text::pieces(s3, ',') =~~= seq![seq!['1', '5'], seq![]]);
    assert(text::pieces(s4, ',') =~~= seq![seq!['1', '5'], seq!['5']]);
    assert(text::pieces(s5, ',') =~~= seq![seq!['1', '5'], seq!['5'], seq![]]);
    let p = text::pieces(s, ',');
    assert(p =~~= seq![seq!['1', '5'], seq!['5'], seq!['1']]);
    assert(text::trimmed(seq!['1', '5']) =~= seq!['1', '5']);
    assert(text::trimmed(seq!['5']) =~= seq!['5']);
    assert(text::trimmed(seq!['1']) =~= seq!['1']);
    assert(text::int_value(seq!['1', '5']) == Some(15int));
    assert(text::int_value(seq!['5']) == Some(5int));
    assert(text::int_value(seq!['1']) == Some(1int));
    assert(numbers(p) =~= seq![15int, 5, 1]);
}

} // verus!
