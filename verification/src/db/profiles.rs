//! Profiles and what belongs to them: windows, limits, adjustments, enforcement
//! settings and the version of their configuration.

use crate::clock::now_timestamp;
use crate::db::models::UserProfile;
use crate::db::query;
use crate::db::query::{
    bare, id_param, text_param, with_one, with_three, with_two, ParamView, Query, QueryView,
};
use crate::db::write::Write;
use crate::ids;
use crate::ids::{new_uuid, new_uuids, Uuid};
use crate::text;
use crate::text::own_opt;
use vstd::prelude::*;

verus! {

pub const PROFILES_BY_NAME: &'static str =
    "SELECT id, display_name, language, created_at, updated_at \
     FROM user_profiles ORDER BY display_name";

pub const PROFILE_BY_ID: &'static str =
    "SELECT id, display_name, language, created_at, updated_at FROM user_profiles WHERE id=$1";

pub const SCHEDULES: &'static str =
    "SELECT id, profile_id, day_of_week, start_time, end_time \
     FROM schedules WHERE profile_id=$1 ORDER BY day_of_week, start_time";

pub const DAILY_LIMITS: &'static str =
    "SELECT profile_id, day_of_week, allowed_minutes \
     FROM daily_limits WHERE profile_id=$1 ORDER BY day_of_week";

pub const ADJUSTMENTS: &'static str =
    "SELECT id,profile_id,target_date,adjustment_minutes,reason,created_at \
     FROM time_adjustments \
     WHERE profile_id=$1 AND target_date>=$2 AND target_date<=$3 \
     ORDER BY target_date DESC";

pub const LATEST_REASON: &'static str =
    "SELECT reason FROM time_adjustments \
     WHERE profile_id=$1 AND target_date=$2 \
     ORDER BY created_at DESC LIMIT 1";

pub const ADJUSTMENT_SUM: &'static str =
    "SELECT COALESCE(SUM(adjustment_minutes),0) \
     FROM time_adjustments WHERE profile_id=$1 AND target_date=$2";

pub const ENFORCEMENT: &'static str =
    "SELECT lockout_grace_minutes, warning_thresholds, preserve_tasks_on_lock \
     FROM enforcement_settings WHERE profile_id=$1";

pub const CONFIG_VERSION: &'static str = "SELECT version FROM config_versions WHERE profile_id=$1";

/// The domains that every new profile lists, none of them blocked yet.
pub open spec fn default_domains() -> Seq<Seq<char>> {
    seq![
        "youtube.com"@,
        "tiktok.com"@,
        "instagram.com"@,
        "facebook.com"@,
        "twitter.com"@,
        "x.com"@,
        "twitch.tv"@,
        "discord.com"@,
        "reddit.com"@,
        "snapchat.com"@,
        "roblox.com"@,
    ]
}

/// The domains that every new profile lists.
pub fn default_blocked_domains() -> (r: Vec<&'static str>)
    ensures
        r@.map_values(|s: &'static str| s@) == default_domains(),
{
    let r = vec![
        "youtube.com",
        "tiktok.com",
        "instagram.com",
        "facebook.com",
        "twitter.com",
        "x.com",
        "twitch.tv",
        "discord.com",
        "reddit.com",
        "snapchat.com",
        "roblox.com",
    ];
    assert(r@.map_values(|s: &'static str| s@) =~= default_domains());
    r
}

/// The changes that store a new profile, one by one: the profile, its
/// enforcement settings, the first version of its configuration and the domains
/// that it lists, the domain at position `i` under the identifier `seeds[i]`.
pub open spec fn makes_profile(
    ws: Seq<Write>,
    profile: Uuid,
    seeds: Seq<Uuid>,
    name: Seq<char>,
    now: i64,
) -> bool {
    &&& seeds.len() == default_domains().len()
    &&& ws.len() == 3 + default_domains().len()
    &&& ws[0] matches Write::InsertProfile { id, name: n, at } && id == profile && n@ == name && at
        == now
    &&& ws[1] == (Write::InsertEnforcement { profile_id: profile })
    &&& ws[2] == (Write::InsertConfigVersion { profile_id: profile, at: now })
    &&& forall|i: int|
        0 <= i < default_domains().len() ==> seeds_domain(
            #[trigger] ws[3 + i],
            seeds[i],
            profile,
            default_domains()[i],
            now,
        )
}

/// The change that lists a domain on a new profile under the identifier `seed`.
pub open spec fn seeds_domain(
    w: Write,
    seed: Uuid,
    profile: Uuid,
    name: Seq<char>,
    now: i64,
) -> bool {
    w matches Write::SeedBlockedDomain { id, profile_id, domain, at } && id == seed && profile_id
        == profile && domain@ == name && at == now
}

/// Stores a new profile now, and all that belongs to it under identifiers that
/// are drawn at random.
pub fn create_profile(display_name: &str) -> (r: (UserProfile, Vec<Write>))
    ensures
        ids::is_random_uuid(r.0.id),
        r.0.display_name@ == display_name@,
        r.0.language@ == "en"@,
        r.0.updated_at == r.0.created_at,
        exists|seeds: Seq<Uuid>|
            ids::are_random_uuids(seeds) && #[trigger] makes_profile(
                r.1@,
                r.0.id,
                seeds,
                display_name@,
                r.0.created_at,
            ),
{
    profile_made_at(new_uuid(), display_name, now_timestamp())
}

/// Stores a new profile under that identifier at the time `now`, and the domains
/// that it lists under identifiers that are drawn at random.
pub fn profile_made_at(id: Uuid, display_name: &str, now: i64) -> (r: (UserProfile, Vec<Write>))
    ensures
        r.0.id == id,
        r.0.display_name@ == display_name@,
        r.0.language@ == "en"@,
        r.0.created_at == now,
        r.0.updated_at == now,
        exists|seeds: Seq<Uuid>|
            ids::are_random_uuids(seeds) && #[trigger] makes_profile(
                r.1@,
                id,
                seeds,
                display_name@,
                now,
            ),
{
    let domains = default_blocked_domains();
    assert(domains@.len() == domains@.map_values(|s: &'static str| s@).len());
    let seeds = new_uuids(domains.len());
    profile_made_with(id, &seeds, display_name, now)
}

/// Stores a new profile under that identifier at the time `now`, and the domains
/// that it lists under these identifiers, one each.
pub fn profile_made_with(
    id: Uuid,
    seeds: &Vec<Uuid>,
    display_name: &str,
    now: i64,
) -> (r: (UserProfile, Vec<Write>))
    requires
        seeds@.len() == default_domains().len(),
    ensures
        r.0.id == id,
        r.0.display_name@ == display_name@,
        r.0.language@ == "en"@,
        r.0.created_at == now,
        r.0.updated_at == now,
        makes_profile(r.1@, id, seeds@, display_name@, now),
{
    let mut ws: Vec<Write> = Vec::new();
    ws.push(Write::InsertProfile { id, name: display_name.to_owned(), at: now });
    ws.push(Write::InsertEnforcement { profile_id: id });
    ws.push(Write::InsertConfigVersion { profile_id: id, at: now });
    let ghost head = ws@;
    let domains = default_blocked_domains();
    let mut i: usize = 0;
    assert(domains@.len() == domains@.map_values(|s: &'static str| s@).len());
    while i < domains.len()
        invariant
            i <= domains@.len(),
            domains@.len() == default_domains().len(),
            seeds@.len() == default_domains().len(),
            domains@.map_values(|s: &'static str| s@) == default_domains(),
            ws@.len() == 3 + i,
            ws@[0] == head[0],
            ws@[1] == head[1],
            ws@[2] == head[2],
            forall|j: int|
                0 <= j < i ==> seeds_domain(
                    #[trigger] ws@[3 + j],
                    seeds@[j],
                    id,
                    default_domains()[j],
                    now,
                ),
        decreases domains@.len() - i,
    {
        let ghost before = ws@;
        let w = Write::SeedBlockedDomain {
            id: seeds[i],
            profile_id: id,
            domain: domains[i].to_owned(),
            at: now,
        };
        proof {
            assert(default_domains()[i as int] == domains@.map_values(
                |s: &'static str| s@,
            )[i as int]);
        }
        ws.push(w);
        assert forall|j: int| 0 <= j < i + 1 implies seeds_domain(
            #[trigger] ws@[3 + j],
            seeds@[j],
            id,
            default_domains()[j],
            now,
        ) by {
            if j < i {
                assert(ws@[3 + j] == before[3 + j]);
            }
        }
        i += 1;
    }
    let p = UserProfile {
        id,
        display_name: display_name.to_owned(),
        language: "en".to_owned(),
        created_at: now,
        updated_at: now,
    };
    (p, ws)
}

/// Asks for all profiles by name.
pub fn list_profiles() -> (r: Query)
    ensures
        r@ == (QueryView { sql: PROFILES_BY_NAME@, params: seq![] }),
{
    bare(PROFILES_BY_NAME)
}

/// Asks for a profile.
pub fn get_profile(id: Uuid) -> (r: Query)
    ensures
        r@ == (QueryView { sql: PROFILE_BY_ID@, params: seq![query::id_value(id)] }),
{
    with_one(PROFILE_BY_ID, id_param(id))
}

/// Sets a profile's language.
pub fn update_profile_language(profile_id: Uuid, language: &str) -> (r: Write)
    ensures
        r matches Write::SetProfileLanguage { id, language: l, at } && id == profile_id && l@
            == language@,
{
    language_set_at(profile_id, language, now_timestamp())
}

/// Sets a profile's language at the time `now`.
pub fn language_set_at(profile_id: Uuid, language: &str, now: i64) -> (r: Write)
    ensures
        r matches Write::SetProfileLanguage { id, language: l, at } && id == profile_id && l@
            == language@ && at == now,
{
    Write::SetProfileLanguage { id: profile_id, language: language.to_owned(), at: now }
}

/// Sets a profile's name.
pub fn update_profile(profile_id: Uuid, display_name: &str) -> (r: Write)
    ensures
        r matches Write::SetProfileName { id, name, at } && id == profile_id && name@
            == display_name@,
{
    name_set_at(profile_id, display_name, now_timestamp())
}

/// Sets a profile's name at the time `now`.
pub fn name_set_at(profile_id: Uuid, display_name: &str, now: i64) -> (r: Write)
    ensures
        r matches Write::SetProfileName { id, name, at } && id == profile_id && name@
            == display_name@ && at == now,
{
    Write::SetProfileName { id: profile_id, name: display_name.to_owned(), at: now }
}

/// Deletes a profile.
pub fn delete_profile(id: Uuid) -> (r: Write)
    ensures
        r == (Write::DeleteProfile { id }),
{
    Write::DeleteProfile { id }
}

/// Asks for a profile's windows, by day and start.
pub fn get_schedules(profile_id: Uuid) -> (r: Query)
    ensures
        r@ == (QueryView { sql: SCHEDULES@, params: seq![query::id_value(profile_id)] }),
{
    with_one(SCHEDULES, id_param(profile_id))
}

/// A window to be stored: the day of the week, the start and the end.
pub struct NewWindow {
    pub day_of_week: u8,
    pub start_time: String,
    pub end_time: String,
}

/// The change that stores a window under the identifier `row`.
pub open spec fn stores_window(w: Write, row: Uuid, profile: Uuid, n: NewWindow) -> bool {
    w matches Write::InsertSchedule { id, profile_id, day_of_week, start, end } && id == row
        && profile_id == profile && day_of_week == n.day_of_week && start@ == n.start_time@ && end@
        == n.end_time@
}

/// The changes that put these windows in the place of a profile's windows, the
/// window at position `i` under the identifier `row_ids[i]`.
pub open spec fn replaces_windows(
    ws: Seq<Write>,
    profile: Uuid,
    row_ids: Seq<Uuid>,
    new: Seq<NewWindow>,
) -> bool {
    &&& row_ids.len() == new.len()
    &&& ws.len() == 1 + new.len()
    &&& ws[0] == (Write::ClearSchedules { profile_id: profile })
    &&& forall|i: int|
        0 <= i < new.len() ==> stores_window(#[trigger] ws[1 + i], row_ids[i], profile, new[i])
}

/// Puts these windows in the place of a profile's windows, under identifiers that
/// are drawn at random.
pub fn replace_schedules(profile_id: Uuid, schedules: &Vec<NewWindow>) -> (ws: Vec<Write>)
    ensures
        exists|row_ids: Seq<Uuid>|
            ids::are_random_uuids(row_ids) && #[trigger] replaces_windows(
                ws@,
                profile_id,
                row_ids,
                schedules@,
            ),
{
    let row_ids = new_uuids(schedules.len());
    windows_set_with(profile_id, schedules, &row_ids)
}

/// Puts these windows in the place of a profile's windows, under these
/// identifiers, one each.
pub fn windows_set_with(
    profile_id: Uuid,
    schedules: &Vec<NewWindow>,
    row_ids: &Vec<Uuid>,
) -> (ws: Vec<Write>)
    requires
        row_ids@.len() == schedules@.len(),
    ensures
        replaces_windows(ws@, profile_id, row_ids@, schedules@),
{
    let mut ws: Vec<Write> = Vec::new();
    ws.push(Write::ClearSchedules { profile_id });
    let mut i: usize = 0;
    while i < schedules.len()
        invariant
            i <= schedules@.len(),
            row_ids@.len() == schedules@.len(),
            ws@.len() == 1 + i,
            ws@[0] == (Write::ClearSchedules { profile_id }),
            forall|j: int|
                0 <= j < i ==> stores_window(
                    #[trigger] ws@[1 + j],
                    row_ids@[j],
                    profile_id,
                    schedules@[j],
                ),
        decreases schedules@.len() - i,
    {
        let ghost before = ws@;
        let s = &schedules[i];
        ws.push(
            Write::InsertSchedule {
                id: row_ids[i],
                profile_id,
                day_of_week: s.day_of_week,
                start: s.start_time.clone(),
                end: s.end_time.clone(),
            },
        );
        assert forall|j: int| 0 <= j < i + 1 implies stores_window(
            #[trigger] ws@[1 + j],
            row_ids@[j],
            profile_id,
            schedules@[j],
        ) by {
            if j < i {
                assert(ws@[1 + j] == before[1 + j]);
            }
        }
        i += 1;
    }
    ws
}

/// Asks for a profile's daily limits, by day.
pub fn get_daily_limits(profile_id: Uuid) -> (r: Query)
    ensures
        r@ == (QueryView { sql: DAILY_LIMITS@, params: seq![query::id_value(profile_id)] }),
{
    with_one(DAILY_LIMITS, id_param(profile_id))
}

/// A daily limit to be stored: the day of the week and the minutes.
#[derive(Clone, Copy, Debug, PartialEq, Eq, Structural)]
pub struct NewLimit {
    pub day_of_week: u8,
    pub minutes: i32,
}

/// The changes that put these limits in the place of a profile's limits.
pub open spec fn limit_writes(profile_id: Uuid, new: Seq<NewLimit>) -> Seq<Write> {
    seq![Write::ClearDailyLimits { profile_id }] + new.map_values(
        |n: NewLimit|
            Write::InsertDailyLimit {
                profile_id,
                day_of_week: n.day_of_week,
                minutes: n.minutes,
            },
    )
}

/// Puts these limits in the place of a profile's limits.
pub fn replace_daily_limits(profile_id: Uuid, limits: &Vec<NewLimit>) -> (ws: Vec<Write>)
    ensures
        ws@ == limit_writes(profile_id, limits@),
{
    let mut ws: Vec<Write> = Vec::new();
    ws.push(Write::ClearDailyLimits { profile_id });
    let mut i: usize = 0;
    assert(ws@ =~= limit_writes(profile_id, limits@).take(1));
    while i < limits.len()
        invariant
            i <= limits@.len(),
            ws@ == limit_writes(profile_id, limits@).take(1 + i),
        decreases limits@.len() - i,
    {
        ws.push(
            Write::InsertDailyLimit {
                profile_id,
                day_of_week: limits[i].day_of_week,
                minutes: limits[i].minutes,
            },
        );
        assert(ws@ =~= limit_writes(profile_id, limits@).take(2 + i));
        i += 1;
    }
    assert(limit_writes(profile_id, limits@).take(1 + i) =~= limit_writes(profile_id, limits@));
    ws
}

/// A date, or another where none is given.
pub open spec fn date_or(date: Option<&str>, other: Seq<char>) -> Seq<char> {
    match date {
        Some(d) => d@,
        None => other,
    }
}

/// Asks for a profile's adjustments between two dates, the latest first. A date
/// that is not given does not bound them.
pub fn get_adjustments(profile_id: Uuid, from: Option<&str>, to: Option<&str>) -> (r: Query)
    ensures
        r@ == (QueryView {
            sql: ADJUSTMENTS@,
            params: seq![
                query::id_value(profile_id),
                ParamView::Text(date_or(from, "0000-00-00"@)),
                ParamView::Text(date_or(to, "9999-12-31"@)),
            ],
        }),
{
    let first = match from {
        Some(d) => text_param(d),
        None => text_param("0000-00-00"),
    };
    let last = match to {
        Some(d) => text_param(d),
        None => text_param("9999-12-31"),
    };
    with_three(ADJUSTMENTS, id_param(profile_id), first, last)
}

/// Asks for the reason of the latest adjustment of a profile's day.
pub fn latest_adjustment_reason_for_date(profile_id: Uuid, date: &str) -> (r: Query)
    ensures
        r@ == (QueryView {
            sql: LATEST_REASON@,
            params: seq![query::id_value(profile_id), ParamView::Text(date@)],
        }),
{
    with_two(LATEST_REASON, id_param(profile_id), text_param(date))
}

/// The reason that was found; none where there is no adjustment or it has none.
pub fn read_reason(found: Option<Option<String>>) -> (r: Option<String>)
    ensures
        r == match found {
            Some(reason) => reason,
            None => None,
        },
{
    match found {
        Some(reason) => reason,
        None => None,
    }
}

/// Asks for the sum of the adjustments of a profile's day.
pub fn sum_adjustments_for_date(profile_id: Uuid, date: &str) -> (r: Query)
    ensures
        r@ == (QueryView {
            sql: ADJUSTMENT_SUM@,
            params: seq![query::id_value(profile_id), ParamView::Text(date@)],
        }),
{
    with_two(ADJUSTMENT_SUM, id_param(profile_id), text_param(date))
}

/// The sum of adjustments that was read, in minutes: its lowest 32 bits.
pub fn read_adjustment_sum(sum: i64) -> (r: i32)
    ensures
        r == sum as i32,
        i32::MIN <= sum <= i32::MAX ==> r == sum,
{
    sum as i32
}

/// Adds an adjustment to a profile's day now, under an identifier that is drawn
/// at random.
pub fn create_adjustment(
    profile: Uuid,
    date: &str,
    minutes_added: i32,
    why: Option<&str>,
    by: Option<Uuid>,
) -> (r: (Uuid, Write))
    ensures
        ids::is_random_uuid(r.0),
        r.1 matches Write::InsertAdjustment {
            id,
            profile_id,
            target_date,
            minutes,
            reason,
            created_by,
            at,
        } && id == r.0 && profile_id == profile && target_date@ == date@ && minutes == minutes_added
            && text::opt_text(reason) == text::opt_str(why) && created_by == by,
{
    let id = new_uuid();
    (id, adjusted_at(id, profile, date, minutes_added, why, by, now_timestamp()))
}

/// Adds an adjustment to a profile's day under that identifier at the time `now`.
pub fn adjusted_at(
    adjustment_id: Uuid,
    profile: Uuid,
    date: &str,
    minutes_added: i32,
    why: Option<&str>,
    by: Option<Uuid>,
    now: i64,
) -> (r: Write)
    ensures
        r matches Write::InsertAdjustment {
            id,
            profile_id,
            target_date,
            minutes,
            reason,
            created_by,
            at,
        } && id == adjustment_id && profile_id == profile && target_date@ == date@ && minutes
            == minutes_added && text::opt_text(reason) == text::opt_str(why) && created_by == by
            && at == now,
{
    Write::InsertAdjustment {
        id: adjustment_id,
        profile_id: profile,
        target_date: date.to_owned(),
        minutes: minutes_added,
        reason: own_opt(why),
        created_by: by,
        at: now,
    }
}

/// Asks for a profile's enforcement settings.
pub fn get_enforcement_settings(profile_id: Uuid) -> (r: Query)
    ensures
        r@ == (QueryView { sql: ENFORCEMENT@, params: seq![query::id_value(profile_id)] }),
{
    with_one(ENFORCEMENT, id_param(profile_id))
}

/// Sets whether a profile's tasks are preserved on lock.
pub fn set_preserve_tasks_on_lock(profile_id: Uuid, preserve: bool) -> (r: Write)
    ensures
        r == (Write::SetPreserveTasks { profile_id, preserve }),
{
    Write::SetPreserveTasks { profile_id, preserve }
}

/// Sets a profile's minutes of grace.
pub fn set_lockout_grace_minutes(profile_id: Uuid, minutes: u32) -> (r: Write)
    ensures
        r == (Write::SetLockoutGrace { profile_id, minutes: minutes as i32 }),
{
    Write::SetLockoutGrace { profile_id, minutes: minutes as i32 }
}

/// Asks for the version of a profile's configuration.
pub fn get_config_version(profile_id: Uuid) -> (r: Query)
    ensures
        r@ == (QueryView { sql: CONFIG_VERSION@, params: seq![query::id_value(profile_id)] }),
{
    with_one(CONFIG_VERSION, id_param(profile_id))
}

/// The version that was found; a configuration that was never stored is the
/// first.
pub fn version_or_first(found: Option<i64>) -> (r: i64)
    ensures
        r == match found {
            Some(v) => v,
            None => 1,
        },
{
    match found {
        Some(v) => v,
        None => 1,
    }
}

/// Counts up the version of a profile's configuration. The new version is read
/// back.
pub fn bump_config_version(profile: Uuid) -> (r: Write)
    ensures
        r matches Write::BumpConfigVersion { profile_id, at } && profile_id == profile,
{
    version_bumped_at(profile, now_timestamp())
}

/// Counts up the version of a profile's configuration at the time `at`.
pub fn version_bumped_at(profile_id: Uuid, at: i64) -> (r: Write)
    ensures
        r == (Write::BumpConfigVersion { profile_id, at }),
{
    Write::BumpConfigVersion { profile_id, at }
}

} // verus!
