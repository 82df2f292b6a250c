//! The use of each day.

use crate::clock::now_timestamp;
use crate::db::query;
use crate::db::query::{id_param, text_param, with_three, with_two, ParamView, Query, QueryView};
use crate::db::write::Write;
use crate::ids;
use crate::ids::{read_id, Uuid};
use vstd::prelude::*;

verus! {

pub const USED_ON: &'static str =
    "SELECT used_seconds FROM daily_usage WHERE agent_user_id=$1 AND date=$2";

pub const USED_BY_PROFILE: &'static str =
    "SELECT COALESCE(SUM(du.used_seconds),0) \
     FROM daily_usage du \
     JOIN agent_users au ON au.id=du.agent_user_id \
     WHERE au.profile_id=$1 AND du.date=$2";

pub const USAGE_BY_AGENT: &'static str =
    "SELECT au.agent_id, au.id, du.date, du.used_seconds \
     FROM daily_usage du \
     JOIN agent_users au ON au.id=du.agent_user_id \
     WHERE au.profile_id=$1 AND du.date>=$2 AND du.date<=$3 \
     ORDER BY du.date DESC";

pub const USAGE_BY_DAY: &'static str =
    "SELECT du.date, COALESCE(SUM(du.used_seconds),0) as total \
     FROM daily_usage du \
     JOIN agent_users au ON au.id=du.agent_user_id \
     WHERE au.profile_id=$1 AND du.date>=$2 AND du.date<=$3 \
     GROUP BY du.date ORDER BY du.date DESC";

/// Adds to a user's use of a day, as a heartbeat reports it.
pub fn add_usage_seconds(user: Uuid, day: &str, more: i64) -> (r: Write)
    ensures
        r matches Write::AddUsage { agent_user_id, date, seconds, at } && agent_user_id == user
            && date@ == day@ && seconds == more,
{
    usage_added_at(user, day, more, now_timestamp())
}

/// Adds to a user's use of a day at the time `now`.
pub fn usage_added_at(user: Uuid, day: &str, more: i64, now: i64) -> (r: Write)
    ensures
        r matches Write::AddUsage { agent_user_id, date, seconds, at } && agent_user_id == user
            && date@ == day@ && seconds == more && at == now,
{
    Write::AddUsage { agent_user_id: user, date: day.to_owned(), seconds: more, at: now }
}

/// Asks for a user's use of a day.
pub fn find_used_seconds(user: Uuid, day: &str) -> (r: Query)
    ensures
        r@ == (QueryView {
            sql: USED_ON@,
            params: seq![query::id_value(user), ParamView::Text(day@)],
        }),
{
    with_two(USED_ON, id_param(user), text_param(day))
}

/// The use of a day after an agent has sent its whole total of it: the greater
/// of that and what is stored.
pub open spec fn reconciled(total: int, stored: int) -> int {
    if total >= stored {
        total
    } else {
        stored
    }
}

/// Takes in an agent's whole total of a user's day, given what is stored of it.
/// An agent sends its total again on every reconnect, so it is not added; and it
/// may be older than what is stored, so it never lowers it.
pub fn reconcile_usage_seconds(
    user: Uuid,
    day: &str,
    total: i64,
    stored: Option<i64>,
) -> (r: Write)
    ensures
        r matches Write::SetUsage { agent_user_id, date, seconds, at } && agent_user_id == user
            && date@ == day@ && seconds == reconciled(
            total as int,
            match stored {
                Some(s) => s as int,
                None => 0,
            },
        ),
{
    usage_reconciled_at(user, day, total, stored, now_timestamp())
}

/// Takes in an agent's whole total of a user's day at the time `now`.
pub fn usage_reconciled_at(
    user: Uuid,
    day: &str,
    total: i64,
    stored: Option<i64>,
    now: i64,
) -> (r: Write)
    ensures
        r matches Write::SetUsage { agent_user_id, date, seconds, at } && agent_user_id == user
            && date@ == day@ && at == now && seconds == reconciled(
            total as int,
            match stored {
                Some(s) => s as int,
                None => 0,
            },
        ),
{
    let current: i64 = match stored {
        Some(s) => s,
        None => 0,
    };
    Write::SetUsage {
        agent_user_id: user,
        date: day.to_owned(),
        seconds: if total >= current {
            total
        } else {
            current
        },
        at: now,
    }
}

/// Asks for the use of a day by all users of a profile.
pub fn get_used_seconds_for_profile_today(profile_id: Uuid, date: &str) -> (r: Query)
    ensures
        r@ == (QueryView {
            sql: USED_BY_PROFILE@,
            params: seq![query::id_value(profile_id), ParamView::Text(date@)],
        }),
{
    with_two(USED_BY_PROFILE, id_param(profile_id), text_param(date))
}

/// Asks for the use of each day between two dates by each user of a profile, the
/// latest day first.
pub fn get_usage_by_agent_for_profile(profile_id: Uuid, from: &str, to: &str) -> (r: Query)
    ensures
        r@ == (QueryView {
            sql: USAGE_BY_AGENT@,
            params: seq![
                query::id_value(profile_id),
                ParamView::Text(from@),
                ParamView::Text(to@),
            ],
        }),
{
    with_three(USAGE_BY_AGENT, id_param(profile_id), text_param(from), text_param(to))
}

/// The use of a day on one agent.
pub struct AgentUsage {
    pub agent_id: Uuid,
    pub agent_user_id: String,
    pub date: String,
    pub used_seconds: i64,
}

/// A row of the use by agent.
pub struct StoredAgentUsage {
    pub agent_id: String,
    pub agent_user_id: String,
    pub date: String,
    pub used_seconds: i64,
}

/// Reads a row of the use by agent.
pub fn row_to_agent_usage(r: StoredAgentUsage) -> (u: AgentUsage)
    ensures
        u.agent_id == ids::stored_id(r.agent_id@),
        u.agent_user_id == r.agent_user_id,
        u.date == r.date,
        u.used_seconds == r.used_seconds,
        forall|id: Uuid| r.agent_id@ == #[trigger] ids::hyphenated(id) ==> u.agent_id == id,
{
    AgentUsage {
        agent_id: read_id(r.agent_id.as_str()),
        agent_user_id: r.agent_user_id,
        date: r.date,
        used_seconds: r.used_seconds,
    }
}

/// Asks for the use of each day between two dates by all users of a profile, the
/// latest day first.
pub fn get_daily_usage_for_profile(profile_id: Uuid, from: &str, to: &str) -> (r: Query)
    ensures
        r@ == (QueryView {
            sql: USAGE_BY_DAY@,
            params: seq![
                query::id_value(profile_id),
                ParamView::Text(from@),
                ParamView::Text(to@),
            ],
        }),
{
    with_three(USAGE_BY_DAY, id_param(profile_id), text_param(from), text_param(to))
}

} // verus!
