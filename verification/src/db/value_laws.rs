//! What is bound to statements, what lists of changes come to, and what rows are
//! read as.

use crate::db::agents;
use crate::db::agents::LocalUser;
use crate::db::domains;
use crate::db::domains::NewDomain;
use crate::db::models;
use crate::db::profiles;
use crate::db::profiles::{NewLimit, NewWindow};
use crate::db::query;
use crate::db::query::{Param, ParamView, Query};
use crate::db::schema;
use crate::db::schema::{MigrationStatement, MigrationStep};
use crate::db::usage;
use crate::db::write::Write;
use crate::ids;
use crate::ids::Uuid;
use crate::text;
use crate::text_laws;
use vstd::prelude::*;

verus! {

/// A bound value shows as what it is.
pub proof fn a_bound_value_shows_as_it_is(p: Param)
    ensures
        match p {
            Param::Text(s) => p@ == ParamView::Text(s@),
            Param::OptText(Some(s)) => p@ == ParamView::OptText(Some(s@)),
            Param::OptText(None) => p@ == ParamView::OptText(None),
            Param::Int(n) => p@ == ParamView::Int(n),
            Param::Long(n) => p@ == ParamView::Long(n),
        },
{
}

/// A statement shows its text and what is bound to it, in order.
pub proof fn a_statement_shows_as_it_is(q: Query)
    ensures
        q@.sql == q.sql@,
        q@.params.len() == q.params@.len(),
        forall|i: int| 0 <= i < q.params@.len() ==> #[trigger] q@.params[i] == q.params@[i]@,
{
}

/// An identifier is bound as its text, or as nothing where it is missing; a mark is
/// bound as one or zero.
pub proof fn identifiers_are_bound_as_text(id: Uuid)
    ensures
        query::id_value(id) == ParamView::Text(ids::hyphenated(id)),
        query::opt_id_value(Some(id)) == ParamView::OptText(Some(ids::hyphenated(id))),
        query::opt_id_value(None) == ParamView::OptText(None),
        query::flag_value(true) == ParamView::Int(1),
        query::flag_value(false) == ParamView::Int(0),
{
}

/// A use that an agent sends in full is set to the greater of that and what is
/// stored.
pub proof fn the_greater_use_counts(total: int, stored: int)
    ensures
        usage::reconciled(total, stored) >= total,
        usage::reconciled(total, stored) >= stored,
        usage::reconciled(total, stored) == total || usage::reconciled(total, stored) == stored,
{
}

/// The domains that every new profile lists.
pub proof fn new_profiles_list_these_domains()
    ensures
        profiles::default_domains().len() == 11,
        profiles::default_domains()[0] == "youtube.com"@,
        profiles::default_domains()[1] == "tiktok.com"@,
        profiles::default_domains()[2] == "instagram.com"@,
        profiles::default_domains()[3] == "facebook.com"@,
        profiles::default_domains()[4] == "twitter.com"@,
        profiles::default_domains()[5] == "x.com"@,
        profiles::default_domains()[6] == "twitch.tv"@,
        profiles::default_domains()[7] == "discord.com"@,
        profiles::default_domains()[8] == "reddit.com"@,
        profiles::default_domains()[9] == "snapchat.com"@,
        profiles::default_domains()[10] == "roblox.com"@,
{
}

/// A new profile is stored first, with its own name, then its settings and its first
/// version, and then each of the domains that new profiles list, in order and each
/// under its own identifier; all for that profile and at that time.
pub proof fn a_new_profile_is_stored_in_order(
    ws: Seq<Write>,
    profile: Uuid,
    seeds: Seq<Uuid>,
    name: Seq<char>,
    now: i64,
)
    requires
        profiles::makes_profile(ws, profile, seeds, name, now),
    ensures
        ws.len() == 14,
        seeds.len() == 11,
        ws[0] matches Write::InsertProfile { id, name: n, at } && id == profile && n@ == name && at
            == now,
        ws[1] == (Write::InsertEnforcement { profile_id: profile }),
        ws[2] == (Write::InsertConfigVersion { profile_id: profile, at: now }),
        forall|i: int|
            0 <= i < 11 ==> (#[trigger] ws[3 + i] matches Write::SeedBlockedDomain {
                id,
                profile_id,
                domain,
                at,
            } && id == seeds[i] && profile_id == profile && domain@
                == profiles::default_domains()[i] && at == now),
{
    assert forall|i: int| 0 <= i < 11 implies (
    #[trigger] ws[3 + i] matches Write::SeedBlockedDomain { id, profile_id, domain, at } && id
        == seeds[i] && profile_id == profile && domain@ == profiles::default_domains()[i] && at
        == now) by {
        assert(profiles::seeds_domain(
            ws[3 + i],
            seeds[i],
            profile,
            profiles::default_domains()[i],
            now,
        ));
    }
}

/// Windows are put in the place of a profile's windows by clearing those, once, and
/// storing each of the new ones, in order, for that profile, with its own day, start
/// and end and under its own identifier.
pub proof fn windows_are_replaced_one_by_one(
    ws: Seq<Write>,
    profile: Uuid,
    row_ids: Seq<Uuid>,
    new: Seq<NewWindow>,
)
    requires
        profiles::replaces_windows(ws, profile, row_ids, new),
    ensures
        row_ids.len() == new.len(),
        ws.len() == 1 + new.len(),
        ws[0] == (Write::ClearSchedules { profile_id: profile }),
        forall|i: int|
            0 <= i < new.len() ==> (#[trigger] ws[1 + i] matches Write::InsertSchedule {
                id,
                profile_id,
                day_of_week,
                start,
                end,
            } && id == row_ids[i] && profile_id == profile && day_of_week == new[i].day_of_week
                && start@ == new[i].start_time@ && end@ == new[i].end_time@),
{
    assert forall|i: int| 0 <= i < new.len() implies (
    #[trigger] ws[1 + i] matches Write::InsertSchedule { id, profile_id, day_of_week, start, end }
        && id == row_ids[i] && profile_id == profile && day_of_week == new[i].day_of_week && start@
        == new[i].start_time@ && end@ == new[i].end_time@) by {
        assert(profiles::stores_window(ws[1 + i], row_ids[i], profile, new[i]));
    }
}

/// Limits are put in the place of a profile's limits by clearing those, once, and
/// storing each of the new ones, in order, for that profile, with its own day and
/// minutes.
pub proof fn limits_are_replaced_one_by_one(profile: Uuid, new: Seq<NewLimit>)
    ensures
        ({
            let ws = profiles::limit_writes(profile, new);
            &&& ws.len() == 1 + new.len()
            &&& ws[0] == (Write::ClearDailyLimits { profile_id: profile })
            &&& forall|i: int|
                0 <= i < new.len() ==> #[trigger] ws[1 + i] == (Write::InsertDailyLimit {
                    profile_id: profile,
                    day_of_week: new[i].day_of_week,
                    minutes: new[i].minutes,
                })
        }),
{
}

/// A block list is put in the place of a profile's by clearing that, once, and
/// listing each of the new domains, in order, for that profile, with its own name and
/// mark, under its own identifier and at that time.
pub proof fn a_block_list_is_replaced_one_by_one(
    ws: Seq<Write>,
    profile: Uuid,
    row_ids: Seq<Uuid>,
    new: Seq<NewDomain>,
    now: i64,
)
    requires
        domains::replaces_list(ws, profile, row_ids, new, now),
    ensures
        row_ids.len() == new.len(),
        ws.len() == 1 + new.len(),
        ws[0] == (Write::ClearBlockedDomains { profile_id: profile }),
        forall|i: int|
            0 <= i < new.len() ==> (#[trigger] ws[1 + i] matches Write::InsertBlockedDomain {
                id,
                profile_id,
                domain,
                enabled,
                at,
            } && id == row_ids[i] && profile_id == profile && domain@ == new[i].domain@ && enabled
                == new[i].enabled && at == now),
{
    assert forall|i: int| 0 <= i < new.len() implies (
    #[trigger] ws[1 + i] matches Write::InsertBlockedDomain {
        id,
        profile_id,
        domain,
        enabled,
        at,
    } && id == row_ids[i] && profile_id == profile && domain@ == new[i].domain@ && enabled
        == new[i].enabled && at == now) by {
        assert(domains::lists(ws[1 + i], row_ids[i], profile, new[i], now));
    }
}

/// An agent that asks to be accepted is brought up to date where its machine is
/// known, and read back by its stored identifier; else it is stored under the
/// identifier that was drawn. Either way with its own machine, host, zone, version
/// and time.
pub proof fn an_agent_that_asks_is_stored_or_updated(
    r: (Uuid, Write),
    existing: Option<&str>,
    drawn: Uuid,
    machine: Seq<char>,
    host: Seq<char>,
    zone: Seq<char>,
    version: Seq<char>,
    now: i64,
)
    requires
        agents::asks_to_be_accepted(r, existing, drawn, machine, host, zone, version, now),
    ensures
        match existing {
            None => r.0 == drawn && (r.1 matches Write::InsertAgent {
                id,
                machine_id,
                hostname,
                timezone,
                agent_version,
                at,
            } && id == drawn && machine_id@ == machine && hostname@ == host && timezone@ == zone
                && agent_version@ == version && at == now),
            Some(s) => {
                &&& r.1 matches Write::RefreshAgent {
                    machine_id,
                    hostname,
                    timezone,
                    agent_version,
                    at,
                } && machine_id@ == machine && hostname@ == host && timezone@ == zone
                    && agent_version@ == version && at == now
                &&& ids::uuid_value(s@) matches Some(id) ==> r.0 == id
                &&& ids::uuid_value(s@) is None ==> r.0 == drawn
                &&& forall|id: Uuid| s@ == #[trigger] ids::hyphenated(id) ==> r.0 == id
            },
        },
{
}

/// A user that is reported is brought up to date where it is stored, and else stored
/// under the identifier that was drawn; either way for that agent, with its own
/// number, names and time.
pub proof fn a_reported_user_is_stored_or_updated(
    w: Write,
    agent: Uuid,
    u: LocalUser,
    drawn: Uuid,
    now: i64,
)
    ensures
        agents::reports_user(w, agent, u, true, drawn, now) ==> (
        w matches Write::RefreshAgentUser { agent_id, local_uid, username, display_name, at }
            && agent_id == agent && local_uid == u.local_uid && username@ == u.username@
            && display_name@ == u.display_name@ && at == now),
        agents::reports_user(w, agent, u, false, drawn, now) ==> (
        w matches Write::InsertAgentUser { id, agent_id, local_uid, username, display_name, at }
            && id == drawn && agent_id == agent && local_uid == u.local_uid && username@
            == u.username@ && display_name@ == u.display_name@ && at == now),
{
}

/// A date that is given bounds what is asked for, and another does where none is.
pub proof fn a_given_date_bounds(d: &str, other: Seq<char>)
    ensures
        profiles::date_or(Some(d), other) == d@,
        profiles::date_or(None, other) == other,
{
}

/// A stored number is a mark where it is not zero; a stored time is that number; an
/// identifier that may be missing is the one that its text writes.
pub proof fn columns_are_read_as_they_are(n: i32, at: i64, s: String)
    ensures
        models::opt_flag(Some(n)) == Some(n != 0),
        models::opt_flag(None) is None,
        models::opt_int(Some(at)) == Some(at as int),
        models::opt_int(None) is None,
        models::opt_stored_id(Some(s)) == ids::uuid_value(s@),
        models::opt_stored_id(None) is None,
{
}

/// A comma and a text without one, put behind a list, add the number that the text
/// writes between its white space, and nothing where it writes none.
pub proof fn thresholds_are_listed_with_commas(s: Seq<char>, piece: Seq<char>)
    requires
        forall|k: int| 0 <= k < piece.len() ==> #[trigger] piece[k] != ',',
    ensures
        ({
            let more = match text::int_value(text::trimmed(piece)) {
                Some(n) => seq![n],
                None => seq![],
            };
            &&& models::threshold_list(piece) == more
            &&& models::threshold_list(s.push(',') + piece) == models::threshold_list(s) + more
        }),
{
    text_laws::a_mark_begins_a_piece(s, ',', piece);
    let before = text::pieces(s, ',');
    assert(before.push(piece).drop_last() =~= before);
    assert(seq![piece].drop_last() =~= Seq::empty());
    assert(models::numbers(Seq::<Seq<char>>::empty()) =~= Seq::<int>::empty());
    let more = match text::int_value(text::trimmed(piece)) {
        Some(n) => seq![n],
        None => seq![],
    };
    assert(models::threshold_list(piece) =~= more);
    assert(models::threshold_list(s.push(',') + piece) =~= models::threshold_list(s) + more);
}

/// The version of a store is the one that is stored; where none is, a SQLite store has
/// the one that its file carries, and any other store none.
pub proof fn a_version_is_found(stored: i32, carried: i32, is_sqlite: bool, other: Option<i32>)
    ensures
        schema::version_found(Some(stored), is_sqlite, other) == stored,
        schema::version_found(None, true, Some(carried)) == carried,
        schema::version_found(None, true, None) == 0,
        schema::version_found(None, false, other) == 0,
{
}

/// A SQLite store runs each migration after its version, in order, and stores the
/// number of each right after it; one without a version and without administrators
/// only stores the current version, and so does any other store that is older.
pub proof fn migrations_run_in_order(v: i32, admins: i64)
    ensures
        ({
            let plan = schema::migration_plan(v, true, admins);
            let first: int = if v < 1 {
                1
            } else {
                v + 1
            };
            if v == 0 && admins == 0 {
                plan == seq![MigrationStep::SetVersion(6)]
            } else if first > 6 {
                plan.len() == 0
            } else {
                &&& plan.len() == 2 * (7 - first)
                &&& forall|k: int|
                    0 <= k < 7 - first ==> #[trigger] plan[2 * k] == MigrationStep::Apply(
                        (first + k) as i32,
                    )
                &&& forall|k: int|
                    0 <= k < 7 - first ==> #[trigger] plan[2 * k + 1] == MigrationStep::SetVersion(
                        (first + k) as i32,
                    )
            }
        }),
        v < 6 ==> schema::migration_plan(v, false, admins) == seq![MigrationStep::SetVersion(6)],
        v >= 6 ==> schema::migration_plan(v, false, admins).len() == 0,
{
    let first: int = if v < 1 {
        1
    } else {
        v + 1
    };
    lemma_from(first);
}

proof fn lemma_from(n: int)
    requires
        1 <= n,
    ensures
        n > 6 ==> schema::migrations_from(n).len() == 0,
        n <= 6 ==> schema::migrations_from(n).len() == 2 * (7 - n),
        forall|k: int|
            0 <= k < 7 - n ==> #[trigger] schema::migrations_from(n)[2 * k]
                == MigrationStep::Apply((n + k) as i32),
        forall|k: int|
            0 <= k < 7 - n ==> #[trigger] schema::migrations_from(n)[2 * k + 1]
                == MigrationStep::SetVersion((n + k) as i32),
    decreases 7 - n,
{
    if n <= 6 {
        lemma_from(n + 1);
        let rest = schema::migrations_from(n + 1);
        let all = schema::migrations_from(n);
        assert forall|k: int| 0 <= k < 7 - n implies #[trigger] all[2 * k] == MigrationStep::Apply(
            (n + k) as i32,
        ) by {
            if k > 0 {
                assert(all[2 * k] == rest[2 * (k - 1)]);
            }
        }
        assert forall|k: int| 0 <= k < 7 - n implies #[trigger] all[2 * k + 1]
            == MigrationStep::SetVersion((n + k) as i32) by {
            if k > 0 {
                assert(all[2 * k + 1] == rest[2 * (k - 1) + 1]);
            }
        }
    }
}

/// The first migration is needed where the table was declared without agents that
/// wait to be deleted, and the fourth where it was declared with limits above zero
/// only; neither where there is no table.
pub proof fn tables_are_rebuilt_where_they_are_old(s: &str)
    ensures
        schema::needs_v1(Some(s)) == !text::occurs_in(s@, "pending_delete"@),
        schema::needs_v1(None) == false,
        schema::needs_v4(Some(s)) == (text::occurs_in(s@, "> 0"@) && !text::occurs_in(
            s@,
            ">= 0"@,
        )),
        schema::needs_v4(None) == false,
{
}

/// A table is rebuilt by making the new one, copying the rows, dropping the old one
/// and renaming the new, in that order, while references are not enforced.
pub proof fn a_table_is_rebuilt_in_order(
    create: Seq<char>,
    copy: Seq<char>,
    drop: Seq<char>,
    rename: Seq<char>,
)
    ensures
        ({
            let r = schema::rebuild(create, copy, drop, rename);
            &&& r.len() == 6
            &&& r[0] == schema::FOREIGN_KEYS_OFF@
            &&& r[1] == create
            &&& r[2] == copy
            &&& r[3] == drop
            &&& r[4] == rename
            &&& r[5] == schema::FOREIGN_KEYS_ON@
        }),
{
}

/// Lists of statements show each of them, in order, and of a migration whether each
/// may fail.
pub proof fn statements_show_in_order(v: Seq<&'static str>, m: Seq<MigrationStatement>)
    ensures
        schema::statement_texts(v).len() == v.len(),
        forall|i: int| 0 <= i < v.len() ==> #[trigger] schema::statement_texts(v)[i] == v[i]@,
        schema::migration_texts(m).len() == m.len(),
        forall|i: int|
            0 <= i < m.len() ==> {
                let s = #[trigger] schema::migration_texts(m)[i];
                s.0 == m[i].sql@ && s.1 == m[i].may_fail
            },
{
}

} // verus!
