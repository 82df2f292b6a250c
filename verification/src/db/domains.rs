//! Block lists.

use crate::clock::now_timestamp;
use crate::db::models::BlockedDomain;
use crate::db::query;
use crate::db::query::{id_param, with_one, Query, QueryView};
use crate::db::write::Write;
use crate::ids;
use crate::ids::{new_uuid, new_uuids, Uuid};
use vstd::prelude::*;

verus! {

pub const BLOCKED_DOMAINS: &'static str =
    "SELECT id, profile_id, domain, enabled, created_at \
     FROM blocked_domains WHERE profile_id=$1 ORDER BY domain";

pub const ENABLED_DOMAINS: &'static str =
    "SELECT domain FROM blocked_domains WHERE profile_id=$1 AND enabled=1 ORDER BY domain";

/// Asks for a profile's block list, by domain.
pub fn get_blocked_domains(profile_id: Uuid) -> (r: Query)
    ensures
        r@ == (QueryView { sql: BLOCKED_DOMAINS@, params: seq![query::id_value(profile_id)] }),
{
    with_one(BLOCKED_DOMAINS, id_param(profile_id))
}

/// Asks for the domains that a profile blocks, in order.
pub fn get_enabled_blocked_domains(profile_id: Uuid) -> (r: Query)
    ensures
        r@ == (QueryView { sql: ENABLED_DOMAINS@, params: seq![query::id_value(profile_id)] }),
{
    with_one(ENABLED_DOMAINS, id_param(profile_id))
}

/// A domain to be listed, and whether it is blocked.
pub struct NewDomain {
    pub domain: String,
    pub enabled: bool,
}

/// The change that lists a domain under the identifier `row`.
pub open spec fn lists(w: Write, row: Uuid, profile: Uuid, n: NewDomain, now: i64) -> bool {
    w matches Write::InsertBlockedDomain { id, profile_id, domain, enabled, at } && id == row
        && profile_id == profile && domain@ == n.domain@ && enabled == n.enabled && at == now
}

/// The changes that put this list in the place of a profile's block list, the
/// domain at position `i` under the identifier `row_ids[i]`.
pub open spec fn replaces_list(
    ws: Seq<Write>,
    profile: Uuid,
    row_ids: Seq<Uuid>,
    new: Seq<NewDomain>,
    now: i64,
) -> bool {
    &&& row_ids.len() == new.len()
    &&& ws.len() == 1 + new.len()
    &&& ws[0] == (Write::ClearBlockedDomains { profile_id: profile })
    &&& forall|i: int|
        0 <= i < new.len() ==> lists(#[trigger] ws[1 + i], row_ids[i], profile, new[i], now)
}

/// Puts this list in the place of a profile's block list now, under identifiers
/// that are drawn at random.
pub fn set_blocked_domains(profile_id: Uuid, domains: &Vec<NewDomain>) -> (ws: Vec<Write>)
    ensures
        exists|row_ids: Seq<Uuid>, now: i64|
            ids::are_random_uuids(row_ids) && #[trigger] replaces_list(
                ws@,
                profile_id,
                row_ids,
                domains@,
                now,
            ),
{
    let now: i64 = now_timestamp();
    domains_set_at(profile_id, domains, now)
}

/// Puts this list in the place of a profile's block list at the time `now`, under
/// identifiers that are drawn at random.
pub fn domains_set_at(profile_id: Uuid, domains: &Vec<NewDomain>, now: i64) -> (ws: Vec<Write>)
    ensures
        exists|row_ids: Seq<Uuid>|
            ids::are_random_uuids(row_ids) && #[trigger] replaces_list(
                ws@,
                profile_id,
                row_ids,
                domains@,
                now,
            ),
{
    let row_ids = new_uuids(domains.len());
    domains_set_with(profile_id, domains, &row_ids, now)
}

/// Puts this list in the place of a profile's block list at the time `now`, under
/// these identifiers, one each.
pub fn domains_set_with(
    profile_id: Uuid,
    domains: &Vec<NewDomain>,
    row_ids: &Vec<Uuid>,
    now: i64,
) -> (ws: Vec<Write>)
    requires
        row_ids@.len() == domains@.len(),
    ensures
        replaces_list(ws@, profile_id, row_ids@, domains@, now),
{
    let mut ws: Vec<Write> = Vec::new();
    ws.push(Write::ClearBlockedDomains { profile_id });
    let mut i: usize = 0;
    while i < domains.len()
        invariant
            i <= domains@.len(),
            row_ids@.len() == domains@.len(),
            ws@.len() == 1 + i,
            ws@[0] == (Write::ClearBlockedDomains { profile_id }),
            forall|j: int|
                0 <= j < i ==> lists(
                    #[trigger] ws@[1 + j],
                    row_ids@[j],
                    profile_id,
                    domains@[j],
                    now,
                ),
        decreases domains@.len() - i,
    {
        let ghost before = ws@;
        ws.push(
            Write::InsertBlockedDomain {
                id: row_ids[i],
                profile_id,
                domain: domains[i].domain.clone(),
                enabled: domains[i].enabled,
                at: now,
            },
        );
        assert forall|j: int| 0 <= j < i + 1 implies lists(
            #[trigger] ws@[1 + j],
            row_ids@[j],
            profile_id,
            domains@[j],
            now,
        ) by {
            if j < i {
                assert(ws@[1 + j] == before[1 + j]);
            }
        }
        i += 1;
    }
    ws
}

/// Sets whether a listed domain is blocked.
pub fn patch_blocked_domain(id: Uuid, enabled: bool) -> (r: Write)
    ensures
        r == (Write::SetBlockedDomainEnabled { id, enabled }),
{
    Write::SetBlockedDomainEnabled { id, enabled }
}

/// Lists a domain now, under an identifier that is drawn at random.
pub fn add_blocked_domain(profile: Uuid, name: &str, blocked: bool) -> (r: (BlockedDomain, Write))
    ensures
        ids::is_random_uuid(r.0.id),
        r.0.profile_id == profile,
        r.0.domain@ == name@,
        r.0.enabled == blocked,
        r.1 matches Write::InsertBlockedDomain { id, profile_id, domain, enabled, at } && id
            == r.0.id && profile_id == profile && domain@ == name@ && enabled == blocked && at
            == r.0.created_at,
{
    domain_added_at(new_uuid(), profile, name, blocked, now_timestamp())
}

/// Lists a domain under that identifier at the time `now`.
pub fn domain_added_at(
    domain_id: Uuid,
    profile: Uuid,
    name: &str,
    blocked: bool,
    now: i64,
) -> (r: (BlockedDomain, Write))
    ensures
        r.0.id == domain_id,
        r.0.profile_id == profile,
        r.0.domain@ == name@,
        r.0.enabled == blocked,
        r.0.created_at == now,
        r.1 matches Write::InsertBlockedDomain { id, profile_id, domain, enabled, at } && id
            == domain_id && profile_id == profile && domain@ == name@ && enabled == blocked && at
            == now,
{
    let w = Write::InsertBlockedDomain {
        id: domain_id,
        profile_id: profile,
        domain: name.to_owned(),
        enabled: blocked,
        at: now,
    };
    let d = BlockedDomain {
        id: domain_id,
        profile_id: profile,
        domain: name.to_owned(),
        enabled: blocked,
        created_at: now,
    };
    (d, w)
}

/// Takes a domain off its list.
pub fn delete_blocked_domain(id: Uuid) -> (r: Write)
    ensures
        r == (Write::DeleteBlockedDomain { id }),
{
    Write::DeleteBlockedDomain { id }
}

/// Whether a change found the row that it was for.
pub fn found_row(rows_affected: u64) -> (r: bool)
    ensures
        r == (rows_affected > 0),
{
    rows_affected > 0
}

} // verus!
