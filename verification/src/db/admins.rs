//! Administrators and the audit log.

use crate::clock::now_timestamp;
use crate::db::query;
use crate::db::query::{bare, id_param, text_param, with_one, ParamView, Query, QueryView};
use crate::db::write::Write;
use crate::ids;
use crate::ids::{new_uuid, Uuid};
use crate::text;
use crate::text::own_opt;
use vstd::prelude::*;

verus! {

pub const ADMIN_COUNT: &'static str = "SELECT COUNT(*) FROM admin_users";

pub const ADMIN_BY_USERNAME: &'static str =
    "SELECT id, username, password_hash, created_at, timezone FROM admin_users WHERE username=$1";

pub const ADMIN_BY_ID: &'static str =
    "SELECT id, username, password_hash, created_at, timezone FROM admin_users WHERE id=$1";

pub const ADMIN_TIMEZONE: &'static str = "SELECT timezone FROM admin_users LIMIT 1";

/// Asks how many administrators there are.
pub fn admin_count() -> (r: Query)
    ensures
        r@ == (QueryView { sql: ADMIN_COUNT@, params: seq![] }),
{
    bare(ADMIN_COUNT)
}

/// Stores a new administrator now, under an identifier that is drawn at random.
pub fn create_admin(username: &str, password_hash: &str) -> (r: (Uuid, Write))
    ensures
        ids::is_random_uuid(r.0),
        r.1 matches Write::InsertAdmin { id, username: u, password_hash: h, at } && id == r.0
            && u@ == username@ && h@ == password_hash@,
{
    let id = new_uuid();
    (id, admin_made_at(id, username, password_hash, now_timestamp()))
}

/// Stores a new administrator under that identifier at the time `now`.
pub fn admin_made_at(admin_id: Uuid, username: &str, password_hash: &str, now: i64) -> (r: Write)
    ensures
        r matches Write::InsertAdmin { id, username: u, password_hash: h, at } && id == admin_id
            && u@ == username@ && h@ == password_hash@ && at == now,
{
    Write::InsertAdmin {
        id: admin_id,
        username: username.to_owned(),
        password_hash: password_hash.to_owned(),
        at: now,
    }
}

/// Asks for the administrator of a name.
pub fn get_admin_by_username(username: &str) -> (r: Query)
    ensures
        r@ == (QueryView { sql: ADMIN_BY_USERNAME@, params: seq![ParamView::Text(username@)] }),
{
    with_one(ADMIN_BY_USERNAME, text_param(username))
}

/// Asks for an administrator.
pub fn get_admin_user_by_id(id: Uuid) -> (r: Query)
    ensures
        r@ == (QueryView { sql: ADMIN_BY_ID@, params: seq![query::id_value(id)] }),
{
    with_one(ADMIN_BY_ID, id_param(id))
}

/// Asks for the time zone of the administrators.
pub fn get_admin_timezone() -> (r: Query)
    ensures
        r@ == (QueryView { sql: ADMIN_TIMEZONE@, params: seq![] }),
{
    bare(ADMIN_TIMEZONE)
}

/// The time zone that was found, or UTC where there is no administrator.
pub fn timezone_or_utc(found: Option<String>) -> (r: String)
    ensures
        r@ == match found {
            Some(z) => z@,
            None => "UTC"@,
        },
{
    match found {
        Some(z) => z,
        None => "UTC".to_owned(),
    }
}

/// Sets an administrator's time zone.
pub fn update_admin_timezone(admin_id: Uuid, timezone: &str) -> (r: Write)
    ensures
        r matches Write::SetAdminTimezone { id, timezone: z } && id == admin_id && z@ == timezone@,
{
    Write::SetAdminTimezone { id: admin_id, timezone: timezone.to_owned() }
}

/// Adds an entry to the audit log now, under an identifier that is drawn at
/// random.
pub fn audit(
    admin_id: Option<Uuid>,
    action: &str,
    target_type: Option<&str>,
    target_id: Option<Uuid>,
    detail: Option<&str>,
) -> (r: Write)
    ensures
        r matches Write::InsertAudit {
            id,
            admin_id: by,
            action: a,
            target_type: tt,
            target_id: ti,
            detail: d,
            at,
        } && ids::is_random_uuid(id) && by == admin_id && a@ == action@ && text::opt_text(tt)
            == text::opt_str(target_type) && ti == target_id && text::opt_text(d) == text::opt_str(
            detail,
        ),
{
    audited_at(new_uuid(), admin_id, action, target_type, target_id, detail, now_timestamp())
}

/// Adds an entry to the audit log under that identifier at the time `now`.
pub fn audited_at(
    entry_id: Uuid,
    admin_id: Option<Uuid>,
    action: &str,
    target_type: Option<&str>,
    target_id: Option<Uuid>,
    detail: Option<&str>,
    now: i64,
) -> (r: Write)
    ensures
        r matches Write::InsertAudit {
            id,
            admin_id: by,
            action: a,
            target_type: tt,
            target_id: ti,
            detail: d,
            at,
        } && id == entry_id && by == admin_id && a@ == action@ && text::opt_text(tt)
            == text::opt_str(target_type) && ti == target_id && text::opt_text(d) == text::opt_str(
            detail,
        ) && at == now,
{
    Write::InsertAudit {
        id: entry_id,
        admin_id,
        action: action.to_owned(),
        target_type: own_opt(target_type),
        target_id,
        detail: own_opt(detail),
        at: now,
    }
}

} // verus!
