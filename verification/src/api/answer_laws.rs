//! How each request is answered, step by step.

use crate::api::auth;
use crate::api::auth::{AuthRequest, PatchMeBody, SetupBody};
use crate::api::reply;
use crate::api::reply::{
    Account, Asked, Body, BodyView, Change, Member, Progress, Reply, ReplyView, Scalar, ScalarView,
    Step,
};
use crate::api::secrets;
use crate::api::secrets::{Claims, ClaimsView};
use crate::api::users;
use crate::api::users::{CreateUserBody, ResetPasswordBody};
use crate::clock;
use crate::db::write::Write;
use crate::ids;
use crate::ids::Uuid;
use crate::text;
use vstd::prelude::*;

verus! {

/// A value of an answer shows as what it is.
pub proof fn a_value_shows_as_it_is(v: Scalar)
    ensures
        match v {
            Scalar::Text(s) => v@ == ScalarView::Text(s@),
            Scalar::Flag(b) => v@ == ScalarView::Flag(b),
            Scalar::Number(n) => v@ == ScalarView::Number(n),
        },
{
}

/// An object shows each of its members, in order, by its name and its value.
pub proof fn members_show_in_order(v: Seq<Member>)
    ensures
        reply::members_view(v).len() == v.len(),
        forall|i: int|
            0 <= i < v.len() ==> {
                let m = #[trigger] reply::members_view(v)[i];
                m.0 == v[i].name@ && m.1 == v[i].value@
            },
{
}

/// An answer shows its status and what it says: an object, or a named list of
/// objects, in order.
pub proof fn an_answer_shows_as_it_is(r: Reply)
    ensures
        r@.status == r.status,
        match r.body {
            Body::Object(v) => r@.body == BodyView::Object(reply::members_view(v@)),
            Body::Listing(name, v) => r@.body matches BodyView::Listing(n, rows) && n == name@
                && rows.len() == v@.len() && forall|i: int|
                0 <= i < v@.len() ==> #[trigger] rows[i] == reply::members_view(v@[i]@),
        },
{
}

/// What a token says shows as it is.
pub proof fn claims_show_as_they_are(c: Claims)
    ensures
        c@.sub == c.sub@,
        c@.exp == c.exp,
        c@.tenant_id == c.tenant_id@,
{
}

/// The answers that name what went wrong or what was done carry one text, under
/// the name of its kind; the common ones have their own statuses and texts.
pub proof fn plain_answers_carry_one_text(status: u16, message: Seq<char>)
    ensures
        reply::failure(status, message) == (ReplyView {
            status,
            body: BodyView::Object(seq![("error"@, ScalarView::Text(message))]),
        }),
        reply::done(status, message) == (ReplyView {
            status,
            body: BodyView::Object(seq![("message"@, ScalarView::Text(message))]),
        }),
        reply::internal_error() == (ReplyView {
            status: 500,
            body: BodyView::Object(seq![("error"@, ScalarView::Text("Internal server error"@))]),
        }),
        reply::nothing_found() == (ReplyView {
            status: 404,
            body: BodyView::Object(seq![("error"@, ScalarView::Text("Not found"@))]),
        }),
        reply::invalid_token() == (ReplyView {
            status: 401,
            body: BodyView::Object(seq![("error"@, ScalarView::Text("Invalid token"@))]),
        }),
{
}

/// The first account is asked for, refused or stored as the number of accounts and
/// the request say: with its own name, a hash of its own password, the rights of
/// an owner, and its zone where there is such a zone.
pub proof fn a_first_account_is_set_up(step: Step, body: SetupBody, p: Progress)
    requires
        reply::carries_out(step, auth::setup_decision(body, p)),
    ensures
        ({
            let says = |status: u16, name: Seq<char>, told: Seq<char>|
                step matches Step::Answer(a) && a@ == (ReplyView {
                    status,
                    body: BodyView::Object(seq![(name, ScalarView::Text(told))]),
                });
            match p.count {
                Asked::NotYet => step is AskCount,
                Asked::Failed => says(500, "error"@, "Internal server error"@),
                Asked::Got(n) => if n > 0 {
                    says(409, "error"@, "Admin account already exists"@)
                } else if body.username@.len() == 0 || body.password@.len() == 0 {
                    says(400, "error"@, "Username and password are required"@)
                } else {
                    match p.stored {
                        Asked::NotYet => {
                            ||| body.password@.len() > 0x3fff_ffff && says(
                                500,
                                "error"@,
                                "Internal server error"@,
                            )
                            ||| step matches Step::Store(
                                Change::Create { id, account, is_owner, timezone },
                            ) && is_owner && ids::is_random_uuid(id) && (
                            account matches Write::InsertAdmin {
                                id: i,
                                username,
                                password_hash,
                                ..
                            } && i == id && username@ == body.username@
                                && secrets::password_verdict(body.password@, password_hash@)
                                == Some(true)) && match body.timezone {
                                Some(z) => if clock::known_zone(z@) {
                                    timezone matches Some(
                                        Write::SetAdminTimezone { id: j, timezone: w },
                                    ) && j == id && w@ == z@
                                } else {
                                    timezone is None
                                },
                                None => timezone is None,
                            }
                        },
                        Asked::Failed => says(500, "error"@, "Internal server error"@),
                        Asked::Got(_) => says(201, "message"@, "Admin account created"@),
                    }
                },
            }
        }),
{
}

/// The zone to set is the one that is given, where there is such a zone.
pub proof fn only_a_zone_that_exists_is_set(timezone: Option<String>)
    ensures
        match timezone {
            Some(z) => auth::zone_to_set(timezone) == if clock::known_zone(z@) {
                Some(z@)
            } else {
                None
            },
            None => auth::zone_to_set(timezone) is None,
        },
{
}

/// A sign-in asks for the account of the name that was given, and is refused where
/// there is none or the password is not that account's; it is let in where the
/// password is.
pub proof fn a_sign_in_is_checked(step: Step, body: AuthRequest, p: Progress)
    requires
        auth::login_refusal(body, p) matches Some(d) ==> reply::carries_out(step, d),
    ensures
        ({
            let says = |status: u16, told: Seq<char>|
                step matches Step::Answer(a) && a@ == (ReplyView {
                    status,
                    body: BodyView::Object(seq![("error"@, ScalarView::Text(told))]),
                });
            match p.namesake {
                Asked::NotYet => step matches Step::AskName(n) && n@ == body.username@,
                Asked::Failed => says(500, "Internal server error"@),
                Asked::Got(None) => says(401, "Invalid credentials"@),
                Asked::Got(Some(a)) => match secrets::password_verdict(
                    body.password@,
                    a.password_hash@,
                ) {
                    None => says(500, "Internal server error"@),
                    Some(let_in) => {
                        &&& let_in == auth::login_refusal(body, p) is None
                        &&& !let_in ==> says(401, "Invalid credentials"@)
                    },
                },
            }
        }),
        auth::login_refusal(body, p) is None <==> (p.namesake matches Asked::Got(Some(a))
            && secrets::password_verdict(body.password@, a.password_hash@) == Some(true)),
{
    if let Asked::Got(Some(a)) = p.namesake {
        if let Some(b) = secrets::password_verdict(body.password@, a.password_hash@) {
            assert(b || secrets::password_verdict(body.password@, a.password_hash@) == Some(
                false,
            ));
        }
    }
}

/// Signing in hands out a token that names the account by its identifier, as one
/// of the default tenant, with the time at which it expires, and tells that time.
pub proof fn a_sign_in_hands_out_the_accounts_token(
    r: ReplyView,
    a: Account,
    jwt_secret: Seq<char>,
    exp: usize,
)
    requires
        auth::signs_in(r, a, jwt_secret, exp),
    ensures
        r.status == 200,
        r.body matches BodyView::Object(m) && m.len() == 2 && m[0].0 == "token"@ && (
        m[0].1 matches ScalarView::Text(token) && secrets::token_claims(token, jwt_secret) == Some(
            ClaimsView { sub: ids::hyphenated(a.id), exp, tenant_id: "default"@ },
        )) && m[1].0 == "expires_at"@ && m[1].1 == ScalarView::Text(
            clock::moment_text(exp as i64),
        ),
        auth::account_claims(a, exp) == (ClaimsView {
            sub: ids::hyphenated(a.id),
            exp,
            tenant_id: "default"@,
        }),
{
}

/// The token of a request is what follows `Bearer ` in its header, and there is
/// none where the header does not begin so.
pub proof fn a_token_follows_its_mark(header: &str, token: Seq<char>)
    ensures
        auth::bearer(Some(header)) == Some(token) <==> header@ == "Bearer "@ + token,
        auth::bearer(None) is None,
{
    let mark = "Bearer "@;
    let n = mark.len() as int;
    if header@ == mark + token {
        assert(header@.subrange(0, n) =~= mark);
        assert(header@.skip(n) =~= token);
    }
    if text::after_prefix(header@, mark) == Some(token) {
        assert(header@ =~= header@.subrange(0, n) + header@.skip(n));
    }
}

/// A request for one's own account is answered from the account that the token
/// names.
pub proof fn an_own_account_is_told(step: Step, claims: Claims, p: Progress)
    requires
        reply::carries_out(step, auth::get_me_decision(claims, p)),
    ensures
        ({
            let says = |status: u16, told: Seq<char>|
                step matches Step::Answer(a) && a@ == (ReplyView {
                    status,
                    body: BodyView::Object(seq![("error"@, ScalarView::Text(told))]),
                });
            match ids::uuid_value(claims.sub@) {
                None => says(401, "Invalid token"@),
                Some(id) => match p.caller {
                    Asked::NotYet => step == Step::AskCaller(id),
                    Asked::Failed => says(500, "Internal server error"@),
                    Asked::Got(None) => says(404, "Not found"@),
                    Asked::Got(Some(a)) => step matches Step::Answer(r) && r@ == (ReplyView {
                        status: 200,
                        body: BodyView::Object(
                            seq![
                                ("id"@, ScalarView::Text(ids::hyphenated(a.id))),
                                ("username"@, ScalarView::Text(a.username@)),
                                ("timezone"@, ScalarView::Text(a.timezone@)),
                                ("is_owner"@, ScalarView::Flag(a.is_owner)),
                            ],
                        ),
                    }),
                },
            }
        }),
{
}

/// A change of one's own account sets the zone that is given, for the account that
/// the token names, where there is such a zone.
pub proof fn an_own_account_is_changed(
    step: Step,
    claims: Claims,
    body: PatchMeBody,
    p: Progress,
)
    requires
        reply::carries_out(step, auth::patch_me_decision(claims, body, p)),
    ensures
        ({
            let says = |status: u16, name: Seq<char>, told: Seq<char>|
                step matches Step::Answer(a) && a@ == (ReplyView {
                    status,
                    body: BodyView::Object(seq![(name, ScalarView::Text(told))]),
                });
            match ids::uuid_value(claims.sub@) {
                None => says(401, "error"@, "Invalid token"@),
                Some(id) => match body.timezone {
                    None => says(200, "message"@, "Profile updated"@),
                    Some(z) => if !clock::known_zone(z@) {
                        says(422, "error"@, "Invalid timezone"@)
                    } else {
                        match p.stored {
                            Asked::NotYet => step matches Step::Store(
                                Change::SetTimezone { id: i, write },
                            ) && i == id && (write matches Write::SetAdminTimezone {
                                id: j,
                                timezone,
                            } && j == id && timezone@ == z@),
                            Asked::Failed => says(500, "error"@, "Internal server error"@),
                            Asked::Got(_) => says(200, "message"@, "Profile updated"@),
                        }
                    },
                },
            }
        }),
{
}

/// A request to manage accounts goes on only once the account that the token names
/// was read and is an owner's; until then it is asked for, and else refused.
pub proof fn an_owner_is_checked(step: Step, claims: Claims, caller: Asked<Option<Account>>)
    requires
        users::owner_check(claims, caller) matches Some(d) ==> reply::carries_out(step, d),
    ensures
        ({
            let says = |status: u16, told: Seq<char>|
                step matches Step::Answer(a) && a@ == (ReplyView {
                    status,
                    body: BodyView::Object(seq![("error"@, ScalarView::Text(told))]),
                });
            match ids::uuid_value(claims.sub@) {
                None => says(401, "Invalid token"@),
                Some(id) => match caller {
                    Asked::NotYet => step == Step::AskCaller(id),
                    Asked::Failed => says(500, "Internal server error"@),
                    Asked::Got(None) => says(404, "Not found"@),
                    Asked::Got(Some(a)) => a.is_owner || says(403, "Owner privileges required"@),
                },
            }
        }),
        users::owner_check(claims, caller) is None <==> (ids::uuid_value(claims.sub@) is Some && (
        caller matches Asked::Got(Some(a)) && a.is_owner)),
{
}

/// An owner is told of all accounts, in order: of each its identifier, its name,
/// whether it is an owner's, and when it was made.
pub proof fn an_owner_is_told_of_all_accounts(step: Step, claims: Claims, p: Progress)
    requires
        reply::carries_out(step, users::list_users_decision(claims, p)),
        users::owner_check(claims, p.caller) is None,
    ensures
        match p.accounts {
            Asked::NotYet => step is AskAccounts,
            Asked::Failed => step matches Step::Answer(a) && a@ == (ReplyView {
                status: 500,
                body: BodyView::Object(seq![("error"@, ScalarView::Text("Internal server error"@))]),
            }),
            Asked::Got(v) => step matches Step::Answer(r) && r@.status == 200 && (
            r@.body matches BodyView::Listing(name, rows) && name == "users"@ && rows.len()
                == v@.len() && forall|i: int|
                0 <= i < v@.len() ==> #[trigger] rows[i] == seq![
                    ("id"@, ScalarView::Text(ids::hyphenated(v@[i].id))),
                    ("username"@, ScalarView::Text(v@[i].username@)),
                    ("is_owner"@, ScalarView::Flag(v@[i].is_owner)),
                    ("created_at"@, ScalarView::Number(v@[i].created_at)),
                ]),
        },
{
}

/// An account is said to be what it is: its identifier, its name, whether it is an
/// owner's, and when it was made. Its password is not told.
pub proof fn an_account_is_told_without_its_password(a: Account)
    ensures
        users::account_members(a) == seq![
            ("id"@, ScalarView::Text(ids::hyphenated(a.id))),
            ("username"@, ScalarView::Text(a.username@)),
            ("is_owner"@, ScalarView::Flag(a.is_owner)),
            ("created_at"@, ScalarView::Number(a.created_at)),
        ],
{
}

/// An owner makes an account: with the name and a hash of the password that are
/// given, without the rights of an owner, where both are there and nobody has the
/// name.
pub proof fn an_owner_makes_an_account(
    step: Step,
    claims: Claims,
    body: CreateUserBody,
    p: Progress,
)
    requires
        reply::carries_out(step, users::create_user_decision(claims, body, p)),
        users::owner_check(claims, p.caller) is None,
    ensures
        ({
            let says = |status: u16, told: Seq<char>|
                step matches Step::Answer(a) && a@ == (ReplyView {
                    status,
                    body: BodyView::Object(seq![("error"@, ScalarView::Text(told))]),
                });
            if text::trimmed(body.username@).len() == 0 || body.password@.len() == 0 {
                says(400, "Username and password are required"@)
            } else {
                match p.namesake {
                    Asked::NotYet => step matches Step::AskName(n) && n@ == body.username@,
                    Asked::Failed => says(500, "Internal server error"@),
                    Asked::Got(Some(_)) => says(409, "Username already exists"@),
                    Asked::Got(None) => match p.stored {
                        Asked::NotYet => {
                            ||| body.password@.len() > 0x3fff_ffff && says(
                                500,
                                "Internal server error"@,
                            )
                            ||| step matches Step::Store(
                                Change::Create { id, account, is_owner, timezone },
                            ) && !is_owner && timezone is None && ids::is_random_uuid(id) && (
                            account matches Write::InsertAdmin {
                                id: i,
                                username,
                                password_hash,
                                ..
                            } && i == id && username@ == body.username@
                                && secrets::password_verdict(body.password@, password_hash@)
                                == Some(true))
                        },
                        Asked::Failed => says(500, "Internal server error"@),
                        Asked::Got(id) => step matches Step::Answer(r) && r@ == (ReplyView {
                            status: 201,
                            body: BodyView::Object(
                                seq![
                                    ("id"@, ScalarView::Text(ids::hyphenated(id))),
                                    ("username"@, ScalarView::Text(body.username@)),
                                    ("is_owner"@, ScalarView::Flag(false)),
                                ],
                            ),
                        }),
                    },
                }
            }
        }),
{
}

/// An owner deletes the account that the request names, where it is there and is
/// not the only one.
pub proof fn an_owner_deletes_an_account(step: Step, claims: Claims, id: Uuid, p: Progress)
    requires
        reply::carries_out(step, users::delete_user_decision(claims, id, p)),
        users::owner_check(claims, p.caller) is None,
    ensures
        ({
            let says = |status: u16, name: Seq<char>, told: Seq<char>|
                step matches Step::Answer(a) && a@ == (ReplyView {
                    status,
                    body: BodyView::Object(seq![(name, ScalarView::Text(told))]),
                });
            match p.account {
                Asked::NotYet => step == Step::AskAccount(id),
                Asked::Failed => says(500, "error"@, "Internal server error"@),
                Asked::Got(None) => says(404, "error"@, "Not found"@),
                Asked::Got(Some(_)) => match p.count {
                    Asked::NotYet => step is AskCount,
                    Asked::Failed => says(500, "error"@, "Internal server error"@),
                    Asked::Got(n) => if n <= 1 {
                        says(409, "error"@, "Cannot delete the last remaining admin account"@)
                    } else {
                        match p.stored {
                            Asked::NotYet => step == Step::Store(Change::Delete { id }),
                            Asked::Failed => says(500, "error"@, "Internal server error"@),
                            Asked::Got(_) => says(200, "message"@, "User deleted"@),
                        }
                    },
                },
            }
        }),
{
}

/// An owner sets the password of the account that the request names: to a hash of
/// the password that is given, where there is one and the account is there.
pub proof fn an_owner_sets_a_password(
    step: Step,
    claims: Claims,
    id: Uuid,
    body: ResetPasswordBody,
    p: Progress,
)
    requires
        reply::carries_out(step, users::reset_password_decision(claims, id, body, p)),
        users::owner_check(claims, p.caller) is None,
    ensures
        ({
            let says = |status: u16, name: Seq<char>, told: Seq<char>|
                step matches Step::Answer(a) && a@ == (ReplyView {
                    status,
                    body: BodyView::Object(seq![(name, ScalarView::Text(told))]),
                });
            if body.password@.len() == 0 {
                says(400, "error"@, "Password is required"@)
            } else {
                match p.account {
                    Asked::NotYet => step == Step::AskAccount(id),
                    Asked::Failed => says(500, "error"@, "Internal server error"@),
                    Asked::Got(None) => says(404, "error"@, "Not found"@),
                    Asked::Got(Some(_)) => match p.stored {
                        Asked::NotYet => {
                            ||| body.password@.len() > 0x3fff_ffff && says(
                                500,
                                "error"@,
                                "Internal server error"@,
                            )
                            ||| step matches Step::Store(
                                Change::SetPassword { id: i, password_hash },
                            ) && i == id && secrets::password_verdict(
                                body.password@,
                                password_hash@,
                            ) == Some(true)
                        },
                        Asked::Failed => says(500, "error"@, "Internal server error"@),
                        Asked::Got(_) => says(200, "message"@, "Password reset"@),
                    },
                }
            }
        }),
{
}

/// Without an owner's rights every request to manage accounts comes to what the
/// check of those rights comes to.
pub proof fn others_only_get_as_far_as_the_check(
    claims: Claims,
    new_user: CreateUserBody,
    new_password: ResetPasswordBody,
    id: Uuid,
    p: Progress,
)
    requires
        users::owner_check(claims, p.caller) is Some,
    ensures
        ({
            let refusal = users::owner_check(claims, p.caller)->0;
            &&& users::list_users_decision(claims, p) == refusal
            &&& users::create_user_decision(claims, new_user, p) == refusal
            &&& users::delete_user_decision(claims, id, p) == refusal
            &&& users::reset_password_decision(claims, id, new_password, p) == refusal
        }),
{
}

} // verus!
