//! Managing other administrators' accounts.
//!
//! Every account has full access to the rest of the server; only an owner's may
//! list, make and delete accounts and set their passwords. Whether the caller is
//! an owner is read anew for every request, so that it counts at once when it
//! changes.

use crate::api::auth;
use crate::api::auth::new_account;
use crate::api::reply;
use crate::api::reply::{
    fail, id_member, internal, not_found, object_of, say, text_member, Account, Asked, Body,
    BodyView, Change, Decision, Member, MemberView, Progress, Reply, ReplyView, Scalar, ScalarView,
    Step,
};
use crate::api::secrets::{hash_password, Claims};
use crate::ids;
use crate::ids::{uuid_parse, Uuid};
use crate::text;
use crate::text::trim;
use vstd::prelude::*;
use vstd::string::*;

verus! {

/// A new account.
pub struct CreateUserBody {
    pub username: String,
    pub password: String,
}

/// A new password.
pub struct ResetPasswordBody {
    pub password: String,
}

/// What stands between a request and managing accounts; `None` where the caller
/// was found to be an owner.
pub open spec fn owner_check(claims: Claims, caller: Asked<Option<Account>>) -> Option<Decision> {
    match auth::caller_id(claims) {
        None => Some(Decision::Answer(reply::invalid_token())),
        Some(id) => match caller {
            Asked::NotYet => Some(Decision::AskCaller(id)),
            Asked::Failed => Some(Decision::Answer(reply::internal_error())),
            Asked::Got(None) => Some(Decision::Answer(reply::nothing_found())),
            Asked::Got(Some(a)) => if a.is_owner {
                None
            } else {
                Some(Decision::Answer(reply::failure(403, "Owner privileges required"@)))
            },
        },
    }
}

/// Checks that the caller is an owner.
pub fn require_owner(claims: &Claims, caller: &Asked<Option<Account>>) -> (r: Option<Step>)
    ensures
        match owner_check(*claims, *caller) {
            Some(d) => r matches Some(step) && reply::carries_out(step, d),
            None => r is None,
        },
{
    let id = match uuid_parse(claims.sub.as_str()) {
        Some(id) => id,
        None => {
            return Some(Step::Answer(fail(401, "Invalid token")));
        },
    };
    match caller {
        Asked::NotYet => Some(Step::AskCaller(id)),
        Asked::Failed => Some(Step::Answer(internal())),
        Asked::Got(None) => Some(Step::Answer(not_found())),
        Asked::Got(Some(a)) => {
            if a.is_owner {
                None
            } else {
                Some(Step::Answer(fail(403, "Owner privileges required")))
            }
        },
    }
}

/// What is said of an account in a list: not its password.
pub open spec fn account_members(a: Account) -> Seq<MemberView> {
    seq![
        ("id"@, ScalarView::Text(ids::hyphenated(a.id))),
        ("username"@, ScalarView::Text(a.username@)),
        ("is_owner"@, ScalarView::Flag(a.is_owner)),
        ("created_at"@, ScalarView::Number(a.created_at)),
    ]
}

/// What is said of an account in a list.
pub fn admin_json(a: &Account) -> (r: Vec<Member>)
    ensures
        reply::members_view(r@) == account_members(*a),
{
    let r = vec![
        id_member("id", a.id),
        text_member("username", a.username.as_str()),
        Member { name: "is_owner", value: Scalar::Flag(a.is_owner) },
        Member { name: "created_at", value: Scalar::Number(a.created_at) },
    ];
    assert(reply::members_view(r@) =~= account_members(*a));
    r
}

/// The list of all accounts, in the order in which they were read.
pub open spec fn account_list(accounts: Seq<Account>) -> ReplyView {
    ReplyView {
        status: 200,
        body: BodyView::Listing("users"@, accounts.map_values(|a: Account| account_members(a))),
    }
}

fn list_of(accounts: &Vec<Account>) -> (r: Reply)
    ensures
        r@ == account_list(accounts@),
{
    let mut users: Vec<Vec<Member>> = Vec::new();
    let mut i: usize = 0;
    while i < accounts.len()
        invariant
            i <= accounts@.len(),
            users@.len() == i,
            forall|j: int|
                0 <= j < i ==> reply::members_view((#[trigger] users@[j])@) == account_members(
                    accounts@[j],
                ),
        decreases accounts@.len() - i,
    {
        users.push(admin_json(&accounts[i]));
        i += 1;
    }
    assert(users@.map_values(|o: Vec<Member>| reply::members_view(o@)) =~= accounts@.map_values(
        |a: Account| account_members(a),
    ));
    Reply { status: 200, body: Body::Listing("users", users) }
}

/// How a request for all accounts is answered.
pub open spec fn list_users_decision(claims: Claims, p: Progress) -> Decision {
    match owner_check(claims, p.caller) {
        Some(d) => d,
        None => match p.accounts {
            Asked::NotYet => Decision::AskAccounts,
            Asked::Failed => Decision::Answer(reply::internal_error()),
            Asked::Got(v) => Decision::Answer(account_list(v@)),
        },
    }
}

/// Lists all accounts.
pub fn list_users(claims: &Claims, p: &Progress) -> (step: Step)
    ensures
        reply::carries_out(step, list_users_decision(*claims, *p)),
{
    if let Some(step) = require_owner(claims, &p.caller) {
        return step;
    }
    match &p.accounts {
        Asked::NotYet => Step::AskAccounts,
        Asked::Failed => Step::Answer(internal()),
        Asked::Got(v) => Step::Answer(list_of(v)),
    }
}

/// How a request for a new account is answered. The account is never an owner's,
/// whatever the request says.
pub open spec fn create_user_decision(
    claims: Claims,
    body: CreateUserBody,
    p: Progress,
) -> Decision {
    match owner_check(claims, p.caller) {
        Some(d) => d,
        None => if text::trimmed(body.username@).len() == 0 || body.password@.len() == 0 {
            Decision::Answer(reply::failure(400, "Username and password are required"@))
        } else {
            match p.namesake {
                Asked::NotYet => Decision::AskName(body.username@),
                Asked::Failed => Decision::Answer(reply::internal_error()),
                Asked::Got(Some(_)) => Decision::Answer(
                    reply::failure(409, "Username already exists"@),
                ),
                Asked::Got(None) => match p.stored {
                    Asked::NotYet => Decision::Create {
                        username: body.username@,
                        password: body.password@,
                        is_owner: false,
                        timezone: None,
                    },
                    Asked::Failed => Decision::Answer(reply::internal_error()),
                    Asked::Got(id) => Decision::Answer(
                        ReplyView {
                            status: 201,
                            body: BodyView::Object(
                                seq![
                                    ("id"@, ScalarView::Text(ids::hyphenated(id))),
                                    ("username"@, ScalarView::Text(body.username@)),
                                    ("is_owner"@, ScalarView::Flag(false)),
                                ],
                            ),
                        },
                    ),
                },
            }
        },
    }
}

/// Makes an account.
pub fn create_user(claims: &Claims, body: &CreateUserBody, p: &Progress) -> (step: Step)
    ensures
        reply::carries_out(step, create_user_decision(*claims, *body, *p)),
{
    if let Some(step) = require_owner(claims, &p.caller) {
        return step;
    }
    let name = trim(body.username.as_str());
    if name.as_str().unicode_len() == 0 || body.password.as_str().unicode_len() == 0 {
        return Step::Answer(fail(400, "Username and password are required"));
    }
    match &p.namesake {
        Asked::NotYet => Step::AskName(body.username.clone()),
        Asked::Failed => Step::Answer(internal()),
        Asked::Got(Some(_)) => Step::Answer(fail(409, "Username already exists")),
        Asked::Got(None) => match &p.stored {
            Asked::NotYet => new_account(
                body.username.as_str(),
                body.password.as_str(),
                false,
                &None,
            ),
            Asked::Failed => Step::Answer(internal()),
            Asked::Got(id) => {
                let members = vec![
                    id_member("id", *id),
                    text_member("username", body.username.as_str()),
                    Member { name: "is_owner", value: Scalar::Flag(false) },
                ];
                assert(reply::members_view(members@) =~= seq![
                    ("id"@, ScalarView::Text(ids::hyphenated(*id))),
                    ("username"@, ScalarView::Text(body.username@)),
                    ("is_owner"@, ScalarView::Flag(false)),
                ]);
                Step::Answer(object_of(201, members))
            },
        },
    }
}

/// How a request to delete an account is answered. The last account stays.
pub open spec fn delete_user_decision(claims: Claims, id: Uuid, p: Progress) -> Decision {
    match owner_check(claims, p.caller) {
        Some(d) => d,
        None => match p.account {
            Asked::NotYet => Decision::AskAccount(id),
            Asked::Failed => Decision::Answer(reply::internal_error()),
            Asked::Got(None) => Decision::Answer(reply::nothing_found()),
            Asked::Got(Some(_)) => match p.count {
                Asked::NotYet => Decision::AskCount,
                Asked::Failed => Decision::Answer(reply::internal_error()),
                Asked::Got(n) => if n <= 1 {
                    Decision::Answer(
                        reply::failure(409, "Cannot delete the last remaining admin account"@),
                    )
                } else {
                    match p.stored {
                        Asked::NotYet => Decision::Delete { id },
                        Asked::Failed => Decision::Answer(reply::internal_error()),
                        Asked::Got(_) => Decision::Answer(reply::done(200, "User deleted"@)),
                    }
                },
            },
        },
    }
}

/// Deletes an account.
pub fn delete_user(claims: &Claims, id: Uuid, p: &Progress) -> (step: Step)
    ensures
        reply::carries_out(step, delete_user_decision(*claims, id, *p)),
{
    if let Some(step) = require_owner(claims, &p.caller) {
        return step;
    }
    match &p.account {
        Asked::NotYet => Step::AskAccount(id),
        Asked::Failed => Step::Answer(internal()),
        Asked::Got(None) => Step::Answer(not_found()),
        Asked::Got(Some(_)) => match &p.count {
            Asked::NotYet => Step::AskCount,
            Asked::Failed => Step::Answer(internal()),
            Asked::Got(n) => {
                if *n <= 1 {
                    return Step::Answer(
                        fail(409, "Cannot delete the last remaining admin account"),
                    );
                }
                match &p.stored {
                    Asked::NotYet => Step::Store(Change::Delete { id }),
                    Asked::Failed => Step::Answer(internal()),
                    Asked::Got(_) => Step::Answer(say(200, "User deleted")),
                }
            },
        },
    }
}

/// How a request to set an account's password is answered.
pub open spec fn reset_password_decision(
    claims: Claims,
    id: Uuid,
    body: ResetPasswordBody,
    p: Progress,
) -> Decision {
    match owner_check(claims, p.caller) {
        Some(d) => d,
        None => if body.password@.len() == 0 {
            Decision::Answer(reply::failure(400, "Password is required"@))
        } else {
            match p.account {
                Asked::NotYet => Decision::AskAccount(id),
                Asked::Failed => Decision::Answer(reply::internal_error()),
                Asked::Got(None) => Decision::Answer(reply::nothing_found()),
                Asked::Got(Some(_)) => match p.stored {
                    Asked::NotYet => Decision::SetPassword { id, password: body.password@ },
                    Asked::Failed => Decision::Answer(reply::internal_error()),
                    Asked::Got(_) => Decision::Answer(reply::done(200, "Password reset"@)),
                },
            }
        },
    }
}

/// Sets an account's password.
pub fn reset_password(
    claims: &Claims,
    id: Uuid,
    body: &ResetPasswordBody,
    p: &Progress,
) -> (step: Step)
    ensures
        reply::carries_out(step, reset_password_decision(*claims, id, *body, *p)),
{
    if let Some(step) = require_owner(claims, &p.caller) {
        return step;
    }
    if body.password.as_str().unicode_len() == 0 {
        return Step::Answer(fail(400, "Password is required"));
    }
    match &p.account {
        Asked::NotYet => Step::AskAccount(id),
        Asked::Failed => Step::Answer(internal()),
        Asked::Got(None) => Step::Answer(not_found()),
        Asked::Got(Some(_)) => match &p.stored {
            Asked::NotYet => match hash_password(body.password.as_str()) {
                Ok(password_hash) => Step::Store(Change::SetPassword { id, password_hash }),
                Err(_) => Step::Answer(internal()),
            },
            Asked::Failed => Step::Answer(internal()),
            Asked::Got(_) => Step::Answer(say(200, "Password reset")),
        },
    }
}

/// The decision reads or changes accounts other than the caller's, or tells of
/// them.
pub open spec fn manages_accounts(d: Decision) -> bool {
    match d {
        Decision::AskCaller(_) => false,
        Decision::Answer(r) => r.status < 400,
        _ => true,
    }
}

/// Only an owner manages accounts: whatever the request, nothing is read, changed
/// or told of other accounts unless the caller was read anew and found to be an
/// owner.
pub proof fn only_an_owner_manages_accounts(
    claims: Claims,
    new_user: CreateUserBody,
    new_password: ResetPasswordBody,
    id: Uuid,
    p: Progress,
)
    requires
        manages_accounts(list_users_decision(claims, p)) || manages_accounts(
            create_user_decision(claims, new_user, p),
        ) || manages_accounts(delete_user_decision(claims, id, p)) || manages_accounts(
            reset_password_decision(claims, id, new_password, p),
        ),
    ensures
        p.caller matches Asked::Got(Some(a)) && a.is_owner,
{
}

/// The last account is never deleted.
pub proof fn the_last_account_stays(claims: Claims, id: Uuid, p: Progress)
    requires
        delete_user_decision(claims, id, p) is Delete,
    ensures
        p.count matches Asked::Got(n) && n > 1,
{
}

/// An account that is made by request is never an owner's.
pub proof fn a_new_account_is_no_owners(claims: Claims, body: CreateUserBody, p: Progress)
    requires
        create_user_decision(claims, body, p) is Create,
    ensures
        !create_user_decision(claims, body, p)->Create_is_owner,
        p.namesake == Asked::<Option<Account>>::Got(None),
{
}

/// A request asks for nothing twice, so that it is answered after a few steps,
/// whatever comes of each.
pub proof fn nothing_is_asked_twice(
    claims: Claims,
    first: auth::SetupBody,
    sign_in: auth::AuthRequest,
    own: auth::PatchMeBody,
    new_user: CreateUserBody,
    new_password: ResetPasswordBody,
    id: Uuid,
    p: Progress,
)
    ensures
        reply::asks_anew(auth::setup_decision(first, p), p),
        auth::login_refusal(sign_in, p) matches Some(d) ==> reply::asks_anew(d, p),
        reply::asks_anew(auth::get_me_decision(claims, p), p),
        reply::asks_anew(auth::patch_me_decision(claims, own, p), p),
        reply::asks_anew(list_users_decision(claims, p), p),
        reply::asks_anew(create_user_decision(claims, new_user, p), p),
        reply::asks_anew(delete_user_decision(claims, id, p), p),
        reply::asks_anew(reset_password_decision(claims, id, new_password, p), p),
{
}

} // verus!
