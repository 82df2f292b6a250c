//! Signing in, and an administrator's own account.

use crate::api::reply;
use crate::api::reply::{
    fail, internal, not_found, object_of, say, text_member, id_member, Account, Asked, BodyView,
    Change, Decision, Member, Progress, Reply, ReplyView, Scalar, ScalarView, Step,
};
use crate::api::secrets;
use crate::api::secrets::{
    hash_password, jwt_decode, sign_claims, verify_password, Claims, ClaimsView,
};
use crate::clock;
use crate::clock::{describe_moment, is_known_zone, now_timestamp};
use crate::db::admins::{admin_made_at, update_admin_timezone};
use crate::db::tables;
use crate::db::tables::Tables;
use crate::db::write::Write;
use crate::ids;
use crate::ids::{new_uuid, uuid_parse, uuid_text, Uuid};
use crate::text;
use crate::text::strip_prefix;
use vstd::prelude::*;
use vstd::string::*;

verus! {

/// The tenant of every account here.
pub const DEFAULT_TENANT: &'static str = "default";

/// A name and a password.
pub struct AuthRequest {
    pub username: String,
    pub password: String,
}

/// The first account.
pub struct SetupBody {
    pub username: String,
    pub password: String,
    pub timezone: Option<String>,
}

/// A token and when it expires.
pub struct LoginResponse {
    pub token: String,
    pub expires_at: String,
}

/// A change of one's own account.
pub struct PatchMeBody {
    pub timezone: Option<String>,
}

/// Says which version is running.
pub fn version(running: &str) -> (r: Reply)
    ensures
        r@ == (ReplyView {
            status: 200,
            body: BodyView::Object(seq![("version"@, ScalarView::Text(running@))]),
        }),
{
    let members = vec![text_member("version", running)];
    assert(reply::members_view(members@) =~= seq![("version"@, ScalarView::Text(running@))]);
    object_of(200, members)
}

/// Says whether the first account is still to be made, given the number of
/// accounts, if it could be read.
pub fn status(count: Option<i64>) -> (r: Reply)
    ensures
        r@ == match count {
            Some(n) => ReplyView {
                status: 200,
                body: BodyView::Object(seq![("setup_needed"@, ScalarView::Flag(n == 0))]),
            },
            None => reply::internal_error(),
        },
{
    match count {
        Some(n) => {
            let members = vec![Member { name: "setup_needed", value: Scalar::Flag(n == 0) }];
            assert(reply::members_view(members@) =~= seq![
                ("setup_needed"@, ScalarView::Flag(n == 0)),
            ]);
            object_of(200, members)
        },
        None => internal(),
    }
}

/// The time zone to set: the one that was given, if it exists.
pub open spec fn zone_to_set(timezone: Option<String>) -> Option<Seq<char>> {
    match timezone {
        Some(z) if clock::known_zone(z@) => Some(z@),
        _ => None,
    }
}

/// How the first account is made. It is made once, when there is none, and it is
/// the owner's.
pub open spec fn setup_decision(body: SetupBody, p: Progress) -> Decision {
    match p.count {
        Asked::NotYet => Decision::AskCount,
        Asked::Failed => Decision::Answer(reply::internal_error()),
        Asked::Got(n) => if n > 0 {
            Decision::Answer(reply::failure(409, "Admin account already exists"@))
        } else if body.username@.len() == 0 || body.password@.len() == 0 {
            Decision::Answer(reply::failure(400, "Username and password are required"@))
        } else {
            match p.stored {
                Asked::NotYet => Decision::Create {
                    username: body.username@,
                    password: body.password@,
                    is_owner: true,
                    timezone: zone_to_set(body.timezone),
                },
                Asked::Failed => Decision::Answer(reply::internal_error()),
                Asked::Got(_) => Decision::Answer(reply::done(201, "Admin account created"@)),
            }
        },
    }
}

/// Makes the first account.
pub fn setup(body: &SetupBody, p: &Progress) -> (step: Step)
    ensures
        reply::carries_out(step, setup_decision(*body, *p)),
{
    match &p.count {
        Asked::NotYet => Step::AskCount,
        Asked::Failed => Step::Answer(internal()),
        Asked::Got(n) => {
            if *n > 0 {
                return Step::Answer(fail(409, "Admin account already exists"));
            }
            if body.username.as_str().unicode_len() == 0 || body.password.as_str().unicode_len()
                == 0 {
                return Step::Answer(fail(400, "Username and password are required"));
            }
            match &p.stored {
                Asked::NotYet => new_account(
                    body.username.as_str(),
                    body.password.as_str(),
                    true,
                    &body.timezone,
                ),
                Asked::Failed => Step::Answer(internal()),
                Asked::Got(_) => Step::Answer(say(201, "Admin account created")),
            }
        },
    }
}

/// Stores a new account now, under an identifier that is drawn at random.
pub(crate) fn new_account(
    username: &str,
    password: &str,
    is_owner: bool,
    timezone: &Option<String>,
) -> (step: Step)
    ensures
        reply::carries_out(
            step,
            Decision::Create {
                username: username@,
                password: password@,
                is_owner,
                timezone: zone_to_set(*timezone),
            },
        ),
{
    match hash_password(password) {
        Err(_) => Step::Answer(internal()),
        Ok(hash) => account_made_with(
            new_uuid(),
            username,
            hash.as_str(),
            is_owner,
            timezone,
            now_timestamp(),
        ),
    }
}

/// Stores a new account under that identifier, with that password hash, at the
/// time `now`.
pub fn account_made_with(
    account_id: Uuid,
    username: &str,
    hash: &str,
    is_owner: bool,
    timezone: &Option<String>,
    now: i64,
) -> (step: Step)
    ensures
        step matches Step::Store(Change::Create { id, account, is_owner: o, timezone: z }) && id
            == account_id && o == is_owner && (account matches Write::InsertAdmin {
            id: i,
            username: u,
            password_hash: h,
            at,
        } && i == account_id && u@ == username@ && h@ == hash@ && at == now) && match zone_to_set(
            *timezone,
        ) {
            Some(zone) => z matches Some(w) && reply::sets_timezone(w, account_id, zone),
            None => z is None,
        },
{
    let account = admin_made_at(account_id, username, hash, now);
    let zone = match timezone {
        Some(z) => {
            if is_known_zone(z.as_str()) {
                Some(update_admin_timezone(account_id, z.as_str()))
            } else {
                None
            }
        },
        None => None,
    };
    Step::Store(Change::Create { id: account_id, account, is_owner, timezone: zone })
}

/// When a token expires that is made at `now` and lasts `hours`, in seconds
/// since the start of 1970.
pub open spec fn expiry(now: i64, hours: u64) -> usize {
    (now as usize).wrapping_add(((hours * 3600) as u64) as usize)
}

/// A token lasts as long as it was made to last.
pub proof fn a_token_lasts_its_hours(now: i64, hours: u64)
    requires
        0 <= now,
        now + hours * 3600 <= usize::MAX,
    ensures
        expiry(now, hours) == now + hours * 3600,
{
}

/// What a token says of an account.
pub open spec fn account_claims(a: Account, exp: usize) -> ClaimsView {
    ClaimsView { sub: ids::hyphenated(a.id), exp, tenant_id: DEFAULT_TENANT@ }
}

/// Makes a token for an account at the time `now`.
pub fn issue_token(a: &Account, now: i64, hours: u64, jwt_secret: &str) -> (r: LoginResponse)
    requires
        hours * 3600 <= u64::MAX,
    ensures
        secrets::token_claims(r.token@, jwt_secret@) == Some(
            account_claims(*a, expiry(now, hours)),
        ),
        r.expires_at@ == clock::moment_text(expiry(now, hours) as i64),
{
    let expiry_secs: u64 = hours * 3600;
    let exp: usize = (now as usize).wrapping_add(expiry_secs as usize);
    let claims = Claims { sub: uuid_text(a.id), exp, tenant_id: DEFAULT_TENANT.to_owned() };
    let token = match sign_claims(&claims, jwt_secret) {
        Ok(t) => t,
        Err(_) => String::new(),
    };
    LoginResponse { token, expires_at: describe_moment(exp as i64) }
}

pub open spec fn invalid_credentials() -> ReplyView {
    reply::failure(401, "Invalid credentials"@)
}

/// The answer hands out a token for the account that expires at `exp`.
pub open spec fn signs_in(r: ReplyView, a: Account, jwt_secret: Seq<char>, exp: usize) -> bool {
    exists|token: Seq<char>| #[trigger]
        secrets::token_claims(token, jwt_secret) == Some(account_claims(a, exp)) && r
            == (ReplyView {
            status: 200,
            body: BodyView::Object(
                seq![
                    ("token"@, ScalarView::Text(token)),
                    ("expires_at"@, ScalarView::Text(clock::moment_text(exp as i64))),
                ],
            ),
        })
}

/// What a sign-in that needs no token comes to; `None` where the password is the
/// account's. An unknown name is answered as a wrong password is.
pub open spec fn login_refusal(body: AuthRequest, p: Progress) -> Option<Decision> {
    match p.namesake {
        Asked::NotYet => Some(Decision::AskName(body.username@)),
        Asked::Failed => Some(Decision::Answer(reply::internal_error())),
        Asked::Got(None) => Some(Decision::Answer(invalid_credentials())),
        Asked::Got(Some(a)) => match secrets::password_verdict(body.password@, a.password_hash@) {
            None => Some(Decision::Answer(reply::internal_error())),
            Some(false) => Some(Decision::Answer(invalid_credentials())),
            Some(true) => None,
        },
    }
}

/// Signs an administrator in. A token is handed out if and only if the account
/// was found and the password is its own; it is one for that account, made now.
pub fn login(
    body: &AuthRequest,
    p: &Progress,
    jwt_secret: &str,
    jwt_expiry_hours: u64,
) -> (step: Step)
    requires
        jwt_expiry_hours * 3600 <= u64::MAX,
    ensures
        match login_refusal(*body, *p) {
            Some(d) => reply::carries_out(step, d),
            None => step matches Step::Answer(r) && exists|now: i64|
                signs_in(
                    r@,
                    p.namesake->Got_0->0,
                    jwt_secret@,
                    #[trigger] expiry(now, jwt_expiry_hours),
                ),
        },
{
    match &p.namesake {
        Asked::NotYet => Step::AskName(body.username.clone()),
        Asked::Failed => Step::Answer(internal()),
        Asked::Got(None) => Step::Answer(fail(401, "Invalid credentials")),
        Asked::Got(Some(a)) => match verify_password(
            body.password.as_str(),
            a.password_hash.as_str(),
        ) {
            Err(_) => Step::Answer(internal()),
            Ok(false) => Step::Answer(fail(401, "Invalid credentials")),
            Ok(true) => {
                let now = now_timestamp();
                let granted = issue_token(a, now, jwt_expiry_hours, jwt_secret);
                let answer = login_reply(&granted);
                assert(signs_in(answer@, *a, jwt_secret@, expiry(now, jwt_expiry_hours)));
                Step::Answer(answer)
            },
        },
    }
}

/// The answer that hands out a token.
pub fn login_reply(granted: &LoginResponse) -> (r: Reply)
    ensures
        r@ == (ReplyView {
            status: 200,
            body: BodyView::Object(
                seq![
                    ("token"@, ScalarView::Text(granted.token@)),
                    ("expires_at"@, ScalarView::Text(granted.expires_at@)),
                ],
            ),
        }),
{
    let members = vec![
        text_member("token", granted.token.as_str()),
        text_member("expires_at", granted.expires_at.as_str()),
    ];
    assert(reply::members_view(members@) =~= seq![
        ("token"@, ScalarView::Text(granted.token@)),
        ("expires_at"@, ScalarView::Text(granted.expires_at@)),
    ]);
    object_of(200, members)
}

/// The token that a request carries: what follows `Bearer ` in its authorization
/// header.
pub open spec fn bearer(header: Option<&str>) -> Option<Seq<char>> {
    match header {
        Some(h) => text::after_prefix(h@, "Bearer "@),
        None => None,
    }
}

/// Lets a request pass with what its token says, or refuses it.
pub fn let_pass(read: Option<Claims>) -> (r: Result<Claims, Reply>)
    ensures
        match (read, r) {
            (Some(c), Ok(d)) => c == d,
            (None, Err(e)) => e@ == reply::invalid_token(),
            _ => false,
        },
{
    match read {
        Some(c) => Ok(c),
        None => Err(fail(401, "Invalid token")),
    }
}

/// Checks a request's authorization header, if it has one that is text. A
/// request without a token is refused; one that passes has a token signed with
/// the secret, and what it says is handed on. Which tokens have expired is up to
/// the clock.
pub fn require_auth(header: Option<&str>, jwt_secret: &str) -> (r: Result<Claims, Reply>)
    ensures
        match bearer(header) {
            None => r matches Err(e) && e@ == reply::failure(401, "Missing token"@),
            Some(token) => match r {
                Ok(c) => secrets::token_claims(token, jwt_secret@) == Some(c@),
                Err(e) => e@ == reply::invalid_token(),
            },
        },
{
    let token = match header {
        Some(h) => strip_prefix(h, "Bearer "),
        None => None,
    };
    match token {
        None => Err(fail(401, "Missing token")),
        Some(t) => let_pass(jwt_decode(t.as_str(), jwt_secret)),
    }
}

/// The account that a token is for, if it names one.
pub open spec fn caller_id(claims: Claims) -> Option<Uuid> {
    ids::uuid_value(claims.sub@)
}

/// How a request for one's own account is answered.
pub open spec fn get_me_decision(claims: Claims, p: Progress) -> Decision {
    match caller_id(claims) {
        None => Decision::Answer(reply::invalid_token()),
        Some(id) => match p.caller {
            Asked::NotYet => Decision::AskCaller(id),
            Asked::Failed => Decision::Answer(reply::internal_error()),
            Asked::Got(None) => Decision::Answer(reply::nothing_found()),
            Asked::Got(Some(a)) => Decision::Answer(
                ReplyView {
                    status: 200,
                    body: BodyView::Object(
                        seq![
                            ("id"@, ScalarView::Text(ids::hyphenated(a.id))),
                            ("username"@, ScalarView::Text(a.username@)),
                            ("timezone"@, ScalarView::Text(a.timezone@)),
                            ("is_owner"@, ScalarView::Flag(a.is_owner)),
                        ],
                    ),
                },
            ),
        },
    }
}

/// Answers a request for one's own account. A token that was made for an account
/// asks for that account.
pub fn get_me(claims: &Claims, p: &Progress) -> (step: Step)
    ensures
        reply::carries_out(step, get_me_decision(*claims, *p)),
        forall|id: Uuid|
            claims.sub@ == #[trigger] ids::hyphenated(id) && p.caller is NotYet ==> step
                == Step::AskCaller(id),
{
    let id = match uuid_parse(claims.sub.as_str()) {
        Some(id) => id,
        None => {
            return Step::Answer(fail(401, "Invalid token"));
        },
    };
    match &p.caller {
        Asked::NotYet => Step::AskCaller(id),
        Asked::Failed => Step::Answer(internal()),
        Asked::Got(None) => Step::Answer(not_found()),
        Asked::Got(Some(a)) => {
            let members = vec![
                id_member("id", a.id),
                text_member("username", a.username.as_str()),
                text_member("timezone", a.timezone.as_str()),
                Member { name: "is_owner", value: Scalar::Flag(a.is_owner) },
            ];
            assert(reply::members_view(members@) =~= seq![
                ("id"@, ScalarView::Text(ids::hyphenated(a.id))),
                ("username"@, ScalarView::Text(a.username@)),
                ("timezone"@, ScalarView::Text(a.timezone@)),
                ("is_owner"@, ScalarView::Flag(a.is_owner)),
            ]);
            Step::Answer(object_of(200, members))
        },
    }
}

/// How a change of one's own account is answered.
pub open spec fn patch_me_decision(claims: Claims, body: PatchMeBody, p: Progress) -> Decision {
    match caller_id(claims) {
        None => Decision::Answer(reply::invalid_token()),
        Some(id) => match body.timezone {
            None => Decision::Answer(reply::done(200, "Profile updated"@)),
            Some(z) => if !clock::known_zone(z@) {
                Decision::Answer(reply::failure(422, "Invalid timezone"@))
            } else {
                match p.stored {
                    Asked::NotYet => Decision::SetTimezone { id, zone: z@ },
                    Asked::Failed => Decision::Answer(reply::internal_error()),
                    Asked::Got(_) => Decision::Answer(reply::done(200, "Profile updated"@)),
                }
            },
        },
    }
}

/// Changes one's own account.
pub fn patch_me(claims: &Claims, body: &PatchMeBody, p: &Progress) -> (step: Step)
    ensures
        reply::carries_out(step, patch_me_decision(*claims, *body, *p)),
{
    let id = match uuid_parse(claims.sub.as_str()) {
        Some(id) => id,
        None => {
            return Step::Answer(fail(401, "Invalid token"));
        },
    };
    match &body.timezone {
        None => Step::Answer(say(200, "Profile updated")),
        Some(z) => {
            if !is_known_zone(z.as_str()) {
                return Step::Answer(fail(422, "Invalid timezone"));
            }
            match &p.stored {
                Asked::NotYet => Step::Store(
                    Change::SetTimezone { id, write: update_admin_timezone(id, z.as_str()) },
                ),
                Asked::Failed => Step::Answer(internal()),
                Asked::Got(_) => Step::Answer(say(200, "Profile updated")),
            }
        },
    }
}

/// The first account is made only while there is none, and it is the owner's.
pub proof fn setup_runs_once(body: SetupBody, p: Progress)
    requires
        setup_decision(body, p) is Create,
    ensures
        p.count matches Asked::Got(n) && n <= 0,
        setup_decision(body, p)->Create_is_owner,
{
}

/// A sign-in does not tell whether a name exists: an unknown name and a wrong
/// password get the same answer.
pub proof fn unknown_names_look_like_wrong_passwords(body: AuthRequest, p: Progress, q: Progress)
    requires
        p.namesake == Asked::<Option<Account>>::Got(None),
        q.namesake matches Asked::Got(Some(a)) && secrets::password_verdict(
            body.password@,
            a.password_hash@,
        ) == Some(false),
    ensures
        login_refusal(body, p) == login_refusal(body, q),
        login_refusal(body, p) is Some,
{
}

/// A password that was stored signs in: an account that holds a hash made of the
/// password is handed a token.
pub proof fn a_stored_password_signs_in(body: AuthRequest, p: Progress)
    requires
        p.namesake matches Asked::Got(Some(a)) && reply::hash_of(body.password@, a.password_hash@),
    ensures
        login_refusal(body, p) is None,
{
}

/// An account that was stored can sign in: with the password that it was made
/// with, it is handed a token.
pub proof fn a_new_account_can_sign_in(
    w: Write,
    t: Tables,
    id: Uuid,
    body: AuthRequest,
    p: Progress,
)
    requires
        reply::creates(w, id, body.username@, body.password@),
        tables::effect(w, t) matches Some(after) && (p.namesake matches Asked::Got(Some(a))
            && a.password_hash@ == after.admins[id].password_hash),
    ensures
        login_refusal(body, p) is None,
{
}

/// A request that carries a token that was made for an account, and passes, is
/// one of that account.
pub proof fn a_token_names_its_account(
    header: &str,
    token: Seq<char>,
    jwt_secret: Seq<char>,
    a: Account,
    exp: usize,
    passed: Claims,
)
    requires
        header@ == "Bearer "@ + token,
        secrets::token_claims(token, jwt_secret) == Some(account_claims(a, exp)),
        secrets::token_claims(bearer(Some(header))->0, jwt_secret) == Some(passed@),
    ensures
        bearer(Some(header)) == Some(token),
        passed.sub@ == ids::hyphenated(a.id),
        passed.exp == exp,
        passed.tenant_id@ == DEFAULT_TENANT@,
{
    let n = "Bearer "@.len() as int;
    assert(header@.subrange(0, n) =~= "Bearer "@);
    assert(header@.skip(n) =~= token);
}

} // verus!
