//! Answers, and what they are made from.

use crate::db::write::Write;
use crate::ids;
use crate::ids::{uuid_text, Uuid};
use vstd::prelude::*;

verus! {

/// A value of an answer.
pub enum Scalar {
    Text(String),
    Flag(bool),
    Number(i64),
}

/// A named value of an answer.
pub struct Member {
    pub name: &'static str,
    pub value: Scalar,
}

/// What an answer says: an object, or an object with one list of objects.
pub enum Body {
    Object(Vec<Member>),
    Listing(&'static str, Vec<Vec<Member>>),
}

/// An answer: its HTTP status and what it says.
pub struct Reply {
    pub status: u16,
    pub body: Body,
}

pub enum ScalarView {
    Text(Seq<char>),
    Flag(bool),
    Number(i64),
}

pub type MemberView = (Seq<char>, ScalarView);

pub enum BodyView {
    Object(Seq<MemberView>),
    Listing(Seq<char>, Seq<Seq<MemberView>>),
}

pub struct ReplyView {
    pub status: u16,
    pub body: BodyView,
}

impl View for Scalar {
    type V = ScalarView;

    open spec fn view(&self) -> ScalarView {
        match *self {
            Scalar::Text(s) => ScalarView::Text(s@),
            Scalar::Flag(b) => ScalarView::Flag(b),
            Scalar::Number(n) => ScalarView::Number(n),
        }
    }
}

/// The named values of an object.
pub open spec fn members_view(v: Seq<Member>) -> Seq<MemberView> {
    v.map_values(|m: Member| (m.name@, m.value@))
}

impl View for Reply {
    type V = ReplyView;

    open spec fn view(&self) -> ReplyView {
        ReplyView {
            status: self.status,
            body: match self.body {
                Body::Object(v) => BodyView::Object(members_view(v@)),
                Body::Listing(name, v) => BodyView::Listing(
                    name@,
                    v@.map_values(|o: Vec<Member>| members_view(o@)),
                ),
            },
        }
    }
}

/// An answer that names what went wrong.
pub open spec fn failure(status: u16, error: Seq<char>) -> ReplyView {
    ReplyView { status, body: BodyView::Object(seq![("error"@, ScalarView::Text(error))]) }
}

/// An answer that says what was done.
pub open spec fn done(status: u16, message: Seq<char>) -> ReplyView {
    ReplyView { status, body: BodyView::Object(seq![("message"@, ScalarView::Text(message))]) }
}

pub open spec fn internal_error() -> ReplyView {
    failure(500, "Internal server error"@)
}

pub open spec fn nothing_found() -> ReplyView {
    failure(404, "Not found"@)
}

pub open spec fn invalid_token() -> ReplyView {
    failure(401, "Invalid token"@)
}

pub(crate) fn object_of(status: u16, members: Vec<Member>) -> (r: Reply)
    ensures
        r@ == (ReplyView { status, body: BodyView::Object(members_view(members@)) }),
{
    Reply { status, body: Body::Object(members) }
}

pub(crate) fn text_member(name: &'static str, value: &str) -> (r: Member)
    ensures
        r.name@ == name@,
        r.value@ == ScalarView::Text(value@),
{
    Member { name, value: Scalar::Text(value.to_owned()) }
}

pub(crate) fn id_member(name: &'static str, id: Uuid) -> (r: Member)
    ensures
        r.name@ == name@,
        r.value@ == ScalarView::Text(ids::hyphenated(id)),
{
    Member { name, value: Scalar::Text(uuid_text(id)) }
}

pub(crate) fn fail(status: u16, error: &'static str) -> (r: Reply)
    ensures
        r@ == failure(status, error@),
{
    let members = vec![text_member("error", error)];
    assert(members_view(members@) =~= seq![("error"@, ScalarView::Text(error@))]);
    object_of(status, members)
}

pub(crate) fn say(status: u16, message: &'static str) -> (r: Reply)
    ensures
        r@ == done(status, message@),
{
    let members = vec![text_member("message", message)];
    assert(members_view(members@) =~= seq![("message"@, ScalarView::Text(message@))]);
    object_of(status, members)
}

/// The answer to a request that the server failed on; it does not say why.
pub fn internal() -> (r: Reply)
    ensures
        r@ == internal_error(),
{
    fail(500, "Internal server error")
}

/// The answer to a request for what is not there.
pub fn not_found() -> (r: Reply)
    ensures
        r@ == nothing_found(),
{
    fail(404, "Not found")
}

/// An administrator's account.
pub struct Account {
    pub id: Uuid,
    pub username: String,
    pub password_hash: String,
    pub created_at: i64,
    pub timezone: String,
    /// The account may manage other accounts.
    pub is_owner: bool,
}

/// What has come of something that was asked for.
pub enum Asked<T> {
    NotYet,
    Failed,
    Got(T),
}

/// What has been read and stored for a request so far.
pub struct Progress {
    /// The account that makes the request.
    pub caller: Asked<Option<Account>>,
    /// The account that the request is about.
    pub account: Asked<Option<Account>>,
    /// The account that has the name in the request.
    pub namesake: Asked<Option<Account>>,
    /// The number of accounts.
    pub count: Asked<i64>,
    /// All accounts.
    pub accounts: Asked<Vec<Account>>,
    /// The change of the store, with the identifier of the account it was for.
    pub stored: Asked<Uuid>,
}

impl Progress {
    /// Nothing has been read or stored.
    pub fn new() -> (r: Self)
        ensures
            r.caller is NotYet,
            r.account is NotYet,
            r.namesake is NotYet,
            r.count is NotYet,
            r.accounts is NotYet,
            r.stored is NotYet,
    {
        Progress {
            caller: Asked::NotYet,
            account: Asked::NotYet,
            namesake: Asked::NotYet,
            count: Asked::NotYet,
            accounts: Asked::NotYet,
            stored: Asked::NotYet,
        }
    }
}

/// A change of the accounts.
pub enum Change {
    /// Store a new account, and set its time zone where one is given; the
    /// account is there even if that fails.
    Create { id: Uuid, account: Write, is_owner: bool, timezone: Option<Write> },
    /// Set an account's time zone.
    SetTimezone { id: Uuid, write: Write },
    /// Set an account's password.
    SetPassword { id: Uuid, password_hash: String },
    /// Delete an account.
    Delete { id: Uuid },
}

/// What is to be done next for a request.
pub enum Step {
    /// Read the account that makes the request.
    AskCaller(Uuid),
    /// Read the account that the request is about.
    AskAccount(Uuid),
    /// Read the account of that name.
    AskName(String),
    /// Read how many accounts there are.
    AskCount,
    /// Read all accounts.
    AskAccounts,
    /// Change the accounts.
    Store(Change),
    /// Answer.
    Answer(Reply),
}

/// What a step is meant to be. A new password is stored as one of its many
/// hashes, so the steps that store one are named for what they store.
pub enum Decision {
    AskCaller(Uuid),
    AskAccount(Uuid),
    AskName(Seq<char>),
    AskCount,
    AskAccounts,
    /// Store a new account with that name and password.
    Create {
        username: Seq<char>,
        password: Seq<char>,
        is_owner: bool,
        timezone: Option<Seq<char>>,
    },
    SetTimezone { id: Uuid, zone: Seq<char> },
    SetPassword { id: Uuid, password: Seq<char> },
    Delete { id: Uuid },
    Answer(ReplyView),
}

/// What the decision asks for has not been asked for yet.
pub open spec fn asks_anew(d: Decision, p: Progress) -> bool {
    match d {
        Decision::AskCaller(_) => p.caller is NotYet,
        Decision::AskAccount(_) => p.account is NotYet,
        Decision::AskName(_) => p.namesake is NotYet,
        Decision::AskCount => p.count is NotYet,
        Decision::AskAccounts => p.accounts is NotYet,
        Decision::Answer(_) => true,
        _ => p.stored is NotYet,
    }
}

/// The text is a hash of that password.
pub open spec fn hash_of(password: Seq<char>, hash: Seq<char>) -> bool {
    crate::api::secrets::password_verdict(password, hash) == Some(true)
}

/// The change sets the time zone of the account to `zone`.
pub open spec fn sets_timezone(w: Write, account: Uuid, zone: Seq<char>) -> bool {
    w matches Write::SetAdminTimezone { id, timezone } && id == account && timezone@ == zone
}

/// The step is the one that was decided on. A password of extreme length may be
/// refused, which is answered as a failure of the server.
pub open spec fn carries_out(step: Step, d: Decision) -> bool {
    match d {
        Decision::AskCaller(id) => step == Step::AskCaller(id),
        Decision::AskAccount(id) => step == Step::AskAccount(id),
        Decision::AskName(n) => step matches Step::AskName(s) && s@ == n,
        Decision::AskCount => step == Step::AskCount,
        Decision::AskAccounts => step == Step::AskAccounts,
        Decision::Create { username, password, is_owner, timezone } => {
            ||| step matches Step::Store(
                Change::Create { id, account, is_owner: o, timezone: z },
            ) && creates(account, id, username, password) && o == is_owner && match timezone {
                Some(zone) => z matches Some(w) && sets_timezone(w, id, zone),
                None => z is None,
            }
            ||| refused(step, password)
        },
        Decision::SetTimezone { id, zone } => step matches Step::Store(
            Change::SetTimezone { id: i, write },
        ) && i == id && sets_timezone(write, id, zone),
        Decision::SetPassword { id, password } => {
            ||| step matches Step::Store(Change::SetPassword { id: i, password_hash }) && i == id
                && hash_of(password, password_hash@)
            ||| refused(step, password)
        },
        Decision::Delete { id } => step == Step::Store(Change::Delete { id }),
        Decision::Answer(r) => step matches Step::Answer(a) && a@ == r,
    }
}

/// The change stores an account with that name and password, under an identifier
/// that carries the marks of a random one.
pub open spec fn creates(w: Write, account: Uuid, name: Seq<char>, password: Seq<char>) -> bool {
    w matches Write::InsertAdmin { id, username, password_hash, .. } && id == account
        && ids::is_random_uuid(id) && username@ == name && hash_of(password, password_hash@)
}

/// The password was refused for its length.
pub open spec fn refused(step: Step, password: Seq<char>) -> bool {
    password.len() > 0x3fff_ffff && (step matches Step::Answer(a) && a@ == internal_error())
}

} // verus!
