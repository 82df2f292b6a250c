//! Passwords and tokens.

use argon2::password_hash::{PasswordHasher, PasswordVerifier};
use vstd::prelude::*;

verus! {

/// Why `argon2` refuses to hash or to read a hash; nothing is said of what an
/// error holds.
#[verifier::external_type_specification]
#[verifier::external_body]
pub struct ExPasswordError(argon2::password_hash::Error);

/// Why `jsonwebtoken` refuses to make a token; nothing is said of what an error
/// holds.
#[verifier::external_type_specification]
#[verifier::external_body]
pub struct ExTokenError(jsonwebtoken::errors::Error);

/// Why a password could not be hashed or checked, or a token not be made.
#[derive(Clone, Copy, Debug, PartialEq, Eq, Structural)]
pub enum SecretError {
    /// The password could not be hashed.
    Hashing,
    /// The stored text is not a password hash.
    BadHash,
    /// The token could not be signed.
    Signing,
}

/// Whether a password is the one of a hash; `None` where the text is no hash.
pub uninterp spec fn password_verdict(password: Seq<char>, hash: Seq<char>) -> Option<bool>;

/// A hash of a password, from `hash_password` of `argon2::Argon2` with its
/// default parameters and a random salt. Whatever the salt, the password
/// checks out against its hash, and only a password of more than 0xffffffff
/// bytes is refused.
#[verifier::external_body]
pub(crate) fn argon2_hash(password: &str) -> (r: Result<String, argon2::password_hash::Error>)
    ensures
        r matches Ok(h) ==> password_verdict(password@, h@) == Some(true),
        password@.len() <= 0x3fff_ffff ==> r is Ok,
{
    let salt = argon2::password_hash::SaltString::generate(
        &mut argon2::password_hash::rand_core::OsRng,
    );
    let hash = argon2::Argon2::default().hash_password(password.as_bytes(), &salt)?;
    Ok(hash.to_string())
}

/// Whether a password is the one of a hash, from `PasswordHash::new` and
/// `verify_password` of `argon2::Argon2`. An error says that the text is no
/// hash; a hash that cannot be checked counts as one of another password.
#[verifier::external_body]
pub(crate) fn argon2_verify(password: &str, hash: &str) -> (r: Result<
    bool,
    argon2::password_hash::Error,
>)
    ensures
        match r {
            Ok(b) => password_verdict(password@, hash@) == Some(b),
            Err(_) => password_verdict(password@, hash@) is None,
        },
{
    let parsed = argon2::password_hash::PasswordHash::new(hash)?;
    Ok(argon2::Argon2::default().verify_password(password.as_bytes(), &parsed).is_ok())
}

/// Hashes a password.
pub fn hash_password(password: &str) -> (r: Result<String, SecretError>)
    ensures
        match r {
            Ok(h) => password_verdict(password@, h@) == Some(true),
            Err(e) => e == SecretError::Hashing && password@.len() > 0x3fff_ffff,
        },
{
    match argon2_hash(password) {
        Ok(h) => Ok(h),
        Err(_) => Err(SecretError::Hashing),
    }
}

/// Whether a password is the one of a hash.
pub fn verify_password(password: &str, hash: &str) -> (r: Result<bool, SecretError>)
    ensures
        r == match password_verdict(password@, hash@) {
            Some(b) => Ok(b),
            None => Err(SecretError::BadHash),
        },
{
    match argon2_verify(password, hash) {
        Ok(b) => Ok(b),
        Err(_) => Err(SecretError::BadHash),
    }
}

/// What a token says.
pub struct Claims {
    /// The identifier of the administrator.
    pub sub: String,
    /// When the token expires, in seconds since the start of 1970.
    pub exp: usize,
    /// Whose accounts these are.
    pub tenant_id: String,
}

/// What a token says, with its texts as characters.
pub struct ClaimsView {
    pub sub: Seq<char>,
    pub exp: usize,
    pub tenant_id: Seq<char>,
}

impl View for Claims {
    type V = ClaimsView;

    open spec fn view(&self) -> ClaimsView {
        ClaimsView { sub: self.sub@, exp: self.exp, tenant_id: self.tenant_id@ }
    }
}

/// What a token says that was signed with a secret, whether or not it has
/// expired; `None` where it was not, or says something else.
pub uninterp spec fn token_claims(token: Seq<char>, secret: Seq<char>) -> Option<ClaimsView>;

/// A token, from `jsonwebtoken::encode` with its default header, which asks for
/// HMAC with SHA-256: it never refuses a secret, and the token says what it was
/// made to say.
#[verifier::external_body]
pub(crate) fn jwt_encode(claims: &Claims, secret: &str) -> (r: Result<
    String,
    jsonwebtoken::errors::Error,
>)
    ensures
        r is Ok,
        r matches Ok(t) ==> token_claims(t@, secret@) == Some(claims@),
{
    let mut map = serde_json::Map::new();
    map.insert("sub".to_string(), claims.sub.as_str().into());
    map.insert("exp".to_string(), claims.exp.into());
    map.insert("tenant_id".to_string(), claims.tenant_id.as_str().into());
    let key = jsonwebtoken::EncodingKey::from_secret(secret.as_bytes());
    jsonwebtoken::encode(&jsonwebtoken::Header::default(), &map, &key)
}

/// What a token says, from `jsonwebtoken::decode` with its default validation.
/// What is read is what a token signed with the secret says. A token that has
/// expired by the clock is refused, so nothing is promised of which are read.
#[verifier::external_body]
pub(crate) fn jwt_decode(token: &str, secret: &str) -> (r: Option<Claims>)
    ensures
        r matches Some(c) ==> token_claims(token@, secret@) == Some(c@),
{
    let key = jsonwebtoken::DecodingKey::from_secret(secret.as_bytes());
    let rules = jsonwebtoken::Validation::default();
    let read = jsonwebtoken::decode::<serde_json::Value>(token, &key, &rules).ok()?.claims;
    Some(
        Claims {
            sub: read.get("sub")?.as_str()?.to_string(),
            exp: usize::try_from(read.get("exp")?.as_u64()?).ok()?,
            tenant_id: read.get("tenant_id")?.as_str()?.to_string(),
        },
    )
}

/// Makes a token.
pub fn sign_claims(claims: &Claims, secret: &str) -> (r: Result<String, SecretError>)
    ensures
        r matches Ok(t) && token_claims(t@, secret@) == Some(claims@),
{
    match jwt_encode(claims, secret) {
        Ok(t) => Ok(t),
        Err(_) => Err(SecretError::Signing),
    }
}

} // verus!
