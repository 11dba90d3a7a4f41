//! Accounts and sessions of the control plane.

use crate::database::StoreError;
use crate::models::{AppSettings, Session, Timestamp, User};
use crate::text::push_pair;
use bcrypt::BcryptError;
use rand::Rng;
use vstd::prelude::*;
use vstd::string::*;

verus! {

/// For how long a session is valid: seven days, in seconds.
pub const SESSION_LIFETIME: i64 = 604800;

/// The number of random bytes in a session token.
pub const TOKEN_BYTES: usize = 32;

/// The token in an `Authorization` header: what follows `Bearer `, or the
/// whole header where it does not start so.
pub open spec fn bearer_token_of(header: Seq<char>) -> Seq<char> {
    if header.len() >= 7 && header.subrange(0, 7) == "Bearer "@ {
        header.subrange(7, header.len() as int)
    } else {
        header
    }
}

/// Takes the token out of an `Authorization` header.
pub fn bearer_token(header: &str) -> (token: String)
    ensures
        token@ == bearer_token_of(header@),
{
    let length = header.unicode_len();
    if length >= 7 {
        if header.substring_char(0, 7).eq("Bearer ") {
            return header.substring_char(7, length).to_owned();
        }
    }
    header.to_owned()
}

/// The sixteen digits of lower-case hexadecimal.
pub open spec fn hex_digit(value: int) -> char
    recommends
        0 <= value < 16,
{
    "0123456789abcdef"@[value]
}

/// Bytes in lower-case hexadecimal, two digits for each byte.
pub open spec fn hex(bytes: Seq<u8>) -> Seq<char>
    decreases bytes.len(),
{
    if bytes.len() == 0 {
        Seq::empty()
    } else {
        hex(bytes.drop_last()).push(hex_digit(bytes.last() as int / 16)).push(
            hex_digit(bytes.last() as int % 16),
        )
    }
}

/// Hexadecimal takes two digits for each byte.
pub proof fn lemma_hex_len(bytes: Seq<u8>)
    ensures
        hex(bytes).len() == 2 * bytes.len(),
    decreases bytes.len(),
{
    if bytes.len() > 0 {
        lemma_hex_len(bytes.drop_last());
    }
}

/// Writes `bytes` in lower-case hexadecimal.
pub fn to_hex(bytes: &Vec<u8>) -> (text: String)
    ensures
        text@ == hex(bytes@),
{
    let digits = "0123456789abcdef";
    proof {
        reveal_strlit("0123456789abcdef");
    }
    let mut text = String::new();
    let mut at: usize = 0;
    while at < bytes.len()
        invariant
            at <= bytes.len(),
            digits@ == "0123456789abcdef"@,
            digits@.len() == 16,
            text@ == hex(bytes@.take(at as int)),
        decreases bytes.len() - at,
    {
        let byte = bytes[at];
        assert(bytes@.take(at + 1).drop_last() == bytes@.take(at as int));
        let high = digits.get_char((byte / 16) as usize);
        let low = digits.get_char((byte % 16) as usize);
        push_pair(&mut text, high, low);
        at += 1;
    }
    assert(bytes@.take(bytes.len() as int) == bytes@);
    text
}

/// Draws one byte from `rand::thread_rng`, the generator of the current
/// thread. Nothing is known of the byte.
#[verifier::external_body]
fn random_byte() -> u8 {
    rand::thread_rng().gen::<u8>()
}

/// Makes a fresh session token: 32 random bytes in hexadecimal.
pub fn generate_session_token() -> (token: String)
    ensures
        token@.len() == 2 * TOKEN_BYTES,
        exists|bytes: Seq<u8>| bytes.len() == TOKEN_BYTES && token@ == hex(bytes),
{
    let mut bytes: Vec<u8> = Vec::new();
    while bytes.len() < TOKEN_BYTES
        invariant
            bytes.len() <= TOKEN_BYTES,
        decreases TOKEN_BYTES - bytes.len(),
    {
        bytes.push(random_byte());
    }
    proof {
        lemma_hex_len(bytes@);
    }
    to_hex(&bytes)
}

/// What `bcrypt::verify` makes of a password and a stored hash: whether
/// they match, or nothing where the hash cannot be read.
pub uninterp spec fn bcrypt_verdict(password: Seq<char>, hash: Seq<char>) -> Option<bool>;

/// The error of `bcrypt`.
#[verifier::external_type_specification]
#[verifier::external_body]
pub struct ExBcryptError(BcryptError);

/// The verdict in the answer of `bcrypt::verify`.
pub open spec fn verdict_of(answer: Result<bool, BcryptError>) -> Option<bool> {
    match answer {
        Ok(equal) => Some(equal),
        Err(_) => None,
    }
}

/// Calls `bcrypt::verify`, which hashes `password` with the cost and the salt
/// that `hash` names and compares the outcome with `hash`. The verdict
/// depends on the two texts alone. An unreadable hash gives an error.
#[verifier::external_body]
fn bcrypt_verify(password: &str, hash: &str) -> (answer: Result<bool, BcryptError>)
    ensures
        verdict_of(answer) == bcrypt_verdict(password@, hash@),
{
    bcrypt::verify(password, hash)
}

/// Calls `bcrypt::hash` with the default cost. The salt is random, so
/// nothing is known of the hash, nor of whether there is one.
#[verifier::external_body]
fn bcrypt_hash(password: &str) -> Result<String, BcryptError> {
    bcrypt::hash(password, bcrypt::DEFAULT_COST)
}

/// Writes out a `bcrypt::BcryptError` through its `Display`. Nothing is
/// known of the text.
#[verifier::external_body]
fn bcrypt_error_text(error: &BcryptError) -> String {
    format!("{}", error)
}

/// A password is accepted only where the comparison was made and came out
/// equal.
pub open spec fn accepted(verdict: Option<bool>) -> bool {
    verdict == Some(true)
}

/// Whether a verdict lets the user in.
pub fn password_accepted(verdict: Option<bool>) -> (ok: bool)
    ensures
        ok == accepted(verdict),
{
    match verdict {
        Some(matches) => matches,
        None => false,
    }
}

/// Whether `password` is the password of `user`. Nobody gets in without an
/// account.
pub fn verify_password(user: Option<&User>, password: &str) -> (ok: bool)
    ensures
        ok == match user {
            Some(user) => accepted(bcrypt_verdict(password@, user.password_hash@)),
            None => false,
        },
{
    match user {
        Some(user) => {
            let verdict = match bcrypt_verify(password, user.password_hash.as_str()) {
                Ok(equal) => Some(equal),
                Err(_) => None,
            };
            password_accepted(verdict)
        },
        None => false,
    }
}

/// An account that is ready to be stored.
#[derive(Debug)]
pub struct NewUser {
    pub username: String,
    pub password_hash: String,
    pub is_admin: bool,
    pub created_at: Timestamp,
}

/// Puts an account together from what hashing its password gave: the hash,
/// or the reason why there is none. Without a hash there is no account, and
/// the reason is handed on.
pub fn new_user(
    username: &str,
    hashed: Result<String, String>,
    is_admin: bool,
    created_at: Timestamp,
) -> (user: Result<NewUser, StoreError>)
    ensures
        match hashed {
            Ok(password_hash) => {
                &&& user matches Ok(account)
                &&& account.username@ == username@
                &&& account.password_hash == password_hash
                &&& account.is_admin == is_admin
                &&& account.created_at == created_at
            },
            Err(reason) => user matches Err(error) && error.message == reason,
        },
{
    match hashed {
        Ok(password_hash) => Ok(
            NewUser { username: username.to_owned(), password_hash, is_admin, created_at },
        ),
        Err(message) => Err(StoreError { message }),
    }
}

/// Prepares a new account: hashes `password` and puts the account together.
/// Whether hashing succeeds is for the hashing to say; where it does, the
/// account carries the given name, role and time.
pub fn create_user(username: &str, password: &str, is_admin: bool, created_at: Timestamp) -> (user:
    Result<NewUser, StoreError>)
    ensures
        user matches Ok(account) ==> {
            &&& account.username@ == username@
            &&& account.is_admin == is_admin
            &&& account.created_at == created_at
        },
{
    let hashed = match bcrypt_hash(password) {
        Ok(password_hash) => Ok(password_hash),
        Err(error) => Err(bcrypt_error_text(&error)),
    };
    new_user(username, hashed, is_admin, created_at)
}

/// When a session that begins at `now` ends; `None` where that is beyond
/// what a timestamp can hold.
pub open spec fn expiry(now: Timestamp) -> Option<Timestamp> {
    if now.seconds + SESSION_LIFETIME <= i64::MAX {
        Some(Timestamp { seconds: (now.seconds + SESSION_LIFETIME) as i64, nanoseconds: now.nanoseconds })
    } else {
        None
    }
}

/// Opens a session for `user_id` at `now`, under a fresh token.
pub fn create_session(user_id: i64, now: Timestamp) -> (session: Option<Session>)
    ensures
        session is Some <==> expiry(now) is Some,
        session matches Some(opened) ==> {
            &&& opened.user_id == user_id
            &&& Some(opened.expires_at) == expiry(now)
            &&& exists|bytes: Seq<u8>| bytes.len() == TOKEN_BYTES && opened.token@ == hex(bytes)
        },
{
    if now.seconds > i64::MAX - SESSION_LIFETIME {
        return None;
    }
    let expires_at = Timestamp {
        seconds: now.seconds + SESSION_LIFETIME,
        nanoseconds: now.nanoseconds,
    };
    Some(Session { token: generate_session_token(), user_id, expires_at })
}

/// How a request that needs a login is to be treated.
#[derive(Debug, Clone, Copy, PartialEq, Eq, Structural)]
pub enum Access {
    /// The session is known and has not ended.
    Granted,
    /// The session is known but has ended.
    Expired,
    /// No such session.
    Denied,
}

/// A session grants access until the moment it expires.
pub open spec fn access_of(session: Option<&Session>, now: Timestamp) -> Access {
    match session {
        Some(session) => if session.expires_at.before(now) {
            Access::Expired
        } else {
            Access::Granted
        },
        None => Access::Denied,
    }
}

/// Decides on a request made at `now` under `session`.
pub fn check_access(session: Option<&Session>, now: &Timestamp) -> (access: Access)
    ensures
        access == access_of(session, *now),
{
    match session {
        Some(session) => {
            if session.expires_at.is_before(now) {
                Access::Expired
            } else {
                Access::Granted
            }
        },
        None => Access::Denied,
    }
}

/// What the control plane reports about the state of the installation.
#[derive(Debug, Clone, Copy, PartialEq, Eq, Structural)]
pub struct ConfigurationStatus {
    pub configured: bool,
    pub admin_exists: bool,
    pub settings_exist: bool,
}

/// Whether stored settings name at least one notification service.
pub open spec fn names_a_service(settings: Option<&AppSettings>) -> bool {
    match settings {
        Some(settings) => settings.ntfy_url is Some || settings.discord_webhook_url is Some
            || settings.slack_webhook_url is Some || settings.gotify_url is Some,
        None => false,
    }
}

/// The installation is configured once an administrator exists and the
/// settings name a notification service.
pub open spec fn status_of(admins: i64, settings: Option<&AppSettings>) -> ConfigurationStatus {
    ConfigurationStatus {
        configured: admins > 0 && names_a_service(settings),
        admin_exists: admins > 0,
        settings_exist: names_a_service(settings),
    }
}

/// Reports whether the installation is configured, from the number of
/// administrators and the stored settings.
pub fn is_configured(admins: i64, settings: Option<&AppSettings>) -> (status: ConfigurationStatus)
    ensures
        status == status_of(admins, settings),
{
    let admin_exists = admins > 0;
    let settings_exist = match settings {
        Some(settings) => settings.ntfy_url.is_some() || settings.discord_webhook_url.is_some()
            || settings.slack_webhook_url.is_some() || settings.gotify_url.is_some(),
        None => false,
    };
    ConfigurationStatus { configured: admin_exists && settings_exist, admin_exists, settings_exist }
}

/// Whether the first administrator is to be created at start-up: there is
/// none yet, and both a name and a password are given and not empty.
pub open spec fn admin_wanted(admins: i64, username: Option<Seq<char>>, password: Option<Seq<char>>) -> bool {
    &&& admins == 0
    &&& username matches Some(name)
    &&& password matches Some(secret)
    &&& name.len() > 0
    &&& secret.len() > 0
}

/// Decides whether the first administrator is to be created at start-up.
pub fn should_create_admin(admins: i64, username: Option<&str>, password: Option<&str>) -> (wanted: bool)
    ensures
        wanted == admin_wanted(admins, username.deep_view(), password.deep_view()),
{
    if admins != 0 {
        return false;
    }
    match (username, password) {
        (Some(name), Some(secret)) => name.unicode_len() > 0 && secret.unicode_len() > 0,
        _ => false,
    }
}

} // verus!
