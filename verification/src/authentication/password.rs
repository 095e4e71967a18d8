use crate::idempotency::persistence::UserId;
use vstd::prelude::*;
use vstd::string::StringExecFns;

verus! {

/// Why a caller was not authenticated. Each variant carries the cause, for
/// the log.
#[derive(Debug, PartialEq, Eq)]
pub enum AuthError {
    /// The credentials are wrong.
    InvalidCredentials(String),
    /// The check itself failed.
    UnexpectedError(String),
}

/// What an authentication error is, as plain values.
pub ghost enum AuthErrorView {
    InvalidCredentials(Seq<char>),
    UnexpectedError(Seq<char>),
}

impl View for AuthError {
    type V = AuthErrorView;

    open spec fn view(&self) -> AuthErrorView {
        match *self {
            AuthError::InvalidCredentials(cause) => AuthErrorView::InvalidCredentials(cause@),
            AuthError::UnexpectedError(cause) => AuthErrorView::UnexpectedError(cause@),
        }
    }
}

/// What a verdict is, as plain values.
pub open spec fn verdict_view<T>(verdict: Result<T, AuthError>) -> Result<T, AuthErrorView> {
    match verdict {
        Ok(value) => Ok(value),
        Err(e) => Err(e@),
    }
}

impl AuthError {
    /// The sentence that the error is shown with: a fixed one for wrong
    /// credentials, the cause itself for a failed check.
    pub fn message(&self) -> (text: String)
        ensures
            text@ == match *self {
                AuthError::InvalidCredentials(_) => "Invalid credentials."@,
                AuthError::UnexpectedError(cause) => cause@,
            },
    {
        match self {
            AuthError::InvalidCredentials(_) => String::from_str("Invalid credentials."),
            AuthError::UnexpectedError(cause) => cause.clone(),
        }
    }
}

/// A user name and the password offered for it.
#[derive(Debug)]
pub struct Credentials {
    pub username: String,
    pub password: String,
}

/// What is stored for a user name: the user and the hash of the password,
/// as a PHC string.
#[derive(Debug)]
pub struct StoredCredentials {
    pub user_id: UserId,
    pub password_hash: String,
}

/// The hash that a password is checked against where the user name is
/// unknown, so that the check takes as long as for a known one.
pub const FALLBACK_PASSWORD_HASH: &'static str =
    "$argon2id$v=19$m=15000,t=2,p=1$gZiV/M1gPc22ElAH/Jh1Hw$CWOrkoo7oJBQ/iyh7uJ0LO2aLEfrHwTWllSAxT0zRno";

/// The memory, in KiB blocks, that hashing a new password takes.
pub const HASH_MEMORY_COST: u32 = 15000;

/// The iterations of hashing a new password.
pub const HASH_TIME_COST: u32 = 2;

/// The lanes of hashing a new password.
pub const HASH_PARALLELISM: u32 = 1;

/// What checking `password` against the PHC string `expected_password_hash`
/// gives with `argon2`'s default settings: `None` where the string is no
/// PHC string, else whether the password was accepted.
pub uninterp spec fn password_check(expected_password_hash: Seq<char>, password: Seq<char>) -> Option<bool>;

/// Parses the hash with `argon2::PasswordHash::new` and checks the
/// password with `Argon2::default().verify_password`. The result depends
/// on the two texts alone. A string that does not parse gives `None`; a
/// check that fails, for whatever reason, gives `Some(false)`.
#[verifier::external_body]
fn argon2_verify(expected_password_hash: &str, password: &str) -> (check: Option<bool>)
    ensures
        check == password_check(expected_password_hash@, password@),
{
    match argon2::PasswordHash::new(expected_password_hash) {
        Err(_) => None,
        Ok(parsed) => Some(
            argon2::PasswordVerifier::verify_password(
                &argon2::Argon2::default(),
                password.as_bytes(),
                &parsed,
            ).is_ok(),
        ),
    }
}

/// Hashes the password with `argon2`'s Argon2id, version 19, under a salt
/// that `SaltString::generate` draws from `rand::thread_rng`, and returns
/// the PHC string, or the text of `argon2`'s error. The costs must be ones
/// that `argon2::Params::new` accepts. The salt is random, so the string is
/// not determined; whatever it is, it is a PHC string against which
/// `argon2`'s default verifier accepts the password, as the crate's
/// documentation shows for the pair of `hash_password` and
/// `verify_password`.
#[verifier::external_body]
fn argon2id_hash(password: &str, m_cost: u32, t_cost: u32, p_cost: u32) -> (hashed: Result<String, String>)
    requires
        1 <= p_cost <= 0xFF_FFFF,
        1 <= t_cost,
        8 <= m_cost,
        8 * p_cost <= m_cost,
    ensures
        hashed matches Ok(hash) ==> password_check(hash@, password@) == Some(true),
{
    let salt = argon2::password_hash::SaltString::generate(&mut rand::thread_rng());
    let params = argon2::Params::new(m_cost, t_cost, p_cost, None).unwrap();
    let hasher = argon2::Argon2::new(argon2::Algorithm::Argon2id, argon2::Version::V0x13, params);
    match argon2::PasswordHasher::hash_password(&hasher, password.as_bytes(), &salt) {
        Ok(hash) => Ok(hash.to_string()),
        Err(e) => Err(e.to_string()),
    }
}

/// What the outcome of a password check means: a hash that is no PHC
/// string is a failure of the check, a password that was not accepted is a
/// wrong credential.
pub open spec fn hash_check_meaning(check: Option<bool>) -> Result<(), AuthErrorView> {
    match check {
        Some(true) => Ok(()),
        Some(false) => Err(AuthErrorView::InvalidCredentials("Invalid password."@)),
        None => Err(AuthErrorView::UnexpectedError("Failed to parse hash in PHC string format."@)),
    }
}

/// Turns the outcome of a password check into a verdict.
pub fn hash_check_verdict(check: Option<bool>) -> (verdict: Result<(), AuthError>)
    ensures
        verdict_view(verdict) == hash_check_meaning(check),
{
    match check {
        Some(true) => Ok(()),
        Some(false) => Err(AuthError::InvalidCredentials(String::from_str("Invalid password."))),
        None => Err(
            AuthError::UnexpectedError(String::from_str("Failed to parse hash in PHC string format.")),
        ),
    }
}

/// Checks `password_candidate` against the PHC string
/// `expected_password_hash`.
pub fn verify_password_hash(expected_password_hash: &str, password_candidate: &str) -> (verdict: Result<
    (),
    AuthError,
>)
    ensures
        verdict_view(verdict) == hash_check_meaning(
            password_check(expected_password_hash@, password_candidate@),
        ),
{
    hash_check_verdict(argon2_verify(expected_password_hash, password_candidate))
}

/// The hash that the password of `stored` is checked against.
pub open spec fn expected_hash(stored: Option<StoredCredentials>) -> Seq<char> {
    match stored {
        Some(found) => found.password_hash@,
        None => FALLBACK_PASSWORD_HASH@,
    }
}

/// Whether the caller is the user that the credentials name, given the
/// outcome of the password check against the expected hash and the user
/// that the store knows under the name, if any. A check that did not
/// accept the password fails the caller, whatever the reason. A password
/// that happens to match the fallback hash authenticates nobody.
pub open spec fn credentials_meaning(check: Option<bool>, user_id: Option<UserId>) -> Result<
    UserId,
    AuthErrorView,
> {
    if check != Some(true) {
        Err(AuthErrorView::InvalidCredentials("Invalid password"@))
    } else {
        match user_id {
            Some(id) => Ok(id),
            None => Err(AuthErrorView::InvalidCredentials("Unknown username."@)),
        }
    }
}

/// The user that `stored` names, if any.
pub open spec fn stored_user(stored: Option<StoredCredentials>) -> Option<UserId> {
    match stored {
        Some(found) => Some(found.user_id),
        None => None,
    }
}

/// Decides whether the caller is authenticated, from the outcome of the
/// password check and the user found under the name.
pub fn credentials_verdict(check: Option<bool>, user_id: Option<UserId>) -> (verdict: Result<
    UserId,
    AuthError,
>)
    ensures
        verdict_view(verdict) == credentials_meaning(check, user_id),
{
    match check {
        Some(true) => match user_id {
            Some(id) => Ok(id),
            None => Err(AuthError::InvalidCredentials(String::from_str("Unknown username."))),
        },
        _ => Err(AuthError::InvalidCredentials(String::from_str("Invalid password"))),
    }
}

/// Authenticates `credentials` against what is stored under their user
/// name. The password is checked even where nothing is stored, against the
/// fallback hash, and the answer is then a wrong credential in any case.
pub fn validate_credentials(credentials: Credentials, stored: Option<StoredCredentials>) -> (verdict:
    Result<UserId, AuthError>)
    ensures
        verdict_view(verdict) == credentials_meaning(
            password_check(expected_hash(stored), credentials.password@),
            stored_user(stored),
        ),
{
    let (user_id, expected_password_hash) = match stored {
        Some(found) => (Some(found.user_id), found.password_hash),
        None => (None, String::from_str(FALLBACK_PASSWORD_HASH)),
    };
    let check = argon2_verify(expected_password_hash.as_str(), credentials.password.as_str());
    credentials_verdict(check, user_id)
}

/// Hashes a new password with the service's costs. The salt is random, so
/// two calls give different hashes, each of which verifies the password; a
/// failure carries the hasher's message.
pub fn compute_password_hash(password: &str) -> (hashed: Result<String, String>)
    ensures
        hashed matches Ok(hash) ==> password_check(hash@, password@) == Some(true),
{
    argon2id_hash(password, HASH_MEMORY_COST, HASH_TIME_COST, HASH_PARALLELISM)
}

/// The row to write when a user's password changes.
#[derive(Debug)]
pub struct PasswordUpdate {
    pub user_id: UserId,
    pub password_hash: String,
}

/// Prepares the change of a user's password: hashes the new password and
/// names the user whose stored hash is to be replaced. Where hashing fails
/// nothing is to be written.
pub fn change_password(user_id: UserId, password: &str) -> (update: Result<PasswordUpdate, String>)
    ensures
        update matches Ok(row) ==> row.user_id == user_id && password_check(
            row.password_hash@,
            password@,
        ) == Some(true),
        update matches Err(reason) ==> reason@ == "Failed to hash password"@,
{
    match compute_password_hash(password) {
        Ok(password_hash) => Ok(PasswordUpdate { user_id, password_hash }),
        Err(_) => Err(String::from_str("Failed to hash password")),
    }
}

} // verus!
