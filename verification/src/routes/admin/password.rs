//! Changing the operator's password.

use crate::authentication::password::{
    compute_password_hash, credentials_meaning, expected_hash, password_check, stored_user,
    validate_credentials, AuthError, AuthErrorView, Credentials, PasswordUpdate, StoredCredentials,
};
use crate::idempotency::persistence::UserId;
use crate::text::same_text;
use vstd::prelude::*;
use vstd::string::StringExecFns;

verus! {

/// A new password has at least this many bytes.
pub const MIN_PASSWORD_LENGTH: usize = 12;

/// A new password has at most this many bytes.
pub const MAX_PASSWORD_LENGTH: usize = 129;

/// The password form as it arrives.
#[derive(Debug)]
pub struct FormData {
    pub new_password: String,
    pub current_password: String,
    pub new_password_check: String,
}

/// What is wrong with the new password of a form, if anything: its length
/// in bytes is tested first, then that it was typed the same twice.
pub open spec fn new_password_problem(new_password: Seq<char>, new_password_check: Seq<char>) -> Option<
    Seq<char>,
> {
    let length = vstd::utf8::encode_utf8(new_password).len();
    if !(MIN_PASSWORD_LENGTH <= length <= MAX_PASSWORD_LENGTH) {
        Some("The password size must be between 12 and 129"@)
    } else if new_password != new_password_check {
        Some("The new password doesn't match"@)
    } else {
        None
    }
}

/// Tests the new password of a form and returns the message to flash
/// where it will not do.
pub fn check_new_password(form: &FormData) -> (problem: Option<String>)
    ensures
        match new_password_problem(form.new_password@, form.new_password_check@) {
            Some(text) => problem matches Some(message) && message@ == text,
            None => problem is None,
        },
{
    let new_password_len: usize = form.new_password.as_str().as_bytes().len();
    if !(MIN_PASSWORD_LENGTH <= new_password_len && new_password_len <= MAX_PASSWORD_LENGTH) {
        return Some(String::from_str("The password size must be between 12 and 129"));
    }
    if !same_text(form.new_password.as_str(), form.new_password_check.as_str()) {
        return Some(String::from_str("The new password doesn't match"));
    }
    None
}

/// How a request to change the password ends.
#[derive(Debug)]
pub enum PasswordChange {
    /// The request is turned down; the caller goes back to the form and
    /// sees the message.
    Refused(String),
    /// The check or the hashing failed: a server error, with the cause.
    Failed(String),
    /// The stored hash of the user is to be replaced; once that is done
    /// the caller goes back to the form and sees the message.
    Accepted { update: PasswordUpdate, flash_message: String },
}

/// Decides a request to change the password of `user_id`, whose user name
/// is `username` and for whom `stored` was found.
///
/// A new password that will not do is refused before anything else. Then
/// the current password is checked: where it is wrong the request is
/// refused, where the check fails the request fails. Otherwise the new
/// password is hashed, and the request is accepted unless hashing fails.
pub fn change_password(user_id: UserId, form: FormData, username: String, stored: Option<StoredCredentials>) -> (decision:
    PasswordChange)
    ensures
        match new_password_problem(form.new_password@, form.new_password_check@) {
            Some(text) => decision matches PasswordChange::Refused(message) && message@ == text,
            None => match credentials_meaning(
                password_check(expected_hash(stored), form.current_password@),
                stored_user(stored),
            ) {
                Err(AuthErrorView::InvalidCredentials(_)) => decision matches PasswordChange::Refused(
                    message,
                ) && message@ == "The current password is incorrect"@,
                Err(AuthErrorView::UnexpectedError(cause)) => decision matches PasswordChange::Failed(
                    message,
                ) && message@ == cause,
                Ok(_) => match decision {
                    PasswordChange::Accepted { update, flash_message } => update.user_id == user_id
                        && password_check(update.password_hash@, form.new_password@) == Some(true)
                        && flash_message@ == "Changed password successfully"@,
                    PasswordChange::Failed(message) => message@ == "Failed to hash password"@,
                    PasswordChange::Refused(_) => false,
                },
            },
        },
{
    match check_new_password(&form) {
        Some(message) => {
            return PasswordChange::Refused(message);
        },
        None => {},
    }
    let FormData { new_password, current_password, new_password_check: _ } = form;
    let credentials = Credentials { username, password: current_password };
    match validate_credentials(credentials, stored) {
        Err(AuthError::InvalidCredentials(_)) => PasswordChange::Refused(
            String::from_str("The current password is incorrect"),
        ),
        Err(AuthError::UnexpectedError(cause)) => PasswordChange::Failed(cause),
        Ok(_) => match compute_password_hash(new_password.as_str()) {
            Ok(password_hash) => PasswordChange::Accepted {
                update: PasswordUpdate { user_id, password_hash },
                flash_message: String::from_str("Changed password successfully"),
            },
            Err(_) => PasswordChange::Failed(String::from_str("Failed to hash password")),
        },
    }
}

} // verus!
