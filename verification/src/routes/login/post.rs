use crate::authentication::password::{AuthError, AuthErrorView};
use crate::idempotency::persistence::{CachedResponse, UserId};
use crate::routes::admin::newsletter::{see_other, see_other_view};
use vstd::prelude::*;
use vstd::string::StringExecFns;

verus! {

/// The login form as it arrives.
#[derive(Debug)]
pub struct FormData {
    pub username: String,
    pub password: String,
}

/// Why a login failed. Each variant carries the cause, for the log.
#[derive(Debug, PartialEq, Eq)]
pub enum LoginError {
    AuthError(String),
    UnexpectedError(String),
}

impl LoginError {
    /// The sentence that the error is shown with. It gives nothing of the
    /// cause away.
    pub fn message(&self) -> (text: String)
        ensures
            text@ == match *self {
                LoginError::AuthError(_) => "Authentication failed"@,
                LoginError::UnexpectedError(_) => "Something went wrong"@,
            },
    {
        match self {
            LoginError::AuthError(_) => String::from_str("Authentication failed"),
            LoginError::UnexpectedError(_) => String::from_str("Something went wrong"),
        }
    }
}

/// A login that succeeded: the session is renewed and bound to `user_id`,
/// and the caller is sent to `response`.
#[derive(Debug)]
pub struct LoginSuccess {
    pub user_id: UserId,
    pub response: CachedResponse,
}

/// A login that failed: `flash_message` is shown on the next page, and the
/// caller is sent to `response`.
#[derive(Debug)]
pub struct LoginRejection {
    pub error: LoginError,
    pub flash_message: String,
    pub response: CachedResponse,
}

/// Redirect to the login page with an error message.
pub fn login_redirect(e: LoginError) -> (rejection: LoginRejection)
    ensures
        rejection.error == e,
        rejection.flash_message@ == match e {
            LoginError::AuthError(_) => "Authentication failed"@,
            LoginError::UnexpectedError(_) => "Something went wrong"@,
        },
        rejection.response@ == see_other_view("/login"@),
{
    let flash_message = e.message();
    LoginRejection { error: e, flash_message, response: see_other("/login") }
}

/// Answers a login attempt whose credentials have been checked. A user
/// that was authenticated is sent to the home page. Wrong credentials and a
/// failed check both lead back to the login page, with a message that
/// tells the two apart and nothing more; the cause goes into the error.
pub fn login(validation: Result<UserId, AuthError>) -> (answer: Result<LoginSuccess, LoginRejection>)
    ensures
        match validation {
            Ok(user_id) => answer matches Ok(success) && success.user_id == user_id
                && success.response@ == see_other_view("/"@),
            Err(auth_error) => answer matches Err(rejection) && rejection.response@ == see_other_view(
                "/login"@,
            ) && match auth_error@ {
                AuthErrorView::InvalidCredentials(_) => rejection.error matches LoginError::AuthError(
                    cause,
                ) && cause@ == "Invalid credentials."@ && rejection.flash_message@
                    == "Authentication failed"@,
                AuthErrorView::UnexpectedError(text) => rejection.error matches LoginError::UnexpectedError(
                    cause,
                ) && cause@ == text && rejection.flash_message@ == "Something went wrong"@,
            },
        },
{
    match validation {
        Ok(user_id) => Ok(LoginSuccess { user_id, response: see_other("/") }),
        Err(error) => {
            let cause = error.message();
            let e = match error {
                AuthError::InvalidCredentials(_) => LoginError::AuthError(cause),
                AuthError::UnexpectedError(_) => LoginError::UnexpectedError(cause),
            };
            Err(login_redirect(e))
        },
    }
}

} // verus!
