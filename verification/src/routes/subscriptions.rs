//! Subscribing: the form, the errors and their answers, the confirmation
//! token and the e-mail that carries it.

use crate::domain::new_subscriber::NewSubscriber;
use crate::domain::subscriber_email::{email_accepted, invalid_email_reason, SubscriberEmail};
use crate::domain::subscriber_name::{invalid_name_reason, is_valid_name, SubscriberName};
use crate::issue_delivery_worker::{EmailView, OutgoingEmail};
use crate::text::joined;
use vstd::prelude::*;
use vstd::string::StringExecFns;

verus! {

/// A confirmation token has this many characters.
pub const SUBSCRIPTION_TOKEN_LENGTH: usize = 25;

/// The subscription token could not be stored. The value is the database's
/// message.
#[derive(Debug, PartialEq, Eq)]
pub struct StoreTokenError(pub String);

impl StoreTokenError {
    /// The sentence that the error is shown with.
    pub fn message(&self) -> (text: String)
        ensures
            text@ == "Database error encountered while storing a subscription token"@,
    {
        String::from_str("Database error encountered while storing a subscription token")
    }

    /// The cause of the error: the database's message.
    pub fn source(&self) -> (cause: Option<String>)
        ensures
            cause matches Some(text) && text@ == self.0@,
    {
        Some(self.0.clone())
    }
}

/// Why a subscription failed. A variant that stands for a failure of the
/// database or of the transport carries that failure's message.
#[derive(Debug, PartialEq, Eq)]
pub enum SubscribeError {
    PoolError(String),
    ValidationError(String),
    SendEmailError(String),
    StoreTokenError(StoreTokenError),
    InsertSubscriberError(String),
    TransactionCommitError(String),
}

impl SubscribeError {
    /// The sentence that the error is shown with.
    pub fn message(&self) -> (text: String)
        ensures
            text@ == match *self {
                SubscribeError::ValidationError(reason) => reason@,
                SubscribeError::PoolError(_) => "Failed to acquire database connection pool"@,
                SubscribeError::InsertSubscriberError(_) => "Failed to save the new subscriber"@,
                SubscribeError::TransactionCommitError(_) =>
                    "Failed to commit all changes and save new subscriber information plus token"@,
                SubscribeError::SendEmailError(_) => "Failed to sent confirmation error"@,
                SubscribeError::StoreTokenError(_) =>
                    "Failed to save confirmation token for then new subscriber"@,
            },
    {
        match self {
            SubscribeError::ValidationError(reason) => reason.clone(),
            SubscribeError::PoolError(_) => String::from_str("Failed to acquire database connection pool"),
            SubscribeError::InsertSubscriberError(_) => String::from_str(
                "Failed to save the new subscriber",
            ),
            SubscribeError::TransactionCommitError(_) => String::from_str(
                "Failed to commit all changes and save new subscriber information plus token",
            ),
            SubscribeError::SendEmailError(_) => String::from_str("Failed to sent confirmation error"),
            SubscribeError::StoreTokenError(_) => String::from_str(
                "Failed to save confirmation token for then new subscriber",
            ),
        }
    }

    /// The sentence of the error's cause. A validation error is its own
    /// root and has none.
    pub fn source(&self) -> (cause: Option<String>)
        ensures
            match *self {
                SubscribeError::ValidationError(_) => cause is None,
                SubscribeError::PoolError(e) => cause matches Some(text) && text@ == e@,
                SubscribeError::SendEmailError(e) => cause matches Some(text) && text@ == e@,
                SubscribeError::InsertSubscriberError(e) => cause matches Some(text) && text@ == e@,
                SubscribeError::TransactionCommitError(e) => cause matches Some(text) && text@ == e@,
                SubscribeError::StoreTokenError(_) => cause matches Some(text) && text@
                    == "Database error encountered while storing a subscription token"@,
            },
    {
        match self {
            SubscribeError::ValidationError(_) => None,
            SubscribeError::PoolError(e) => Some(e.clone()),
            SubscribeError::SendEmailError(e) => Some(e.clone()),
            SubscribeError::InsertSubscriberError(e) => Some(e.clone()),
            SubscribeError::TransactionCommitError(e) => Some(e.clone()),
            SubscribeError::StoreTokenError(e) => Some(e.message()),
        }
    }

    /// The HTTP status that the error is answered with: a bad request for
    /// invalid data, a server error for everything else.
    pub fn status_code(&self) -> (code: u16)
        ensures
            code == match *self {
                SubscribeError::ValidationError(_) => 400u16,
                _ => 500u16,
            },
    {
        match self {
            SubscribeError::ValidationError(_) => 400,
            SubscribeError::PoolError(_)
            | SubscribeError::SendEmailError(_)
            | SubscribeError::InsertSubscriberError(_)
            | SubscribeError::TransactionCommitError(_)
            | SubscribeError::StoreTokenError(_) => 500,
        }
    }
}

/// The subscription form as it arrives.
#[derive(Debug, PartialEq, Eq)]
pub struct FormData {
    pub name: String,
    pub email: String,
}

impl NewSubscriber {
    /// Validates a subscription form: first the name, then the address. The
    /// first of the two that is invalid is reported.
    pub fn try_from(value: FormData) -> (parsed: Result<NewSubscriber, String>)
        ensures
            parsed is Ok <==> is_valid_name(value.name@) && email_accepted(value.email@),
            parsed matches Ok(subscriber) ==> subscriber.name@ == value.name@ && subscriber.email@
                == value.email@,
            parsed matches Err(reason) ==> reason@ == if !is_valid_name(value.name@) {
                invalid_name_reason(value.name@)
            } else {
                invalid_email_reason(value.email@)
            },
    {
        let name = match SubscriberName::parse(value.name) {
            Ok(name) => name,
            Err(reason) => {
                return Err(reason);
            },
        };
        let email = match SubscriberEmail::parse(value.email) {
            Ok(email) => email,
            Err(reason) => {
                return Err(reason);
            },
        };
        Ok(NewSubscriber { email, name })
    }
}

/// The link that confirms a subscription.
pub open spec fn confirmation_link(base_url: Seq<char>, token: Seq<char>) -> Seq<char> {
    base_url + "/subscriptions/confirm?subscription_token="@ + token
}

/// The e-mail that asks `recipient` to confirm.
pub open spec fn confirmation_email_view(base_url: Seq<char>, recipient: Seq<char>, token: Seq<char>) -> EmailView {
    let link = confirmation_link(base_url, token);
    EmailView {
        recipient,
        subject: "Welcome!"@,
        html_content: "Welcome to our newsletter!<br />Click <a href=\""@ + link
            + "\">here</a> to confirm your subscription."@,
        text_content: "Welcome to our newsletter!\nVisit "@ + link + " to confirm your subscription."@,
    }
}

/// The e-mail that asks a new subscriber to confirm, with the link that
/// carries `confirmation_token`. Sending it is the caller's part.
pub fn send_confirmation(base_url: &str, new_subscriber: NewSubscriber, confirmation_token: &str) -> (email:
    OutgoingEmail)
    ensures
        email@ == confirmation_email_view(base_url@, new_subscriber.email@, confirmation_token@),
{
    let confirmation_link = joined(base_url, "/subscriptions/confirm?subscription_token=").concat(
        confirmation_token,
    );
    let html_body = joined(
        "Welcome to our newsletter!<br />Click <a href=\"",
        confirmation_link.as_str(),
    ).concat("\">here</a> to confirm your subscription.");
    let text_content = joined("Welcome to our newsletter!\nVisit ", confirmation_link.as_str()).concat(
        " to confirm your subscription.",
    );
    OutgoingEmail {
        recipient: new_subscriber.email,
        subject: String::from_str("Welcome!"),
        html_content: html_body,
        text_content,
    }
}

/// ASCII letters and digits.
pub open spec fn is_ascii_alphanumeric(c: char) -> bool {
    let code = c as u32;
    (0x30 <= code <= 0x39) || (0x41 <= code <= 0x5a) || (0x61 <= code <= 0x7a)
}

/// Draws one character with `rand::thread_rng` from `rand`'s
/// `Alphanumeric` distribution, which yields ASCII letters and digits only.
/// Which of them comes is left to chance.
#[verifier::external_body]
fn sample_alphanumeric() -> (c: char)
    ensures
        is_ascii_alphanumeric(c),
{
    char::from(rand::Rng::sample(&mut rand::thread_rng(), rand::distributions::Alphanumeric))
}

/// Calls `String::push`, which appends one character.
#[verifier::external_body]
fn push_char(text: &mut String, c: char)
    ensures
        final(text)@ == old(text)@.push(c),
{
    text.push(c)
}

/// Generates a random subscription token: `SUBSCRIPTION_TOKEN_LENGTH`
/// characters, each an ASCII letter or digit, case sensitive.
pub fn generate_subscription_token() -> (token: String)
    ensures
        token@.len() == SUBSCRIPTION_TOKEN_LENGTH,
        forall|i: int| 0 <= i < token@.len() ==> is_ascii_alphanumeric(#[trigger] token@[i]),
{
    let mut token = String::new();
    let mut i: usize = 0;
    while i < SUBSCRIPTION_TOKEN_LENGTH
        invariant
            i <= SUBSCRIPTION_TOKEN_LENGTH,
            token@.len() == i,
            forall|j: int| 0 <= j < token@.len() ==> is_ascii_alphanumeric(#[trigger] token@[j]),
        decreases SUBSCRIPTION_TOKEN_LENGTH - i,
    {
        let c = sample_alphanumeric();
        push_char(&mut token, c);
        i += 1;
    }
    token
}

/// An error and the causes behind it, written out: the error's sentence on
/// a line of its own, then each cause, outermost first, under a line that
/// says `Caused by:`.
pub open spec fn error_chain(message: Seq<char>, causes: Seq<Seq<char>>) -> Seq<char>
    decreases causes.len(),
{
    if causes.len() == 0 {
        message + "\n"@
    } else {
        error_chain(message, causes.drop_last()) + "Caused by:\n\t"@ + causes.last() + "\n"@
    }
}

/// Writes out an error with the whole chain of causes that led to it.
pub fn error_chain_fmt(message: &str, causes: &Vec<String>) -> (text: String)
    ensures
        text@ == error_chain(message@, causes@.map_values(|cause: String| cause@)),
{
    let ghost all = causes@.map_values(|cause: String| cause@);
    let mut text = joined(message, "\n");
    let mut i: usize = 0;
    proof {
        assert(all.take(0) == Seq::<Seq<char>>::empty());
    }
    while i < causes.len()
        invariant
            i <= causes.len(),
            all == causes@.map_values(|cause: String| cause@),
            text@ == error_chain(message@, all.take(i as int)),
        decreases causes.len() - i,
    {
        proof {
            assert(all.take(i + 1).drop_last() == all.take(i as int));
            assert(all.take(i + 1).last() == causes@[i as int]@);
        }
        text.append("Caused by:\n\t");
        text.append(causes[i].as_str());
        text.append("\n");
        i += 1;
    }
    proof {
        assert(all.take(i as int) == all);
    }
    text
}

} // verus!
