//! Publishing over the API: `Basic` authentication, the e-mails that an
//! issue is made of, and the answers to a failure.

pub use crate::authentication::password::Credentials;
use crate::domain::subscriber_email::{email_accepted, invalid_email_reason, SubscriberEmail};
use crate::idempotency::persistence::{CachedResponse, HeaderPair, ResponseView};
use crate::issue_delivery_worker::{EmailView, OutgoingEmail};
use crate::text::joined;
use vstd::prelude::*;
use vstd::string::StrSliceExecFns;
use vstd::string::StringExecFns;
use vstd::utf8::{decode_utf8, encode_utf8, valid_utf8};

verus! {

/// A subscriber whose subscription is confirmed and whose address is valid.
#[derive(Debug)]
pub struct ConfirmedSubscriber {
    pub email: SubscriberEmail,
}

/// Why a publish request over the API failed. Each variant carries the
/// cause, for the log.
#[derive(Debug, PartialEq, Eq)]
pub enum PublishError {
    /// The caller is not authenticated.
    AuthError(String),
    /// Something else went wrong.
    UnexpectedError(String),
}

impl PublishError {
    /// The sentence that the error is shown with.
    pub fn message(&self) -> (text: String)
        ensures
            text@ == match *self {
                PublishError::AuthError(_) => "Authentication Failed"@,
                PublishError::UnexpectedError(cause) => cause@,
            },
    {
        match self {
            PublishError::AuthError(_) => String::from_str("Authentication Failed"),
            PublishError::UnexpectedError(cause) => cause.clone(),
        }
    }

    /// The response that the error is answered with: a challenge for
    /// `Basic` credentials where authentication failed, a bare server
    /// error otherwise.
    pub fn error_response(&self) -> (response: CachedResponse)
        ensures
            response@ == match *self {
                PublishError::AuthError(_) => ResponseView {
                    status_code: 401,
                    headers: seq![("WWW-Authenticate"@, encode_utf8("Basic realm=\"publish\""@))],
                    body: Seq::empty(),
                },
                PublishError::UnexpectedError(_) => ResponseView {
                    status_code: 500,
                    headers: Seq::empty(),
                    body: Seq::empty(),
                },
            },
    {
        match self {
            PublishError::AuthError(_) => {
                let mut headers: Vec<HeaderPair> = Vec::new();
                headers.push(
                    HeaderPair {
                        name: String::from_str("WWW-Authenticate"),
                        value: "Basic realm=\"publish\"".as_bytes_vec(),
                    },
                );
                let response = CachedResponse { status_code: 401, headers, body: Vec::new() };
                assert(response@.headers == seq![
                    ("WWW-Authenticate"@, encode_utf8("Basic realm=\"publish\""@)),
                ]);
                response
            },
            PublishError::UnexpectedError(_) => {
                let response = CachedResponse { status_code: 500, headers: Vec::new(), body: Vec::new() };
                assert(response@.headers == Seq::<(Seq<char>, Seq<u8>)>::empty());
                response
            },
        }
    }
}

/// The issue as the API takes it.
#[derive(Debug, PartialEq, Eq)]
pub struct BodyData {
    pub title: String,
    pub content: Content,
}

/// The two renderings of an issue.
#[derive(Debug, PartialEq, Eq)]
pub struct Content {
    pub html: String,
    pub text: String,
}

/// The `Authorization` header of a request, as far as it could be read.
#[derive(Debug, PartialEq, Eq)]
pub enum AuthorizationHeader {
    /// The request has no such header.
    Missing,
    /// The header's value is no text.
    NotText,
    /// The header's value.
    Value(String),
}

/// What an `Authorization` header is, as plain values.
pub ghost enum AuthorizationView {
    Missing,
    NotText,
    Value(Seq<char>),
}

impl View for AuthorizationHeader {
    type V = AuthorizationView;

    open spec fn view(&self) -> AuthorizationView {
        match *self {
            AuthorizationHeader::Missing => AuthorizationView::Missing,
            AuthorizationHeader::NotText => AuthorizationView::NotText,
            AuthorizationHeader::Value(text) => AuthorizationView::Value(text@),
        }
    }
}

/// What `base64`'s standard engine decodes `text` to, or `None` where it
/// turns `text` down.
pub uninterp spec fn base64_decoding(text: Seq<char>) -> Option<Seq<u8>>;

/// `base64::DecodeError`, the reason for which an input was turned down.
/// It is carried through unread.
#[verifier::external_type_specification]
#[verifier::external_body]
pub struct ExDecodeError(base64::DecodeError);

/// Calls `decode` of `base64::engine::general_purpose::STANDARD`. The
/// result depends on the text alone.
#[verifier::external_body]
fn base64_decode(text: &str) -> (decoded: Result<Vec<u8>, base64::DecodeError>)
    ensures
        match decoded {
            Ok(bytes) => base64_decoding(text@) == Some(bytes@),
            Err(_) => base64_decoding(text@) is None,
        },
{
    base64::Engine::decode(&base64::engine::general_purpose::STANDARD, text)
}

/// Calls `String::from_utf8`, which accepts exactly the byte strings that
/// are UTF-8 and keeps their bytes.
#[verifier::external_body]
fn string_from_utf8(bytes: Vec<u8>) -> (text: Option<String>)
    ensures
        text is Some <==> valid_utf8(bytes@),
        text matches Some(s) ==> s@ == decode_utf8(bytes@),
{
    match String::from_utf8(bytes) {
        Ok(s) => Some(s),
        Err(_) => None,
    }
}

/// The scheme that an `Authorization` header must begin with.
pub open spec fn basic_scheme() -> Seq<char> {
    seq!['B', 'a', 's', 'i', 'c', ' ']
}

/// The position of the first `:` in `text`, or the length of `text` where
/// it has none.
pub open spec fn colon_position(text: Seq<char>) -> int
    decreases text.len(),
{
    if text.len() == 0 {
        0
    } else if text[0] == ':' {
        0
    } else {
        1 + colon_position(text.drop_first())
    }
}

/// The user name and password in decoded credentials: what stands before
/// the first `:` and what stands behind it.
pub open spec fn split_credentials(decoded: Seq<char>) -> Result<(Seq<char>, Seq<char>), Seq<char>> {
    let at = colon_position(decoded);
    if at >= decoded.len() {
        Err("A password must be provided in 'Basic' auth."@)
    } else {
        Ok((decoded.take(at), decoded.skip(at + 1)))
    }
}

/// The credentials in decoded bytes, which must be UTF-8.
pub open spec fn credentials_in_bytes(bytes: Seq<u8>) -> Result<(Seq<char>, Seq<char>), Seq<char>> {
    if !valid_utf8(bytes) {
        Err("The decoded credential string is not valid UTF8."@)
    } else {
        split_credentials(decode_utf8(bytes))
    }
}

/// The credentials that an `Authorization` header carries, or the reason
/// for which it carries none.
pub open spec fn basic_auth_spec(header: AuthorizationView) -> Result<(Seq<char>, Seq<char>), Seq<char>> {
    match header {
        AuthorizationView::Missing => Err("The 'Authorization' header was missing"@),
        AuthorizationView::NotText => Err("The 'Authorization' header was not a valid UTF8 string."@),
        AuthorizationView::Value(text) => {
            if !(text.len() >= 6 && text.take(6) == basic_scheme()) {
                Err("The authorization scheme was not 'Basic'."@)
            } else {
                match base64_decoding(text.skip(6)) {
                    None => Err("Failed to base64-decode 'Basic' credentials."@),
                    Some(bytes) => credentials_in_bytes(bytes),
                }
            }
        },
    }
}

/// What parsed credentials are, as plain values.
pub open spec fn credentials_view(parsed: Result<Credentials, String>) -> Result<
    (Seq<char>, Seq<char>),
    Seq<char>,
> {
    match parsed {
        Ok(credentials) => Ok((credentials.username@, credentials.password@)),
        Err(reason) => Err(reason@),
    }
}

/// Where `text` has no `:` before position `at`, and `at` is its end or
/// holds a `:`, the first `:` is at `at`.
proof fn lemma_colon_position(text: Seq<char>, at: int)
    requires
        0 <= at <= text.len(),
        forall|j: int| 0 <= j < at ==> text[j] != ':',
        at == text.len() || text[at] == ':',
    ensures
        colon_position(text) == at,
    decreases text.len(),
{
    if text.len() > 0 && at > 0 {
        let rest = text.drop_first();
        assert forall|j: int| 0 <= j < at - 1 implies rest[j] != ':' by {
            assert(rest[j] == text[j + 1]);
        }
        lemma_colon_position(rest, at - 1);
    }
}

/// The position of the first `:` in `text`, or the length of `text` where
/// it has none.
fn find_colon(text: &str) -> (at: usize)
    ensures
        at == colon_position(text@),
        at <= text@.len(),
{
    let length: usize = text.unicode_len();
    let mut at: usize = 0;
    while at < length
        invariant
            length == text@.len(),
            at <= length,
            forall|j: int| 0 <= j < at ==> text@[j] != ':',
        decreases length - at,
    {
        if text.get_char(at) == ':' {
            proof {
                lemma_colon_position(text@, at as int);
            }
            return at;
        }
        at += 1;
    }
    proof {
        lemma_colon_position(text@, at as int);
    }
    at
}

/// Splits decoded credentials at the first `:` into user name and
/// password. Credentials without a `:` name no password and are turned
/// down.
pub fn credentials_from_text(decoded: &str) -> (parsed: Result<Credentials, String>)
    ensures
        credentials_view(parsed) == split_credentials(decoded@),
{
    let length: usize = decoded.unicode_len();
    let at: usize = find_colon(decoded);
    if at >= length {
        return Err(String::from_str("A password must be provided in 'Basic' auth."));
    }
    let username = String::from_str(decoded.substring_char(0, at));
    let password = String::from_str(decoded.substring_char(at + 1, length));
    proof {
        assert(decoded@.subrange(0, at as int) == decoded@.take(at as int));
        assert(decoded@.subrange(at + 1, length as int) == decoded@.skip(at + 1));
    }
    Ok(Credentials { username, password })
}

/// Reads credentials from decoded bytes: they must be UTF-8 and hold a
/// `:` between user name and password.
pub fn credentials_from_bytes(bytes: Vec<u8>) -> (parsed: Result<Credentials, String>)
    ensures
        credentials_view(parsed) == credentials_in_bytes(bytes@),
{
    match string_from_utf8(bytes) {
        None => Err(String::from_str("The decoded credential string is not valid UTF8.")),
        Some(decoded) => credentials_from_text(decoded.as_str()),
    }
}

/// Reads the credentials of `Basic` authentication from the
/// `Authorization` header: the scheme `Basic`, a blank, and the base64
/// encoding of the user name, a `:` and the password.
pub fn basic_auth(header: &AuthorizationHeader) -> (parsed: Result<Credentials, String>)
    ensures
        credentials_view(parsed) == basic_auth_spec(header@),
{
    let text = match header {
        AuthorizationHeader::Missing => {
            return Err(String::from_str("The 'Authorization' header was missing"));
        },
        AuthorizationHeader::NotText => {
            return Err(String::from_str("The 'Authorization' header was not a valid UTF8 string."));
        },
        AuthorizationHeader::Value(text) => text.as_str(),
    };
    let length: usize = text.unicode_len();
    if length < 6 || text.get_char(0) != 'B' || text.get_char(1) != 'a' || text.get_char(2) != 's'
        || text.get_char(3) != 'i' || text.get_char(4) != 'c' || text.get_char(5) != ' ' {
        proof {
            if length >= 6 {
                let head = text@.take(6);
                assert(head[0] == text@[0] && head[1] == text@[1] && head[2] == text@[2] && head[3]
                    == text@[3] && head[4] == text@[4] && head[5] == text@[5]);
                assert(basic_scheme()[0] == 'B' && basic_scheme()[1] == 'a' && basic_scheme()[2] == 's'
                    && basic_scheme()[3] == 'i' && basic_scheme()[4] == 'c' && basic_scheme()[5]
                    == ' ');
            }
        }
        return Err(String::from_str("The authorization scheme was not 'Basic'."));
    }
    proof {
        assert(text@.take(6) =~= basic_scheme());
    }
    let encoded = text.substring_char(6, length);
    proof {
        assert(text@.subrange(6, length as int) == text@.skip(6));
    }
    match base64_decode(encoded) {
        Err(_) => Err(String::from_str("Failed to base64-decode 'Basic' credentials.")),
        Ok(bytes) => credentials_from_bytes(bytes),
    }
}

/// The rows of the confirmed subscribers, each turned into a subscriber or
/// into the reason for which its address is invalid, in order.
pub open spec fn row_outcome(outcome: Result<ConfirmedSubscriber, String>, row: Seq<char>) -> bool {
    match outcome {
        Ok(subscriber) => email_accepted(row) && subscriber.email@ == row,
        Err(reason) => !email_accepted(row) && reason@ == invalid_email_reason(row),
    }
}

/// Validates the stored addresses of the confirmed subscribers, one
/// outcome for each row and in the rows' order. An invalid address gives
/// its reason and stops nothing.
pub fn get_confirmed_subscriber(rows: Vec<String>) -> (subscribers: Vec<Result<ConfirmedSubscriber, String>>)
    ensures
        subscribers@.len() == rows@.len(),
        forall|i: int| 0 <= i < rows@.len() ==> row_outcome(#[trigger] subscribers@[i], rows@[i]@),
{
    let mut subscribers: Vec<Result<ConfirmedSubscriber, String>> = Vec::new();
    let mut i: usize = 0;
    while i < rows.len()
        invariant
            i <= rows.len(),
            subscribers@.len() == i,
            forall|j: int| 0 <= j < i ==> row_outcome(#[trigger] subscribers@[j], rows@[j]@),
        decreases rows.len() - i,
    {
        let outcome = match SubscriberEmail::parse(rows[i].clone()) {
            Ok(email) => Ok(ConfirmedSubscriber { email }),
            Err(error) => Err(error),
        };
        subscribers.push(outcome);
        i += 1;
    }
    subscribers
}

/// The e-mails of an issue for `subscribers`: one for each valid
/// subscriber, in order. Invalid ones are passed over.
pub open spec fn issue_emails(
    title: Seq<char>,
    html: Seq<char>,
    text: Seq<char>,
    subscribers: Seq<Result<ConfirmedSubscriber, String>>,
) -> Seq<EmailView>
    decreases subscribers.len(),
{
    if subscribers.len() == 0 {
        Seq::empty()
    } else {
        let before = issue_emails(title, html, text, subscribers.drop_last());
        match subscribers.last() {
            Ok(subscriber) => before.push(
                EmailView {
                    recipient: subscriber.email@,
                    subject: title,
                    html_content: html,
                    text_content: text,
                },
            ),
            Err(_) => before,
        }
    }
}

/// The views of a sequence of e-mails, in order.
pub open spec fn email_views(emails: Seq<OutgoingEmail>) -> Seq<EmailView> {
    emails.map_values(|e: OutgoingEmail| e@)
}

/// The e-mails that publish `body` to `subscribers`: one for each valid
/// subscriber, in order, each with the issue's title as its subject. The
/// caller sends them one after another and stops at the first that fails.
pub fn publish_newsletter(body: &BodyData, subscribers: &Vec<Result<ConfirmedSubscriber, String>>) -> (emails:
    Vec<OutgoingEmail>)
    ensures
        email_views(emails@) == issue_emails(body.title@, body.content.html@, body.content.text@, subscribers@),
{
    let mut emails: Vec<OutgoingEmail> = Vec::new();
    let mut i: usize = 0;
    proof {
        assert(subscribers@.take(0) == Seq::<Result<ConfirmedSubscriber, String>>::empty());
        assert(email_views(emails@) == Seq::<EmailView>::empty());
    }
    while i < subscribers.len()
        invariant
            i <= subscribers.len(),
            email_views(emails@) == issue_emails(
                body.title@,
                body.content.html@,
                body.content.text@,
                subscribers@.take(i as int),
            ),
        decreases subscribers.len() - i,
    {
        proof {
            let seen = subscribers@.take(i as int);
            assert(subscribers@.take(i + 1).drop_last() == seen);
            assert(subscribers@.take(i + 1).last() == subscribers@[i as int]);
        }
        match &subscribers[i] {
            Ok(subscriber) => {
                let email = OutgoingEmail {
                    recipient: subscriber.email.clone(),
                    subject: body.title.clone(),
                    html_content: body.content.html.clone(),
                    text_content: body.content.text.clone(),
                };
                proof {
                    assert(email_views(emails@.push(email)) == email_views(emails@).push(email@));
                }
                emails.push(email);
            },
            Err(_) => {},
        }
        i += 1;
    }
    proof {
        assert(subscribers@.take(i as int) == subscribers@);
    }
    emails
}

/// The error that ends publishing when the transport fails for
/// `recipient`.
pub fn delivery_failure(recipient: &SubscriberEmail) -> (error: PublishError)
    ensures
        error matches PublishError::UnexpectedError(cause) && cause@ == "Failed to send newsletter to "@
            + recipient@,
{
    PublishError::UnexpectedError(joined("Failed to send newsletter to ", recipient.as_ref()))
}

} // verus!
