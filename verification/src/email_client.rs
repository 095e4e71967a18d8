//! The client of the e-mail transport: what it is configured with and the
//! request that it sends for one e-mail. Sending is the caller's part.

use crate::domain::subscriber_email::SubscriberEmail;
use crate::text::joined;
use vstd::prelude::*;
use vstd::string::StringExecFns;

verus! {

/// The body of a send request. Its fields go out under the names `From`,
/// `To`, `Subject`, `HtmlBody` and `TextBody`.
#[derive(Debug, Clone, PartialEq, Eq)]
pub struct SendEmailRequest {
    pub from: String,
    pub to: String,
    pub subject: String,
    pub html_body: String,
    pub text_body: String,
}

/// One request to the transport: a `POST` of `body`, as JSON, to `url`,
/// with the header `token_header` set to `token`, to be given up after
/// `timeout_milliseconds`.
#[derive(Debug, Clone, PartialEq, Eq)]
pub struct EmailRequest {
    pub url: String,
    pub token_header: String,
    pub token: String,
    pub body: SendEmailRequest,
    pub timeout_milliseconds: u64,
}

/// What a client is configured with.
#[derive(Debug, Clone)]
pub struct EmailClient {
    base_url: String,
    sender: SubscriberEmail,
    authorization_token: String,
    timeout_milliseconds: u64,
}

impl EmailClient {
    /// The address of the transport.
    pub closed spec fn base_url(&self) -> String {
        self.base_url
    }

    /// The address that e-mails are sent from.
    pub closed spec fn sender(&self) -> SubscriberEmail {
        self.sender
    }

    /// The token that authorizes the requests.
    pub closed spec fn authorization_token(&self) -> String {
        self.authorization_token
    }

    /// The time that one request may take, in milliseconds.
    pub closed spec fn timeout_milliseconds(&self) -> u64 {
        self.timeout_milliseconds
    }

    /// A client of the transport at `base_url`.
    pub fn new(
        base_url: String,
        sender: SubscriberEmail,
        authorization_token: String,
        timeout_milliseconds: u64,
    ) -> (client: Self)
        ensures
            client.base_url() == base_url,
            client.sender() == sender,
            client.authorization_token() == authorization_token,
            client.timeout_milliseconds() == timeout_milliseconds,
    {
        Self { sender, base_url, authorization_token, timeout_milliseconds }
    }

    /// The request that sends one e-mail to `recipient`: a post to the
    /// `/email` resource of the transport, authorized by the client's
    /// token, from the client's sender.
    pub fn send_email(
        &self,
        recipient: &SubscriberEmail,
        subject: &str,
        html_content: &str,
        text_content: &str,
    ) -> (request: EmailRequest)
        ensures
            request.url@ == self.base_url()@ + "/email"@,
            request.token_header@ == "X-Postmark-Server-Token"@,
            request.token@ == self.authorization_token()@,
            request.timeout_milliseconds == self.timeout_milliseconds(),
            request.body.from@ == self.sender()@,
            request.body.to@ == recipient@,
            request.body.subject@ == subject@,
            request.body.html_body@ == html_content@,
            request.body.text_body@ == text_content@,
    {
        let url = joined(self.base_url.as_str(), "/email");
        let body = SendEmailRequest {
            subject: String::from_str(subject),
            to: recipient.to_string(),
            html_body: String::from_str(html_content),
            text_body: String::from_str(text_content),
            from: self.sender.to_string(),
        };
        EmailRequest {
            url,
            token_header: String::from_str("X-Postmark-Server-Token"),
            token: self.authorization_token.clone(),
            body,
            timeout_milliseconds: self.timeout_milliseconds,
        }
    }
}

} // verus!
