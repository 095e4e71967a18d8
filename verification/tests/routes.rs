use zero2prod::authentication::AuthError;
use zero2prod::domain::{NewSubscriber, SubscriberEmail, SubscriberName};
use zero2prod::email_client::EmailClient;
use zero2prod::idempotency::{CachedResponse, HeaderPair};
use zero2prod::routes::health_check::check_health;
use zero2prod::routes::login::get::{LOGIN_PAGE_HEAD, LOGIN_PAGE_TAIL};
use zero2prod::routes::login::{login, login_form, login_redirect, LoginError};
use zero2prod::routes::newsletter::{
    delivery_failure, get_confirmed_subscriber, publish_newsletter, BodyData, Content, PublishError,
};
use zero2prod::routes::subscriptions::{
    error_chain_fmt, generate_subscription_token, send_confirmation, FormData, StoreTokenError,
    SubscribeError,
};
use zero2prod::routes::subscriptions_confirmation::{confirm, QueryParams};
use zero2prod::startup::ApplicationBaseUrl;
use zero2prod::telemetry::{report_exit, ExitReport, LogLevel, TaskExit};

fn empty_ok() -> CachedResponse {
    CachedResponse { status_code: 200, headers: Vec::new(), body: Vec::new() }
}

fn redirect_to(location: &str) -> CachedResponse {
    CachedResponse {
        status_code: 303,
        headers: vec![HeaderPair { name: "location".to_string(), value: location.as_bytes().to_vec() }],
        body: Vec::new(),
    }
}

#[test]
fn the_health_check_answers_200_with_no_body() {
    assert_eq!(check_health(), empty_ok());
}

#[test]
fn a_confirmation_link_is_answered_with_200() {
    let params = QueryParams { subscription_token: "token".to_string() };
    assert_eq!(confirm(&params), empty_ok());
}

#[test]
fn a_subscription_form_with_valid_data_is_accepted() {
    let form = FormData { name: "le guin".to_string(), email: "ursula_le_guin@gmail.com".to_string() };
    let subscriber = NewSubscriber::try_from(form).unwrap();
    assert_eq!(subscriber.name.as_ref(), "le guin");
    assert_eq!(subscriber.email.as_ref(), "ursula_le_guin@gmail.com");
}

#[test]
fn a_subscription_form_with_invalid_data_is_rejected() {
    let empty_name = FormData { name: "".to_string(), email: "ursula_le_guin@gmail.com".to_string() };
    assert_eq!(
        NewSubscriber::try_from(empty_name).unwrap_err(),
        " is not a valid subscriber name."
    );
    let empty_email = FormData { name: "Ursula".to_string(), email: "".to_string() };
    assert!(NewSubscriber::try_from(empty_email).unwrap_err().starts_with("Invalid email: "));
    let bad_email = FormData { name: "Ursula".to_string(), email: "definitely-not-an-email".to_string() };
    assert!(NewSubscriber::try_from(bad_email).unwrap_err().starts_with("Invalid email: "));
    let both = FormData { name: "{Ursula}".to_string(), email: "definitely-not-an-email".to_string() };
    assert_eq!(
        NewSubscriber::try_from(both).unwrap_err(),
        "{Ursula} is not a valid subscriber name."
    );
}

#[test]
fn subscriber_names_are_validated() {
    assert_eq!(SubscriberName::parse("Ursula Le Guin".to_string()).unwrap().as_ref(), "Ursula Le Guin");
    assert!(SubscriberName::parse("\u{451}".repeat(256)).is_ok());
    assert!(SubscriberName::parse("a".repeat(257)).is_err());
    assert!(SubscriberName::parse(" ".to_string()).is_err());
    assert!(SubscriberName::parse(" \t\r\n".to_string()).is_err());
    assert!(SubscriberName::parse("".to_string()).is_err());
    for forbidden in ['/', '(', ')', '"', '<', '>', '\\', '{', '}'] {
        let name = format!("Ursu{}la", forbidden);
        assert_eq!(
            SubscriberName::parse(name.clone()).unwrap_err(),
            format!("{} is not a valid subscriber name.", name)
        );
    }
}

#[test]
fn subscribe_errors_have_their_status_and_messages() {
    let validation = SubscribeError::ValidationError("bad name".to_string());
    assert_eq!(validation.status_code(), 400);
    assert_eq!(validation.message(), "bad name");
    assert_eq!(validation.source(), None);

    let cases = [
        (SubscribeError::PoolError("db".to_string()), "Failed to acquire database connection pool", "db"),
        (
            SubscribeError::InsertSubscriberError("db".to_string()),
            "Failed to save the new subscriber",
            "db",
        ),
        (
            SubscribeError::TransactionCommitError("db".to_string()),
            "Failed to commit all changes and save new subscriber information plus token",
            "db",
        ),
        (SubscribeError::SendEmailError("net".to_string()), "Failed to sent confirmation error", "net"),
        (
            SubscribeError::StoreTokenError(StoreTokenError("db".to_string())),
            "Failed to save confirmation token for then new subscriber",
            "Database error encountered while storing a subscription token",
        ),
    ];
    for (error, message, cause) in cases {
        assert_eq!(error.status_code(), 500);
        assert_eq!(error.message(), message);
        assert_eq!(error.source(), Some(cause.to_string()));
    }
}

#[test]
fn a_store_token_error_names_its_cause() {
    let error = StoreTokenError("connection reset".to_string());
    assert_eq!(error.message(), "Database error encountered while storing a subscription token");
    assert_eq!(error.source(), Some("connection reset".to_string()));
}

#[test]
fn an_error_chain_is_written_out_cause_by_cause() {
    assert_eq!(error_chain_fmt("top", &Vec::new()), "top\n");
    assert_eq!(
        error_chain_fmt("top", &vec!["middle".to_string(), "root".to_string()]),
        "top\nCaused by:\n\tmiddle\nCaused by:\n\troot\n"
    );
}

#[test]
fn a_subscription_token_has_25_alphanumeric_characters() {
    for _ in 0..20 {
        let token = generate_subscription_token();
        assert_eq!(token.len(), 25);
        assert!(token.chars().all(|c| c.is_ascii_alphanumeric()));
    }
    assert_ne!(generate_subscription_token(), generate_subscription_token());
}

#[test]
fn the_confirmation_email_carries_the_link() {
    let form = FormData { name: "le user".to_string(), email: "user_email@gmail.com".to_string() };
    let subscriber = NewSubscriber::try_from(form).unwrap();
    let base_url = ApplicationBaseUrl("http://127.0.0.1:8000".to_string());
    let email = send_confirmation(&base_url.0, subscriber, "tok123");
    let link = "http://127.0.0.1:8000/subscriptions/confirm?subscription_token=tok123";
    assert_eq!(email.recipient.as_ref(), "user_email@gmail.com");
    assert_eq!(email.subject, "Welcome!");
    assert_eq!(
        email.html_content,
        format!(
            "Welcome to our newsletter!<br />Click <a href=\"{}\">here</a> to confirm your subscription.",
            link
        )
    );
    assert_eq!(
        email.text_content,
        format!("Welcome to our newsletter!\nVisit {} to confirm your subscription.", link)
    );
}

#[test]
fn the_login_form_shows_the_flash_messages() {
    let page = login_form(&vec!["Authentication failed".to_string()]);
    assert!(page.contains("<p><i>Authentication failed</i></p>"));
    assert_eq!(
        page,
        format!("{}<p><i>Authentication failed</i></p>\n{}", LOGIN_PAGE_HEAD, LOGIN_PAGE_TAIL)
    );
    let two = login_form(&vec!["one".to_string(), "two".to_string()]);
    assert_eq!(
        two,
        format!("{}<p><i>one</i></p>\n<p><i>two</i></p>\n{}", LOGIN_PAGE_HEAD, LOGIN_PAGE_TAIL)
    );
}

#[test]
fn the_login_form_without_messages_is_the_bare_page() {
    let page = login_form(&Vec::new());
    assert_eq!(page, format!("{}{}", LOGIN_PAGE_HEAD, LOGIN_PAGE_TAIL));
    assert!(page.starts_with("<!DOCTYPE html>"));
    assert!(page.contains("<form action=\"/login\" method=\"post\">"));
    assert!(page.ends_with("</html>"));
}

#[test]
fn a_successful_login_is_sent_home() {
    let success = login(Ok(42)).unwrap();
    assert_eq!(success.user_id, 42);
    assert_eq!(success.response, redirect_to("/"));
}

#[test]
fn a_failed_login_is_sent_back_with_a_flash_message() {
    let rejection = login(Err(AuthError::InvalidCredentials("Unknown username.".to_string()))).unwrap_err();
    assert_eq!(rejection.error, LoginError::AuthError("Invalid credentials.".to_string()));
    assert_eq!(rejection.flash_message, "Authentication failed");
    assert_eq!(rejection.response, redirect_to("/login"));

    let rejection = login(Err(AuthError::UnexpectedError("db down".to_string()))).unwrap_err();
    assert_eq!(rejection.error, LoginError::UnexpectedError("db down".to_string()));
    assert_eq!(rejection.flash_message, "Something went wrong");
    assert_eq!(rejection.response, redirect_to("/login"));
}

#[test]
fn a_login_redirect_flashes_the_errors_message() {
    let rejection = login_redirect(LoginError::UnexpectedError("session".to_string()));
    assert_eq!(rejection.flash_message, "Something went wrong");
    assert_eq!(rejection.response, redirect_to("/login"));
    assert_eq!(LoginError::AuthError("x".to_string()).message(), "Authentication failed");
}

#[test]
fn a_failed_authentication_is_answered_with_a_challenge() {
    let error = PublishError::AuthError("missing header".to_string());
    assert_eq!(error.message(), "Authentication Failed");
    let response = error.error_response();
    assert_eq!(response.status_code, 401);
    assert_eq!(
        response.headers,
        vec![HeaderPair {
            name: "WWW-Authenticate".to_string(),
            value: b"Basic realm=\"publish\"".to_vec(),
        }]
    );
    assert!(response.body.is_empty());
}

#[test]
fn an_unexpected_error_is_answered_with_500() {
    let error = PublishError::UnexpectedError("db down".to_string());
    assert_eq!(error.message(), "db down");
    assert_eq!(
        error.error_response(),
        CachedResponse { status_code: 500, headers: Vec::new(), body: Vec::new() }
    );
}

#[test]
fn confirmed_rows_are_validated_one_by_one() {
    let rows = vec!["ann@example.com".to_string(), "nope".to_string(), "bob@example.com".to_string()];
    let subscribers = get_confirmed_subscriber(rows);
    assert_eq!(subscribers.len(), 3);
    assert_eq!(subscribers[0].as_ref().unwrap().email.as_ref(), "ann@example.com");
    assert!(subscribers[1].as_ref().unwrap_err().starts_with("Invalid email: "));
    assert_eq!(subscribers[2].as_ref().unwrap().email.as_ref(), "bob@example.com");
}

#[test]
fn an_issue_yields_one_email_for_each_valid_subscriber() {
    let body = BodyData {
        title: "Newsletter title".to_string(),
        content: Content {
            text: "Newsletter body as plain text".to_string(),
            html: "<p>Newsletter body as HTML</p>".to_string(),
        },
    };
    let rows = vec!["ann@example.com".to_string(), "nope".to_string(), "bob@example.com".to_string()];
    let emails = publish_newsletter(&body, &get_confirmed_subscriber(rows));
    assert_eq!(emails.len(), 2);
    assert_eq!(emails[0].recipient.as_ref(), "ann@example.com");
    assert_eq!(emails[1].recipient.as_ref(), "bob@example.com");
    for email in &emails {
        assert_eq!(email.subject, "Newsletter title");
        assert_eq!(email.html_content, "<p>Newsletter body as HTML</p>");
        assert_eq!(email.text_content, "Newsletter body as plain text");
    }
    assert!(publish_newsletter(&body, &Vec::new()).is_empty());
}

#[test]
fn a_failed_delivery_over_the_api_is_an_unexpected_error() {
    let recipient = SubscriberEmail::parse("ann@example.com".to_string()).unwrap();
    assert_eq!(
        delivery_failure(&recipient),
        PublishError::UnexpectedError("Failed to send newsletter to ann@example.com".to_string())
    );
}

#[test]
fn the_email_client_builds_the_request_for_the_transport() {
    let sender = SubscriberEmail::parse("sender@example.com".to_string()).unwrap();
    let recipient = SubscriberEmail::parse("to@example.com".to_string()).unwrap();
    let client = EmailClient::new("http://localhost:9000".to_string(), sender, "token".to_string(), 200);
    let request = client.send_email(&recipient, "Subject", "<p>Html</p>", "Text");
    assert_eq!(request.url, "http://localhost:9000/email");
    assert_eq!(request.token_header, "X-Postmark-Server-Token");
    assert_eq!(request.token, "token");
    assert_eq!(request.timeout_milliseconds, 200);
    assert_eq!(request.body.from, "sender@example.com");
    assert_eq!(request.body.to, "to@example.com");
    assert_eq!(request.body.subject, "Subject");
    assert_eq!(request.body.html_body, "<p>Html</p>");
    assert_eq!(request.body.text_body, "Text");
}

#[test]
fn the_end_of_a_task_is_reported() {
    assert_eq!(
        report_exit("API", &TaskExit::Completed),
        ExitReport { level: LogLevel::Info, message: "API has exited".to_string(), cause: None }
    );
    assert_eq!(
        report_exit("Background worker", &TaskExit::Failed("boom".to_string())),
        ExitReport {
            level: LogLevel::Error,
            message: "Background worker failed".to_string(),
            cause: Some("boom".to_string()),
        }
    );
    assert_eq!(
        report_exit("API", &TaskExit::Aborted("cancelled".to_string())),
        ExitReport {
            level: LogLevel::Error,
            message: "API' task failed to complete".to_string(),
            cause: Some("cancelled".to_string()),
        }
    );
}
