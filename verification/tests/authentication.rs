use base64::Engine;
use zero2prod::authentication::password::{credentials_verdict, hash_check_verdict};
use zero2prod::authentication::{
    change_password, compute_password_hash, validate_credentials, verify_password_hash, AuthError,
    Credentials, StoredCredentials,
};
use zero2prod::routes::admin::password::{
    change_password as decide_password_change, check_new_password, FormData, PasswordChange,
};
use zero2prod::routes::newsletter::{
    basic_auth, credentials_from_bytes, credentials_from_text, AuthorizationHeader,
};

fn header_for(raw: &str) -> AuthorizationHeader {
    let encoded = base64::engine::general_purpose::STANDARD.encode(raw);
    AuthorizationHeader::Value(format!("Basic {}", encoded))
}

#[test]
fn a_computed_hash_verifies_its_password_and_no_other() {
    let hash = compute_password_hash("everythinghastostartsomewhere").unwrap();
    assert!(hash.starts_with("$argon2id$v=19$m=15000,t=2,p=1$"));
    assert_eq!(verify_password_hash(&hash, "everythinghastostartsomewhere"), Ok(()));
    assert_eq!(
        verify_password_hash(&hash, "another password"),
        Err(AuthError::InvalidCredentials("Invalid password.".to_string()))
    );
}

#[test]
fn two_hashes_of_one_password_differ() {
    let first = compute_password_hash("everythinghastostartsomewhere").unwrap();
    let second = compute_password_hash("everythinghastostartsomewhere").unwrap();
    assert_ne!(first, second);
}

#[test]
fn a_hash_that_is_no_phc_string_fails_the_check() {
    assert_eq!(
        verify_password_hash("not a hash", "password"),
        Err(AuthError::UnexpectedError("Failed to parse hash in PHC string format.".to_string()))
    );
}

#[test]
fn the_verdict_on_a_hash_check_follows_its_outcome() {
    assert_eq!(hash_check_verdict(Some(true)), Ok(()));
    assert_eq!(
        hash_check_verdict(Some(false)),
        Err(AuthError::InvalidCredentials("Invalid password.".to_string()))
    );
    assert_eq!(
        hash_check_verdict(None),
        Err(AuthError::UnexpectedError("Failed to parse hash in PHC string format.".to_string()))
    );
}

#[test]
fn the_verdict_on_credentials_needs_a_match_and_a_known_user() {
    assert_eq!(credentials_verdict(Some(true), Some(9)), Ok(9));
    assert_eq!(
        credentials_verdict(Some(true), None),
        Err(AuthError::InvalidCredentials("Unknown username.".to_string()))
    );
    for check in [Some(false), None] {
        for user in [Some(9), None] {
            assert_eq!(
                credentials_verdict(check, user),
                Err(AuthError::InvalidCredentials("Invalid password".to_string()))
            );
        }
    }
}

#[test]
fn stored_credentials_with_the_right_password_authenticate_the_user() {
    let password_hash = compute_password_hash("correct horse battery").unwrap();
    let credentials =
        Credentials { username: "admin".to_string(), password: "correct horse battery".to_string() };
    let stored = StoredCredentials { user_id: 42, password_hash };
    assert_eq!(validate_credentials(credentials, Some(stored)), Ok(42));
}

#[test]
fn stored_credentials_with_a_wrong_password_are_invalid() {
    let password_hash = compute_password_hash("correct horse battery").unwrap();
    let credentials = Credentials { username: "admin".to_string(), password: "wrong".to_string() };
    let stored = StoredCredentials { user_id: 42, password_hash };
    assert_eq!(
        validate_credentials(credentials, Some(stored)),
        Err(AuthError::InvalidCredentials("Invalid password".to_string()))
    );
}

#[test]
fn an_unknown_user_is_never_authenticated() {
    let credentials = Credentials { username: "ghost".to_string(), password: "anything".to_string() };
    assert_eq!(
        validate_credentials(credentials, None),
        Err(AuthError::InvalidCredentials("Invalid password".to_string()))
    );
}

#[test]
fn a_stored_hash_that_does_not_parse_counts_as_a_wrong_password() {
    let credentials = Credentials { username: "admin".to_string(), password: "anything".to_string() };
    let stored = StoredCredentials { user_id: 42, password_hash: "garbage".to_string() };
    assert_eq!(
        validate_credentials(credentials, Some(stored)),
        Err(AuthError::InvalidCredentials("Invalid password".to_string()))
    );
}

#[test]
fn auth_errors_have_their_messages() {
    assert_eq!(AuthError::InvalidCredentials("cause".to_string()).message(), "Invalid credentials.");
    assert_eq!(AuthError::UnexpectedError("the cause".to_string()).message(), "the cause");
}

#[test]
fn changing_a_password_prepares_the_row_to_write() {
    let update = change_password(42, "a brand new password").unwrap();
    assert_eq!(update.user_id, 42);
    assert_eq!(verify_password_hash(&update.password_hash, "a brand new password"), Ok(()));
}

#[test]
fn basic_auth_reads_user_name_and_password() {
    let credentials = basic_auth(&header_for("admin:secret")).unwrap();
    assert_eq!(credentials.username, "admin");
    assert_eq!(credentials.password, "secret");
}

#[test]
fn basic_auth_splits_at_the_first_colon() {
    let credentials = basic_auth(&header_for("admin:se:cr:et")).unwrap();
    assert_eq!(credentials.username, "admin");
    assert_eq!(credentials.password, "se:cr:et");
    let credentials = basic_auth(&header_for(":")).unwrap();
    assert_eq!(credentials.username, "");
    assert_eq!(credentials.password, "");
}

#[test]
fn basic_auth_tells_why_a_header_carries_no_credentials() {
    assert_eq!(
        basic_auth(&AuthorizationHeader::Missing).unwrap_err(),
        "The 'Authorization' header was missing"
    );
    assert_eq!(
        basic_auth(&AuthorizationHeader::NotText).unwrap_err(),
        "The 'Authorization' header was not a valid UTF8 string."
    );
    for header in ["Bearer abc", "Basic", "basic YWRtaW46c2VjcmV0", ""] {
        assert_eq!(
            basic_auth(&AuthorizationHeader::Value(header.to_string())).unwrap_err(),
            "The authorization scheme was not 'Basic'."
        );
    }
    assert_eq!(
        basic_auth(&AuthorizationHeader::Value("Basic ***".to_string())).unwrap_err(),
        "Failed to base64-decode 'Basic' credentials."
    );
    let not_utf8 = base64::engine::general_purpose::STANDARD.encode([0xffu8, 0xfe, 0x3a]);
    assert_eq!(
        basic_auth(&AuthorizationHeader::Value(format!("Basic {}", not_utf8))).unwrap_err(),
        "The decoded credential string is not valid UTF8."
    );
    assert_eq!(
        basic_auth(&header_for("admin")).unwrap_err(),
        "A password must be provided in 'Basic' auth."
    );
}

#[test]
fn basic_auth_decodes_what_it_is_given() {
    let credentials =
        basic_auth(&AuthorizationHeader::Value("Basic YWRtaW46c2VjcmV0".to_string())).unwrap();
    assert_eq!(credentials.username, "admin");
    assert_eq!(credentials.password, "secret");
}

#[test]
fn credentials_are_read_from_bytes_and_text() {
    let credentials = credentials_from_bytes("jos\u{e9}:pa\u{df}wort".as_bytes().to_vec()).unwrap();
    assert_eq!(credentials.username, "jos\u{e9}");
    assert_eq!(credentials.password, "pa\u{df}wort");
    assert_eq!(
        credentials_from_bytes(vec![0xc3, 0x28]).unwrap_err(),
        "The decoded credential string is not valid UTF8."
    );
    let credentials = credentials_from_text("user:").unwrap();
    assert_eq!(credentials.username, "user");
    assert_eq!(credentials.password, "");
    assert_eq!(
        credentials_from_text("").unwrap_err(),
        "A password must be provided in 'Basic' auth."
    );
}

fn password_form(new: &str, check: &str, current: &str) -> FormData {
    FormData {
        new_password: new.to_string(),
        new_password_check: check.to_string(),
        current_password: current.to_string(),
    }
}

#[test]
fn a_new_password_must_have_12_to_129_bytes() {
    let message = Some("The password size must be between 12 and 129".to_string());
    assert_eq!(check_new_password(&password_form(&"a".repeat(11), &"a".repeat(11), "x")), message);
    assert_eq!(check_new_password(&password_form(&"a".repeat(12), &"a".repeat(12), "x")), None);
    assert_eq!(check_new_password(&password_form(&"a".repeat(129), &"a".repeat(129), "x")), None);
    assert_eq!(check_new_password(&password_form(&"a".repeat(130), &"a".repeat(130), "x")), message);
    assert_eq!(check_new_password(&password_form("", "", "x")), message);
    assert_eq!(
        check_new_password(&password_form(&"\u{e9}".repeat(6), &"\u{e9}".repeat(6), "x")),
        None
    );
}

#[test]
fn a_new_password_must_be_typed_the_same_twice() {
    assert_eq!(
        check_new_password(&password_form("a long new password", "a long new passwort", "x")),
        Some("The new password doesn't match".to_string())
    );
    assert_eq!(
        check_new_password(&password_form("short", "other", "x")),
        Some("The password size must be between 12 and 129".to_string())
    );
}

#[test]
fn a_password_change_is_refused_for_a_bad_form_or_a_wrong_current_password() {
    let password_hash = compute_password_hash("the current password").unwrap();
    let stored = || Some(StoredCredentials { user_id: 42, password_hash: password_hash.clone() });

    match decide_password_change(42, password_form("short", "short", "the current password"), "admin".to_string(), stored()) {
        PasswordChange::Refused(message) => {
            assert_eq!(message, "The password size must be between 12 and 129")
        }
        other => panic!("unexpected decision: {:?}", other),
    }
    match decide_password_change(
        42,
        password_form("a long new password", "a long new password", "not the current one"),
        "admin".to_string(),
        stored(),
    ) {
        PasswordChange::Refused(message) => assert_eq!(message, "The current password is incorrect"),
        other => panic!("unexpected decision: {:?}", other),
    }
    match decide_password_change(
        42,
        password_form("a long new password", "a long new password", "the current password"),
        "admin".to_string(),
        None,
    ) {
        PasswordChange::Refused(message) => assert_eq!(message, "The current password is incorrect"),
        other => panic!("unexpected decision: {:?}", other),
    }
}

#[test]
fn a_password_change_with_the_right_current_password_is_accepted() {
    let password_hash = compute_password_hash("the current password").unwrap();
    let stored = Some(StoredCredentials { user_id: 42, password_hash });
    match decide_password_change(
        42,
        password_form("a long new password", "a long new password", "the current password"),
        "admin".to_string(),
        stored,
    ) {
        PasswordChange::Accepted { update, flash_message } => {
            assert_eq!(update.user_id, 42);
            assert_eq!(verify_password_hash(&update.password_hash, "a long new password"), Ok(()));
            assert_eq!(flash_message, "Changed password successfully");
        }
        other => panic!("unexpected decision: {:?}", other),
    }
}
