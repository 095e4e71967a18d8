use zero2prod::newsletter_issue::{DuplicateIssue, IssueArchive, NewsletterIssue};
use zero2prod::text::{joined, same_text};

fn issue(title: &str) -> NewsletterIssue {
    NewsletterIssue {
        title: title.to_string(),
        text_content: format!("{} as text", title),
        html_content: format!("<p>{}</p>", title),
    }
}

#[test]
fn a_new_archive_holds_no_issue() {
    let archive = IssueArchive::new();
    assert_eq!(archive.len(), 0);
    assert_eq!(archive.get_issue(1), None);
}

#[test]
fn a_stored_issue_is_found_under_its_identifier() {
    let mut archive = IssueArchive::new();
    assert_eq!(archive.insert_newsletter_issue(1, issue("first")), Ok(()));
    assert_eq!(archive.insert_newsletter_issue(2, issue("second")), Ok(()));
    assert_eq!(archive.len(), 2);
    assert_eq!(archive.get_issue(1), Some(issue("first")));
    assert_eq!(archive.get_issue(2), Some(issue("second")));
    assert_eq!(archive.get_issue(3), None);
}

#[test]
fn a_taken_identifier_is_a_duplicate_and_the_stored_issue_stays() {
    let mut archive = IssueArchive::new();
    assert_eq!(archive.insert_newsletter_issue(1, issue("first")), Ok(()));
    assert_eq!(archive.insert_newsletter_issue(1, issue("other")), Err(DuplicateIssue));
    assert_eq!(archive.len(), 1);
    assert_eq!(archive.get_issue(1), Some(issue("first")));
}

#[test]
fn a_clone_of_an_issue_equals_it() {
    let first = issue("first");
    assert_eq!(first.clone(), first);
}

#[test]
fn texts_are_compared_character_by_character() {
    assert!(same_text("", ""));
    assert!(same_text("abc", "abc"));
    assert!(same_text("caf\u{e9}", "caf\u{e9}"));
    assert!(!same_text("abc", "abd"));
    assert!(!same_text("abc", "ab"));
    assert!(!same_text("", "a"));
    assert!(!same_text("cafe", "caf\u{e9}"));
}

#[test]
fn texts_are_joined_in_order() {
    assert_eq!(joined("left", "right"), "leftright");
    assert_eq!(joined("", "right"), "right");
    assert_eq!(joined("left", ""), "left");
}
