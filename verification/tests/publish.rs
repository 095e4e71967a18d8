use zero2prod::idempotency::{CachedResponse, HeaderPair, IdempotencyKey, KeyError};
use zero2prod::issue_delivery_worker::{
    complete_delivery, try_execute_task, ExecutionOutcome, TaskProgress,
};
use zero2prod::newsletter_issue::NewsletterIssue;
use zero2prod::routes::admin::newsletter::{
    after_lookup, after_transaction, after_winner, begin_publish, commit_publication,
    enqueue_delivery_tasks, plan_batch, publish_newsletter, publish_with_issue_id,
    run_transaction, see_other, FormData, PublishFailure, PublishStep, TransactionOutcome,
};
use zero2prod::store::Store;

const CALLER: u128 = 0x1111;

fn form(key: &str) -> FormData {
    FormData {
        title: "T".to_string(),
        html_content: "<p>T</p>".to_string(),
        text_content: "T".to_string(),
        idempotency_key: key.to_string(),
    }
}

fn issue() -> NewsletterIssue {
    NewsletterIssue {
        title: "T".to_string(),
        html_content: "<p>T</p>".to_string(),
        text_content: "T".to_string(),
    }
}

fn three_subscribers() -> Vec<String> {
    vec![
        "ann@example.com".to_string(),
        "bob@example.com".to_string(),
        "cyd@example.com".to_string(),
    ]
}

fn redirect() -> CachedResponse {
    CachedResponse {
        status_code: 303,
        headers: vec![HeaderPair {
            name: "location".to_string(),
            value: b"/admin/newsletters".to_vec(),
        }],
        body: Vec::new(),
    }
}

/// Runs the worker until the queue is empty and returns how often the
/// transport was invoked.
fn drain(store: &mut Store) -> usize {
    let mut sent = 0;
    loop {
        match try_execute_task(store).unwrap() {
            TaskProgress::EmptyQueue => return sent,
            TaskProgress::Skipped { .. } => {}
            TaskProgress::AwaitingTransport(pending) => {
                sent += 1;
                assert_eq!(
                    complete_delivery(store, &pending.task, true),
                    ExecutionOutcome::TaskCompleted
                );
            }
        }
    }
}

#[test]
fn publishing_to_three_subscribers_creates_three_tasks_and_the_worker_sends_three_emails() {
    let mut store = Store::new();
    let publication = publish_with_issue_id(&mut store, CALLER, form("abc123"), 1, &three_subscribers());
    assert_eq!(publication.answer, Ok(redirect()));
    assert!(publication.skipped.is_empty());
    assert_eq!(store.issues.len(), 1);
    assert_eq!(store.issues.get_issue(1), Some(issue()));
    assert_eq!(store.queue.len(), 3);
    for email in three_subscribers() {
        assert!(store.queue.contains(1, &email));
        assert!(!store.queue.is_claimed(1, &email));
    }
    assert_eq!(store.fingerprints.len(), 1);

    assert_eq!(drain(&mut store), 3);
    assert_eq!(store.queue.len(), 0);
}

#[test]
fn resubmitting_with_the_same_key_replays_the_response_and_creates_nothing() {
    let mut store = Store::new();
    let first = publish_with_issue_id(&mut store, CALLER, form("abc123"), 1, &three_subscribers());
    assert_eq!(drain(&mut store), 3);

    let second = publish_with_issue_id(&mut store, CALLER, form("abc123"), 2, &three_subscribers());
    assert_eq!(second.answer, first.answer);
    assert_eq!(second.answer, Ok(redirect()));
    assert_eq!(store.issues.len(), 1);
    assert_eq!(store.issues.get_issue(2), None);
    assert_eq!(store.queue.len(), 0);
    assert_eq!(store.fingerprints.len(), 1);
    assert_eq!(drain(&mut store), 0);
}

#[test]
fn a_retry_is_replayed_even_if_its_content_differs() {
    let mut store = Store::new();
    let first = publish_with_issue_id(&mut store, CALLER, form("abc123"), 1, &three_subscribers());
    let mut changed = form("abc123");
    changed.title = "Another title".to_string();
    let second = publish_with_issue_id(&mut store, CALLER, changed, 2, &vec!["new@example.com".to_string()]);
    assert_eq!(second.answer, first.answer);
    assert_eq!(store.issues.len(), 1);
    assert_eq!(store.issues.get_issue(1), Some(issue()));
    assert_eq!(store.queue.len(), 3);
    assert!(!store.queue.contains(2, "new@example.com"));
    assert!(!store.queue.contains(1, "new@example.com"));
}

#[test]
fn the_same_key_of_another_caller_publishes_another_issue() {
    let mut store = Store::new();
    publish_with_issue_id(&mut store, CALLER, form("abc123"), 1, &three_subscribers());
    let other = publish_with_issue_id(&mut store, CALLER + 1, form("abc123"), 2, &three_subscribers());
    assert_eq!(other.answer, Ok(redirect()));
    assert_eq!(store.issues.len(), 2);
    assert_eq!(store.queue.len(), 6);
    assert_eq!(store.fingerprints.len(), 2);
}

#[test]
fn a_new_key_publishes_a_new_issue() {
    let mut store = Store::new();
    publish_with_issue_id(&mut store, CALLER, form("abc123"), 1, &three_subscribers());
    publish_with_issue_id(&mut store, CALLER, form("abc124"), 2, &three_subscribers());
    assert_eq!(store.issues.len(), 2);
    assert_eq!(store.queue.len(), 6);
}

#[test]
fn a_malformed_key_is_a_client_error_and_touches_nothing() {
    let mut store = Store::new();
    for (key, error) in [
        ("", KeyError::Empty),
        ("not a key", KeyError::ForbiddenCharacter),
        ("kkkkkkkkkkkkkkkkkkkkkkkkkkkkkkkkkkkkkkkkkkkkkkkkkkkkkkkkkkkk", KeyError::TooLong),
    ] {
        let publication = publish_with_issue_id(&mut store, CALLER, form(key), 1, &three_subscribers());
        assert_eq!(publication.answer, Err(PublishFailure::MalformedKey(error)));
        assert_eq!(PublishFailure::MalformedKey(error).status_code(), 400);
        assert!(publication.skipped.is_empty());
        assert_eq!(store.issues.len(), 0);
        assert_eq!(store.queue.len(), 0);
        assert_eq!(store.fingerprints.len(), 0);
    }
}

#[test]
fn a_taken_issue_identifier_fails_the_transaction_and_keeps_nothing() {
    let mut store = Store::new();
    publish_with_issue_id(&mut store, CALLER, form("abc123"), 1, &three_subscribers());
    let failed = publish_with_issue_id(&mut store, CALLER, form("other-key"), 1, &vec!["dan@example.com".to_string()]);
    assert_eq!(failed.answer, Err(PublishFailure::StorageFailure));
    assert_eq!(PublishFailure::StorageFailure.status_code(), 500);
    assert_eq!(store.issues.len(), 1);
    assert_eq!(store.queue.len(), 3);
    assert_eq!(store.fingerprints.len(), 1);

    let retried = publish_with_issue_id(&mut store, CALLER, form("other-key"), 2, &vec!["dan@example.com".to_string()]);
    assert_eq!(retried.answer, Ok(redirect()));
    assert_eq!(store.issues.len(), 2);
    assert_eq!(store.queue.len(), 4);
}

#[test]
fn an_invalid_stored_address_is_skipped_and_the_rest_of_the_batch_is_enqueued() {
    let mut store = Store::new();
    let snapshot = vec![
        "ann@example.com".to_string(),
        "definitely-not-an-email".to_string(),
        "bob@example.com".to_string(),
        "".to_string(),
    ];
    let publication = publish_with_issue_id(&mut store, CALLER, form("abc123"), 1, &snapshot);
    assert_eq!(publication.answer, Ok(redirect()));
    assert_eq!(publication.skipped, vec!["definitely-not-an-email".to_string(), "".to_string()]);
    assert_eq!(store.queue.len(), 2);
    assert!(store.queue.contains(1, "ann@example.com"));
    assert!(store.queue.contains(1, "bob@example.com"));
    assert!(!store.queue.contains(1, "definitely-not-an-email"));
    assert!(!store.queue.contains(1, ""));
    assert_eq!(drain(&mut store), 2);
}

#[test]
fn an_address_that_occurs_twice_in_the_snapshot_gets_one_task() {
    let mut store = Store::new();
    let snapshot = vec!["ann@example.com".to_string(), "ann@example.com".to_string()];
    publish_with_issue_id(&mut store, CALLER, form("abc123"), 1, &snapshot);
    assert_eq!(store.queue.len(), 1);
}

#[test]
fn publishing_with_no_subscribers_stores_the_issue_and_no_task() {
    let mut store = Store::new();
    let publication = publish_with_issue_id(&mut store, CALLER, form("abc123"), 1, &Vec::new());
    assert_eq!(publication.answer, Ok(redirect()));
    assert_eq!(store.issues.len(), 1);
    assert_eq!(store.queue.len(), 0);
    assert_eq!(store.fingerprints.len(), 1);
}

#[test]
fn someone_who_confirms_after_the_commit_gets_no_task_for_that_issue() {
    let mut store = Store::new();
    publish_with_issue_id(&mut store, CALLER, form("abc123"), 1, &three_subscribers());
    let mut later = three_subscribers();
    later.push("late@example.com".to_string());

    publish_with_issue_id(&mut store, CALLER, form("abc123"), 2, &later);
    assert!(!store.queue.contains(1, "late@example.com"));

    publish_with_issue_id(&mut store, CALLER, form("next-issue"), 3, &later);
    assert!(!store.queue.contains(1, "late@example.com"));
    assert!(store.queue.contains(3, "late@example.com"));
    assert_eq!(store.queue.len(), 7);
}

#[test]
fn of_racing_transactions_with_one_key_exactly_one_commits_and_all_get_the_same_response() {
    let mut store = Store::new();
    let key = IdempotencyKey::parse("abc123".to_string()).unwrap();
    let mut answers = Vec::new();
    for issue_id in 1..=5u128 {
        let publication = commit_publication(
            &mut store,
            CALLER,
            key.clone(),
            issue_id,
            issue(),
            &three_subscribers(),
        );
        answers.push(publication.answer);
    }
    assert_eq!(store.issues.len(), 1);
    assert_eq!(store.issues.get_issue(1), Some(issue()));
    assert_eq!(store.queue.len(), 3);
    assert_eq!(store.fingerprints.len(), 1);
    for answer in &answers {
        assert_eq!(answer, &Ok(redirect()));
    }
}

#[test]
fn the_loser_of_a_race_gets_the_winners_response() {
    let mut store = Store::new();
    let key = IdempotencyKey::parse("abc123".to_string()).unwrap();
    let winner = CachedResponse { status_code: 303, headers: Vec::new(), body: b"winner".to_vec() };
    assert!(store.fingerprints.save(CALLER, key.clone(), winner.clone()).is_ok());
    let loser = commit_publication(&mut store, CALLER, key, 1, issue(), &three_subscribers());
    assert_eq!(loser.answer, Ok(winner));
    assert!(loser.skipped.is_empty());
    assert_eq!(store.issues.len(), 0);
    assert_eq!(store.queue.len(), 0);
}

#[test]
fn a_drawn_identifier_publishes_like_a_given_one() {
    let mut store = Store::new();
    let first = publish_newsletter(&mut store, CALLER, form("abc123"), &three_subscribers());
    assert_eq!(first.answer, Ok(redirect()));
    assert_eq!(store.issues.len(), 1);
    assert_eq!(store.queue.len(), 3);
    let second = publish_newsletter(&mut store, CALLER, form("abc123"), &three_subscribers());
    assert_eq!(second.answer, first.answer);
    assert_eq!(store.issues.len(), 1);
    assert_eq!(store.queue.len(), 3);
    let third = publish_newsletter(&mut store, CALLER, form("abc124"), &three_subscribers());
    assert_eq!(third.answer, Ok(redirect()));
    assert_eq!(store.issues.len(), 2);
    assert_eq!(store.queue.len(), 6);
}

#[test]
fn enqueueing_a_batch_keeps_the_tasks_that_are_queued_already() {
    let mut store = Store::new();
    store.queue.enqueue(1, "ann@example.com".to_string());
    assert!(store.queue.claim().is_some());
    let skipped = enqueue_delivery_tasks(&mut store.queue, 1, &three_subscribers());
    assert!(skipped.is_empty());
    assert_eq!(store.queue.len(), 3);
    assert!(store.queue.is_claimed(1, "ann@example.com"));
    assert!(!store.queue.is_claimed(1, "bob@example.com"));
}

#[test]
fn see_other_is_a_303_with_a_location_header_and_no_body() {
    assert_eq!(see_other("/admin/newsletters"), redirect());
    let login = see_other("/login");
    assert_eq!(login.status_code, 303);
    assert_eq!(login.headers.len(), 1);
    assert_eq!(login.headers[0].name, "location");
    assert_eq!(login.headers[0].value, b"/login".to_vec());
    assert!(login.body.is_empty());
}

#[test]
fn a_batch_holds_the_valid_addresses_in_order_and_lists_the_rest() {
    let snapshot = vec![
        "cyd@example.com".to_string(),
        "nope".to_string(),
        "ann@example.com".to_string(),
        "@domain.com".to_string(),
        "cyd@example.com".to_string(),
    ];
    let batch = plan_batch(&snapshot);
    let recipients: Vec<&str> = batch.recipients.iter().map(|r| r.as_ref()).collect();
    assert_eq!(recipients, vec!["cyd@example.com", "ann@example.com", "cyd@example.com"]);
    assert_eq!(batch.skipped, vec!["nope".to_string(), "@domain.com".to_string()]);

    let empty = plan_batch(&Vec::new());
    assert!(empty.recipients.is_empty());
    assert!(empty.skipped.is_empty());
}

#[test]
fn the_coordinator_goes_from_step_to_step() {
    match begin_publish(form("not a key")) {
        PublishStep::Respond(Err(PublishFailure::MalformedKey(KeyError::ForbiddenCharacter))) => {}
        other => panic!("unexpected step: {:?}", other),
    }
    let (key, to_publish) = match begin_publish(form("abc123")) {
        PublishStep::Lookup { key, issue } => (key, issue),
        other => panic!("unexpected step: {:?}", other),
    };
    assert_eq!(key.as_ref(), "abc123");
    assert_eq!(to_publish, issue());

    let saved = CachedResponse { status_code: 303, headers: Vec::new(), body: b"saved".to_vec() };
    match after_lookup(key.clone(), issue(), Some(saved.clone())) {
        PublishStep::Respond(Ok(response)) => assert_eq!(response, saved),
        other => panic!("unexpected step: {:?}", other),
    }
    let response = match after_lookup(key.clone(), issue(), None) {
        PublishStep::Transact { key: k, issue: i, response } => {
            assert_eq!(k.as_ref(), "abc123");
            assert_eq!(i, issue());
            response
        }
        other => panic!("unexpected step: {:?}", other),
    };
    assert_eq!(response, redirect());

    match after_transaction(key.clone(), redirect(), TransactionOutcome::Committed) {
        PublishStep::Respond(Ok(response)) => assert_eq!(response, redirect()),
        other => panic!("unexpected step: {:?}", other),
    }
    match after_transaction(key.clone(), redirect(), TransactionOutcome::Conflict) {
        PublishStep::LookupWinner { key: k } => assert_eq!(k.as_ref(), "abc123"),
        other => panic!("unexpected step: {:?}", other),
    }
    match after_transaction(key.clone(), redirect(), TransactionOutcome::Failed) {
        PublishStep::Respond(Err(PublishFailure::StorageFailure)) => {}
        other => panic!("unexpected step: {:?}", other),
    }
    match after_winner(Some(saved.clone())) {
        PublishStep::Respond(Ok(response)) => assert_eq!(response, saved),
        other => panic!("unexpected step: {:?}", other),
    }
    match after_winner(None) {
        PublishStep::Respond(Err(PublishFailure::StorageFailure)) => {}
        other => panic!("unexpected step: {:?}", other),
    }
}

#[test]
fn a_transaction_commits_conflicts_or_fails() {
    let mut store = Store::new();
    let key = IdempotencyKey::parse("abc123".to_string()).unwrap();
    let other_key = IdempotencyKey::parse("abc124".to_string()).unwrap();

    let first = run_transaction(&mut store, CALLER, &key, 1, &issue(), &redirect(), &three_subscribers());
    assert_eq!(first.outcome, TransactionOutcome::Committed);
    assert!(first.skipped.is_empty());
    assert_eq!((store.issues.len(), store.queue.len(), store.fingerprints.len()), (1, 3, 1));
    assert_eq!(store.fingerprints.lookup(CALLER, &key), Some(redirect()));

    let conflict = run_transaction(&mut store, CALLER, &key, 2, &issue(), &redirect(), &three_subscribers());
    assert_eq!(conflict.outcome, TransactionOutcome::Conflict);
    assert_eq!((store.issues.len(), store.queue.len(), store.fingerprints.len()), (1, 3, 1));

    let failed = run_transaction(&mut store, CALLER, &other_key, 1, &issue(), &redirect(), &three_subscribers());
    assert_eq!(failed.outcome, TransactionOutcome::Failed);
    assert_eq!((store.issues.len(), store.queue.len(), store.fingerprints.len()), (1, 3, 1));
    assert_eq!(store.fingerprints.lookup(CALLER, &other_key), None);
}
