use zero2prod::delivery_queue::{DeliveryQueue, DeliveryTask};

fn task(issue: u128, email: &str) -> DeliveryTask {
    DeliveryTask { newsletter_issue_id: issue, subscriber_email: email.to_string() }
}

#[test]
fn a_new_queue_is_empty_and_offers_no_task() {
    let mut queue = DeliveryQueue::new();
    assert_eq!(queue.len(), 0);
    assert_eq!(queue.claim(), None);
}

#[test]
fn an_enqueued_task_is_queued_and_free() {
    let mut queue = DeliveryQueue::new();
    assert!(queue.enqueue(1, "a@example.com".to_string()));
    assert_eq!(queue.len(), 1);
    assert!(queue.contains(1, "a@example.com"));
    assert!(!queue.is_claimed(1, "a@example.com"));
    assert!(!queue.contains(2, "a@example.com"));
    assert!(!queue.contains(1, "b@example.com"));
}

#[test]
fn a_task_is_enqueued_once() {
    let mut queue = DeliveryQueue::new();
    assert!(queue.enqueue(1, "a@example.com".to_string()));
    assert!(!queue.enqueue(1, "a@example.com".to_string()));
    assert_eq!(queue.len(), 1);
}

#[test]
fn enqueueing_again_does_not_free_a_claimed_task() {
    let mut queue = DeliveryQueue::new();
    queue.enqueue(1, "a@example.com".to_string());
    assert_eq!(queue.claim(), Some(task(1, "a@example.com")));
    assert!(!queue.enqueue(1, "a@example.com".to_string()));
    assert!(queue.is_claimed(1, "a@example.com"));
}

#[test]
fn two_workers_never_claim_the_same_task() {
    let mut queue = DeliveryQueue::new();
    queue.enqueue(1, "a@example.com".to_string());
    queue.enqueue(1, "b@example.com".to_string());
    let first = queue.claim().unwrap();
    let second = queue.claim().unwrap();
    assert_ne!(first, second);
    assert!(queue.is_claimed(1, "a@example.com"));
    assert!(queue.is_claimed(1, "b@example.com"));
    assert_eq!(queue.claim(), None);
    assert_eq!(queue.len(), 2);
}

#[test]
fn a_claim_on_the_only_task_leaves_nothing_for_the_second_worker() {
    let mut queue = DeliveryQueue::new();
    queue.enqueue(1, "a@example.com".to_string());
    assert_eq!(queue.claim(), Some(task(1, "a@example.com")));
    assert_eq!(queue.claim(), None);
}

#[test]
fn a_released_task_can_be_claimed_again() {
    let mut queue = DeliveryQueue::new();
    queue.enqueue(1, "a@example.com".to_string());
    let claimed = queue.claim().unwrap();
    assert!(queue.release(&claimed));
    assert!(!queue.is_claimed(1, "a@example.com"));
    assert_eq!(queue.len(), 1);
    assert_eq!(queue.claim(), Some(task(1, "a@example.com")));
}

#[test]
fn releasing_a_task_that_is_not_queued_changes_nothing() {
    let mut queue = DeliveryQueue::new();
    queue.enqueue(1, "a@example.com".to_string());
    assert!(!queue.release(&task(2, "a@example.com")));
    assert_eq!(queue.len(), 1);
    assert!(!queue.contains(2, "a@example.com"));
}

#[test]
fn a_deleted_task_is_gone() {
    let mut queue = DeliveryQueue::new();
    queue.enqueue(1, "a@example.com".to_string());
    queue.enqueue(1, "b@example.com".to_string());
    let claimed = queue.claim().unwrap();
    assert!(queue.delete(&claimed));
    assert_eq!(queue.len(), 1);
    assert!(!queue.contains(claimed.newsletter_issue_id, &claimed.subscriber_email));
    assert!(!queue.delete(&claimed));
    assert_eq!(queue.len(), 1);
}

#[test]
fn the_queue_drains_to_empty_one_task_for_each_step() {
    let mut queue = DeliveryQueue::new();
    for n in 0..5u32 {
        queue.enqueue(9, format!("reader{}@example.com", n));
    }
    let mut steps = 0;
    while let Some(claimed) = queue.claim() {
        assert_eq!(queue.len(), 5 - steps);
        assert!(queue.delete(&claimed));
        steps += 1;
    }
    assert_eq!(steps, 5);
    assert_eq!(queue.len(), 0);
}

#[test]
fn a_clone_of_a_task_equals_it() {
    let first = task(3, "c@example.com");
    assert_eq!(first.clone(), first);
}
