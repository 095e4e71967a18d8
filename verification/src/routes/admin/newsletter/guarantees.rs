//! What the publish coordinator guarantees, proved from the definitions
//! of a publish request and of the publish transaction.

use crate::delivery_queue::TaskKey;
use crate::domain::subscriber_email::email_accepted;
use crate::idempotency::persistence::{ResponseView, UserId};
use crate::newsletter_issue::IssueView;
use crate::routes::admin::newsletter::{
    commit_spec, enqueue_batch, publish_commits, publish_spec, published_response,
    transaction_commits, PublishFailure,
};
use crate::store::StoreState;
use vstd::prelude::*;

verus! {

/// One run of the publish transaction: the identifier drawn for the issue,
/// the issue, and the snapshot of confirmed subscribers that it read.
pub ghost struct Attempt {
    pub issue_id: u128,
    pub issue: IssueView,
    pub snapshot: Seq<Seq<char>>,
}

/// The store after the transactions `attempts` ran on `store` one after
/// another, all of them for the caller `user_id` and the key `key`.
pub open spec fn after_attempts(store: StoreState, user_id: UserId, key: Seq<char>, attempts: Seq<Attempt>) -> StoreState
    decreases attempts.len(),
{
    if attempts.len() == 0 {
        store
    } else {
        let last = attempts.last();
        commit_spec(
            after_attempts(store, user_id, key, attempts.drop_last()),
            user_id,
            key,
            last.issue_id,
            last.issue,
            last.snapshot,
        ).0
    }
}

/// The answer that the transaction `attempts[i]` got.
pub open spec fn answer_to(store: StoreState, user_id: UserId, key: Seq<char>, attempts: Seq<Attempt>, i: int) -> Result<
    ResponseView,
    PublishFailure,
> {
    let attempt = attempts[i];
    commit_spec(
        after_attempts(store, user_id, key, attempts.take(i)),
        user_id,
        key,
        attempt.issue_id,
        attempt.issue,
        attempt.snapshot,
    ).1
}

/// The identifiers drawn for `attempts` are new to `store` and differ from
/// one another.
pub open spec fn fresh_identifiers(store: StoreState, attempts: Seq<Attempt>) -> bool {
    &&& forall|i: int|
        0 <= i < attempts.len() ==> !store.issues.contains_key((#[trigger] attempts[i]).issue_id)
    &&& forall|i: int, j: int|
        0 <= i < j < attempts.len() ==> (#[trigger] attempts[i]).issue_id != (#[trigger] attempts[j]).issue_id
}

/// Idempotency. A publish request that was answered with a response gets,
/// when the same caller sends it again with the same key, the same response
/// byte for byte, and the store stays as the first request left it: no
/// second issue and no second batch. The repeated request may differ from
/// the first in its content, its snapshot and the identifier drawn for it.
/// Where the first request committed, it stored exactly one issue and
/// enqueued exactly the batch of that issue.
pub proof fn publish_is_idempotent(
    store: StoreState,
    user_id: UserId,
    key: Seq<char>,
    first: Attempt,
    retry: Attempt,
)
    requires
        publish_spec(store, user_id, key, first.issue_id, first.issue, first.snapshot).1 is Ok,
    ensures
        ({
            let once = publish_spec(store, user_id, key, first.issue_id, first.issue, first.snapshot);
            let twice = publish_spec(once.0, user_id, key, retry.issue_id, retry.issue, retry.snapshot);
            &&& twice.1 == once.1
            &&& twice.0 == once.0
            &&& publish_commits(store, user_id, key, first.issue_id) ==> {
                &&& once.0.issues == store.issues.insert(first.issue_id, first.issue)
                &&& once.0.issues.dom() == store.issues.dom().insert(first.issue_id)
                &&& !store.issues.dom().contains(first.issue_id)
                &&& once.0.queue == enqueue_batch(store.queue, first.issue_id, first.snapshot)
            }
            &&& !publish_commits(store, user_id, key, first.issue_id) ==> once.0 == store
        }),
{
    let once = publish_spec(store, user_id, key, first.issue_id, first.issue, first.snapshot);
    if publish_commits(store, user_id, key, first.issue_id) {
        assert(once.0.issues.dom() =~= store.issues.dom().insert(first.issue_id));
    }
}

/// Running `attempts.take(i + 1)` is running `attempts.take(i)` and then
/// `attempts[i]`.
proof fn lemma_attempts_step(store: StoreState, user_id: UserId, key: Seq<char>, attempts: Seq<Attempt>, i: int)
    requires
        0 <= i < attempts.len(),
    ensures
        after_attempts(store, user_id, key, attempts.take(i + 1)) == commit_spec(
            after_attempts(store, user_id, key, attempts.take(i)),
            user_id,
            key,
            attempts[i].issue_id,
            attempts[i].issue,
            attempts[i].snapshot,
        ).0,
{
    let longer = attempts.take(i + 1);
    assert(longer.drop_last() == attempts.take(i));
    assert(longer.last() == attempts[i]);
}

/// While no transaction has committed, the store is as it was; from the
/// first one that commits on, the store is what that one made of it.
proof fn lemma_first_commit_settles(store: StoreState, user_id: UserId, key: Seq<char>, attempts: Seq<Attempt>, n: int)
    requires
        0 <= n <= attempts.len(),
        !store.responses.contains_key((user_id, key)),
    ensures
        ({
            let now = after_attempts(store, user_id, key, attempts.take(n));
            ||| (now == store && forall|i: int| 0 <= i < n ==> store.issues.contains_key(
                (#[trigger] attempts[i]).issue_id,
            ))
            ||| exists|w: int|
                {
                    &&& 0 <= w < n
                    &&& !store.issues.contains_key((#[trigger] attempts[w]).issue_id)
                    &&& forall|i: int|
                        0 <= i < w ==> store.issues.contains_key((#[trigger] attempts[i]).issue_id)
                    &&& now == commit_spec(
                        store,
                        user_id,
                        key,
                        attempts[w].issue_id,
                        attempts[w].issue,
                        attempts[w].snapshot,
                    ).0
                }
        }),
    decreases n,
{
    if n == 0 {
        assert(attempts.take(0) == Seq::<Attempt>::empty());
    } else {
        lemma_first_commit_settles(store, user_id, key, attempts, n - 1);
        lemma_attempts_step(store, user_id, key, attempts, n - 1);
        let before = after_attempts(store, user_id, key, attempts.take(n - 1));
        let now = after_attempts(store, user_id, key, attempts.take(n));
        if before == store && forall|i: int|
            0 <= i < n - 1 ==> store.issues.contains_key((#[trigger] attempts[i]).issue_id) {
            if store.issues.contains_key(attempts[n - 1].issue_id) {
                assert(now == store);
            } else {
                let w = n - 1;
                assert(!store.issues.contains_key(attempts[w].issue_id));
            }
        } else {
            let w = choose|w: int|
                {
                    &&& 0 <= w < n - 1
                    &&& !store.issues.contains_key((#[trigger] attempts[w]).issue_id)
                    &&& forall|i: int|
                        0 <= i < w ==> store.issues.contains_key((#[trigger] attempts[i]).issue_id)
                    &&& before == commit_spec(
                        store,
                        user_id,
                        key,
                        attempts[w].issue_id,
                        attempts[w].issue,
                        attempts[w].snapshot,
                    ).0
                };
            assert(before.responses.contains_key((user_id, key)));
            assert(now == before);
            assert(0 <= w < n && !store.issues.contains_key(attempts[w].issue_id));
        }
    }
}

/// Isolation under race. Let any number of publish transactions for one
/// caller and key run against a store that holds no response for them yet,
/// as they do when every one of the callers found nothing to replay; they
/// take effect in some order, one after another. Then at most one of them
/// commits: the store ends either untouched or as that one transaction
/// left it, with its one issue and its one batch. Every transaction that is
/// answered with a response is answered with the same response. And where
/// the identifiers drawn are new to the store and differ from one another,
/// every caller gets the response.
pub proof fn race_has_one_winner(store: StoreState, user_id: UserId, key: Seq<char>, attempts: Seq<Attempt>)
    requires
        !store.responses.contains_key((user_id, key)),
    ensures
        ({
            let end = after_attempts(store, user_id, key, attempts);
            ||| end == store
            ||| exists|w: int|
                {
                    &&& 0 <= w < attempts.len()
                    &&& transaction_commits(store, user_id, key, (#[trigger] attempts[w]).issue_id)
                    &&& end.issues == store.issues.insert(attempts[w].issue_id, attempts[w].issue)
                    &&& end.queue == enqueue_batch(store.queue, attempts[w].issue_id, attempts[w].snapshot)
                    &&& end.responses == store.responses.insert((user_id, key), published_response())
                }
        }),
        forall|i: int, j: int|
            #![trigger answer_to(store, user_id, key, attempts, i), answer_to(store, user_id, key, attempts, j)]
            0 <= i < attempts.len() && 0 <= j < attempts.len() && answer_to(
                store,
                user_id,
                key,
                attempts,
                i,
            ) is Ok && answer_to(store, user_id, key, attempts, j) is Ok ==> answer_to(
                store,
                user_id,
                key,
                attempts,
                i,
            ) == answer_to(store, user_id, key, attempts, j),
        fresh_identifiers(store, attempts) ==> forall|i: int|
            0 <= i < attempts.len() ==> #[trigger] answer_to(store, user_id, key, attempts, i) == Ok::<
                ResponseView,
                PublishFailure,
            >(published_response()),
{
    let n = attempts.len() as int;
    lemma_first_commit_settles(store, user_id, key, attempts, n);
    assert(attempts.take(n) == attempts);
    assert forall|i: int| 0 <= i < n && answer_to(store, user_id, key, attempts, i) is Ok implies answer_to(
        store,
        user_id,
        key,
        attempts,
        i,
    ) == Ok::<ResponseView, PublishFailure>(published_response()) by {
        lemma_first_commit_settles(store, user_id, key, attempts, i);
    }
    if fresh_identifiers(store, attempts) {
        assert forall|i: int| 0 <= i < n implies #[trigger] answer_to(store, user_id, key, attempts, i) == Ok::<
            ResponseView,
            PublishFailure,
        >(published_response()) by {
            lemma_first_commit_settles(store, user_id, key, attempts, i);
            let before = after_attempts(store, user_id, key, attempts.take(i));
            assert(!store.issues.contains_key(attempts[i].issue_id));
            if before != store {
                let w = choose|w: int|
                    {
                        &&& 0 <= w < i
                        &&& !store.issues.contains_key((#[trigger] attempts[w]).issue_id)
                        &&& forall|k: int|
                            0 <= k < w ==> store.issues.contains_key((#[trigger] attempts[k]).issue_id)
                        &&& before == commit_spec(
                            store,
                            user_id,
                            key,
                            attempts[w].issue_id,
                            attempts[w].issue,
                            attempts[w].snapshot,
                        ).0
                    };
                assert(attempts[w].issue_id != attempts[i].issue_id);
            }
        }
    }
}

/// Snapshot semantics. The batch of an issue is fixed when its transaction
/// commits: once the issue is stored, no publish request, whoever sends it
/// and whatever snapshot it reads, adds a task for that issue. Someone who
/// confirms later is in later snapshots only, and those serve later issues.
pub proof fn batch_is_fixed_at_commit(
    store: StoreState,
    issue_id: u128,
    user_id: UserId,
    key: Seq<char>,
    later: Attempt,
)
    requires
        store.issues.contains_key(issue_id),
    ensures
        publish_spec(store, user_id, key, later.issue_id, later.issue, later.snapshot).0.recipients_of(
            issue_id,
        ) == store.recipients_of(issue_id),
        commit_spec(store, user_id, key, later.issue_id, later.issue, later.snapshot).0.recipients_of(
            issue_id,
        ) == store.recipients_of(issue_id),
{
    let published = publish_spec(store, user_id, key, later.issue_id, later.issue, later.snapshot).0;
    let committed = commit_spec(store, user_id, key, later.issue_id, later.issue, later.snapshot).0;
    assert(published.recipients_of(issue_id) =~= store.recipients_of(issue_id));
    assert(committed.recipients_of(issue_id) =~= store.recipients_of(issue_id));
}

/// The batch of a committed issue is its snapshot, valid addresses only.
/// In a store whose tasks all name stored issues, the tasks queued for the
/// new issue after the commit are exactly the addresses of the snapshot
/// that validation accepts, each of them unclaimed. A rejected address is
/// left out and costs the others nothing.
pub proof fn batch_holds_the_valid_addresses(
    store: StoreState,
    user_id: UserId,
    key: Seq<char>,
    attempt: Attempt,
)
    requires
        store.tasks_name_stored_issues(),
        publish_commits(store, user_id, key, attempt.issue_id),
    ensures
        ({
            let after = publish_spec(store, user_id, key, attempt.issue_id, attempt.issue, attempt.snapshot).0;
            &&& after.tasks_name_stored_issues()
            &&& after.recipients_of(attempt.issue_id) == Set::new(
                |mail: Seq<char>| attempt.snapshot.contains(mail) && email_accepted(mail),
            )
            &&& forall|mail: Seq<char>| #[trigger]
                after.recipients_of(attempt.issue_id).contains(mail) ==> !after.queue[(
                    attempt.issue_id,
                    mail,
                )]
            &&& forall|task: TaskKey|
                task.0 != attempt.issue_id ==> (after.queue.contains_key(task) <==> store.queue.contains_key(
                    task,
                ))
        }),
{
    let after = publish_spec(store, user_id, key, attempt.issue_id, attempt.issue, attempt.snapshot).0;
    assert forall|mail: Seq<char>| !store.queue.contains_key((attempt.issue_id, mail)) by {
        if store.queue.contains_key((attempt.issue_id, mail)) {
            assert(store.issues.contains_key((attempt.issue_id, mail).0));
        }
    }
    assert(after.recipients_of(attempt.issue_id) =~= Set::new(
        |mail: Seq<char>| attempt.snapshot.contains(mail) && email_accepted(mail),
    ));
}

/// Invalid-recipient skip, at enqueue time. An address that validation
/// rejects is never enqueued: whatever a publish request does, a task for
/// such an address is queued afterwards only if it was queued before.
pub proof fn rejected_address_is_never_enqueued(
    store: StoreState,
    user_id: UserId,
    key: Seq<char>,
    attempt: Attempt,
    task: TaskKey,
)
    requires
        !email_accepted(task.1),
    ensures
        publish_spec(store, user_id, key, attempt.issue_id, attempt.issue, attempt.snapshot).0.queue.contains_key(
            task,
        ) == store.queue.contains_key(task),
{
}

/// Stored records are immutable. Whatever a publish request or a publish
/// transaction does, a response that is saved stays saved as it is, and an
/// issue that is stored stays stored as it is.
pub proof fn records_are_never_changed(store: StoreState, user_id: UserId, key: Seq<char>, attempt: Attempt)
    ensures
        ({
            let published = publish_spec(store, user_id, key, attempt.issue_id, attempt.issue, attempt.snapshot).0;
            let committed = commit_spec(store, user_id, key, attempt.issue_id, attempt.issue, attempt.snapshot).0;
            &&& store.responses.submap_of(published.responses)
            &&& store.issues.submap_of(published.issues)
            &&& store.responses.submap_of(committed.responses)
            &&& store.issues.submap_of(committed.issues)
        }),
{
}

/// Tasks reference issues. In a store whose tasks all name stored issues,
/// they still do after any publish request or publish transaction: a
/// batch is enqueued only together with its issue.
pub proof fn tasks_keep_naming_stored_issues(store: StoreState, user_id: UserId, key: Seq<char>, attempt: Attempt)
    requires
        store.tasks_name_stored_issues(),
    ensures
        publish_spec(
            store,
            user_id,
            key,
            attempt.issue_id,
            attempt.issue,
            attempt.snapshot,
        ).0.tasks_name_stored_issues(),
        commit_spec(
            store,
            user_id,
            key,
            attempt.issue_id,
            attempt.issue,
            attempt.snapshot,
        ).0.tasks_name_stored_issues(),
{
    let committed = commit_spec(store, user_id, key, attempt.issue_id, attempt.issue, attempt.snapshot).0;
    assert forall|task: TaskKey| #[trigger] committed.queue.contains_key(task) implies committed.issues.contains_key(
        task.0,
    ) by {
        if store.queue.contains_key(task) {
            assert(store.issues.contains_key(task.0));
        }
    }
}

/// All or nothing. A publish request or a publish transaction that fails
/// leaves the store exactly as it was: no issue, no task and no response
/// is kept of it, so the request can safely be sent again with the same
/// key. One that is answered with a response either committed everything,
/// the issue, its batch and the response, or replayed and changed nothing.
pub proof fn failure_keeps_nothing(store: StoreState, user_id: UserId, key: Seq<char>, attempt: Attempt)
    ensures
        ({
            let published = publish_spec(store, user_id, key, attempt.issue_id, attempt.issue, attempt.snapshot);
            let committed = commit_spec(store, user_id, key, attempt.issue_id, attempt.issue, attempt.snapshot);
            &&& published.1 is Err ==> published.0 == store
            &&& committed.1 is Err ==> committed.0 == store
            &&& published.1 is Ok ==> published.0 == store || {
                &&& published.0.issues == store.issues.insert(attempt.issue_id, attempt.issue)
                &&& published.0.queue == enqueue_batch(store.queue, attempt.issue_id, attempt.snapshot)
                &&& published.0.responses == store.responses.insert((user_id, key), published_response())
            }
        }),
{
}

} // verus!
