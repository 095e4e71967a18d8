//! The publish coordinator: accepts an issue from an authenticated caller
//! and makes sure that, for one caller and idempotency key, the issue is
//! stored and its deliveries are enqueued at most once.

pub mod guarantees;

use crate::delivery_queue::{DeliveryQueue, QueueView, TaskKey};
use crate::domain::subscriber_email::{email_accepted, SubscriberEmail};
use crate::idempotency::key::{is_valid_key, key_rejection, IdempotencyKey, KeyError};
use crate::idempotency::persistence::{CachedResponse, HeaderPair, ResponseView, UserId};
use crate::newsletter_issue::{IssueView, NewsletterIssue};
use crate::store::{Store, StoreState};
use vstd::prelude::*;
use vstd::string::StrSliceExecFns;
use vstd::string::StringExecFns;
use vstd::utf8::encode_utf8;

verus! {

/// The publish form as it arrives.
#[derive(Debug, PartialEq, Eq)]
pub struct FormData {
    pub title: String,
    pub text_content: String,
    pub html_content: String,
    pub idempotency_key: String,
}

/// Why a publish request was not carried out.
#[derive(Debug, Clone, Copy, PartialEq, Eq, Structural)]
pub enum PublishFailure {
    /// The idempotency key is malformed: a client error, raised before the
    /// store is touched.
    MalformedKey(KeyError),
    /// The store refused the transaction. Nothing of it was kept, and the
    /// request can be sent again with the same key.
    StorageFailure,
}

impl PublishFailure {
    /// The HTTP status that the failure is answered with.
    pub fn status_code(&self) -> (code: u16)
        ensures
            code == match *self {
                PublishFailure::MalformedKey(_) => 400u16,
                PublishFailure::StorageFailure => 500u16,
            },
    {
        match self {
            PublishFailure::MalformedKey(_) => 400,
            PublishFailure::StorageFailure => 500,
        }
    }
}

/// The views of a sequence of strings, in order.
pub open spec fn texts(strings: Seq<String>) -> Seq<Seq<char>> {
    strings.map_values(|s: String| s@)
}

/// A redirect to `location`: status 303, one `location` header, no body.
pub open spec fn see_other_view(location: Seq<char>) -> ResponseView {
    ResponseView {
        status_code: 303,
        headers: seq![("location"@, encode_utf8(location))],
        body: Seq::empty(),
    }
}

/// The response that a first, successful publish is answered with.
pub open spec fn published_response() -> ResponseView {
    see_other_view("/admin/newsletters"@)
}

/// The tasks of one issue for a snapshot of the confirmed subscribers: one
/// unclaimed task for each address of the snapshot that validation accepts.
pub open spec fn issue_batch(issue_id: u128, snapshot: Seq<Seq<char>>) -> QueueView {
    Map::new(
        |task: TaskKey| task.0 == issue_id && snapshot.contains(task.1) && email_accepted(task.1),
        |task: TaskKey| false,
    )
}

/// The queue after the batch of `issue_id` was added to `queue`. A task that
/// was queued before stays as it was.
pub open spec fn enqueue_batch(queue: QueueView, issue_id: u128, snapshot: Seq<Seq<char>>) -> QueueView {
    issue_batch(issue_id, snapshot).union_prefer_right(queue)
}

/// The addresses of `snapshot` that validation rejects, in order. They get
/// no task.
pub open spec fn rejected_addresses(snapshot: Seq<Seq<char>>) -> Seq<Seq<char>>
    decreases snapshot.len(),
{
    if snapshot.len() == 0 {
        Seq::empty()
    } else if email_accepted(snapshot.last()) {
        rejected_addresses(snapshot.drop_last())
    } else {
        rejected_addresses(snapshot.drop_last()).push(snapshot.last())
    }
}

/// The publish transaction commits on `store`: the identifier is free and
/// no response is saved for the caller and key.
pub open spec fn transaction_commits(store: StoreState, user_id: UserId, key: Seq<char>, issue_id: u128) -> bool {
    !store.issues.contains_key(issue_id) && !store.responses.contains_key((user_id, key))
}

/// A publish request commits on `store`: its key is well formed and its
/// transaction commits.
pub open spec fn publish_commits(store: StoreState, user_id: UserId, key: Seq<char>, issue_id: u128) -> bool {
    is_valid_key(key) && transaction_commits(store, user_id, key, issue_id)
}

/// The publish transaction on `store`: what the store is afterwards, and
/// the answer.
///
/// An identifier that is taken fails the transaction and leaves the store
/// as it was. A response that is saved already for the caller and key wins:
/// the work of this transaction is dropped and that response is the answer.
/// Otherwise the issue, its batch and the response are committed together.
pub open spec fn commit_spec(
    store: StoreState,
    user_id: UserId,
    key: Seq<char>,
    issue_id: u128,
    issue: IssueView,
    snapshot: Seq<Seq<char>>,
) -> (StoreState, Result<ResponseView, PublishFailure>) {
    if store.issues.contains_key(issue_id) {
        (store, Err(PublishFailure::StorageFailure))
    } else if store.responses.contains_key((user_id, key)) {
        (store, Ok(store.responses[(user_id, key)]))
    } else {
        (
            StoreState {
                issues: store.issues.insert(issue_id, issue),
                queue: enqueue_batch(store.queue, issue_id, snapshot),
                responses: store.responses.insert((user_id, key), published_response()),
            },
            Ok(published_response()),
        )
    }
}

/// A publish request on `store`: what the store is afterwards, and the
/// answer.
///
/// A malformed key is turned down before anything else. A response saved
/// for the caller and key is replayed and nothing changes. Otherwise the
/// publish transaction runs.
pub open spec fn publish_spec(
    store: StoreState,
    user_id: UserId,
    key: Seq<char>,
    issue_id: u128,
    issue: IssueView,
    snapshot: Seq<Seq<char>>,
) -> (StoreState, Result<ResponseView, PublishFailure>) {
    if !is_valid_key(key) {
        (store, Err(PublishFailure::MalformedKey(key_rejection(key)->0)))
    } else if store.responses.contains_key((user_id, key)) {
        (store, Ok(store.responses[(user_id, key)]))
    } else {
        commit_spec(store, user_id, key, issue_id, issue, snapshot)
    }
}

/// What an answer is, as plain values.
pub open spec fn answer_view(answer: Result<CachedResponse, PublishFailure>) -> Result<
    ResponseView,
    PublishFailure,
> {
    match answer {
        Ok(response) => Ok(response@),
        Err(failure) => Err(failure),
    }
}

/// A redirect to `location`.
pub fn see_other(location: &str) -> (response: CachedResponse)
    ensures
        response@ == see_other_view(location@),
{
    let mut headers: Vec<HeaderPair> = Vec::new();
    headers.push(HeaderPair { name: String::from_str("location"), value: location.as_bytes_vec() });
    let response = CachedResponse { status_code: 303, headers, body: Vec::new() };
    assert(response@.headers == see_other_view(location@).headers);
    response
}

/// Adding one more address to the snapshot adds its task, if validation
/// accepts the address and the task is not queued yet, and nothing else.
proof fn lemma_batch_step(queue: QueueView, issue_id: u128, seen: Seq<Seq<char>>, mail: Seq<char>)
    ensures
        enqueue_batch(queue, issue_id, seen.push(mail)) == if email_accepted(mail) && !enqueue_batch(
            queue,
            issue_id,
            seen,
        ).contains_key((issue_id, mail)) {
            enqueue_batch(queue, issue_id, seen).insert((issue_id, mail), false)
        } else {
            enqueue_batch(queue, issue_id, seen)
        },
{
    let before = enqueue_batch(queue, issue_id, seen);
    let after = enqueue_batch(queue, issue_id, seen.push(mail));
    let longer = seen.push(mail);
    assert forall|m: Seq<char>| longer.contains(m) <==> (seen.contains(m) || m == mail) by {
        if longer.contains(m) {
            let i = choose|i: int| 0 <= i < longer.len() && longer[i] == m;
            if i < seen.len() {
                assert(seen[i] == m);
            }
        }
        if seen.contains(m) {
            let i = choose|i: int| 0 <= i < seen.len() && seen[i] == m;
            assert(longer[i] == m);
        }
        if m == mail {
            assert(longer[seen.len() as int] == m);
        }
    }
    if email_accepted(mail) && !before.contains_key((issue_id, mail)) {
        assert(after =~= before.insert((issue_id, mail), false));
    } else {
        assert(after =~= before);
    }
}

/// The addresses of `snapshot` that validation accepts, in order. Each of
/// them gets a task.
pub open spec fn accepted_addresses(snapshot: Seq<Seq<char>>) -> Seq<Seq<char>>
    decreases snapshot.len(),
{
    if snapshot.len() == 0 {
        Seq::empty()
    } else if email_accepted(snapshot.last()) {
        accepted_addresses(snapshot.drop_last()).push(snapshot.last())
    } else {
        accepted_addresses(snapshot.drop_last())
    }
}

/// The addresses of a sequence of recipients, in order.
pub open spec fn addresses(recipients: Seq<SubscriberEmail>) -> Seq<Seq<char>> {
    recipients.map_values(|recipient: SubscriberEmail| recipient@)
}

/// A snapshot of the confirmed subscribers, sorted into those who get a
/// task and those who are passed over.
#[derive(Debug)]
pub struct Batch {
    /// The valid addresses, in the snapshot's order.
    pub recipients: Vec<SubscriberEmail>,
    /// The stored addresses that validation rejects, in the snapshot's
    /// order. They are for the log.
    pub skipped: Vec<String>,
}

/// Validates every address of `snapshot` again. A rejected address is
/// passed over and stops nothing.
pub fn plan_batch(snapshot: &Vec<String>) -> (batch: Batch)
    ensures
        addresses(batch.recipients@) == accepted_addresses(texts(snapshot@)),
        texts(batch.skipped@) == rejected_addresses(texts(snapshot@)),
{
    let mut recipients: Vec<SubscriberEmail> = Vec::new();
    let mut skipped: Vec<String> = Vec::new();
    let mut i: usize = 0;
    proof {
        assert(texts(snapshot@).take(0) == Seq::<Seq<char>>::empty());
        assert(addresses(recipients@) == Seq::<Seq<char>>::empty());
        assert(texts(skipped@) == Seq::<Seq<char>>::empty());
    }
    while i < snapshot.len()
        invariant
            i <= snapshot.len(),
            addresses(recipients@) == accepted_addresses(texts(snapshot@).take(i as int)),
            texts(skipped@) == rejected_addresses(texts(snapshot@).take(i as int)),
        decreases snapshot.len() - i,
    {
        proof {
            let seen = texts(snapshot@).take(i as int);
            assert(texts(snapshot@).take(i + 1) == seen.push(snapshot@[i as int]@));
            assert(seen.push(snapshot@[i as int]@).drop_last() == seen);
        }
        match SubscriberEmail::parse(snapshot[i].clone()) {
            Ok(email) => {
                proof {
                    assert(addresses(recipients@.push(email)) == addresses(recipients@).push(email@));
                }
                recipients.push(email);
            },
            Err(_) => {
                let rejected = snapshot[i].clone();
                proof {
                    assert(texts(skipped@.push(rejected)) == texts(skipped@).push(rejected@));
                }
                skipped.push(rejected);
            },
        }
        i += 1;
    }
    proof {
        assert(texts(snapshot@).take(i as int) == texts(snapshot@));
    }
    Batch { recipients, skipped }
}

/// The accepted addresses of a snapshot are its addresses that validation
/// accepts.
proof fn lemma_accepted_addresses(snapshot: Seq<Seq<char>>, mail: Seq<char>)
    ensures
        accepted_addresses(snapshot).contains(mail) <==> snapshot.contains(mail) && email_accepted(mail),
    decreases snapshot.len(),
{
    if snapshot.len() > 0 {
        let front = snapshot.drop_last();
        let last = snapshot.last();
        lemma_accepted_addresses(front, mail);
        assert(snapshot.contains(mail) <==> front.contains(mail) || mail == last) by {
            if snapshot.contains(mail) {
                let i = choose|i: int| 0 <= i < snapshot.len() && snapshot[i] == mail;
                if i < front.len() {
                    assert(front[i] == mail);
                }
            }
            if front.contains(mail) {
                let i = choose|i: int| 0 <= i < front.len() && front[i] == mail;
                assert(snapshot[i] == mail);
            }
            if mail == last {
                assert(snapshot[snapshot.len() - 1] == mail);
            }
        }
        if email_accepted(last) {
            let accepted = accepted_addresses(front);
            assert(accepted.push(last).contains(mail) <==> accepted.contains(mail) || mail == last) by {
                let longer = accepted.push(last);
                if longer.contains(mail) {
                    let i = choose|i: int| 0 <= i < longer.len() && longer[i] == mail;
                    if i < accepted.len() {
                        assert(accepted[i] == mail);
                    }
                }
                if accepted.contains(mail) {
                    let i = choose|i: int| 0 <= i < accepted.len() && accepted[i] == mail;
                    assert(longer[i] == mail);
                }
                if mail == last {
                    assert(longer[accepted.len() as int] == mail);
                }
            }
        }
    }
}

/// Enqueues the batch of `issue_id`: one task for each address of
/// `snapshot` that validation accepts. A rejected address gets no task and
/// stops nothing; the rejected addresses are returned, in order, for the
/// log.
pub fn enqueue_delivery_tasks(queue: &mut DeliveryQueue, issue_id: u128, snapshot: &Vec<String>) -> (skipped:
    Vec<String>)
    ensures
        final(queue)@ == enqueue_batch(old(queue)@, issue_id, texts(snapshot@)),
        texts(skipped@) == rejected_addresses(texts(snapshot@)),
{
    let batch = plan_batch(snapshot);
    let ghost accepted = addresses(batch.recipients@);
    let mut i: usize = 0;
    proof {
        assert(accepted.take(0) == Seq::<Seq<char>>::empty());
        assert(enqueue_batch(queue@, issue_id, Seq::empty()) =~= queue@);
    }
    while i < batch.recipients.len()
        invariant
            i <= batch.recipients.len(),
            accepted == addresses(batch.recipients@),
            queue@ == enqueue_batch(old(queue)@, issue_id, accepted.take(i as int)),
        decreases batch.recipients.len() - i,
    {
        let recipient = &batch.recipients[i];
        let mail = String::from_str(recipient.as_ref());
        proof {
            assert(accepted.take(i + 1) == accepted.take(i as int).push(mail@));
            lemma_batch_step(old(queue)@, issue_id, accepted.take(i as int), mail@);
        }
        queue.enqueue(issue_id, mail);
        i += 1;
    }
    proof {
        assert(accepted.take(i as int) == accepted);
        assert(issue_batch(issue_id, accepted) =~= issue_batch(issue_id, texts(snapshot@))) by {
            assert forall|task: TaskKey|
                issue_batch(issue_id, accepted).contains_key(task) <==> issue_batch(
                    issue_id,
                    texts(snapshot@),
                ).contains_key(task) by {
                lemma_accepted_addresses(texts(snapshot@), task.1);
            }
        }
    }
    batch.skipped
}

/// How the publish transaction ended.
#[derive(Debug, Clone, Copy, PartialEq, Eq, Structural)]
pub enum TransactionOutcome {
    /// The issue, its batch and the response were committed together.
    Committed,
    /// A response was saved already for the caller and key: the
    /// transaction was rolled back.
    Conflict,
    /// The store refused a statement: the transaction was rolled back.
    Failed,
}

/// What the coordinator does next. The caller carries the step out against
/// the store and reports back with the function that the step names.
#[derive(Debug)]
pub enum PublishStep {
    /// Look up the response saved for the caller and `key`, then call
    /// `after_lookup`.
    Lookup { key: IdempotencyKey, issue: NewsletterIssue },
    /// Run the publish transaction: store `issue`, read the confirmed
    /// subscribers and enqueue their batch, save `response` for the caller
    /// and `key`. Commit if the response was saved, roll back otherwise.
    /// Then call `after_transaction`.
    Transact { key: IdempotencyKey, issue: NewsletterIssue, response: CachedResponse },
    /// Look up the response that the winner of the race saved for the
    /// caller and `key`, then call `after_winner`.
    LookupWinner { key: IdempotencyKey },
    /// Answer the caller.
    Respond(Result<CachedResponse, PublishFailure>),
}

/// What a step of the coordinator is, as plain values.
pub ghost enum PublishStepView {
    Lookup { key: Seq<char>, issue: IssueView },
    Transact { key: Seq<char>, issue: IssueView, response: ResponseView },
    LookupWinner { key: Seq<char> },
    Respond(Result<ResponseView, PublishFailure>),
}

impl View for PublishStep {
    type V = PublishStepView;

    open spec fn view(&self) -> PublishStepView {
        match *self {
            PublishStep::Lookup { key, issue } => PublishStepView::Lookup { key: key@, issue: issue@ },
            PublishStep::Transact { key, issue, response } => PublishStepView::Transact {
                key: key@,
                issue: issue@,
                response: response@,
            },
            PublishStep::LookupWinner { key } => PublishStepView::LookupWinner { key: key@ },
            PublishStep::Respond(answer) => PublishStepView::Respond(answer_view(answer)),
        }
    }
}

/// The issue that a form asks to publish.
pub open spec fn form_issue(form: FormData) -> IssueView {
    IssueView {
        title: form.title@,
        text_content: form.text_content@,
        html_content: form.html_content@,
    }
}

/// What a saved response is, as plain values.
pub open spec fn saved_view(saved: Option<CachedResponse>) -> Option<ResponseView> {
    match saved {
        Some(response) => Some(response@),
        None => None,
    }
}

/// The first step on a form: a malformed key is answered at once, before
/// the store is touched; any other key is looked up.
pub open spec fn first_step(key: Seq<char>, issue: IssueView) -> PublishStepView {
    match key_rejection(key) {
        Some(e) => PublishStepView::Respond(Err(PublishFailure::MalformedKey(e))),
        None => PublishStepView::Lookup { key, issue },
    }
}

/// The step after the lookup: a saved response is replayed as it is;
/// without one the transaction runs, with the redirect as its response.
pub open spec fn step_after_lookup(key: Seq<char>, issue: IssueView, saved: Option<ResponseView>) -> PublishStepView {
    match saved {
        Some(response) => PublishStepView::Respond(Ok(response)),
        None => PublishStepView::Transact { key, issue, response: published_response() },
    }
}

/// The step after the transaction: a committed response is the answer; a
/// conflict sends the coordinator to the winner's response; a failure is a
/// server error.
pub open spec fn step_after_transaction(key: Seq<char>, response: ResponseView, outcome: TransactionOutcome) -> PublishStepView {
    match outcome {
        TransactionOutcome::Committed => PublishStepView::Respond(Ok(response)),
        TransactionOutcome::Conflict => PublishStepView::LookupWinner { key },
        TransactionOutcome::Failed => PublishStepView::Respond(Err(PublishFailure::StorageFailure)),
    }
}

/// The step after the second lookup: the winner's response is the answer.
/// A store that reported a conflict and shows no response has failed.
pub open spec fn step_after_winner(saved: Option<ResponseView>) -> PublishStepView {
    match saved {
        Some(response) => PublishStepView::Respond(Ok(response)),
        None => PublishStepView::Respond(Err(PublishFailure::StorageFailure)),
    }
}

/// Starts a publish request: validates the idempotency key of the form.
pub fn begin_publish(form: FormData) -> (step: PublishStep)
    ensures
        step@ == first_step(form.idempotency_key@, form_issue(form)),
{
    let FormData { title, text_content, html_content, idempotency_key } = form;
    match IdempotencyKey::parse(idempotency_key) {
        Err(e) => PublishStep::Respond(Err(PublishFailure::MalformedKey(e))),
        Ok(key) => PublishStep::Lookup { key, issue: NewsletterIssue { title, text_content, html_content } },
    }
}

/// Goes on after the lookup of the saved response.
pub fn after_lookup(key: IdempotencyKey, issue: NewsletterIssue, saved: Option<CachedResponse>) -> (step:
    PublishStep)
    ensures
        step@ == step_after_lookup(key@, issue@, saved_view(saved)),
{
    match saved {
        Some(response) => PublishStep::Respond(Ok(response)),
        None => PublishStep::Transact { key, issue, response: see_other("/admin/newsletters") },
    }
}

/// Goes on after the publish transaction.
pub fn after_transaction(key: IdempotencyKey, response: CachedResponse, outcome: TransactionOutcome) -> (step:
    PublishStep)
    ensures
        step@ == step_after_transaction(key@, response@, outcome),
{
    match outcome {
        TransactionOutcome::Committed => PublishStep::Respond(Ok(response)),
        TransactionOutcome::Conflict => PublishStep::LookupWinner { key },
        TransactionOutcome::Failed => PublishStep::Respond(Err(PublishFailure::StorageFailure)),
    }
}

/// Goes on after the lookup of the winner's response.
pub fn after_winner(saved: Option<CachedResponse>) -> (step: PublishStep)
    ensures
        step@ == step_after_winner(saved_view(saved)),
{
    match saved {
        Some(response) => PublishStep::Respond(Ok(response)),
        None => PublishStep::Respond(Err(PublishFailure::StorageFailure)),
    }
}

/// The publish transaction on `store`, as the store carries it out: what
/// the store is afterwards, and how the transaction ended. Only a
/// transaction that commits leaves anything behind.
pub open spec fn transaction_spec(
    store: StoreState,
    user_id: UserId,
    key: Seq<char>,
    issue_id: u128,
    issue: IssueView,
    response: ResponseView,
    snapshot: Seq<Seq<char>>,
) -> (StoreState, TransactionOutcome) {
    if store.issues.contains_key(issue_id) {
        (store, TransactionOutcome::Failed)
    } else if store.responses.contains_key((user_id, key)) {
        (store, TransactionOutcome::Conflict)
    } else {
        (
            StoreState {
                issues: store.issues.insert(issue_id, issue),
                queue: enqueue_batch(store.queue, issue_id, snapshot),
                responses: store.responses.insert((user_id, key), response),
            },
            TransactionOutcome::Committed,
        )
    }
}

/// What a transaction did.
pub struct Transaction {
    /// How it ended.
    pub outcome: TransactionOutcome,
    /// The snapshot's addresses that validation rejected, where the
    /// transaction committed: they got no task.
    pub skipped: Vec<String>,
}

/// Carries the publish transaction out on `store`: stores `issue` under
/// `issue_id`, enqueues its batch from `snapshot` and saves `response` for
/// the caller and `key`, all or nothing. An identifier that is taken fails
/// the transaction; a response that is saved already makes it a conflict.
pub fn run_transaction(
    store: &mut Store,
    user_id: UserId,
    key: &IdempotencyKey,
    issue_id: u128,
    issue: &NewsletterIssue,
    response: &CachedResponse,
    snapshot: &Vec<String>,
) -> (transaction: Transaction)
    ensures
        (final(store)@, transaction.outcome) == transaction_spec(
            old(store)@,
            user_id,
            key@,
            issue_id,
            issue@,
            response@,
            texts(snapshot@),
        ),
        texts(transaction.skipped@) == if transaction_commits(old(store)@, user_id, key@, issue_id) {
            rejected_addresses(texts(snapshot@))
        } else {
            Seq::<Seq<char>>::empty()
        },
{
    let nothing: Vec<String> = Vec::new();
    assert(texts(nothing@) == Seq::<Seq<char>>::empty());
    if store.issues.get_issue(issue_id).is_some() {
        return Transaction { outcome: TransactionOutcome::Failed, skipped: nothing };
    }
    if store.fingerprints.lookup(user_id, key).is_some() {
        return Transaction { outcome: TransactionOutcome::Conflict, skipped: nothing };
    }
    // The identifier is free and no response is saved: from here on no
    // statement can fail, so there is nothing to roll back.
    let stored = store.issues.insert_newsletter_issue(issue_id, issue.clone());
    let skipped = enqueue_delivery_tasks(&mut store.queue, issue_id, snapshot);
    let saved = store.fingerprints.save(user_id, key.clone(), response.clone());
    assert(stored is Ok && saved is Ok);
    Transaction { outcome: TransactionOutcome::Committed, skipped }
}

/// What a publish request did.
pub struct Publication {
    /// The answer to the caller.
    pub answer: Result<CachedResponse, PublishFailure>,
    /// The snapshot's addresses that validation rejected, where a batch was
    /// enqueued: they got no task.
    pub skipped: Vec<String>,
}

/// Runs the publish transaction for a key that is well formed and goes on
/// to the answer: stores the issue under `issue_id`, enqueues its batch
/// from `snapshot` and saves the response, all or nothing.
///
/// Where `issue_id` is taken the transaction fails and nothing is kept.
/// Where a response is saved already for the caller and key, as happens to
/// the loser of a race, that response is returned and nothing is kept of
/// this transaction.
pub fn commit_publication(
    store: &mut Store,
    user_id: UserId,
    key: IdempotencyKey,
    issue_id: u128,
    issue: NewsletterIssue,
    snapshot: &Vec<String>,
) -> (publication: Publication)
    ensures
        (final(store)@, answer_view(publication.answer)) == commit_spec(
            old(store)@,
            user_id,
            key@,
            issue_id,
            issue@,
            texts(snapshot@),
        ),
        texts(publication.skipped@) == if transaction_commits(old(store)@, user_id, key@, issue_id) {
            rejected_addresses(texts(snapshot@))
        } else {
            Seq::<Seq<char>>::empty()
        },
{
    let response = see_other("/admin/newsletters");
    let Transaction { outcome, skipped } = run_transaction(
        store,
        user_id,
        &key,
        issue_id,
        &issue,
        &response,
        snapshot,
    );
    let answer = match after_transaction(key, response, outcome) {
        PublishStep::Respond(answer) => answer,
        PublishStep::LookupWinner { key } => {
            match after_winner(store.fingerprints.lookup(user_id, &key)) {
                PublishStep::Respond(answer) => answer,
                _ => unreached(),
            }
        },
        _ => unreached(),
    };
    Publication { answer, skipped }
}

/// Handles one publish request.
///
/// A malformed idempotency key is a client error. A key that the caller has
/// used before gets the response that was saved for it, and nothing else
/// happens. A new key runs the publish transaction with `issue_id` for the
/// new issue and `snapshot` as the confirmed subscribers of this moment.
pub fn publish_with_issue_id(
    store: &mut Store,
    user_id: UserId,
    form: FormData,
    issue_id: u128,
    snapshot: &Vec<String>,
) -> (publication: Publication)
    ensures
        (final(store)@, answer_view(publication.answer)) == publish_spec(
            old(store)@,
            user_id,
            form.idempotency_key@,
            issue_id,
            form_issue(form),
            texts(snapshot@),
        ),
        texts(publication.skipped@) == if publish_commits(
            old(store)@,
            user_id,
            form.idempotency_key@,
            issue_id,
        ) {
            rejected_addresses(texts(snapshot@))
        } else {
            Seq::<Seq<char>>::empty()
        },
{
    let nothing: Vec<String> = Vec::new();
    assert(texts(nothing@) == Seq::<Seq<char>>::empty());
    match begin_publish(form) {
        PublishStep::Lookup { key, issue } => {
            let saved = store.fingerprints.lookup(user_id, &key);
            match after_lookup(key, issue, saved) {
                PublishStep::Transact { key, issue, response: _ } => commit_publication(
                    store,
                    user_id,
                    key,
                    issue_id,
                    issue,
                    snapshot,
                ),
                PublishStep::Respond(answer) => Publication { answer, skipped: nothing },
                _ => unreached(),
            }
        },
        PublishStep::Respond(answer) => Publication { answer, skipped: nothing },
        _ => unreached(),
    }
}

/// Calls `uuid::Uuid::new_v4` and hands the identifier on as a number.
/// The identifier is random: nothing is promised of it.
#[verifier::external_body]
fn new_issue_id() -> (issue_id: u128) {
    uuid::Uuid::new_v4().as_u128()
}

/// Handles one publish request, with a random identifier for the issue
/// that it may store. Whatever identifier was drawn, the request was
/// handled as `publish_with_issue_id` handles it.
pub fn publish_newsletter(store: &mut Store, user_id: UserId, form: FormData, snapshot: &Vec<String>) -> (publication:
    Publication)
    ensures
        exists|issue_id: u128|
            {
                &&& (final(store)@, answer_view(publication.answer)) == #[trigger] publish_spec(
                    old(store)@,
                    user_id,
                    form.idempotency_key@,
                    issue_id,
                    form_issue(form),
                    texts(snapshot@),
                )
                &&& texts(publication.skipped@) == if publish_commits(
                    old(store)@,
                    user_id,
                    form.idempotency_key@,
                    issue_id,
                ) {
                    rejected_addresses(texts(snapshot@))
                } else {
                    Seq::<Seq<char>>::empty()
                }
            },
{
    let issue_id = new_issue_id();
    publish_with_issue_id(store, user_id, form, issue_id, snapshot)
}

} // verus!
