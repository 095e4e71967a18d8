//! The delivery worker, one step at a time: claim a task, decide what to do
//! with it, and delete it once the attempt is over. The caller owns the
//! loop, the transport and the clock.

use crate::delivery_queue::{
    claim_taken, claim_then_delete_completes, delivery_completed, nothing_claimable, DeliveryTask,
    TaskKey,
};
use crate::domain::subscriber_email::{email_accepted, invalid_email_reason, SubscriberEmail};
use crate::newsletter_issue::{IssueView, NewsletterIssue};
use crate::store::{Store, StoreState};
use vstd::prelude::*;

verus! {

/// The seconds a worker waits after it found the queue empty or a step
/// failed.
pub const POLL_INTERVAL_SECONDS: u64 = 1;

/// How an attempt to execute one task ended.
#[derive(Debug, Clone, Copy, PartialEq, Eq, Structural)]
pub enum ExecutionOutcome {
    TaskCompleted,
    EmptyQueue,
}

/// Why a step of the worker failed. The task that it had claimed is queued
/// and free again.
#[derive(Debug, Clone, Copy, PartialEq, Eq, Structural)]
pub enum WorkerError {
    /// The claimed task names an issue that is not stored.
    IssueNotFound(u128),
}

/// What an e-mail for the transport is, as plain values.
pub ghost struct EmailView {
    pub recipient: Seq<char>,
    pub subject: Seq<char>,
    pub html_content: Seq<char>,
    pub text_content: Seq<char>,
}

/// One e-mail, ready for the transport.
#[derive(Debug)]
pub struct OutgoingEmail {
    pub recipient: SubscriberEmail,
    pub subject: String,
    pub html_content: String,
    pub text_content: String,
}

impl View for OutgoingEmail {
    type V = EmailView;

    open spec fn view(&self) -> EmailView {
        EmailView {
            recipient: self.recipient@,
            subject: self.subject@,
            html_content: self.html_content@,
            text_content: self.text_content@,
        }
    }
}

/// A claimed task and the e-mail that delivers it.
#[derive(Debug)]
pub struct PendingDelivery {
    pub task: DeliveryTask,
    pub email: OutgoingEmail,
}

/// Where a worker stands after it tried to take a task.
#[derive(Debug)]
pub enum TaskProgress {
    /// No task could be claimed.
    EmptyQueue,
    /// The claimed task named an address that validation rejects. It was
    /// deleted and no e-mail is due; `reason` is for the log.
    Skipped { task: DeliveryTask, reason: String },
    /// The claimed task awaits its e-mail. The worker hands the e-mail to
    /// the transport and then calls `complete_delivery`.
    AwaitingTransport(PendingDelivery),
}

/// What the progress of a worker is, as plain values.
pub ghost enum ProgressView {
    EmptyQueue,
    Skipped { task: TaskKey, reason: Seq<char> },
    AwaitingTransport { task: TaskKey, email: EmailView },
}

impl View for TaskProgress {
    type V = ProgressView;

    open spec fn view(&self) -> ProgressView {
        match *self {
            TaskProgress::EmptyQueue => ProgressView::EmptyQueue,
            TaskProgress::Skipped { task, reason } => ProgressView::Skipped { task: task@, reason: reason@ },
            TaskProgress::AwaitingTransport(pending) => ProgressView::AwaitingTransport {
                task: pending.task@,
                email: pending.email@,
            },
        }
    }
}

/// What the result of a step is, as plain values.
pub open spec fn step_view(progress: Result<TaskProgress, WorkerError>) -> Result<ProgressView, WorkerError> {
    match progress {
        Ok(progress) => Ok(progress@),
        Err(e) => Err(e),
    }
}

/// The e-mail that delivers the task `task` from `store`.
pub open spec fn email_for(store: StoreState, task: TaskKey) -> EmailView {
    issue_email(task.1, store.issues[task.0])
}

/// `task` is queued in `store` and no worker holds it.
pub open spec fn claimable(store: StoreState, task: TaskKey) -> bool {
    store.queue.contains_key(task) && !store.queue[task]
}

/// `after` differs from `before` in its queue at most.
pub open spec fn only_queue_changed(before: StoreState, after: StoreState) -> bool {
    after.issues == before.issues && after.responses == before.responses
}

/// One step of a worker takes the store from `before` to `after` with the
/// result `progress`. Which of several free tasks a step claims is left
/// open; everything else is fixed by the task that it claims.
///
/// - With no free task the step reports an empty queue and changes nothing.
/// - A free task whose stored address validation rejects is deleted, and
///   the step reports it as skipped, with the reason.
/// - A free task with a valid address whose issue is stored is claimed, and
///   the step hands out the e-mail made of the stored issue.
/// - A free task with a valid address whose issue is not stored fails the
///   step, and nothing changes.
pub open spec fn worker_step(
    before: StoreState,
    progress: Result<ProgressView, WorkerError>,
    after: StoreState,
) -> bool {
    &&& only_queue_changed(before, after)
    &&& match progress {
        Ok(ProgressView::EmptyQueue) => nothing_claimable(before.queue) && after.queue == before.queue,
        Ok(ProgressView::Skipped { task, reason }) => {
            &&& claimable(before, task)
            &&& !email_accepted(task.1)
            &&& reason == invalid_email_reason(task.1)
            &&& after.queue == before.queue.remove(task)
        },
        Ok(ProgressView::AwaitingTransport { task, email }) => {
            &&& claim_taken(before.queue, task, after.queue)
            &&& email_accepted(task.1)
            &&& before.issues.contains_key(task.0)
            &&& email == email_for(before, task)
        },
        Err(WorkerError::IssueNotFound(issue_id)) => {
            &&& after.queue == before.queue
            &&& exists|mail: Seq<char>|
                #![trigger before.queue.contains_key((issue_id, mail))]
                claimable(before, (issue_id, mail)) && email_accepted(mail)
            &&& !before.issues.contains_key(issue_id)
        },
    }
}

/// What a worker does with the task that it asked the queue for.
#[derive(Debug)]
pub enum ClaimDecision {
    /// Nothing was claimed: the attempt is over.
    Idle,
    /// The stored address fails validation: delete the task, send nothing.
    Discard { task: DeliveryTask, reason: String },
    /// The address is valid: fetch the issue of the task, then call
    /// `after_issue`.
    FetchIssue { task: DeliveryTask, recipient: SubscriberEmail },
}

/// What a decision on a claim is, as plain values.
pub ghost enum ClaimDecisionView {
    Idle,
    Discard { task: TaskKey, reason: Seq<char> },
    FetchIssue { task: TaskKey, recipient: Seq<char> },
}

impl View for ClaimDecision {
    type V = ClaimDecisionView;

    open spec fn view(&self) -> ClaimDecisionView {
        match *self {
            ClaimDecision::Idle => ClaimDecisionView::Idle,
            ClaimDecision::Discard { task, reason } => ClaimDecisionView::Discard {
                task: task@,
                reason: reason@,
            },
            ClaimDecision::FetchIssue { task, recipient } => ClaimDecisionView::FetchIssue {
                task: task@,
                recipient: recipient@,
            },
        }
    }
}

/// The decision on what the queue handed out: the stored address of a
/// claimed task is validated again, and a task whose address fails is to
/// be discarded unsent.
pub open spec fn claim_decision(claimed: Option<TaskKey>) -> ClaimDecisionView {
    match claimed {
        None => ClaimDecisionView::Idle,
        Some(task) => if email_accepted(task.1) {
            ClaimDecisionView::FetchIssue { task, recipient: task.1 }
        } else {
            ClaimDecisionView::Discard { task, reason: invalid_email_reason(task.1) }
        },
    }
}

/// What a claimed task is, as plain values.
pub open spec fn claimed_view(claimed: Option<DeliveryTask>) -> Option<TaskKey> {
    match claimed {
        Some(task) => Some(task@),
        None => None,
    }
}

/// Decides what becomes of the task that the queue handed out, if any.
pub fn after_claim(claimed: Option<DeliveryTask>) -> (decision: ClaimDecision)
    ensures
        decision@ == claim_decision(claimed_view(claimed)),
{
    match claimed {
        None => ClaimDecision::Idle,
        Some(task) => match SubscriberEmail::parse(task.subscriber_email.clone()) {
            Err(reason) => ClaimDecision::Discard { task, reason },
            Ok(recipient) => ClaimDecision::FetchIssue { task, recipient },
        },
    }
}

/// The e-mail that delivers `issue` to `recipient`.
pub open spec fn issue_email(recipient: Seq<char>, issue: IssueView) -> EmailView {
    EmailView {
        recipient,
        subject: issue.title,
        html_content: issue.html_content,
        text_content: issue.text_content,
    }
}

/// Decides what follows the lookup of a claimed task's issue: the e-mail
/// to hand to the transport, or, where the issue was not found, the error
/// that ends the attempt without a commit.
pub fn after_issue(task: DeliveryTask, recipient: SubscriberEmail, issue: Option<NewsletterIssue>) -> (next:
    Result<PendingDelivery, WorkerError>)
    ensures
        match issue {
            Some(found) => next matches Ok(pending) && pending.task@ == task@ && pending.email@
                == issue_email(recipient@, found@),
            None => next == Err::<PendingDelivery, WorkerError>(
                WorkerError::IssueNotFound(task.newsletter_issue_id),
            ),
        },
{
    match issue {
        None => Err(WorkerError::IssueNotFound(task.newsletter_issue_id)),
        Some(found) => Ok(
            PendingDelivery {
                task,
                email: OutgoingEmail {
                    recipient,
                    subject: found.title,
                    html_content: found.html_content,
                    text_content: found.text_content,
                },
            },
        ),
    }
}

/// Claims one task and decides what becomes of it.
///
/// With no task to claim nothing changes. A task whose stored address fails
/// validation is deleted on the spot: no e-mail is attempted, now or later.
/// A task whose issue is stored stays claimed and comes back with its
/// e-mail. A task whose issue is missing fails the step; its claim is given
/// back, so the task can be taken again.
pub fn try_execute_task(store: &mut Store) -> (progress: Result<TaskProgress, WorkerError>)
    ensures
        worker_step(old(store)@, step_view(progress), final(store)@),
{
    match after_claim(store.queue.claim()) {
        ClaimDecision::Idle => Ok(TaskProgress::EmptyQueue),
        ClaimDecision::Discard { task, reason } => {
            store.queue.delete(&task);
            assert(store@.queue =~= old(store)@.queue.remove(task@));
            Ok(TaskProgress::Skipped { task, reason })
        },
        ClaimDecision::FetchIssue { task, recipient } => {
            let ghost claimed = task@;
            let issue = store.issues.get_issue(task.newsletter_issue_id);
            match after_issue(task.clone(), recipient, issue) {
                Ok(pending) => Ok(TaskProgress::AwaitingTransport(pending)),
                Err(e) => {
                    store.queue.release(&task);
                    assert(store@.queue =~= old(store)@.queue);
                    assert(old(store)@.queue.contains_key((claimed.0, claimed.1)));
                    Err(e)
                },
            }
        },
    }
}

/// Ends the attempt on a claimed task: the task is deleted, whether the
/// transport took the e-mail or failed. A failed e-mail is not sent again.
pub fn complete_delivery(store: &mut Store, task: &DeliveryTask, delivered: bool) -> (outcome:
    ExecutionOutcome)
    ensures
        outcome == ExecutionOutcome::TaskCompleted,
        only_queue_changed(old(store)@, final(store)@),
        final(store)@.queue == old(store)@.queue.remove(task@),
{
    store.queue.delete(task);
    ExecutionOutcome::TaskCompleted
}

/// Gives up the attempt on a claimed task without an outcome, as when the
/// worker's transaction ends without a commit: the task stays queued and
/// can be claimed again.
pub fn abandon_delivery(store: &mut Store, task: &DeliveryTask)
    ensures
        only_queue_changed(old(store)@, final(store)@),
        final(store)@.queue == if old(store)@.queue.contains_key(task@) {
            old(store)@.queue.insert(task@, false)
        } else {
            old(store)@.queue
        },
{
    store.queue.release(task);
}

impl TaskProgress {
    /// The outcome that the step has reached, if it is over.
    pub fn outcome(&self) -> (outcome: Option<ExecutionOutcome>)
        ensures
            outcome == match *self {
                TaskProgress::EmptyQueue => Some(ExecutionOutcome::EmptyQueue),
                TaskProgress::Skipped { .. } => Some(ExecutionOutcome::TaskCompleted),
                TaskProgress::AwaitingTransport(_) => None,
            },
    {
        match self {
            TaskProgress::EmptyQueue => Some(ExecutionOutcome::EmptyQueue),
            TaskProgress::Skipped { .. } => Some(ExecutionOutcome::TaskCompleted),
            TaskProgress::AwaitingTransport(_) => None,
        }
    }
}

/// The seconds that the worker loop sleeps before its next attempt: the
/// poll interval after an empty queue or a failed step, none after a task
/// that was completed.
pub fn pause_after<E>(attempt: &Result<ExecutionOutcome, E>) -> (seconds: Option<u64>)
    ensures
        seconds == match *attempt {
            Ok(ExecutionOutcome::TaskCompleted) => None,
            Ok(ExecutionOutcome::EmptyQueue) => Some(POLL_INTERVAL_SECONDS),
            Err(_) => Some(POLL_INTERVAL_SECONDS),
        },
{
    match attempt {
        Ok(ExecutionOutcome::TaskCompleted) => None,
        Ok(ExecutionOutcome::EmptyQueue) => Some(POLL_INTERVAL_SECONDS),
        Err(_) => Some(POLL_INTERVAL_SECONDS),
    }
}

/// A worker never enqueues. Whatever a step does, every task that is
/// queued after it was queued before it, so the batch of an issue only
/// shrinks while workers deliver it; and issues and saved responses are
/// left alone.
pub proof fn worker_never_enqueues(
    before: StoreState,
    progress: Result<ProgressView, WorkerError>,
    after: StoreState,
)
    requires
        worker_step(before, progress, after),
    ensures
        after.queue.dom().subset_of(before.queue.dom()),
        after.issues == before.issues,
        after.responses == before.responses,
        before.tasks_name_stored_issues() ==> after.tasks_name_stored_issues(),
{
    if before.tasks_name_stored_issues() {
        assert forall|task: TaskKey| #[trigger] after.queue.contains_key(task) implies after.issues.contains_key(
            task.0,
        ) by {
            assert(before.queue.contains_key(task));
        }
    }
}

/// Invalid-recipient skip, at delivery time. The transport is handed valid
/// addresses only, and a task that was skipped for its address is gone
/// from the queue, so that no later step can take it up again.
pub proof fn rejected_address_is_never_delivered(
    before: StoreState,
    progress: Result<ProgressView, WorkerError>,
    after: StoreState,
)
    requires
        worker_step(before, progress, after),
    ensures
        progress matches Ok(ProgressView::AwaitingTransport { task, email }) ==> email_accepted(
            email.recipient,
        ),
        progress matches Ok(ProgressView::Skipped { task, reason }) ==> !after.queue.contains_key(task),
{
}

/// Claim safety, for workers. Two steps that follow one another never hand
/// out the same task: the task of the first is claimed when the second
/// looks for a free one.
pub proof fn workers_get_different_tasks(
    start: StoreState,
    first: ProgressView,
    between: StoreState,
    second: ProgressView,
    end: StoreState,
)
    requires
        worker_step(start, Ok(first), between),
        worker_step(between, Ok(second), end),
        first is AwaitingTransport,
        second is AwaitingTransport,
    ensures
        first->AwaitingTransport_task != second->AwaitingTransport_task,
{
}

/// A step that hands out an e-mail, followed by the completion of that
/// delivery, is one completed delivery on the queue: the task is gone and
/// nothing else has changed.
pub proof fn delivered_task_leaves_the_queue(before: StoreState, task: TaskKey, email: EmailView, between: StoreState)
    requires
        worker_step(before, Ok(ProgressView::AwaitingTransport { task, email }), between),
    ensures
        between.queue.remove(task) == before.queue.remove(task),
        delivery_completed(before.queue, between.queue.remove(task)),
{
    claim_then_delete_completes(before.queue, task, between.queue);
}

} // verus!
