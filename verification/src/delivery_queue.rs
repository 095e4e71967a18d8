//! The durable delivery queue: one task for each issue and recipient that
//! still awaits delivery, and the claims that workers hold on them.

use crate::keyed::{
    as_map, distinct_keys, lemma_absent_key, lemma_empty, lemma_entry_in_map, lemma_push,
    lemma_remove, lemma_size, lemma_update,
};
use crate::text::same_text;
use vstd::prelude::*;

verus! {

/// A task as plain values: the issue's identifier and the recipient's
/// address as it was stored.
pub type TaskKey = (u128, Seq<char>);

/// What a queue is, as plain values: each queued task, with `true` beside it
/// while a worker holds a claim on it.
pub type QueueView = Map<TaskKey, bool>;

/// One unit of work: send this issue to this recipient.
#[derive(Debug, PartialEq, Eq)]
pub struct DeliveryTask {
    pub newsletter_issue_id: u128,
    pub subscriber_email: String,
}

impl View for DeliveryTask {
    type V = TaskKey;

    open spec fn view(&self) -> TaskKey {
        (self.newsletter_issue_id, self.subscriber_email@)
    }
}

impl Clone for DeliveryTask {
    fn clone(&self) -> (copy: Self)
        ensures
            copy@ == self@,
    {
        DeliveryTask {
            newsletter_issue_id: self.newsletter_issue_id,
            subscriber_email: self.subscriber_email.clone(),
        }
    }
}

/// No worker holds a claim on any task of `queue`.
pub open spec fn nothing_claimed(queue: QueueView) -> bool {
    forall|task: TaskKey| queue.contains_key(task) ==> !#[trigger] queue[task]
}

/// Every task of `queue` is claimed, so a worker that asks finds no task.
pub open spec fn nothing_claimable(queue: QueueView) -> bool {
    forall|task: TaskKey| queue.contains_key(task) ==> #[trigger] queue[task]
}

/// A worker's claim of `task` takes the queue from `before` to `after`: the
/// task was queued and free, and it is now marked as claimed.
pub open spec fn claim_taken(before: QueueView, task: TaskKey, after: QueueView) -> bool {
    before.contains_key(task) && !before[task] && after == before.insert(task, true)
}

/// One completed delivery takes the queue from `before` to `after`: a task
/// that was queued and free has been claimed and deleted.
pub open spec fn delivery_completed(before: QueueView, after: QueueView) -> bool {
    exists|task: TaskKey|
        #![trigger before.remove(task)]
        before.contains_key(task) && !before[task] && after == before.remove(task)
}

/// One row of the queue.
struct QueueRow {
    task: DeliveryTask,
    claimed: bool,
}

/// The queue of delivery tasks. A task is in it from the moment it is
/// enqueued until a worker deletes it; nothing in between changes it but the
/// claim that a worker takes or gives back.
pub struct DeliveryQueue {
    rows: Vec<QueueRow>,
}

impl View for DeliveryQueue {
    type V = QueueView;

    closed spec fn view(&self) -> QueueView {
        as_map(self.pairs())
    }
}

impl DeliveryQueue {
    spec fn pairs(&self) -> Seq<(TaskKey, bool)> {
        self.rows@.map_values(|row: QueueRow| (row.task@, row.claimed))
    }

    #[verifier::type_invariant]
    spec fn one_row_per_task(&self) -> bool {
        distinct_keys(self.pairs())
    }

    /// A queue without tasks.
    pub fn new() -> (queue: DeliveryQueue)
        ensures
            queue@ == QueueView::empty(),
    {
        let queue = DeliveryQueue { rows: Vec::new() };
        proof {
            lemma_empty::<TaskKey, bool>();
            assert(queue.pairs() == Seq::<(TaskKey, bool)>::empty());
        }
        queue
    }

    /// How many tasks are queued, claimed ones included.
    pub fn len(&self) -> (count: usize)
        ensures
            self@.dom().finite(),
            count == self@.dom().len(),
    {
        proof {
            use_type_invariant(self);
            lemma_size(self.pairs());
        }
        self.rows.len()
    }

    /// The position of the task `(issue_id, recipient)` among the rows.
    fn find(&self, issue_id: u128, recipient: &str) -> (found: Option<usize>)
        ensures
            found is Some <==> self@.contains_key((issue_id, recipient@)),
            found matches Some(i) ==> i < self.rows.len() && self.pairs()[i as int].0 == (
                issue_id,
                recipient@,
            ) && self@[(issue_id, recipient@)] == self.pairs()[i as int].1,
    {
        proof {
            use_type_invariant(self);
        }
        let mut i: usize = 0;
        while i < self.rows.len()
            invariant
                i <= self.rows.len(),
                distinct_keys(self.pairs()),
                forall|j: int| 0 <= j < i ==> (#[trigger] self.pairs()[j]).0 != (issue_id, recipient@),
            decreases self.rows.len() - i,
        {
            let row = &self.rows[i];
            if row.task.newsletter_issue_id == issue_id && same_text(
                row.task.subscriber_email.as_str(),
                recipient,
            ) {
                proof {
                    lemma_entry_in_map(self.pairs(), i as int);
                }
                return Some(i);
            }
            i += 1;
        }
        proof {
            lemma_absent_key(self.pairs(), (issue_id, recipient@));
        }
        None
    }

    /// Whether the task `(issue_id, recipient)` is queued.
    pub fn contains(&self, issue_id: u128, recipient: &str) -> (queued: bool)
        ensures
            queued == self@.contains_key((issue_id, recipient@)),
    {
        self.find(issue_id, recipient).is_some()
    }

    /// Whether the task `(issue_id, recipient)` is queued and claimed.
    pub fn is_claimed(&self, issue_id: u128, recipient: &str) -> (claimed: bool)
        ensures
            claimed == (self@.contains_key((issue_id, recipient@)) && self@[(issue_id, recipient@)]),
    {
        match self.find(issue_id, recipient) {
            Some(i) => self.rows[i].claimed,
            None => false,
        }
    }

    /// Adds the task `(issue_id, recipient)`, unclaimed. A task that is
    /// queued already stays as it is, and the call says so.
    pub fn enqueue(&mut self, issue_id: u128, recipient: String) -> (added: bool)
        ensures
            added == !old(self)@.contains_key((issue_id, recipient@)),
            added ==> final(self)@ == old(self)@.insert((issue_id, recipient@), false),
            !added ==> final(self)@ == old(self)@,
    {
        proof {
            use_type_invariant(&*self);
        }
        if self.find(issue_id, recipient.as_str()).is_some() {
            return false;
        }
        let row = QueueRow {
            task: DeliveryTask { newsletter_issue_id: issue_id, subscriber_email: recipient },
            claimed: false,
        };
        proof {
            lemma_push(self.pairs(), (row.task@, false));
            assert(self.rows@.push(row).map_values(|r: QueueRow| (r.task@, r.claimed))
                == self.pairs().push((row.task@, false)));
        }
        let mut rows: Vec<QueueRow> = Vec::new();
        core::mem::swap(&mut self.rows, &mut rows);
        rows.push(row);
        self.rows = rows;
        true
    }

    /// Claims one task that no worker holds, if there is one, and returns
    /// it. The claim keeps every other worker off the task until it is
    /// deleted or released. Which of several free tasks is taken is left
    /// open.
    pub fn claim(&mut self) -> (claimed: Option<DeliveryTask>)
        ensures
            claimed is None <==> nothing_claimable(old(self)@),
            claimed is None ==> final(self)@ == old(self)@,
            claimed matches Some(task) ==> claim_taken(old(self)@, task@, final(self)@),
    {
        proof {
            use_type_invariant(&*self);
        }
        let mut i: usize = 0;
        while i < self.rows.len()
            invariant
                i <= self.rows.len(),
                *self == *old(self),
                distinct_keys(self.pairs()),
                forall|j: int| 0 <= j < i ==> (#[trigger] self.pairs()[j]).1,
            decreases self.rows.len() - i,
        {
            if !self.rows[i].claimed {
                let task = self.rows[i].task.clone();
                proof {
                    lemma_entry_in_map(self.pairs(), i as int);
                    lemma_update(self.pairs(), i as int, true);
                    let marked = QueueRow { task: self.rows@[i as int].task, claimed: true };
                    assert(self.rows@.update(i as int, marked).map_values(
                        |r: QueueRow| (r.task@, r.claimed),
                    ) == self.pairs().update(i as int, (self.pairs()[i as int].0, true)));
                    assert(self.rows@.remove(i as int).insert(i as int, marked) == self.rows@.update(
                        i as int,
                        marked,
                    ));
                }
                let mut rows: Vec<QueueRow> = Vec::new();
                core::mem::swap(&mut self.rows, &mut rows);
                let row = rows.remove(i);
                rows.insert(i, QueueRow { task: row.task, claimed: true });
                self.rows = rows;
                return Some(task);
            }
            i += 1;
        }
        proof {
            assert forall|task: TaskKey| self@.contains_key(task) implies #[trigger] self@[task] by {
                let j = crate::keyed::position_of(self.pairs(), task);
                lemma_entry_in_map(self.pairs(), j);
            }
        }
        None
    }

    /// Gives the claim on `task` back, so that the task can be claimed
    /// again. A task that is not queued stays absent.
    pub fn release(&mut self, task: &DeliveryTask) -> (released: bool)
        ensures
            released == old(self)@.contains_key(task@),
            released ==> final(self)@ == old(self)@.insert(task@, false),
            !released ==> final(self)@ == old(self)@,
    {
        proof {
            use_type_invariant(&*self);
        }
        match self.find(task.newsletter_issue_id, task.subscriber_email.as_str()) {
            None => false,
            Some(i) => {
                proof {
                    lemma_update(self.pairs(), i as int, false);
                    let freed = QueueRow { task: self.rows@[i as int].task, claimed: false };
                    assert(self.rows@.update(i as int, freed).map_values(
                        |r: QueueRow| (r.task@, r.claimed),
                    ) == self.pairs().update(i as int, (self.pairs()[i as int].0, false)));
                    assert(self.rows@.remove(i as int).insert(i as int, freed) == self.rows@.update(
                        i as int,
                        freed,
                    ));
                }
                let mut rows: Vec<QueueRow> = Vec::new();
                core::mem::swap(&mut self.rows, &mut rows);
                let row = rows.remove(i);
                rows.insert(i, QueueRow { task: row.task, claimed: false });
                self.rows = rows;
                true
            },
        }
    }

    /// Deletes `task` from the queue, claimed or not, and says whether it
    /// was there.
    pub fn delete(&mut self, task: &DeliveryTask) -> (deleted: bool)
        ensures
            deleted == old(self)@.contains_key(task@),
            final(self)@ == old(self)@.remove(task@),
    {
        proof {
            use_type_invariant(&*self);
        }
        match self.find(task.newsletter_issue_id, task.subscriber_email.as_str()) {
            None => {
                proof {
                    assert(self@.remove(task@) == self@);
                }
                false
            },
            Some(i) => {
                proof {
                    lemma_remove(self.pairs(), i as int);
                    assert(self.rows@.remove(i as int).map_values(
                        |r: QueueRow| (r.task@, r.claimed),
                    ) == self.pairs().remove(i as int));
                }
                let mut rows: Vec<QueueRow> = Vec::new();
                core::mem::swap(&mut self.rows, &mut rows);
                rows.remove(i);
                self.rows = rows;
                true
            },
        }
    }
}

/// Claim safety. Two workers that claim one after the other never get the
/// same task: the first claim marks its task, and the second takes a task
/// that is free. Both tasks are claimed afterwards.
pub proof fn claims_are_exclusive(
    start: QueueView,
    first: TaskKey,
    between: QueueView,
    second: TaskKey,
    end: QueueView,
)
    requires
        claim_taken(start, first, between),
        claim_taken(between, second, end),
    ensures
        first != second,
        end.contains_key(first) && end[first],
        end.contains_key(second) && end[second],
{
}

/// A task that a worker holds is taken by no other claim, however long the
/// worker holds it.
pub proof fn held_task_is_not_claimed(queue: QueueView, held: TaskKey, claimed: TaskKey, after: QueueView)
    requires
        queue.contains_key(held) && queue[held],
        claim_taken(queue, claimed, after),
    ensures
        claimed != held,
        after.contains_key(held) && after[held],
{
}

/// A claim followed by the deletion of the claimed task is one completed
/// delivery: nothing is left of the claim, and the task is gone.
pub proof fn claim_then_delete_completes(before: QueueView, task: TaskKey, between: QueueView)
    requires
        claim_taken(before, task, between),
    ensures
        between.remove(task) == before.remove(task),
        delivery_completed(before, between.remove(task)),
{
    assert(between.remove(task) =~= before.remove(task));
}

/// Each completed delivery makes the queue one task shorter.
proof fn lemma_trace_shrinks(trace: Seq<QueueView>, i: int)
    requires
        trace.len() > 0,
        trace[0].dom().finite(),
        forall|k: int| 0 <= k < trace.len() - 1 ==> delivery_completed(#[trigger] trace[k], trace[k + 1]),
        0 <= i < trace.len(),
    ensures
        trace[i].dom().finite(),
        trace[i].dom().len() + i == trace[0].dom().len(),
        nothing_claimed(trace[0]) ==> nothing_claimed(trace[i]),
    decreases i,
{
    if i > 0 {
        lemma_trace_shrinks(trace, i - 1);
        let before = trace[i - 1];
        assert(delivery_completed(before, trace[i - 1 + 1]));
        let task = choose|task: TaskKey|
            #![trigger before.remove(task)]
            before.contains_key(task) && !before[task] && trace[i] == before.remove(task);
        assert(trace[i].dom() =~= before.dom().remove(task));
        if nothing_claimed(trace[0]) {
            assert forall|other: TaskKey| trace[i].contains_key(other) implies !#[trigger] trace[i][other] by {
                assert(before.contains_key(other));
            }
        }
    }
}

/// The queue drains. Take a queue and let workers complete deliveries, one
/// task each time, with nothing enqueued and no step failing. Every step
/// shortens the queue by one task, so a queue of `n` tasks allows `n` steps
/// at most and is empty after the `n`th. And where no claim was left
/// behind at the start, a worker finds nothing to claim only when the queue
/// is empty.
pub proof fn queue_drains(trace: Seq<QueueView>)
    requires
        trace.len() > 0,
        trace[0].dom().finite(),
        forall|k: int| 0 <= k < trace.len() - 1 ==> delivery_completed(#[trigger] trace[k], trace[k + 1]),
    ensures
        forall|i: int|
            0 <= i < trace.len() ==> (#[trigger] trace[i]).dom().finite() && trace[i].dom().len() + i
                == trace[0].dom().len(),
        trace.len() <= trace[0].dom().len() + 1,
        trace.len() == trace[0].dom().len() + 1 ==> trace.last() == QueueView::empty(),
        nothing_claimed(trace[0]) && nothing_claimable(trace.last()) ==> trace.last() == QueueView::empty(),
{
    assert forall|i: int| 0 <= i < trace.len() implies (#[trigger] trace[i]).dom().finite()
        && trace[i].dom().len() + i == trace[0].dom().len() by {
        lemma_trace_shrinks(trace, i);
    }
    let last = trace.len() - 1;
    lemma_trace_shrinks(trace, last);
    if trace.len() == trace[0].dom().len() + 1 {
        assert(trace.last().dom().len() == 0);
        assert(trace.last().dom() =~= Set::<TaskKey>::empty());
        assert(trace.last() =~= QueueView::empty());
    }
    if nothing_claimed(trace[0]) && nothing_claimable(trace.last()) {
        assert forall|task: TaskKey| !trace.last().contains_key(task) by {
            if trace.last().contains_key(task) {
                assert(trace.last()[task]);
                assert(!trace.last()[task]);
            }
        }
        assert(trace.last() =~= QueueView::empty());
    }
}

} // verus!
