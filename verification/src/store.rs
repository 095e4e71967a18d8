//! The relational store that the publish coordinator and the delivery
//! workers share: issues, the delivery queue and the captured responses.
//! It is the only state that they have in common.

use crate::delivery_queue::{DeliveryQueue, QueueView, TaskKey};
use crate::idempotency::persistence::{FingerprintStore, ResponseView, UserId};
use crate::newsletter_issue::{ArchiveView, IssueArchive};
use vstd::prelude::*;

verus! {

/// What the captured responses are, as plain values: one response for each
/// caller and key that has one.
pub type FingerprintView = Map<(UserId, Seq<char>), ResponseView>;

/// What a store is, as plain values.
pub ghost struct StoreState {
    pub issues: ArchiveView,
    pub queue: QueueView,
    pub responses: FingerprintView,
}

impl StoreState {
    /// Every queued task names an issue that is stored.
    pub open spec fn tasks_name_stored_issues(self) -> bool {
        forall|task: TaskKey| #[trigger] self.queue.contains_key(task) ==> self.issues.contains_key(task.0)
    }

    /// The tasks queued for the issue `issue_id`: its batch, as far as it is
    /// not delivered yet.
    pub open spec fn recipients_of(self, issue_id: u128) -> Set<Seq<char>> {
        Set::new(|mail: Seq<char>| self.queue.contains_key((issue_id, mail)))
    }
}

/// The store.
pub struct Store {
    pub issues: IssueArchive,
    pub queue: DeliveryQueue,
    pub fingerprints: FingerprintStore,
}

impl View for Store {
    type V = StoreState;

    open spec fn view(&self) -> StoreState {
        StoreState { issues: self.issues@, queue: self.queue@, responses: self.fingerprints@ }
    }
}

impl Store {
    /// A store that holds nothing.
    pub fn new() -> (store: Store)
        ensures
            store@.issues == ArchiveView::empty(),
            store@.queue == QueueView::empty(),
            store@.responses == FingerprintView::empty(),
            store@.tasks_name_stored_issues(),
    {
        Store {
            issues: IssueArchive::new(),
            queue: DeliveryQueue::new(),
            fingerprints: FingerprintStore::new(),
        }
    }
}

} // verus!
