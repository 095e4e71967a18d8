//! Newsletter issues: written once when a publish request is first
//! accepted, read by the workers that deliver them.

use crate::keyed::{
    as_map, distinct_keys, lemma_absent_key, lemma_empty, lemma_entry_in_map, lemma_push,
    lemma_size,
};
use vstd::prelude::*;

verus! {

/// What an issue holds, as plain values.
pub ghost struct IssueView {
    pub title: Seq<char>,
    pub text_content: Seq<char>,
    pub html_content: Seq<char>,
}

/// What an archive is, as plain values: each stored issue under its
/// identifier.
pub type ArchiveView = Map<u128, IssueView>;

/// The content of one newsletter issue.
#[derive(Debug, PartialEq, Eq)]
pub struct NewsletterIssue {
    pub title: String,
    pub text_content: String,
    pub html_content: String,
}

impl View for NewsletterIssue {
    type V = IssueView;

    open spec fn view(&self) -> IssueView {
        IssueView {
            title: self.title@,
            text_content: self.text_content@,
            html_content: self.html_content@,
        }
    }
}

impl Clone for NewsletterIssue {
    fn clone(&self) -> (copy: Self)
        ensures
            copy@ == self@,
    {
        NewsletterIssue {
            title: self.title.clone(),
            text_content: self.text_content.clone(),
            html_content: self.html_content.clone(),
        }
    }
}

/// The answer of an insert that found the identifier already taken.
#[derive(Debug, Clone, Copy, PartialEq, Eq, Structural)]
pub struct DuplicateIssue;

/// One stored issue with its identifier.
struct IssueRow {
    newsletter_issue_id: u128,
    issue: NewsletterIssue,
}

/// The issues published so far. An issue is never changed or removed.
pub struct IssueArchive {
    rows: Vec<IssueRow>,
}

impl View for IssueArchive {
    type V = ArchiveView;

    closed spec fn view(&self) -> ArchiveView {
        as_map(self.pairs())
    }
}

impl IssueArchive {
    spec fn pairs(&self) -> Seq<(u128, IssueView)> {
        self.rows@.map_values(|row: IssueRow| (row.newsletter_issue_id, row.issue@))
    }

    #[verifier::type_invariant]
    spec fn one_row_per_issue(&self) -> bool {
        distinct_keys(self.pairs())
    }

    /// An archive without issues.
    pub fn new() -> (archive: IssueArchive)
        ensures
            archive@ == ArchiveView::empty(),
    {
        let archive = IssueArchive { rows: Vec::new() };
        proof {
            lemma_empty::<u128, IssueView>();
            assert(archive.pairs() == Seq::<(u128, IssueView)>::empty());
        }
        archive
    }

    /// How many issues are stored.
    pub fn len(&self) -> (count: usize)
        ensures
            self@.dom().finite(),
            count == self@.dom().len(),
    {
        proof {
            use_type_invariant(self);
            lemma_size(self.pairs());
        }
        self.rows.len()
    }

    /// The issue stored under `issue_id`, if there is one.
    pub fn get_issue(&self, issue_id: u128) -> (found: Option<NewsletterIssue>)
        ensures
            found is Some <==> self@.contains_key(issue_id),
            found matches Some(issue) ==> issue@ == self@[issue_id],
    {
        proof {
            use_type_invariant(self);
        }
        let mut i: usize = 0;
        while i < self.rows.len()
            invariant
                i <= self.rows.len(),
                distinct_keys(self.pairs()),
                forall|j: int| 0 <= j < i ==> (#[trigger] self.pairs()[j]).0 != issue_id,
            decreases self.rows.len() - i,
        {
            if self.rows[i].newsletter_issue_id == issue_id {
                proof {
                    lemma_entry_in_map(self.pairs(), i as int);
                }
                return Some(self.rows[i].issue.clone());
            }
            i += 1;
        }
        proof {
            lemma_absent_key(self.pairs(), issue_id);
        }
        None
    }

    /// Stores `issue` under `issue_id`. Where that identifier is taken, the
    /// archive is left as it was and the insert reports the duplicate.
    pub fn insert_newsletter_issue(&mut self, issue_id: u128, issue: NewsletterIssue) -> (inserted:
        Result<(), DuplicateIssue>)
        ensures
            inserted is Err <==> old(self)@.contains_key(issue_id),
            inserted is Err ==> final(self)@ == old(self)@,
            inserted is Ok ==> final(self)@ == old(self)@.insert(issue_id, issue@),
    {
        proof {
            use_type_invariant(&*self);
        }
        let mut i: usize = 0;
        while i < self.rows.len()
            invariant
                i <= self.rows.len(),
                *self == *old(self),
                distinct_keys(self.pairs()),
                forall|j: int| 0 <= j < i ==> (#[trigger] self.pairs()[j]).0 != issue_id,
            decreases self.rows.len() - i,
        {
            if self.rows[i].newsletter_issue_id == issue_id {
                proof {
                    lemma_entry_in_map(self.pairs(), i as int);
                }
                return Err(DuplicateIssue);
            }
            i += 1;
        }
        let row = IssueRow { newsletter_issue_id: issue_id, issue };
        proof {
            lemma_absent_key(self.pairs(), issue_id);
            lemma_push(self.pairs(), (issue_id, row.issue@));
            assert(self.rows@.push(row).map_values(
                |r: IssueRow| (r.newsletter_issue_id, r.issue@),
            ) == self.pairs().push((issue_id, row.issue@)));
        }
        let mut rows: Vec<IssueRow> = Vec::new();
        core::mem::swap(&mut self.rows, &mut rows);
        rows.push(row);
        self.rows = rows;
        Ok(())
    }
}

} // verus!
