//! The catalog harvest's second pass: annotating each extracted entry with
//! its page count, one first-review-page fetch per entry, preserving the
//! listing's order. The caller performs each fetch and hands the outcome
//! back; a failed fetch degrades to a page count of one, never aborts.

use vstd::prelude::*;
use crate::paginate::{page_count_from, page_count_from_spec};
use crate::records::{CatalogEntry, FetchOutcome, PendingEntry, finish_entry};
use crate::urls::{review_url, first_page_url};

verus! {

/// Whether catalog entry `e` is pending entry `p` annotated with a page
/// count.
pub open spec fn annotates(e: CatalogEntry, p: PendingEntry) -> bool {
    &&& e.id == p.id
    &&& e.title@ == p.title@
    &&& e.year == p.year
    &&& e.image@ == p.image@
}

/// Annotates the extracted catalog entries one by one, in listing order.
pub struct Harvester {
    pub pending: Vec<PendingEntry>,
    pub entries: Vec<CatalogEntry>,
    pub idx: usize,
}

impl Harvester {
    /// Well-formedness: entries so far annotate the pending entries so far,
    /// in the same order.
    pub open spec fn wf(&self) -> bool {
        &&& self.idx == self.entries@.len()
        &&& self.idx <= self.pending@.len()
        &&& forall|k: int|
            0 <= k < self.idx ==> annotates(#[trigger] self.entries@[k], self.pending@[k])
        &&& forall|k: int| 0 <= k < self.idx ==> (#[trigger] self.entries@[k]).pages >= 1
    }

    /// Starts annotating the entries the listing page yielded.
    pub fn new(pending: Vec<PendingEntry>) -> (h: Harvester)
        ensures
            h.wf(),
            h.pending@ == pending@,
            h.idx == 0,
    {
        Harvester { pending, entries: Vec::new(), idx: 0 }
    }

    /// The next fetch to perform: the first review page of the next
    /// unannotated entry, `None` once every entry is annotated.
    pub fn next_request(&self) -> (r: Option<String>)
        requires
            self.wf(),
        ensures
            r is Some <==> self.idx < self.pending@.len(),
            r matches Option::Some(u) ==> u@ == review_url(
                self.pending@[self.idx as int].id as int,
                1,
            ),
    {
        if self.idx < self.pending.len() {
            Option::Some(first_page_url(self.pending[self.idx].id))
        } else {
            Option::None
        }
    }

    /// Annotates the next entry from the outcome of its first review page's
    /// fetch: the page-count rule over the pagination control, one when the
    /// fetch failed.
    pub fn on_first_page(&mut self, outcome: &FetchOutcome)
        requires
            old(self).wf(),
            old(self).idx < old(self).pending@.len(),
        ensures
            final(self).wf(),
            final(self).pending == old(self).pending,
            final(self).idx == old(self).idx + 1,
            final(self).entries@.len() == old(self).entries@.len() + 1,
            final(self).entries@.subrange(0, old(self).idx as int) == old(self).entries@,
            annotates(
                final(self).entries@.last(),
                old(self).pending@[old(self).idx as int],
            ),
            final(self).entries@.last().pages == page_count_from_spec(
                outcome.success,
                outcome.body@,
            ),
    {
        let pages = page_count_from(outcome);
        let p = clone_pending(&self.pending[self.idx]);
        let e = finish_entry(p, pages);
        self.entries.push(e);
        assert(self.idx < self.pending.len());
        self.idx = self.idx + 1;
        proof {
            assert(self.entries@.subrange(0, old(self).idx as int) =~= old(self).entries@);
        }
    }

    /// The annotated catalog, in the listing's order: the resume sequence
    /// that will be persisted.
    pub fn into_catalog(self) -> (r: Vec<CatalogEntry>)
        requires
            self.wf(),
            self.idx == self.pending@.len(),
        ensures
            r@.len() == self.pending@.len(),
            forall|k: int| 0 <= k < r@.len() ==> annotates(#[trigger] r@[k], self.pending@[k]),
            forall|k: int| 0 <= k < r@.len() ==> (#[trigger] r@[k]).pages >= 1,
    {
        self.entries
    }
}

/// Copies a pending entry so the harvester can keep its list intact.
fn clone_pending(p: &PendingEntry) -> (r: PendingEntry)
    ensures
        r.id == p.id,
        r.title@ == p.title@,
        r.year == p.year,
        r.image@ == p.image@,
{
    PendingEntry { id: p.id, title: p.title.clone(), year: p.year, image: p.image.clone() }
}

} // verus!
