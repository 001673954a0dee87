//! The review walk and its checkpoint: a step machine that visits the catalog
//! in its persisted order, pages in strictly increasing order within an item,
//! and advances the checkpoint only after a whole item's pages were attempted.

use vstd::prelude::*;
use crate::extract::{extract_reviews, review_container_sel, rating_of_frag, comment_of_frag};
use crate::markup::fragments;
use crate::records::{CatalogEntry, FetchOutcome, Review, ids, unique_ids};
use crate::urls::{review_url, make_review_url};

verus! {

/// The index just after the first catalog entry whose id equals the
/// checkpoint, or 0 when there is no checkpoint or its id is absent:
/// the resume rule "drop every entry up to and including the checkpointed id".
pub open spec fn resume_start(cat: Seq<CatalogEntry>, cp: Option<i32>) -> int
    decreases cat.len(),
{
    match cp {
        Option::None => 0,
        Option::Some(id) => if cat.len() == 0 {
            0
        } else if cat[0].id == id {
            1
        } else {
            let r = resume_start(cat.subrange(1, cat.len() as int), cp);
            if r == 0 {
                0
            } else {
                r + 1
            }
        },
    }
}

pub proof fn lemma_resume_start_bounds(cat: Seq<CatalogEntry>, cp: Option<i32>)
    ensures
        0 <= resume_start(cat, cp) <= cat.len(),
    decreases cat.len(),
{
    match cp {
        Option::None => {},
        Option::Some(id) => {
            if cat.len() == 0 {
            } else if cat[0].id == id {
            } else {
                lemma_resume_start_bounds(cat.subrange(1, cat.len() as int), cp);
            }
        },
    }
}

/// When entry `k` is the first with the checkpointed id, the resume point is
/// the position just after it.
pub proof fn lemma_resume_start_found(cat: Seq<CatalogEntry>, id: i32, k: int)
    requires
        0 <= k < cat.len(),
        cat[k].id == id,
        forall|j: int| 0 <= j < k ==> cat[j].id != id,
    ensures
        resume_start(cat, Some(id)) == k + 1,
    decreases k,
{
    if cat[0].id == id {
        assert(k == 0);
    } else {
        let tail = cat.subrange(1, cat.len() as int);
        assert(tail[k - 1] == cat[k]);
        assert forall|j: int| 0 <= j < k - 1 implies tail[j].id != id by {
            assert(tail[j] == cat[j + 1]);
        }
        lemma_resume_start_found(tail, id, k - 1);
    }
}

/// A checkpointed id that the catalog does not hold resumes from the start.
pub proof fn lemma_resume_start_absent(cat: Seq<CatalogEntry>, id: i32)
    requires
        forall|j: int| 0 <= j < cat.len() ==> cat[j].id != id,
    ensures
        resume_start(cat, Some(id)) == 0,
    decreases cat.len(),
{
    if cat.len() == 0 {
    } else {
        let tail = cat.subrange(1, cat.len() as int);
        assert forall|j: int| 0 <= j < tail.len() implies tail[j].id != id by {
            assert(tail[j] == cat[j + 1]);
        }
        lemma_resume_start_absent(tail, id);
    }
}

/// What the walk asks its caller to do next: fetch one review page, persist
/// the checkpoint for a finished item, or nothing.
pub enum Step {
    Fetch { id: i32, page: u8, url: String },
    Save { id: i32 },
    Done,
}

/// Drives one run over a fixed catalog: items in catalog order, pages in
/// strictly increasing order, checkpoint saved once per finished item.
/// The caller performs each `Step` and reports back through `record_page`
/// and `on_saved`.
pub struct Walker {
    pub catalog: Vec<CatalogEntry>,
    pub idx: usize,
    pub page: u16,
    pub checkpoint: Option<i32>,
    pub skipped: u64,
    pub init_cp: Ghost<Option<i32>>,
}

impl Walker {
    /// The ids of the entries this run has finished so far, in order.
    pub open spec fn visited(&self) -> Seq<i32> {
        ids(self.catalog@).subrange(
            resume_start(self.catalog@, self.init_cp@),
            self.idx as int,
        )
    }

    /// Well-formedness: the cursor stays inside the catalog, the page cursor
    /// stays inside the current item's page range, the walk never stands
    /// before its resume point, and the checkpoint is the last finished id.
    pub open spec fn wf(&self) -> bool {
        &&& self.idx <= self.catalog@.len()
        &&& (self.idx < self.catalog@.len() ==> 1 <= self.page && self.page as int <= self.catalog@[self.idx as int].pages as int + 1)
        &&& (self.idx == self.catalog@.len() ==> self.page == 1)
        &&& 0 <= resume_start(self.catalog@, self.init_cp@) <= self.idx as int
        &&& (self.visited().len() == 0 ==> self.checkpoint == self.init_cp@)
        &&& (self.visited().len() > 0 ==> self.checkpoint == Some(self.visited().last()))
    }

    /// Starts a run: the resume point drops every entry up to and including
    /// the checkpointed id, over the catalog's fixed order.
    pub fn new(catalog: Vec<CatalogEntry>, checkpoint: Option<i32>) -> (w: Walker)
        ensures
            w.wf(),
            w.catalog@ == catalog@,
            w.init_cp@ == checkpoint,
            w.idx as int == resume_start(catalog@, checkpoint),
            w.page == 1,
            w.visited().len() == 0,
            w.checkpoint == checkpoint,
            w.skipped == 0,
    {
        let start: usize = match checkpoint {
            Option::None => 0,
            Option::Some(id) => find_resume(&catalog, id),
        };
        proof {
            lemma_resume_start_bounds(catalog@, checkpoint);
        }
        Walker {
            catalog,
            idx: start,
            page: 1,
            checkpoint,
            skipped: 0,
            init_cp: Ghost(checkpoint),
        }
    }

    /// What to do next. `Fetch` carries the page's URL; `Save` asks the
    /// caller to persist the checkpoint for the finished item.
    pub fn next_step(&self) -> (s: Step)
        requires
            self.wf(),
        ensures
            match s {
                Step::Fetch { id, page, url } => {
                    &&& self.idx < self.catalog@.len()
                    &&& id == self.catalog@[self.idx as int].id
                    &&& page as int == self.page as int
                    &&& self.page as int <= self.catalog@[self.idx as int].pages as int
                    &&& url@ == review_url(id as int, page as nat)
                },
                Step::Save { id } => {
                    &&& self.idx < self.catalog@.len()
                    &&& id == self.catalog@[self.idx as int].id
                    &&& self.page as int == self.catalog@[self.idx as int].pages as int + 1
                },
                Step::Done => self.idx == self.catalog@.len(),
            },
    {
        if self.idx < self.catalog.len() {
            let e_id = self.catalog[self.idx].id;
            let e_pages = self.catalog[self.idx].pages;
            if self.page <= e_pages as u16 {
                let url = make_review_url(e_id, self.page);
                Step::Fetch { id: e_id, page: self.page as u8, url }
            } else {
                Step::Save { id: e_id }
            }
        } else {
            Step::Done
        }
    }

    /// Records the outcome of the current page's fetch and moves to the next
    /// page. A failed page is counted and skipped, never retried: it must not
    /// block the remaining pages of the item.
    pub fn record_page(&mut self, success: bool)
        requires
            old(self).wf(),
            old(self).idx < old(self).catalog@.len(),
            old(self).page as int <= old(self).catalog@[old(self).idx as int].pages as int,
        ensures
            final(self).wf(),
            final(self).catalog == old(self).catalog,
            final(self).idx == old(self).idx,
            final(self).page == old(self).page + 1,
            final(self).init_cp == old(self).init_cp,
            final(self).checkpoint == old(self).checkpoint,
            final(self).visited() == old(self).visited(),
            success ==> final(self).skipped == old(self).skipped,
            !success ==> final(self).skipped as int == if old(self).skipped < u64::MAX {
                old(self).skipped + 1
            } else {
                u64::MAX as int
            },
    {
        self.page = self.page + 1;
        if !success {
            if self.skipped < u64::MAX {
                self.skipped = self.skipped + 1;
            }
        }
    }

    /// Handles the outcome of the current page's fetch: on success, extracts
    /// this page's review records, exactly one per review container and in
    /// document order, for the caller to append to the sink; a failed page
    /// yields no records, is counted as skipped, and the walk continues with
    /// the next page.
    pub fn on_page(&mut self, outcome: &FetchOutcome) -> (r: Vec<Review>)
        requires
            old(self).wf(),
            old(self).idx < old(self).catalog@.len(),
            old(self).page as int <= old(self).catalog@[old(self).idx as int].pages as int,
        ensures
            final(self).wf(),
            final(self).catalog == old(self).catalog,
            final(self).idx == old(self).idx,
            final(self).page == old(self).page + 1,
            final(self).init_cp == old(self).init_cp,
            final(self).checkpoint == old(self).checkpoint,
            final(self).visited() == old(self).visited(),
            outcome.success ==> final(self).skipped == old(self).skipped,
            !outcome.success ==> final(self).skipped as int == if old(self).skipped < u64::MAX {
                old(self).skipped + 1
            } else {
                u64::MAX as int
            },
            outcome.success ==> {
                &&& r@.len() == fragments(outcome.body@, review_container_sel()).len()
                &&& forall|i: int|
                    0 <= i < r@.len() ==> {
                        &&& (#[trigger] r@[i]).rating == rating_of_frag(
                            fragments(outcome.body@, review_container_sel())[i],
                        )
                        &&& r@[i].comment.deep_view() == comment_of_frag(
                            fragments(outcome.body@, review_container_sel())[i],
                        )
                    }
            },
            !outcome.success ==> r@.len() == 0,
    {
        if outcome.success {
            let r = extract_reviews(outcome.body.as_str());
            self.record_page(true);
            r
        } else {
            self.record_page(false);
            Vec::new()
        }
    }

    /// Advances to the next item once its checkpoint is persisted. Only here
    /// does the checkpoint move, and only to the id of the item whose pages
    /// were all attempted.
    pub fn on_saved(&mut self)
        requires
            old(self).wf(),
            old(self).idx < old(self).catalog@.len(),
            old(self).page as int == old(self).catalog@[old(self).idx as int].pages as int + 1,
        ensures
            final(self).wf(),
            final(self).catalog == old(self).catalog,
            final(self).idx == old(self).idx + 1,
            final(self).page == 1,
            final(self).skipped == old(self).skipped,
            final(self).init_cp == old(self).init_cp,
            final(self).checkpoint == Some(old(self).catalog@[old(self).idx as int].id),
            final(self).visited() =~= old(self).visited().push(
                old(self).catalog@[old(self).idx as int].id,
            ),
    {
        let n = self.catalog.len();
        let id = self.catalog[self.idx].id;
        self.checkpoint = Some(id);
        assert(self.idx < n);
        self.idx = self.idx + 1;
        self.page = 1;
        proof {
            let cat = self.catalog@;
            let start = resume_start(cat, self.init_cp@);
            assert(ids(cat)[old(self).idx as int] == cat[old(self).idx as int].id);
            assert(ids(cat).subrange(start, self.idx as int) =~= ids(cat).subrange(
                start,
                old(self).idx as int,
            ).push(cat[old(self).idx as int].id));
        }
    }

    /// How many page fetches failed and were skipped during this run, for the
    /// end-of-run completeness summary.
    pub fn skipped_count(&self) -> (n: u64)
        ensures
            n == self.skipped,
    {
        self.skipped
    }

    /// The current checkpoint: the id of the last item fully attempted, or
    /// the value the run started from.
    pub fn checkpoint_value(&self) -> (c: Option<i32>)
        ensures
            c == self.checkpoint,
    {
        self.checkpoint
    }
}

/// Finds the resume index for checkpoint id `id` in `catalog`.
fn find_resume(catalog: &Vec<CatalogEntry>, id: i32) -> (r: usize)
    ensures
        r as int == resume_start(catalog@, Some(id)),
{
    let mut i: usize = 0;
    while i < catalog.len()
        invariant
            i <= catalog@.len(),
            forall|j: int| 0 <= j < i ==> catalog@[j].id != id,
        decreases catalog@.len() - i,
    {
        if catalog[i].id == id {
            proof {
                lemma_resume_start_found(catalog@, id, i as int);
            }
            return i + 1;
        }
        i = i + 1;
    }
    proof {
        lemma_resume_start_absent(catalog@, id);
    }
    0
}

/// Law: resume idempotence. With the checkpoint at entry `k`'s id and no two
/// entries sharing an id, a new run over the same catalog starts at `k + 1`:
/// no entry at or before the checkpoint is ever walked again.
pub proof fn lemma_resume_idempotent(cat: Seq<CatalogEntry>, k: int)
    requires
        0 <= k < cat.len(),
        unique_ids(cat),
    ensures
        resume_start(cat, Some(cat[k].id)) == k + 1,
{
    lemma_resume_start_found(cat, cat[k].id, k);
}

/// Law: order preservation. A finished walk has visited exactly the catalog's
/// ids from the resume point to the end, in the catalog's persisted order.
pub proof fn lemma_order_preservation(w: Walker)
    requires
        w.wf(),
        w.idx == w.catalog@.len(),
    ensures
        w.visited() == ids(w.catalog@).subrange(
            resume_start(w.catalog@, w.init_cp@),
            w.catalog@.len() as int,
        ),
{
}

/// Law: checkpoint monotonicity across runs. A walk begun from the checkpoint
/// `cat[j].id` visits only entries that stand strictly after position `j` in
/// the catalog's fixed order, so the checkpoint never moves backward.
pub proof fn lemma_checkpoint_monotone(w: Walker, j: int)
    requires
        w.wf(),
        unique_ids(w.catalog@),
        0 <= j < w.catalog@.len(),
        w.init_cp@ == Some(w.catalog@[j].id),
    ensures
        forall|t: int|
            0 <= t < w.visited().len() ==> w.visited()[t] == ids(w.catalog@)[j + 1 + t],
{
    lemma_resume_start_found(w.catalog@, w.catalog@[j].id, j);
}

} // verus!
