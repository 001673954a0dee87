//! The data model: catalog entries, review records, and fetch outcomes.

use vstd::prelude::*;

verus! {

/// One catalog item: a film with a stable source-assigned id. `pages` is the
/// number of review listing pages known for it. Created once by the catalog
/// harvest and immutable thereafter; the persisted row order of a catalog
/// defines the resume sequence.
pub struct CatalogEntry {
    pub id: i32,
    pub title: String,
    pub year: i32,
    pub image: String,
    pub pages: u8,
}

/// A catalog entry as extracted from the listing page, before its page count
/// is known.
pub struct PendingEntry {
    pub id: i32,
    pub title: String,
    pub year: i32,
    pub image: String,
}

/// One harvested review. Either field may be absent when extraction finds no
/// matching node; a review with both fields absent is still a record, so the
/// output keeps one row per review container.
pub struct Review {
    pub rating: Option<u8>,
    pub comment: Option<String>,
}

/// What a page fetch produced: a status flag and the raw body. Any non-success
/// status or transport failure is handed to the library uniformly as
/// `success == false`.
pub struct FetchOutcome {
    pub success: bool,
    pub body: String,
}

/// The ids of a catalog, in its persisted order.
pub open spec fn ids(cat: Seq<CatalogEntry>) -> Seq<i32> {
    cat.map_values(|e: CatalogEntry| e.id)
}

/// Whether no two entries of the catalog share an id.
pub open spec fn unique_ids(cat: Seq<CatalogEntry>) -> bool {
    forall|i: int, j: int|
        0 <= i < cat.len() && 0 <= j < cat.len() && i != j ==> cat[i].id != cat[j].id
}

/// Annotates an extracted entry with the page count found for it.
pub fn finish_entry(p: PendingEntry, pages: u8) -> (e: CatalogEntry)
    ensures
        e.id == p.id,
        e.title == p.title,
        e.year == p.year,
        e.image == p.image,
        e.pages == pages,
{
    CatalogEntry { id: p.id, title: p.title, year: p.year, image: p.image, pages }
}

} // verus!
