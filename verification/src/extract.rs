//! The extractor: maps one fetched page's markup into typed records through
//! the fixed field rules of each record type. A missing optional field
//! degrades the record; a missing required field drops that one entry
//! without aborting the batch.

use vstd::prelude::*;
use crate::markup::{
    fragments, frag_first_text, frag_first_attr, select_fragments, fragment_first_text,
    fragment_first_attr,
};
use crate::numbers::{is_dec, dec_value, parse_int, parse_dec_capped, parse_i64};
use crate::records::{Review, PendingEntry};

verus! {

/// Field rule: the repeating node that is one review.
pub open spec fn review_container_sel() -> Seq<char> {
    "div.fa-shadow.movie-review-wrapper.rw-item"@
}

/// Field rule: the node whose text is the review's rating.
pub open spec fn rating_sel() -> Seq<char> {
    "div.user-reviews-movie-rating"@
}

/// Field rule: the node whose text is the review's comment.
pub open spec fn comment_sel() -> Seq<char> {
    "div.review-text1"@
}

/// Field rule: the repeating node that is one catalog entry.
pub open spec fn catalog_container_sel() -> Seq<char> {
    "div.movie-card.mc-flex.movie-card-0"@
}

/// Field rule: the node whose text is the entry's title.
pub open spec fn title_sel() -> Seq<char> {
    "div.mc-title a"@
}

/// Field rule: the node whose text is the entry's release year.
pub open spec fn year_sel() -> Seq<char> {
    "span.mc-year"@
}

/// Field rule: the node whose `src` attribute is the entry's image URL.
pub open spec fn image_sel() -> Seq<char> {
    "div.mc-poster img"@
}

/// Field rule: the container attribute holding the entry's id.
pub open spec fn id_attr() -> Seq<char> {
    "data-movie-id"@
}

/// Field rule: the attribute holding the image URL.
pub open spec fn src_attr() -> Seq<char> {
    "src"@
}

/// The rating of one review container: the first rating node's text parsed
/// as a bounded integer; absent or unparsable text leaves the field absent.
pub open spec fn rating_of_frag(f: Seq<char>) -> Option<u8> {
    match frag_first_text(f, rating_sel()) {
        Option::Some(t) => if is_dec(t) && dec_value(t) <= 255 {
            Option::Some(dec_value(t) as u8)
        } else {
            Option::None
        },
        Option::None => Option::None,
    }
}

/// The comment of one review container: the first comment node's text,
/// absent when no node matches.
pub open spec fn comment_of_frag(f: Seq<char>) -> Option<Seq<char>> {
    frag_first_text(f, comment_sel())
}

/// The id of one catalog container: its id attribute parsed as an integer,
/// absent when unparsable or out of range.
pub open spec fn frag_id(f: Seq<char>) -> Option<i32> {
    match frag_first_attr(f, catalog_container_sel(), id_attr()) {
        Option::Some(t) => match parse_int(t) {
            Option::Some(v) => if i32::MIN <= v <= i32::MAX {
                Option::Some(v as i32)
            } else {
                Option::None
            },
            Option::None => Option::None,
        },
        Option::None => Option::None,
    }
}

/// The title of one catalog container.
pub open spec fn frag_title(f: Seq<char>) -> Option<Seq<char>> {
    frag_first_text(f, title_sel())
}

/// The release year of one catalog container, absent when unparsable.
pub open spec fn frag_year(f: Seq<char>) -> Option<i32> {
    match frag_first_text(f, year_sel()) {
        Option::Some(t) => match parse_int(t) {
            Option::Some(v) => if i32::MIN <= v <= i32::MAX {
                Option::Some(v as i32)
            } else {
                Option::None
            },
            Option::None => Option::None,
        },
        Option::None => Option::None,
    }
}

/// The image URL of one catalog container; an absent image degrades to the
/// empty string, it is not required.
pub open spec fn frag_image(f: Seq<char>) -> Seq<char> {
    match frag_first_attr(f, image_sel(), src_attr()) {
        Option::Some(t) => t,
        Option::None => Seq::empty(),
    }
}

/// Whether a catalog container yields a valid entry: the required fields id,
/// title and year are all present.
pub open spec fn frag_entry_ok(f: Seq<char>) -> bool {
    &&& frag_id(f) is Some
    &&& frag_title(f) is Some
    &&& frag_year(f) is Some
}

/// The catalog containers that yield valid entries, in document order.
pub open spec fn kept_entries(frags: Seq<Seq<char>>) -> Seq<Seq<char>>
    decreases frags.len(),
{
    if frags.len() == 0 {
        Seq::empty()
    } else {
        let rest = kept_entries(frags.drop_last());
        if frag_entry_ok(frags.last()) {
            rest.push(frags.last())
        } else {
            rest
        }
    }
}

/// Whether `p` is the entry extracted from catalog container `f`.
pub open spec fn entry_matches(p: PendingEntry, f: Seq<char>) -> bool {
    &&& Option::Some(p.id) == frag_id(f)
    &&& Option::Some(p.title@) == frag_title(f)
    &&& Option::Some(p.year) == frag_year(f)
    &&& p.image@ == frag_image(f)
}

/// Extracts one review record from one review container.
pub fn extract_review(frag: &str) -> (r: Review)
    ensures
        r.rating == rating_of_frag(frag@),
        r.comment.deep_view() == comment_of_frag(frag@),
{
    let rating_text = fragment_first_text(frag, "div.user-reviews-movie-rating");
    let rating: Option<u8> = match rating_text {
        Option::Some(t) => match parse_dec_capped(t.as_str(), 255) {
            Option::Some(v) => Option::Some(v as u8),
            Option::None => Option::None,
        },
        Option::None => Option::None,
    };
    let comment = fragment_first_text(frag, "div.review-text1");
    Review { rating, comment }
}

/// Extracts the review records of one fetched page: exactly one record per
/// review container, in document order, whatever fields each one lacks.
pub fn extract_reviews(body: &str) -> (r: Vec<Review>)
    ensures
        r@.len() == fragments(body@, review_container_sel()).len(),
        forall|i: int|
            0 <= i < r@.len() ==> {
                &&& (#[trigger] r@[i]).rating == rating_of_frag(
                    fragments(body@, review_container_sel())[i],
                )
                &&& r@[i].comment.deep_view() == comment_of_frag(
                    fragments(body@, review_container_sel())[i],
                )
            },
{
    let frags = select_fragments(body, "div.fa-shadow.movie-review-wrapper.rw-item");
    let n = frags.len();
    let mut out: Vec<Review> = Vec::new();
    let mut i: usize = 0;
    while i < n
        invariant
            n == frags@.len(),
            frags.deep_view() == fragments(body@, review_container_sel()),
            out@.len() == i,
            i <= n,
            forall|k: int|
                0 <= k < i ==> {
                    &&& (#[trigger] out@[k]).rating == rating_of_frag(
                        fragments(body@, review_container_sel())[k],
                    )
                    &&& out@[k].comment.deep_view() == comment_of_frag(
                        fragments(body@, review_container_sel())[k],
                    )
                },
        decreases n - i,
    {
        assert(frags.deep_view()[i as int] == frags@[i as int]@);
        let r = extract_review(frags[i].as_str());
        out.push(r);
        i = i + 1;
    }
    out
}

/// How many catalog containers the listing page holds, valid or not: with
/// the extracted entries this gives the count of entries dropped for missing
/// required fields, for the end-of-run completeness summary.
pub fn count_catalog_containers(body: &str) -> (n: usize)
    ensures
        n == fragments(body@, catalog_container_sel()).len(),
{
    let frags = select_fragments(body, "div.movie-card.mc-flex.movie-card-0");
    frags.len()
}

/// Extracts one catalog entry from one catalog container, `None` when a
/// required field (id, title, year) is missing or unparsable.
pub fn extract_entry(frag: &str) -> (r: Option<PendingEntry>)
    ensures
        r is Some <==> frag_entry_ok(frag@),
        r matches Option::Some(p) ==> entry_matches(p, frag@),
{
    let id_text = fragment_first_attr(frag, "div.movie-card.mc-flex.movie-card-0", "data-movie-id");
    let id: i32 = match id_text {
        Option::Some(t) => match parse_i64(t.as_str()) {
            Option::Some(v) => if i32::MIN as i64 <= v && v <= i32::MAX as i64 {
                v as i32
            } else {
                return Option::None;
            },
            Option::None => {
                return Option::None;
            },
        },
        Option::None => {
            return Option::None;
        },
    };
    let title: String = match fragment_first_text(frag, "div.mc-title a") {
        Option::Some(t) => t,
        Option::None => {
            return Option::None;
        },
    };
    let year: i32 = match fragment_first_text(frag, "span.mc-year") {
        Option::Some(t) => match parse_i64(t.as_str()) {
            Option::Some(v) => if i32::MIN as i64 <= v && v <= i32::MAX as i64 {
                v as i32
            } else {
                return Option::None;
            },
            Option::None => {
                return Option::None;
            },
        },
        Option::None => {
            return Option::None;
        },
    };
    let image: String = match fragment_first_attr(frag, "div.mc-poster img", "src") {
        Option::Some(t) => t,
        Option::None => String::new(),
    };
    Option::Some(PendingEntry { id, title, year, image })
}

/// Extracts the catalog entries of the listing page: one entry per container
/// whose required fields are present, in document order; invalid containers
/// are dropped singly, never the whole batch.
pub fn extract_catalog(body: &str) -> (r: Vec<PendingEntry>)
    ensures
        ({
            let ks = kept_entries(fragments(body@, catalog_container_sel()));
            &&& r@.len() == ks.len()
            &&& forall|i: int| 0 <= i < r@.len() ==> entry_matches(#[trigger] r@[i], ks[i])
        }),
{
    let frags = select_fragments(body, "div.movie-card.mc-flex.movie-card-0");
    let n = frags.len();
    let mut out: Vec<PendingEntry> = Vec::new();
    let mut i: usize = 0;
    while i < n
        invariant
            n == frags@.len(),
            frags.deep_view() == fragments(body@, catalog_container_sel()),
            i <= n,
            ({
                let ks = kept_entries(frags.deep_view().subrange(0, i as int));
                &&& out@.len() == ks.len()
                &&& forall|k: int| 0 <= k < out@.len() ==> entry_matches(#[trigger] out@[k], ks[k])
            }),
        decreases n - i,
    {
        proof {
            let fv = frags.deep_view();
            assert(fv[i as int] == frags@[i as int]@);
            assert(fv.subrange(0, i + 1).drop_last() =~= fv.subrange(0, i as int));
            assert(fv.subrange(0, i + 1).last() == fv[i as int]);
        }
        match extract_entry(frags[i].as_str()) {
            Option::Some(p) => {
                out.push(p);
            },
            Option::None => {},
        }
        i = i + 1;
    }
    proof {
        assert(frags.deep_view().subrange(0, n as int) =~= frags.deep_view());
    }
    out
}

} // verus!
