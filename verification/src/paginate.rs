//! The paginator: how many review pages an item has, read from the first
//! review page's pagination control, defaulting safely when the control is
//! absent or malformed.

use vstd::prelude::*;
use crate::markup::{texts, select_texts};
use crate::numbers::{is_dec, dec_value, parse_dec_capped};
use crate::records::FetchOutcome;

verus! {

/// The control whose links are the pagination entries.
pub open spec fn pager_sel() -> Seq<char> {
    "div.pager a"@
}

/// The page-count rule over the pagination control's entries: the last entry
/// is typically a "next" affordance, not a real page, so the second-to-last
/// entry's text is the true final page number when at least two entries
/// exist. Anything that does not yield a page number of at least one
/// defaults to one; a malformed control never aborts the run.
pub open spec fn page_count_of(entries: Seq<Seq<char>>) -> u8 {
    if entries.len() >= 2 {
        let t = entries[entries.len() - 2];
        if is_dec(t) && 1 <= dec_value(t) <= 255 {
            dec_value(t) as u8
        } else {
            1
        }
    } else {
        1
    }
}

/// The page count read from the outcome of fetching an item's first review
/// page: one when that fetch failed, else the rule over the control entries.
pub open spec fn page_count_from_spec(success: bool, body: Seq<char>) -> u8 {
    if success {
        page_count_of(texts(body, pager_sel()))
    } else {
        1
    }
}

/// Determines an item's page count from its first review page. Always at
/// least one: a one-page item is the common case and the safe default.
pub fn page_count_from(o: &FetchOutcome) -> (n: u8)
    ensures
        n == page_count_from_spec(o.success, o.body@),
        n >= 1,
{
    if !o.success {
        return 1;
    }
    let entries = select_texts(o.body.as_str(), "div.pager a");
    let len = entries.len();
    if len >= 2 {
        assert(entries.deep_view()[len - 2] == entries@[len - 2]@);
        let t = &entries[len - 2];
        match parse_dec_capped(t.as_str(), 255) {
            Option::Some(v) => if v >= 1 {
                v as u8
            } else {
                1
            },
            Option::None => 1,
        }
    } else {
        1
    }
}

} // verus!
