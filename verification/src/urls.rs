//! Building the fixed URLs of the content source.

use vstd::prelude::*;
use crate::numbers::{dec_digits, dec_digits_int, u64_to_dec, i64_to_dec};

verus! {

/// The listing page of the catalog.
pub open spec fn listing_url_spec() -> Seq<char> {
    "https://www.filmaffinity.com/es/topgen.php"@
}

/// The review page `page` of item `id`.
pub open spec fn review_url(id: int, page: nat) -> Seq<char> {
    "https://www.filmaffinity.com/es/reviews/"@ + dec_digits(page) + seq!['/'] + dec_digits_int(
        id,
    ) + ".html"@
}

/// The listing-page URL as a string.
pub fn listing_url() -> (r: String)
    ensures
        r@ == listing_url_spec(),
{
    String::from_str("https://www.filmaffinity.com/es/topgen.php")
}

/// Builds the URL of review page `page` for item `id`.
pub fn make_review_url(id: i32, page: u16) -> (r: String)
    ensures
        r@ == review_url(id as int, page as nat),
{
    let mut s = String::from_str("https://www.filmaffinity.com/es/reviews/");
    let digits = u64_to_dec(page as u64);
    s.append(digits.as_str());
    s.append("/");
    let id_digits = i64_to_dec(id as i64);
    s.append(id_digits.as_str());
    s.append(".html");
    proof {
        reveal_strlit("/");
        assert("/"@ =~= seq!['/']);
        assert(s@ =~= review_url(id as int, page as nat));
    }
    s
}

/// The first review page of item `id`: where the pagination control is read.
pub fn first_page_url(id: i32) -> (r: String)
    ensures
        r@ == review_url(id as int, 1),
{
    make_review_url(id, 1)
}

} // verus!
