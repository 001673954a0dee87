//! The markup-query boundary: declarative queries into an HTML document,
//! consumed as a black-box capability. Each function here hands the real
//! markup engine a document and a selector and names what comes back; all
//! results are plain strings, and everything done with them is verified.

use vstd::prelude::*;

verus! {

/// The serialized HTML of each node that `sel` matches in `markup` parsed as
/// a document, in document order. An unparsable selector matches nothing.
pub uninterp spec fn fragments(markup: Seq<char>, sel: Seq<char>) -> Seq<Seq<char>>;

/// The text of each node that `sel` matches in `markup` parsed as a document,
/// in document order: the node's text pieces joined with single spaces, then
/// trimmed. An unparsable selector matches nothing.
pub uninterp spec fn texts(markup: Seq<char>, sel: Seq<char>) -> Seq<Seq<char>>;

/// The joined and trimmed text of the first node that `sel` matches in
/// `frag` parsed as an HTML fragment, `None` when nothing matches.
pub uninterp spec fn frag_first_text(frag: Seq<char>, sel: Seq<char>) -> Option<Seq<char>>;

/// The value of attribute `attr` on the first node that `sel` matches in
/// `frag` parsed as an HTML fragment; `None` when nothing matches or the
/// first match lacks the attribute.
pub uninterp spec fn frag_first_attr(frag: Seq<char>, sel: Seq<char>, attr: Seq<char>) -> Option<
    Seq<char>,
>;

/// Relies on scraper's `Selector::parse`, `Html::parse_document`,
/// `Html::select` and `ElementRef::html`: returns the serialized HTML of
/// every match of `sel`, in document order. The result depends on the two
/// arguments alone.
#[verifier::external_body]
pub(crate) fn select_fragments(markup: &str, sel: &str) -> (r: Vec<String>)
    ensures
        r.deep_view() == fragments(markup@, sel@),
{
    let Ok(s) = scraper::Selector::parse(sel) else {
        return Vec::new();
    };
    let doc = scraper::Html::parse_document(markup);
    doc.select(&s).map(|e| e.html()).collect()
}

/// Relies on scraper's `Selector::parse`, `Html::parse_document`,
/// `Html::select` and `ElementRef::text`: returns the joined and trimmed text
/// of every match of `sel`, in document order. The result depends on the two
/// arguments alone.
#[verifier::external_body]
pub(crate) fn select_texts(markup: &str, sel: &str) -> (r: Vec<String>)
    ensures
        r.deep_view() == texts(markup@, sel@),
{
    let Ok(s) = scraper::Selector::parse(sel) else {
        return Vec::new();
    };
    let doc = scraper::Html::parse_document(markup);
    doc.select(&s).map(|e| e.text().collect::<Vec<_>>().join(" ").trim().to_string()).collect()
}

/// Relies on scraper's `Selector::parse`, `Html::parse_fragment`,
/// `Html::select` and `ElementRef::text`: returns the joined and trimmed text
/// of the first match of `sel` in the fragment. The result depends on the two
/// arguments alone.
#[verifier::external_body]
pub(crate) fn fragment_first_text(frag: &str, sel: &str) -> (r: Option<String>)
    ensures
        r.deep_view() == frag_first_text(frag@, sel@),
{
    let Ok(s) = scraper::Selector::parse(sel) else {
        return None;
    };
    let doc = scraper::Html::parse_fragment(frag);
    doc.select(&s).next().map(|e| e.text().collect::<Vec<_>>().join(" ").trim().to_string())
}

/// Relies on scraper's `Selector::parse`, `Html::parse_fragment`,
/// `Html::select` and `ElementRef::attr`: returns attribute `attr` of the
/// first match of `sel` in the fragment. The result depends on the three
/// arguments alone.
#[verifier::external_body]
pub(crate) fn fragment_first_attr(frag: &str, sel: &str, attr: &str) -> (r: Option<String>)
    ensures
        r.deep_view() == frag_first_attr(frag@, sel@, attr@),
{
    let Ok(s) = scraper::Selector::parse(sel) else {
        return None;
    };
    let doc = scraper::Html::parse_fragment(frag);
    doc.select(&s).next().and_then(|e| e.attr(attr)).map(|a| a.to_string())
}

} // verus!
