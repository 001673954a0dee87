//! Durable form of the data: the tabular snapshot and review-output rows,
//! their encoding to bytes, and the single-scalar checkpoint text.

use vstd::prelude::*;
use crate::numbers::{
    is_dec, dec_value, dec_digits, dec_digits_int, parse_int, parse_dec_capped, parse_i64,
    u64_to_dec, i64_to_dec, lemma_dec_round_trip, lemma_int_round_trip,
};
use crate::records::{CatalogEntry, Review};

verus! {

/// One encoded record of the tabular format, field values in order, with the
/// record terminator.
pub uninterp spec fn csv_record_bytes(fields: Seq<Seq<char>>) -> Seq<u8>;

/// The records held in tabular data, in order, one sequence of field values
/// per record. Records that cannot be read are dropped.
pub uninterp spec fn csv_rows(data: Seq<u8>) -> Seq<Seq<Seq<char>>>;

/// Relies on csv's `Writer::write_record` and `Writer::into_inner`: encodes
/// one record, quoting as the format requires, and returns its bytes. The
/// result depends on the field values alone.
#[verifier::external_body]
pub(crate) fn encode_csv_record(fields: &Vec<String>) -> (r: Vec<u8>)
    ensures
        r@ == csv_record_bytes(fields.deep_view()),
{
    let mut w = csv::Writer::from_writer(Vec::new());
    let _ = w.write_record(fields);
    w.into_inner().unwrap_or_default()
}

/// Relies on csv's `ReaderBuilder` and `StringRecord`: reads every record of
/// `data` without header treatment; a record that cannot be read is dropped.
/// The result depends on the data alone.
#[verifier::external_body]
pub(crate) fn decode_csv(data: &Vec<u8>) -> (r: Vec<Vec<String>>)
    ensures
        r.deep_view() == csv_rows(data@),
{
    let mut rd = csv::ReaderBuilder::new().has_headers(false).flexible(true).from_reader(
        data.as_slice(),
    );
    rd.records().filter_map(|x| x.ok()).map(
        |rec| rec.iter().map(|f| f.to_string()).collect(),
    ).collect()
}

/// A snapshot cell parsed as a catalog integer.
pub open spec fn cell_i32(t: Seq<char>) -> Option<i32> {
    match parse_int(t) {
        Option::Some(v) => if i32::MIN <= v <= i32::MAX {
            Option::Some(v as i32)
        } else {
            Option::None
        },
        Option::None => Option::None,
    }
}

/// A snapshot cell parsed as a page count.
pub open spec fn cell_u8(t: Seq<char>) -> Option<u8> {
    if is_dec(t) && dec_value(t) <= 255 {
        Option::Some(dec_value(t) as u8)
    } else {
        Option::None
    }
}

/// Whether a snapshot row is a readable catalog entry: five cells with id,
/// year and page count parsable.
pub open spec fn row_ok(row: Seq<Seq<char>>) -> bool {
    &&& row.len() == 5
    &&& cell_i32(row[0]) is Some
    &&& cell_i32(row[2]) is Some
    &&& cell_u8(row[4]) is Some
}

/// Whether entry `e` is what snapshot row `row` holds.
pub open spec fn entry_matches_row(e: CatalogEntry, row: Seq<Seq<char>>) -> bool {
    &&& row.len() == 5
    &&& cell_i32(row[0]) == Option::Some(e.id)
    &&& e.title@ == row[1]
    &&& cell_i32(row[2]) == Option::Some(e.year)
    &&& e.image@ == row[3]
    &&& cell_u8(row[4]) == Option::Some(e.pages)
}

/// The snapshot row of a catalog entry: ID, Title, Year, Image, Pages.
pub open spec fn entry_row(e: CatalogEntry) -> Seq<Seq<char>> {
    seq![
        dec_digits_int(e.id as int),
        e.title@,
        dec_digits_int(e.year as int),
        e.image@,
        dec_digits(e.pages as nat),
    ]
}

/// The review-output row of one review: Review, Rating; an absent field is
/// the empty cell.
pub open spec fn review_row(rating: Option<u8>, comment: Option<Seq<char>>) -> Seq<Seq<char>> {
    seq![
        match comment {
            Option::Some(c) => c,
            Option::None => Seq::<char>::empty(),
        },
        match rating {
            Option::Some(v) => dec_digits(v as nat),
            Option::None => Seq::<char>::empty(),
        },
    ]
}

/// Formats a catalog entry as its snapshot row.
pub fn entry_to_row(e: &CatalogEntry) -> (row: Vec<String>)
    ensures
        row.deep_view() =~= entry_row(*e),
{
    let mut row: Vec<String> = Vec::new();
    row.push(i64_to_dec(e.id as i64));
    row.push(e.title.clone());
    row.push(i64_to_dec(e.year as i64));
    row.push(e.image.clone());
    row.push(u64_to_dec(e.pages as u64));
    row
}

/// Reads a catalog entry back from a snapshot row, `None` when the row is
/// not readable.
pub fn row_to_entry(row: &Vec<String>) -> (r: Option<CatalogEntry>)
    ensures
        r is Some <==> row_ok(row.deep_view()),
        r matches Option::Some(e) ==> entry_matches_row(e, row.deep_view()),
{
    if row.len() != 5 {
        return Option::None;
    }
    assert forall|i: int| 0 <= i < 5 implies row.deep_view()[i] == row@[i]@ by {}
    let id: i32 = match parse_i64(row[0].as_str()) {
        Option::Some(v) => if i32::MIN as i64 <= v && v <= i32::MAX as i64 {
            v as i32
        } else {
            return Option::None;
        },
        Option::None => {
            return Option::None;
        },
    };
    let year: i32 = match parse_i64(row[2].as_str()) {
        Option::Some(v) => if i32::MIN as i64 <= v && v <= i32::MAX as i64 {
            v as i32
        } else {
            return Option::None;
        },
        Option::None => {
            return Option::None;
        },
    };
    let pages: u8 = match parse_dec_capped(row[4].as_str(), 255) {
        Option::Some(v) => v as u8,
        Option::None => {
            return Option::None;
        },
    };
    Option::Some(
        CatalogEntry { id, title: row[1].clone(), year, image: row[3].clone(), pages },
    )
}

/// Formats one review as its output row.
pub fn review_to_row(r: &Review) -> (row: Vec<String>)
    ensures
        row.deep_view() =~= review_row(r.rating, r.comment.deep_view()),
{
    let comment: String = match &r.comment {
        Option::Some(c) => c.clone(),
        Option::None => String::new(),
    };
    let rating: String = match r.rating {
        Option::Some(v) => u64_to_dec(v as u64),
        Option::None => String::new(),
    };
    let mut row: Vec<String> = Vec::new();
    row.push(comment);
    row.push(rating);
    row
}

/// Encodes one review as the bytes of its output row.
pub fn review_row_bytes(r: &Review) -> (b: Vec<u8>)
    ensures
        b@ == csv_record_bytes(review_row(r.rating, r.comment.deep_view())),
{
    let row = review_to_row(r);
    encode_csv_record(&row)
}

/// Encodes one catalog entry as the bytes of its snapshot row.
pub fn entry_row_bytes(e: &CatalogEntry) -> (b: Vec<u8>)
    ensures
        b@ == csv_record_bytes(entry_row(*e)),
{
    let row = entry_to_row(e);
    encode_csv_record(&row)
}

/// The header row of the review output.
pub open spec fn review_header() -> Seq<Seq<char>> {
    seq!["Review"@, "Rating"@]
}

/// The header row of the catalog snapshot.
pub open spec fn catalog_header() -> Seq<Seq<char>> {
    seq!["ID"@, "Title"@, "Year"@, "Image"@, "Pages"@]
}

/// Encodes the review output's header row, written only at file creation.
pub fn review_header_bytes() -> (b: Vec<u8>)
    ensures
        b@ == csv_record_bytes(review_header()),
{
    let mut row: Vec<String> = Vec::new();
    row.push(String::from_str("Review"));
    row.push(String::from_str("Rating"));
    assert(row.deep_view() =~= review_header());
    encode_csv_record(&row)
}

/// Encodes the catalog snapshot's header row.
pub fn catalog_header_bytes() -> (b: Vec<u8>)
    ensures
        b@ == csv_record_bytes(catalog_header()),
{
    let mut row: Vec<String> = Vec::new();
    row.push(String::from_str("ID"));
    row.push(String::from_str("Title"));
    row.push(String::from_str("Year"));
    row.push(String::from_str("Image"));
    row.push(String::from_str("Pages"));
    assert(row.deep_view() =~= catalog_header());
    encode_csv_record(&row)
}

/// The rows after the snapshot's header row.
pub open spec fn body_rows(rows: Seq<Seq<Seq<char>>>) -> Seq<Seq<Seq<char>>> {
    if rows.len() == 0 {
        rows
    } else {
        rows.subrange(1, rows.len() as int)
    }
}

/// The readable rows, in order.
pub open spec fn kept_rows(rows: Seq<Seq<Seq<char>>>) -> Seq<Seq<Seq<char>>>
    decreases rows.len(),
{
    if rows.len() == 0 {
        Seq::empty()
    } else {
        let rest = kept_rows(rows.drop_last());
        if row_ok(rows.last()) {
            rest.push(rows.last())
        } else {
            rest
        }
    }
}

/// Reads a persisted catalog snapshot back: drops the header row, keeps the
/// readable rows in their persisted order, which is the resume sequence.
pub fn parse_catalog_rows(data: &Vec<u8>) -> (r: Vec<CatalogEntry>)
    ensures
        ({
            let ks = kept_rows(body_rows(csv_rows(data@)));
            &&& r@.len() == ks.len()
            &&& forall|i: int| 0 <= i < r@.len() ==> entry_matches_row(#[trigger] r@[i], ks[i])
        }),
{
    let rows = decode_csv(data);
    let n = rows.len();
    let mut out: Vec<CatalogEntry> = Vec::new();
    if n == 0 {
        return out;
    }
    let mut i: usize = 1;
    while i < n
        invariant
            n == rows@.len(),
            rows.deep_view() == csv_rows(data@),
            1 <= i <= n,
            ({
                let ks = kept_rows(rows.deep_view().subrange(1, i as int));
                &&& out@.len() == ks.len()
                &&& forall|k: int|
                    0 <= k < out@.len() ==> entry_matches_row(#[trigger] out@[k], ks[k])
            }),
        decreases n - i,
    {
        proof {
            let rv = rows.deep_view();
            assert(rv[i as int] == rows@[i as int].deep_view());
            assert(rv.subrange(1, i + 1).drop_last() =~= rv.subrange(1, i as int));
            assert(rv.subrange(1, i + 1).last() == rv[i as int]);
        }
        match row_to_entry(&rows[i]) {
            Option::Some(e) => {
                out.push(e);
            },
            Option::None => {},
        }
        i = i + 1;
    }
    proof {
        assert(rows.deep_view().subrange(1, n as int) =~= body_rows(csv_rows(data@)));
    }
    out
}

/// Formats the checkpoint: the single line of text holding one integer id.
pub fn format_checkpoint(id: i32) -> (r: String)
    ensures
        r@ == dec_digits_int(id as int),
{
    i64_to_dec(id as i64)
}

/// Reads a checkpoint back from its text, `None` when the text does not hold
/// one integer id.
pub fn parse_checkpoint(s: &str) -> (r: Option<i32>)
    ensures
        match r {
            Option::Some(v) => parse_int(s@) == Option::Some(v as int),
            Option::None => match parse_int(s@) {
                Option::Some(v) => !(i32::MIN <= v <= i32::MAX),
                Option::None => true,
            },
        },
{
    match parse_i64(s) {
        Option::Some(v) => if i32::MIN as i64 <= v && v <= i32::MAX as i64 {
            Option::Some(v as i32)
        } else {
            Option::None
        },
        Option::None => Option::None,
    }
}

/// Law: a checkpoint survives the trip through its on-disk text.
pub proof fn lemma_checkpoint_round_trip(id: i32)
    ensures
        parse_int(dec_digits_int(id as int)) == Option::Some(id as int),
{
    lemma_int_round_trip(id as int);
}

/// Law: a catalog entry survives the trip through its snapshot row: the row
/// it prints to is readable and holds the same fields.
pub proof fn lemma_entry_row_round_trip(e: CatalogEntry)
    ensures
        row_ok(entry_row(e)),
        entry_matches_row(e, entry_row(e)),
{
    lemma_int_round_trip(e.id as int);
    lemma_int_round_trip(e.year as int);
    lemma_dec_round_trip(e.pages as nat);
}

} // verus!
