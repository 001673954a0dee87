use review_harvest::numbers::{i64_to_dec, parse_dec_capped, parse_i64, u64_to_dec};
use review_harvest::records::{CatalogEntry, Review};
use review_harvest::rows::{
    catalog_header_bytes, entry_row_bytes, format_checkpoint, parse_catalog_rows,
    parse_checkpoint, review_header_bytes, review_row_bytes, review_to_row, row_to_entry,
    entry_to_row,
};

#[test]
fn decimal_formatting_exact_values() {
    assert_eq!(u64_to_dec(0), "0");
    assert_eq!(u64_to_dec(9007), "9007");
    assert_eq!(u64_to_dec(18446744073709551615), "18446744073709551615");
    assert_eq!(i64_to_dec(-42), "-42");
    assert_eq!(i64_to_dec(7), "7");
    assert_eq!(i64_to_dec(i64::MIN), "-9223372036854775808");
}

#[test]
fn decimal_parsing_exact_values() {
    assert_eq!(parse_dec_capped("123", 255), Some(123));
    assert_eq!(parse_dec_capped("255", 255), Some(255));
    assert_eq!(parse_dec_capped("256", 255), None);
    assert_eq!(parse_dec_capped("0", 255), Some(0));
    assert_eq!(parse_dec_capped("007", 255), Some(7));
    assert_eq!(parse_dec_capped("", 255), None);
    assert_eq!(parse_dec_capped("12a", 255), None);
    assert_eq!(parse_i64("-17"), Some(-17));
    assert_eq!(parse_i64("17"), Some(17));
    assert_eq!(parse_i64("+17"), None);
    assert_eq!(parse_i64("-"), None);
    assert_eq!(parse_i64("9223372036854775807"), Some(i64::MAX));
    assert_eq!(parse_i64("-9223372036854775808"), Some(i64::MIN));
    assert_eq!(parse_i64("9223372036854775808"), None);
}

#[test]
fn checkpoint_round_trip() {
    for id in [0, 1, 903087, -5, i32::MAX, i32::MIN] {
        let text = format_checkpoint(id);
        assert_eq!(parse_checkpoint(&text), Some(id));
    }
    assert_eq!(parse_checkpoint(""), None);
    assert_eq!(parse_checkpoint("12 34"), None);
    assert_eq!(parse_checkpoint("2147483648"), None);
}

fn sample_entry() -> CatalogEntry {
    CatalogEntry {
        id: 903087,
        title: "Good, Bad Film".to_string(),
        year: 1994,
        image: "https://images.example/x.jpg".to_string(),
        pages: 12,
    }
}

#[test]
fn entry_row_round_trip() {
    let e = sample_entry();
    let row = entry_to_row(&e);
    assert_eq!(row, vec!["903087", "Good, Bad Film", "1994", "https://images.example/x.jpg", "12"]);
    let back = row_to_entry(&row).expect("row should parse");
    assert_eq!(back.id, e.id);
    assert_eq!(back.title, e.title);
    assert_eq!(back.year, e.year);
    assert_eq!(back.image, e.image);
    assert_eq!(back.pages, e.pages);
}

#[test]
fn short_or_unreadable_rows_are_rejected() {
    let four = vec!["1".to_string(), "t".to_string(), "1990".to_string(), "i".to_string()];
    assert!(row_to_entry(&four).is_none());
    let bad_id = vec![
        "x".to_string(),
        "t".to_string(),
        "1990".to_string(),
        "i".to_string(),
        "1".to_string(),
    ];
    assert!(row_to_entry(&bad_id).is_none());
    let bad_pages = vec![
        "1".to_string(),
        "t".to_string(),
        "1990".to_string(),
        "i".to_string(),
        "999".to_string(),
    ];
    assert!(row_to_entry(&bad_pages).is_none());
}

#[test]
fn review_rows_and_headers() {
    let r = Review { rating: Some(8), comment: Some("Great film".to_string()) };
    assert_eq!(review_to_row(&r), vec!["Great film", "8"]);
    let empty = Review { rating: None, comment: None };
    assert_eq!(review_to_row(&empty), vec!["", ""]);
    assert_eq!(review_header_bytes(), b"Review,Rating\n");
    assert_eq!(review_row_bytes(&r), b"Great film,8\n");
    assert_eq!(catalog_header_bytes(), b"ID,Title,Year,Image,Pages\n");
}

#[test]
fn snapshot_round_trip_through_bytes() {
    let e1 = sample_entry();
    let e2 = CatalogEntry {
        id: 2,
        title: "Plain".to_string(),
        year: 2020,
        image: String::new(),
        pages: 0,
    };
    let mut data = catalog_header_bytes();
    data.extend(entry_row_bytes(&e1));
    data.extend(entry_row_bytes(&e2));
    let back = parse_catalog_rows(&data);
    assert_eq!(back.len(), 2);
    assert_eq!(back[0].id, e1.id);
    assert_eq!(back[0].title, e1.title);
    assert_eq!(back[0].year, e1.year);
    assert_eq!(back[0].image, e1.image);
    assert_eq!(back[0].pages, e1.pages);
    assert_eq!(back[1].id, 2);
    assert_eq!(back[1].pages, 0);
}

#[test]
fn snapshot_of_header_alone_is_empty() {
    let data = catalog_header_bytes();
    assert_eq!(parse_catalog_rows(&data).len(), 0);
    assert_eq!(parse_catalog_rows(&Vec::new()).len(), 0);
}
