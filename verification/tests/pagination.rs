use review_harvest::paginate::page_count_from;
use review_harvest::records::FetchOutcome;

fn fetched(body: &str) -> FetchOutcome {
    FetchOutcome { success: true, body: body.to_string() }
}

#[test]
fn pagination_takes_second_to_last_entry() {
    let body = "<html><body><div class=\"pager\">\
        <a>1</a><a>2</a><a>3</a><a>4</a><a>next</a>\
        </div></body></html>";
    assert_eq!(page_count_from(&fetched(body)), 4);
}

#[test]
fn pagination_single_entry_defaults_to_one() {
    let body = "<html><body><div class=\"pager\"><a>1</a></div></body></html>";
    assert_eq!(page_count_from(&fetched(body)), 1);
}

#[test]
fn pagination_no_control_defaults_to_one() {
    let body = "<html><body><p>no pagination here</p></body></html>";
    assert_eq!(page_count_from(&fetched(body)), 1);
}

#[test]
fn pagination_failed_fetch_defaults_to_one() {
    let o = FetchOutcome { success: false, body: String::new() };
    assert_eq!(page_count_from(&o), 1);
}

#[test]
fn pagination_unparsable_entry_defaults_to_one() {
    let body = "<html><body><div class=\"pager\">\
        <a>1</a><a>lots</a><a>next</a>\
        </div></body></html>";
    assert_eq!(page_count_from(&fetched(body)), 1);
}

#[test]
fn pagination_zero_entry_defaults_to_one() {
    let body = "<html><body><div class=\"pager\"><a>0</a><a>next</a></div></body></html>";
    assert_eq!(page_count_from(&fetched(body)), 1);
}

#[test]
fn pagination_two_entries_uses_first() {
    let body = "<html><body><div class=\"pager\"><a>17</a><a>next</a></div></body></html>";
    assert_eq!(page_count_from(&fetched(body)), 17);
}
