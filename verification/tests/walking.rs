use review_harvest::harvest::Harvester;
use review_harvest::records::{CatalogEntry, FetchOutcome, PendingEntry};
use review_harvest::urls::{first_page_url, listing_url, make_review_url};
use review_harvest::walker::{Step, Walker};

fn entry(id: i32, pages: u8) -> CatalogEntry {
    CatalogEntry { id, title: String::new(), year: 2000, image: String::new(), pages }
}

fn drive(w: &mut Walker, fetched: &mut Vec<(i32, u8)>, saved: &mut Vec<i32>) {
    loop {
        match w.next_step() {
            Step::Fetch { id, page, url: _ } => {
                fetched.push((id, page));
                let _ = w.on_page(&FetchOutcome { success: true, body: String::new() });
            }
            Step::Save { id } => {
                saved.push(id);
                w.on_saved();
            }
            Step::Done => break,
        }
    }
}

#[test]
fn scenario_two_items_no_checkpoint() {
    let cat = vec![entry(1, 2), entry(2, 0)];
    let mut w = Walker::new(cat, None);
    let mut fetched = Vec::new();
    let mut saved = Vec::new();
    drive(&mut w, &mut fetched, &mut saved);
    assert_eq!(fetched, vec![(1, 1), (1, 2)]);
    assert_eq!(saved, vec![1, 2]);
    assert_eq!(w.checkpoint_value(), Some(2));
    assert_eq!(w.skipped_count(), 0);
}

#[test]
fn scenario_failed_middle_page() {
    let cat = vec![entry(7, 3)];
    let mut w = Walker::new(cat, None);
    let body = "<div class=\"fa-shadow movie-review-wrapper rw-item\">\
        <div class=\"review-text1\">Fine</div>\
        </div>";
    let mut pages_fetched = Vec::new();
    let mut collected = 0;
    loop {
        match w.next_step() {
            Step::Fetch { id: _, page, url: _ } => {
                pages_fetched.push(page);
                let outcome = if page == 2 {
                    FetchOutcome { success: false, body: String::new() }
                } else {
                    FetchOutcome { success: true, body: body.to_string() }
                };
                collected += w.on_page(&outcome).len();
            }
            Step::Save { id: _ } => w.on_saved(),
            Step::Done => break,
        }
    }
    assert_eq!(pages_fetched, vec![1, 2, 3]);
    assert_eq!(collected, 2);
    assert_eq!(w.skipped_count(), 1);
    assert_eq!(w.checkpoint_value(), Some(7));
}

#[test]
fn resume_skips_up_to_and_including_checkpoint() {
    let cat = vec![entry(5, 1), entry(6, 1), entry(7, 1)];
    let mut w = Walker::new(cat, Some(5));
    let mut fetched = Vec::new();
    let mut saved = Vec::new();
    drive(&mut w, &mut fetched, &mut saved);
    assert_eq!(fetched, vec![(6, 1), (7, 1)]);
    assert_eq!(saved, vec![6, 7]);
}

#[test]
fn second_run_after_full_walk_does_nothing() {
    let cat1 = vec![entry(1, 1), entry(2, 1)];
    let mut w1 = Walker::new(cat1, None);
    let mut fetched = Vec::new();
    let mut saved = Vec::new();
    drive(&mut w1, &mut fetched, &mut saved);
    let cp = w1.checkpoint_value();
    assert_eq!(cp, Some(2));
    let cat2 = vec![entry(1, 1), entry(2, 1)];
    let mut w2 = Walker::new(cat2, cp);
    let mut fetched2 = Vec::new();
    let mut saved2 = Vec::new();
    drive(&mut w2, &mut fetched2, &mut saved2);
    assert_eq!(fetched2, vec![]);
    assert_eq!(saved2, vec![]);
    assert_eq!(w2.checkpoint_value(), Some(2));
}

#[test]
fn checkpoint_id_absent_from_catalog_restarts() {
    let cat = vec![entry(5, 1), entry(6, 1)];
    let mut w = Walker::new(cat, Some(99));
    let mut fetched = Vec::new();
    let mut saved = Vec::new();
    drive(&mut w, &mut fetched, &mut saved);
    assert_eq!(fetched, vec![(5, 1), (6, 1)]);
    assert_eq!(saved, vec![5, 6]);
}

#[test]
fn checkpoint_advances_only_forward_within_a_run() {
    let cat = vec![entry(3, 0), entry(9, 0), entry(4, 0)];
    let mut w = Walker::new(cat, None);
    let mut seen = Vec::new();
    loop {
        match w.next_step() {
            Step::Fetch { .. } => unreachable!(),
            Step::Save { id } => {
                w.on_saved();
                seen.push((id, w.checkpoint_value()));
            }
            Step::Done => break,
        }
    }
    assert_eq!(seen, vec![(3, Some(3)), (9, Some(9)), (4, Some(4))]);
}

#[test]
fn harvest_annotates_in_listing_order() {
    let pending = vec![
        PendingEntry { id: 1, title: "First".to_string(), year: 1990, image: String::new() },
        PendingEntry { id: 2, title: "Second".to_string(), year: 1991, image: String::new() },
    ];
    let mut h = Harvester::new(pending);
    let mut urls = Vec::new();
    while let Some(url) = h.next_request() {
        urls.push(url.clone());
        let outcome = if url.contains("/1/1.html") {
            FetchOutcome {
                success: true,
                body: "<div class=\"pager\"><a>1</a><a>2</a><a>4</a><a>next</a></div>"
                    .to_string(),
            }
        } else {
            FetchOutcome { success: false, body: String::new() }
        };
        h.on_first_page(&outcome);
    }
    assert_eq!(
        urls,
        vec![
            "https://www.filmaffinity.com/es/reviews/1/1.html",
            "https://www.filmaffinity.com/es/reviews/1/2.html",
        ]
    );
    let catalog = h.into_catalog();
    assert_eq!(catalog.len(), 2);
    assert_eq!(catalog[0].id, 1);
    assert_eq!(catalog[0].title, "First");
    assert_eq!(catalog[0].pages, 4);
    assert_eq!(catalog[1].id, 2);
    assert_eq!(catalog[1].pages, 1);
}

#[test]
fn review_urls_are_built_as_the_source_expects() {
    assert_eq!(
        make_review_url(903087, 1),
        "https://www.filmaffinity.com/es/reviews/1/903087.html"
    );
    assert_eq!(
        make_review_url(42, 12),
        "https://www.filmaffinity.com/es/reviews/12/42.html"
    );
    assert_eq!(first_page_url(7), "https://www.filmaffinity.com/es/reviews/1/7.html");
    assert_eq!(listing_url(), "https://www.filmaffinity.com/es/topgen.php");
}
