//! Harvests structured review records (a numeric rating and a free-text
//! comment) for a catalog of films from a paginated, HTML-rendered source,
//! and checkpoints progress so a second run resumes where the first left off.
//!
//! The crawl orchestration lives in [`walker`]: a step machine that visits
//! the catalog in its persisted order and advances the checkpoint only after
//! a whole item's pages were attempted. [`extract`] maps fetched markup into
//! typed records, [`paginate`] reads an item's page count from its first
//! review page, and [`rows`] gives every record its durable tabular form.
//! The caller performs the fetches and the file writes and hands the results
//! back as plain values.

pub mod extract;
pub mod harvest;
pub mod markup;
pub mod numbers;
pub mod paginate;
pub mod records;
pub mod rows;
pub mod urls;
pub mod walker;
