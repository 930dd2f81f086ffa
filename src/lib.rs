//! Feed ingestion: lenient RSS parsing, redirect-aware fetching decisions and
//! diff-based reconciliation of parsed feeds against stored rows.
//!
//! - [`xml`], [`text`], [`date`]: plain values read from XML text, strings and dates.
//! - [`rss_feed`]: channels, items and enclosures read from a document.
//! - [`fetcher`]: transport selection and redirect following for one fetch.
//! - [`worklist`]: which of a feed's URLs to fetch, and how visited URLs are stored.
//! - [`reconcile`]: the merge of a parsed feed into storage, one request at a time.
//! - [`store_model`]: the laws of that merge over a model of storage.
//! - [`model`], [`updater`], [`error`], [`config`]: rows, schedule, errors, settings.

pub mod config;
pub mod date;
pub mod error;
pub mod fetcher;
pub mod model;
pub mod reconcile;
pub mod rss_feed;
pub mod store_model;
pub mod text;
pub mod updater;
pub mod worklist;
pub mod xml;
