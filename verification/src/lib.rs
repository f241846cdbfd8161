//! Links of a single web page: validating the request, reading every anchor's
//! `href` out of the page text, and keeping those that a pattern matches.
//!
//! Fetching the page and printing the result are left to the caller; this
//! crate decides what is valid, what is extracted and what is kept.

pub mod args;
pub mod error;
pub mod extract;
pub mod output;
pub mod pattern;
pub mod target;

pub use args::{get_links, matching_links, parse_args, ParsedArgs};
pub use error::ScrapeError;
pub use extract::{collect_hrefs, extract_links};
pub use output::render;
pub use pattern::{filter_links, get_regex, Pattern};
pub use target::{has_recognized_scheme, starts_with, TargetUrl};
