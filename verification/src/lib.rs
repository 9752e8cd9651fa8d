//! A verified core for a sequential gallery scraper.
//!
//! The library covers the logic of the pipeline: building paginated listing
//! URLs, extracting post links and media sources from fetched HTML, resolving
//! file extensions, sanitizing titles into file names, and deciding whether a
//! download must run. Network fetches and the external download process live
//! outside the library and hand it plain strings.

pub mod download;
pub mod extract;
pub mod format;
pub mod media;
pub mod pager;
pub mod text;
