//! Crawls the NHK News Web Easy listing, follows each listed article, and
//! republishes the result as a feed snapshot.
//!
//! The library holds the crawl logic: the two-level crawl state machine, the
//! frontier of pending requests, the per-pass collection of posts, and the
//! feed cache that readers consult while the next pass runs.

pub mod post;
pub mod post_crawler;
pub mod timestamp;
pub mod driver;
pub mod feed;
