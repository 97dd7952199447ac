//! Classification of file-distribution servers: which backend a server uses,
//! which repositories it hosts, and what state each repository is in.
//!
//! The library decides; the caller fetches. A scrape is a small state machine
//! ([`scrape::ScrapeState`]) that names the next document to fetch and takes
//! the outcome of each fetch as an event. [`servers::Server::scrape`] runs
//! the machine to its end for a caller whose fetches are plain functions.

pub mod text;
pub mod errors;
pub mod generic;
pub mod documents;
pub mod names;
pub mod servers;
pub mod scrape;
pub mod run;
pub mod report;
