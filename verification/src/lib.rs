//! A client library for a hosted, asynchronous SQL query service.
//!
//! The library covers the query execution and result materialization engine:
//! submission with a cache-reuse policy, the completion-polling state machine,
//! stitching of paginated result pages into a columnar table, and the
//! object-store URL resolver for retrieving persisted result artifacts.

pub mod cli;
pub mod common;
pub mod config;
pub mod context;
pub mod engine;
pub mod errors;
pub mod fetcher;
pub mod filter;
pub mod history_fields;
pub mod inspect_fields;
pub mod locator;
pub mod pager;
pub mod poller;
pub mod text;
pub mod validation;

