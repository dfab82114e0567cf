//! Ingestion pipeline for a watched inbox folder.
//!
//! Files dropped into the inbox are filtered, checked for write completion,
//! queued without duplicates and handed one at a time to an upload worker that
//! retries with exponential backoff. Everything in this crate is the decision
//! logic of that pipeline; filesystem access, the network and timers live with
//! the caller, which feeds observations in and carries actions out.

pub mod text;

pub mod paths;
pub mod clock;
pub mod uploader;
pub mod errors;
pub mod endpoints;
pub mod validation;
pub mod backoff;
pub mod config;
pub mod worker;
pub mod filter;
pub mod watcher;
pub mod lifecycle;
pub mod media;
pub mod transfer;
pub mod tray;
pub mod auth;
pub mod commands;
