//! Tailing logs from a hosted log-search service.
//!
//! The service only answers "list the logs in this time range". This crate
//! holds the rules that turn that into a tail: how filters become a query,
//! which time range each search covers, how a moving watermark advances over
//! the batches that come back, and which lines are written out. Network
//! calls, reading the clock, sleeping and printing are left to the caller,
//! which drives a [`tail::Tailer`] by performing the action it asks for and
//! handing back what happened and when.

pub mod config;
pub mod error;
pub mod query;
pub mod record;
pub mod search;
pub mod tail;
pub mod text;
pub mod time;
