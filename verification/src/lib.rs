//! The calendar pipeline of a timesheet service, with its contracts.
//!
//! A remote calendar feed is parsed into raw event records, each record is
//! expanded into the occurrences that fall into a retention window of 70
//! days, duplicates are removed, and the result is cached for 24 hours and
//! narrowed to what a request asks for. The library decides and computes; it
//! leaves the network and the disk to whoever drives it.

pub mod text;
pub mod datetime;
pub mod entry;
pub mod feed;
pub mod recurrence;
pub mod store;
pub mod dedup;
pub mod expand;
pub mod record;
pub mod convert;
pub mod filter;
pub mod settings;
pub mod pipeline;
pub mod cache;
pub mod timesheet;
pub mod config;
