//! Instrumented reader-writer locking: a wrapper around a shared
//! reader-writer lock that records, for every acquisition, the call site and
//! worker that requested it and the duration the lock was held, without
//! changing the lock's own behaviour.
//!
//! - [`record`] defines the access records and the exact text of the two
//!   trace line formats.
//! - [`text`] renders the numbers that appear in those lines.
//! - [`duration`] computes the held duration from two clock readings.
//! - [`protocol`] states the instrumentation protocol as a state machine and
//!   proves its laws: releases pair exactly with grants on every exit path,
//!   cancelled attempts pair with nothing, and reader-writer exclusion holds
//!   in every reachable state.
//! - [`lock`] is the lock itself, over tokio's reader-writer lock.

pub mod duration;
pub mod lock;
pub mod protocol;
pub mod record;
pub mod text;
