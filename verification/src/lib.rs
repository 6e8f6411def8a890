//! A background data-synchronization core.
//!
//! Pollers repeatedly pull collections of records from a remote service on
//! fixed schedules; the freshest snapshot of one resource is kept in a shared
//! cache, batches of a second resource are handed to a single consumer over a
//! bounded FIFO channel, and a coordinating loop drains the channel and
//! periodically inspects the cache.  This crate holds the decision and data
//! logic of that core, verified; the threads, timers and HTTP calls that
//! drive it live outside.

pub mod records;
pub mod errors;
pub mod cache;
pub mod channel;
pub mod poller;
pub mod main_loop;
pub mod store;
