//! A periodic task scheduling engine with a control-plane protocol.
//!
//! The crate holds the authoritative set of scheduled jobs for a small
//! plant-care system: a cron expression engine, a task registry that owns
//! add/replace/remove semantics, and the per-tick decision logic of the
//! scheduler loop. Commands arrive asynchronously over a bounded channel,
//! and due jobs are dispatched over another bounded channel to an
//! execution component that performs the physical side effect.

pub mod config;
pub mod cron;
pub mod definitions;
pub mod registry;
pub mod scheduler;
pub mod reply_text;
pub mod worker;
