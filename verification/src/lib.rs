//! Outbound mail delivery engine.
//!
//! This library takes an accepted, queued message and drives each recipient
//! to a terminal state: sent over SMTP, deferred for a later retry, or
//! permanently failed.  It covers the pooled SMTP sender keyed on transport
//! parameters, MX-record ordering with the null-MX and empty-result edge
//! cases, per-domain delivery planning and outcome classification, local
//! mailbox delivery bookkeeping, the named persistent queues, and the
//! time-based retry readiness rule for the deferred queue.
//!
//! Network, file system and clock work is driven by the caller: the library
//! plans each step, the caller performs it and hands the observed outcome
//! back as a plain value, and the library classifies it.

pub mod config;
pub mod context;
pub mod deferred;
pub mod deliver;
pub mod delivery;
pub mod maildir;
pub mod queue;
pub mod sender;
pub mod transfer;
