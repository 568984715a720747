//! A deferred-action scheduler coupled to a threshold-triggered
//! resource-cleanup policy.
//!
//! The crate models a periodically ticked, privilege-gated state machine:
//! a single-slot pending-action registry whose scheduling is idempotent per
//! slot index, a saturating resource ledger that decays once a configured
//! inactivity threshold elapses, and a best-effort external notifier driven
//! by a durable marker.

pub mod codec;
pub mod dispatch;
pub mod garbage_collector;
pub mod notifier;
pub mod scheduler;
pub mod tree;
