//! Reconciles the follower and following sets of one account on a remote
//! social platform: usernames are collected page by page from the listing
//! endpoints, the two sets are compared, and the missing follow or surplus
//! unfollow relations are corrected through retried, rate-limit-aware
//! mutation calls.
//!
//! The crate holds the verified core: the deduplicated username set, the
//! set reconciliation, the pagination state machine and the bounded retry
//! logic. Network transport and the sleeps between attempts belong to the
//! surrounding program, which drives the state machines here with the plain
//! values it read off the wire.

pub mod fetch;
pub mod plan;
pub mod reconcile;
pub mod retry;
pub mod userset;
