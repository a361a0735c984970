//! Verified core of a notification routing service.
//!
//! Short notification messages travel from many transient senders to the one
//! currently-active notifier endpoint. This crate holds the protocol logic of
//! the three roles and proves it correct:
//!
//! - the router's election of a single active notifier (SEIZE / YIELD), its
//!   bounded drop-oldest queue of undelivered notifications, and its
//!   forwarding and acknowledgment rules;
//! - the notifier's retry state machine, which resends its pending control
//!   request until the router acknowledges it, and its annotation of
//!   notifications that originate on another host;
//! - the sender's fallback decision, which presents a notification locally
//!   rather than drop it when no acknowledgment arrives in time.
//!
//! Sockets, signals, configuration files and process spawning live outside
//! this crate; the surrounding program feeds events in as plain values and
//! carries the returned actions out.

pub mod notif;
pub mod notifier;
pub mod queue;
pub mod router;
pub mod sender;
pub mod tokens;
