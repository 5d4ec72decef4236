//! Lifecycle and authorization core of a subscription-sharing community.
//!
//! Members pool paid subscriptions. An identity is trusted once its face
//! verification has succeeded; a trusted member may publish slot offers
//! (announcements) for a shared service, and every sensitive action is
//! written to an append-only audit ledger.
//!
//! The components, each in a module of [`domain`]:
//!
//! - `authorization` decides who may do what to whom;
//! - `audit` holds the ledger and numbers its entries per entity;
//! - `verification` takes face verifications from pending to verified or
//!   rejected, one pending record per account at most;
//! - `catalog` keeps one catalog entry per normal form of a service name
//!   and holds prices to its bounds;
//! - `announcement` creates, toggles and expires announcements;
//! - `accounts` registers members and changes their role and status;
//! - `retry` says what follows a failure.
//!
//! Every component keeps its state in memory and changes it only through
//! operations that state, in their contracts, what they return and what
//! they change. Identifiers and instants are handed in by the caller.

pub mod config;
pub mod domain;
pub mod error;
pub mod utils;
