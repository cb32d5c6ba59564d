//! Core orchestration logic of a Bitcoin inheritance wallet command tool.
//!
//! The tool sits between a command-line surface and a set of pluggable
//! backends: a key-management backend, a chain-observation backend and a
//! heritage/claim backend.  This crate holds the decision logic: which
//! backends an operation needs, how they are brought up lazily, how user
//! flags become one canonical transaction request, and how backend-reported
//! records are reconciled into higher-level views.  Network, hardware and
//! database access stay outside, behind narrow interfaces.

pub mod aggregate;
pub mod amounts;
pub mod bootstrap;
pub mod btc;
pub mod capability;
pub mod config;
pub mod errors;
pub mod fingerprints;
pub mod gapfill;
pub mod interaction;
pub mod operations;
pub mod policies;
pub mod txbuild;
