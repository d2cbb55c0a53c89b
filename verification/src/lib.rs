//! A deterministic, node-local validation engine for mutations of a shared,
//! append-only, replicated data store.
//!
//! Given a proposed mutation (an operation: a new entry, an update, a delete,
//! a link creation or removal, or an agent-chain extension), the engine
//! decides — with no coordinator and no global view — whether the mutation is
//! acceptable, and if not, why. Every replica that holds the same causal
//! history must reach the identical verdict.
//!
//! The engine is split into:
//! - a data model of entries, actions, records and operations
//!   ([`model`]), over plain values so that every decision is checkable;
//! - the type registry ([`registry`]): the closed set of declared entry and
//!   link types for this application;
//! - the per-type validators for the one declared entry type ([`profile`]);
//! - the operation classifier ([`classify`]), which normalizes a raw
//!   operation into its lifecycle-phase variant;
//! - the rule dispatcher and validation entry point ([`engine`]);
//! - the causal-lookup source ([`store`]), the engine's read-only view of
//!   previously stored records;
//! - proved laws about the engine's behaviour ([`laws`]).
//!
//! The surrounding runtime performs transport, storage and chain-integrity
//! checks before the engine is invoked; the engine assumes those hold and
//! treats everything else as untrusted.

pub mod classify;
pub mod engine;
pub mod laws;
pub mod model;
pub mod registry;
pub mod store;
pub mod profile;
pub mod verdict;
