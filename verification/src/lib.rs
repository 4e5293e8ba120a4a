//! A verified custody/accounting core: a single-owner vault ledger and a
//! crowdfunding ledger, both built on overflow-checked balance arithmetic,
//! plus a small calculator with an operation history.
//!
//! The core assumes a host that authenticates callers, persists records and
//! moves external funds; it only decides whether a requested transition is
//! legal and computes the new state.

pub mod arith;
pub mod calculator;
pub mod project;
pub mod vault;
