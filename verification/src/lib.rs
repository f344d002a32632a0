//! A relay-chain-driven collation loop.
//!
//! The library turns a stream of collation requests — "block space is
//! available at this relay parent" — into block proposals, or into clean
//! no-ops, with exactly-once-or-never completion semantics toward the
//! requester. Each request runs through a fixed pipeline of stages; every
//! stage ends in one of three ways: continue, skip (a benign race, no
//! completion), or reject (a dependency failed; the request completes
//! with nothing and the error is logged).
//!
//! The asynchronous collaborators — the relay-chain client, the authority
//! oracle, the inherent-data factory, the block builder, the announcer —
//! live outside this crate. Here, their answers arrive as plain values:
//! the [`pipeline`] state machine serves a host that performs one call at
//! a time, and [`dispatcher::run`] folds a batch of answered requests,
//! strictly in order.

pub mod keys;
pub mod scale;
pub mod header;
pub mod request;
pub mod claim;
pub mod pipeline;
pub mod dispatcher;
