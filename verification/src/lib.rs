//! The decisions of a validity proposer for an optimistic rollup, and of the programs around it.
//!
//! The proposer keeps a database of proof requests: it adds requests for the block ranges that
//! nothing proves yet, has them proved by a network or a cluster, aggregates completed ranges, and
//! relays the aggregations to a contract on L1. This crate holds what it decides on the way, as
//! functions over plain values and as chains of steps; talking to chains, databases and provers is
//! left to its callers.
//!
//! - [`proposer`]: the proposer's passes, and the loop around them.
//! - [`relay_rejection`]: why the chain refused an aggregation.
//! - [`client`]: the program that derives, executes and validates blocks.
//! - [`host`], [`server`], [`stuck`]: the inputs of the programs, the proof server's answers, and
//!   the clearing of stuck transactions.
//! - [`outside`]: the calls into other crates.
pub mod block;
pub mod bytes;
pub mod client;
pub mod hex;
pub mod host;
pub mod outside;
pub mod proposer;
pub mod relay_rejection;
pub mod request;
pub mod server;
pub mod stuck;
pub mod text;
pub mod types;
