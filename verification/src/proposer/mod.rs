//! The validity proposer's decisions.
pub mod aggregation;
pub mod cluster_status;
pub mod create;
pub mod cycle;
pub mod failure;
pub mod proof_status;
pub mod ranges;
pub mod relay;
pub mod startup;
pub mod tasks;

use vstd::prelude::*;

use crate::request::{Address, ChainIds, CommitmentConfig};

verus! {

/// What the proposer is told about how to make its requests.
#[derive(Debug, Clone, Copy, PartialEq, Eq)]
pub struct RequesterConfig {
    pub chains: ChainIds,
    pub l2oo_address: Address,
    pub dgf_address: Address,
    /// Whether proofs are only mocked.
    pub mock: bool,
    /// The EVM gas that one range may hold, or 0 to split ranges by blocks.
    pub evm_gas_limit: u64,
    /// The number of blocks that one range may hold.
    pub range_proof_interval: u64,
    /// The least number of blocks that an aggregation covers.
    pub submission_interval: u64,
    pub max_concurrent_proof_requests: u64,
    pub max_concurrent_witness_gen: u64,
    /// How long, in seconds, a request may wait for a prover.
    pub auction_timeout: u64,
    /// How long, in seconds, a proof may take.
    pub proving_timeout: u64,
    /// How long, in seconds, a call to the network may take.
    pub network_calls_timeout: u64,
    /// How long, in seconds, a transaction may take to be confirmed.
    pub tx_confirmation_timeout: u64,
}

/// What the proposer is told about its surroundings.
#[derive(Debug, Clone, Copy, PartialEq, Eq)]
pub struct DriverConfig {
    /// Whether there is a prover network to ask.
    pub has_network_prover: bool,
    /// The account that signs the proposer's transactions.
    pub signer_address: Address,
    /// The pause between two passes, in seconds.
    pub loop_interval: u64,
}

/// The validity proposer, as far as its decisions depend on it.
#[derive(Debug, Clone, Copy, PartialEq, Eq)]
pub struct Proposer {
    pub driver_config: DriverConfig,
    pub commitments: CommitmentConfig,
    pub requester_config: RequesterConfig,
    /// Whether proofs are made by a self-hosted cluster.
    pub cluster: bool,
}

} // verus!
