//! Proof requests: what the proposer's database holds about each proof.
use vstd::prelude::*;

verus! {

/// A 32-byte hash.
pub type B256 = [u8; 32];

/// A 20-byte account address.
pub type Address = [u8; 20];

/// Where a proof request stands.
#[derive(Debug, Clone, Copy, PartialEq, Eq, Structural)]
pub enum RequestStatus {
    Unrequested,
    WitnessGeneration,
    Execution,
    Prove,
    Complete,
    Relayed,
    Failed,
    Cancelled,
    /// A completed range whose L1 head is no longer on the chain.
    Invalidated,
}

/// What a request proves: a range of blocks, or a chain of range proofs.
#[derive(Debug, Clone, Copy, PartialEq, Eq, Structural)]
pub enum RequestType {
    Range,
    Aggregation,
}

/// Whether a proof is generated, or only mocked.
#[derive(Debug, Clone, Copy, PartialEq, Eq, Structural)]
pub enum RequestMode {
    Real,
    Mock,
}

/// The mode in which a proposer makes its requests.
pub open spec fn spec_request_mode(mock: bool) -> RequestMode {
    if mock {
        RequestMode::Mock
    } else {
        RequestMode::Real
    }
}

/// The mode in which a proposer makes its requests.
pub fn request_mode(mock: bool) -> (mode: RequestMode)
    ensures
        mode == spec_request_mode(mock),
{
    if mock {
        RequestMode::Mock
    } else {
        RequestMode::Real
    }
}

/// What ties a proof to the programs and the rollup that it is about.
#[derive(Debug, Clone, Copy, PartialEq, Eq)]
pub struct CommitmentConfig {
    pub range_vkey_commitment: B256,
    pub agg_vkey_hash: B256,
    pub rollup_config_hash: B256,
}

/// The chains that a request belongs to.
#[derive(Debug, Clone, Copy, PartialEq, Eq, Structural)]
pub struct ChainIds {
    pub l1_chain_id: i64,
    pub l2_chain_id: i64,
}

/// A proof request, as far as the proposer's decisions read it.
#[derive(Debug, Clone, PartialEq, Eq)]
pub struct OPSuccinctRequest {
    pub id: i64,
    pub status: RequestStatus,
    pub req_type: RequestType,
    pub mode: RequestMode,
    pub start_block: i64,
    pub end_block: i64,
    /// The identifier that the prover network gave the request.
    pub proof_request_id: Option<Vec<u8>>,
    /// When the proof was requested, in microseconds since the epoch.
    pub proof_request_time: Option<i64>,
    /// Whether the row holds a cluster proof handle.
    pub has_cluster_proof_handle: bool,
    /// The L1 block that an aggregation was built against.
    pub checkpointed_l1_block_number: Option<i64>,
    /// The proof, once there is one.
    pub proof: Option<Vec<u8>>,
}

/// A new request for the proof of a block range.
#[derive(Debug, Clone, Copy, PartialEq, Eq)]
pub struct NewRangeRequest {
    pub mode: RequestMode,
    pub start_block: i64,
    pub end_block: i64,
    pub range_vkey_commitment: B256,
    pub rollup_config_hash: B256,
    pub chains: ChainIds,
}

/// A new request for an aggregation proof.
#[derive(Debug, Clone, Copy, PartialEq, Eq)]
pub struct NewAggregationRequest {
    pub mode: RequestMode,
    pub start_block: i64,
    pub end_block: i64,
    pub commitments: CommitmentConfig,
    pub chains: ChainIds,
    pub checkpointed_l1_block_number: i64,
    pub checkpointed_l1_block_hash: B256,
    pub prover_address: Address,
}

/// A counter that the proposer keeps for its operators.
#[derive(Debug, Clone, Copy, PartialEq, Eq, Structural)]
pub enum ValidityGauge {
    ProofRequestRetryCount,
    RetryErrorCount,
    ProofRequestTimeoutErrorCount,
    RangeProofRequestErrorCount,
    AggProofRequestErrorCount,
    AggProofValidationErrorCount,
    RelayAggProofErrorCount,
    AggProofRebuiltAfterRejection,
    NetworkCallTimeoutCount,
    TotalErrorCount,
}

/// The gauge that counts the failed requests of a type.
pub open spec fn request_error_gauge(req_type: RequestType) -> ValidityGauge {
    match req_type {
        RequestType::Range => ValidityGauge::RangeProofRequestErrorCount,
        RequestType::Aggregation => ValidityGauge::AggProofRequestErrorCount,
    }
}

/// Requests are mocked exactly if the proposer was told so.
pub proof fn law_requests_are_mocked_exactly_if_told(mock: bool, mode: RequestMode)
    requires
        call_ensures(request_mode, (mock,), mode),
    ensures
        mode == RequestMode::Mock <==> mock,
        mode == RequestMode::Real <==> !mock,
{
}

} // verus!
