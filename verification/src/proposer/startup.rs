//! Setting a proposer up.
//!
//! Setting up is a chain of steps, as in [`crate::proposer::proof_status`]: each [`StartupStep`]
//! names the one thing to do next, and [`StartupStep::next`] goes on from what came of it.
use vstd::prelude::*;

use crate::bytes::be_nat;
use crate::hex::{hex_text, law_hex_is_read_back, spec_decode_hex, spec_parse_b256};
use crate::outside::parse_b256;
use crate::proposer::{DriverConfig, Proposer, RequesterConfig};
use crate::request::{CommitmentConfig, B256};
use crate::types::{lemma_word_in_bytes, u32_to_u8, words_to_bytes};

verus! {

/// Why a proposer could not be set up.
#[derive(Debug, Clone, Copy, PartialEq, Eq, Structural)]
pub enum StartupError {
    /// Another proposer for the same chain is connected to the database.
    ChainLocked,
    /// The aggregation vkey is not written as 32 bytes.
    BadAggregationVkey,
    /// There is no rollup config.
    MissingRollupConfig,
    /// A call to the database, the cluster or the network failed.
    CallFailed,
}

/// What to do next.
#[derive(Debug, Clone, Copy, PartialEq, Eq, Structural)]
pub enum StartupStep {
    /// Ask the database whether another proposer holds the chain.
    CheckChainLock,
    /// Take the chain.
    AddChainLock,
    /// Read the cluster's configuration.
    ReadClusterConfig,
    /// Set the proving and verifying keys up on the cluster.
    SetUpClusterKeys,
    /// Get the signer of the requests to the network.
    GetNetworkSigner,
    /// Determine the network from the proof strategies.
    DetermineNetworkMode,
    /// Build the network prover.
    BuildNetworkProver,
    /// Set the keys of the range program up on the network.
    SetUpRangeKeys,
    /// Set the keys of the aggregation program up on the network.
    SetUpAggregationKeys,
    /// The keys are there.
    Ready,
    Failed { error: StartupError },
}

/// What came of a step.
#[derive(Debug, Clone, Copy, PartialEq, Eq, Structural)]
pub enum StartupEvent {
    ChainLock { locked: bool },
    Succeeded,
    Failed,
}

impl StartupStep {
    /// The events that can come of a step.
    pub open spec fn admits(self, event: StartupEvent) -> bool {
        match event {
            StartupEvent::ChainLock { .. } => self is CheckChainLock,
            StartupEvent::Succeeded => !(self is CheckChainLock || self is Ready || self is Failed),
            StartupEvent::Failed => !(self is Ready || self is Failed),
        }
    }

    /// What follows a step that succeeded.
    pub open spec fn successor(self, cluster: bool) -> StartupStep {
        match self {
            StartupStep::AddChainLock => if cluster {
                StartupStep::ReadClusterConfig
            } else {
                StartupStep::GetNetworkSigner
            },
            StartupStep::ReadClusterConfig => StartupStep::SetUpClusterKeys,
            StartupStep::SetUpClusterKeys => StartupStep::Ready,
            StartupStep::GetNetworkSigner => StartupStep::DetermineNetworkMode,
            StartupStep::DetermineNetworkMode => StartupStep::BuildNetworkProver,
            StartupStep::BuildNetworkProver => StartupStep::SetUpRangeKeys,
            StartupStep::SetUpRangeKeys => StartupStep::SetUpAggregationKeys,
            StartupStep::SetUpAggregationKeys => StartupStep::Ready,
            _ => self,
        }
    }

    /// What follows a step, by what came of it.
    pub open spec fn spec_next(self, event: StartupEvent, cluster: bool) -> StartupStep {
        match event {
            StartupEvent::Failed => StartupStep::Failed { error: StartupError::CallFailed },
            StartupEvent::ChainLock { locked } => if locked {
                StartupStep::Failed { error: StartupError::ChainLocked }
            } else {
                StartupStep::AddChainLock
            },
            StartupEvent::Succeeded => self.successor(cluster),
        }
    }

    /// Goes on from a step, by what came of it.
    pub fn next(self, event: StartupEvent, cluster: bool) -> (next: StartupStep)
        requires
            self.admits(event),
        ensures
            next == self.spec_next(event, cluster),
    {
        match event {
            StartupEvent::Failed => StartupStep::Failed { error: StartupError::CallFailed },
            StartupEvent::ChainLock { locked } => {
                if locked {
                    StartupStep::Failed { error: StartupError::ChainLocked }
                } else {
                    StartupStep::AddChainLock
                }
            },
            StartupEvent::Succeeded => match self {
                StartupStep::AddChainLock => {
                    if cluster {
                        StartupStep::ReadClusterConfig
                    } else {
                        StartupStep::GetNetworkSigner
                    }
                },
                StartupStep::ReadClusterConfig => StartupStep::SetUpClusterKeys,
                StartupStep::SetUpClusterKeys => StartupStep::Ready,
                StartupStep::GetNetworkSigner => StartupStep::DetermineNetworkMode,
                StartupStep::DetermineNetworkMode => StartupStep::BuildNetworkProver,
                StartupStep::BuildNetworkProver => StartupStep::SetUpRangeKeys,
                StartupStep::SetUpRangeKeys => StartupStep::SetUpAggregationKeys,
                StartupStep::SetUpAggregationKeys => StartupStep::Ready,
                _ => self,
            },
        }
    }
}

impl Proposer {
    /// The proposer for a configuration, once the keys are there: `range_vkey` is the hash of the
    /// range program's verifying key, `agg_vkey` that of the aggregation program as text.
    ///
    /// A proposer whose proofs are made by a cluster has no network prover.
    pub fn new(
        requester_config: RequesterConfig,
        signer_address: [u8; 20],
        loop_interval: u64,
        cluster: bool,
        range_vkey: [u32; 8],
        agg_vkey: &str,
        rollup_config_hash: Option<B256>,
    ) -> (proposer: Result<Proposer, StartupError>)
        ensures
            spec_parse_b256(agg_vkey@) is None ==> proposer == Err::<Proposer, _>(
                StartupError::BadAggregationVkey,
            ),
            spec_parse_b256(agg_vkey@) is Some && rollup_config_hash is None ==> proposer == Err::<
                Proposer,
                _,
            >(StartupError::MissingRollupConfig),
            spec_parse_b256(agg_vkey@) is Some && rollup_config_hash is Some ==> {
                &&& proposer matches Ok(p)
                &&& p.commitments.range_vkey_commitment@ == words_to_bytes(range_vkey@)
                &&& p.commitments.agg_vkey_hash@ == spec_parse_b256(agg_vkey@)->0
                &&& p.commitments.rollup_config_hash == rollup_config_hash->0
                &&& p.requester_config == requester_config
                &&& p.cluster == cluster
                &&& p.driver_config == (DriverConfig {
                    has_network_prover: !cluster,
                    signer_address,
                    loop_interval,
                })
            },
    {
        let range_vkey_commitment: B256 = u32_to_u8(range_vkey);
        let agg_vkey_hash: B256 = match parse_b256(agg_vkey) {
            Some(hash) => hash,
            None => {
                return Err(StartupError::BadAggregationVkey);
            },
        };
        match rollup_config_hash {
            Some(rollup_config_hash) => Ok(
                Proposer {
                    driver_config: DriverConfig {
                        has_network_prover: !cluster,
                        signer_address,
                        loop_interval,
                    },
                    commitments: CommitmentConfig {
                        range_vkey_commitment,
                        agg_vkey_hash,
                        rollup_config_hash,
                    },
                    requester_config,
                    cluster,
                },
            ),
            None => Err(StartupError::MissingRollupConfig),
        }
    }

    /// Starts to set a proposer up.
    pub fn start_up() -> (step: StartupStep)
        ensures
            step == StartupStep::CheckChainLock,
    {
        StartupStep::CheckChainLock
    }
}

/// A step that is taken only once the chain is known to be free.
pub open spec fn holds_the_chain(step: StartupStep) -> bool {
    !(step is CheckChainLock || step is Failed)
}

/// A proposer never starts beside another one for the same chain: every step behind the check comes
/// after an answer that the chain is free.
pub proof fn law_a_locked_chain_is_left_alone(step: StartupStep, event: StartupEvent, cluster: bool)
    requires
        step.admits(event),
        holds_the_chain(step.spec_next(event, cluster)),
    ensures
        holds_the_chain(step) || event == (StartupEvent::ChainLock { locked: false }),
{
}

/// An upper bound on the number of steps that are left.
pub open spec fn steps_left(step: StartupStep) -> nat {
    match step {
        StartupStep::CheckChainLock => 7,
        StartupStep::AddChainLock => 6,
        StartupStep::ReadClusterConfig => 2,
        StartupStep::SetUpClusterKeys => 1,
        StartupStep::GetNetworkSigner => 5,
        StartupStep::DetermineNetworkMode => 4,
        StartupStep::BuildNetworkProver => 3,
        StartupStep::SetUpRangeKeys => 2,
        StartupStep::SetUpAggregationKeys => 1,
        StartupStep::Ready => 0,
        StartupStep::Failed { .. } => 0,
    }
}

/// Setting up comes to an end, whatever the database and the network answer.
pub proof fn law_start_up_comes_to_an_end(step: StartupStep, event: StartupEvent, cluster: bool)
    requires
        step.admits(event),
    ensures
        steps_left(step.spec_next(event, cluster)) < steps_left(step),
{
}

/// A proposer that was set up has what it was given, field by field: the configuration, the signer,
/// the pause, the rollup config's hash, the aggregation key that the text writes, and the range
/// key, four big-endian bytes for each of its words. It asks the network exactly if it does not use
/// a cluster.
pub proof fn law_a_proposer_has_what_it_was_given(
    requester_config: RequesterConfig,
    signer_address: [u8; 20],
    loop_interval: u64,
    cluster: bool,
    range_vkey: [u32; 8],
    agg_vkey: &str,
    rollup_config_hash: Option<B256>,
    proposer: Result<Proposer, StartupError>,
    key: Seq<u8>,
    i: int,
)
    requires
        key.len() == 32,
        agg_vkey@ == seq!['0', 'x'] + hex_text(key),
        rollup_config_hash is Some,
        0 <= i < 8,
        call_ensures(
            Proposer::new,
            (
                requester_config,
                signer_address,
                loop_interval,
                cluster,
                range_vkey,
                agg_vkey,
                rollup_config_hash,
            ),
            proposer,
        ),
    ensures
        proposer is Ok,
        proposer matches Ok(p) ==> {
            &&& p.requester_config == requester_config
            &&& p.driver_config.signer_address@ == signer_address@
            &&& p.driver_config.loop_interval == loop_interval
            &&& p.driver_config.has_network_prover <==> !cluster
            &&& p.cluster == cluster
            &&& p.commitments.rollup_config_hash@ == rollup_config_hash->0@
            &&& p.commitments.agg_vkey_hash@ == key
            &&& be_nat(p.commitments.range_vkey_commitment@.subrange(4 * i, 4 * i + 4))
                == range_vkey@[i]
        },
{
    law_hex_is_read_back(key);
    lemma_word_in_bytes(range_vkey@, i);
}

/// A proposer is refused for its aggregation key exactly if that is not written as 32 bytes, and
/// else exactly if there is no rollup config.
pub proof fn law_a_proposer_is_refused_without_its_key_or_config(
    requester_config: RequesterConfig,
    signer_address: [u8; 20],
    loop_interval: u64,
    cluster: bool,
    range_vkey: [u32; 8],
    agg_vkey: &str,
    rollup_config_hash: Option<B256>,
    proposer: Result<Proposer, StartupError>,
)
    requires
        call_ensures(
            Proposer::new,
            (
                requester_config,
                signer_address,
                loop_interval,
                cluster,
                range_vkey,
                agg_vkey,
                rollup_config_hash,
            ),
            proposer,
        ),
    ensures
        ({
            let written = spec_decode_hex(agg_vkey@) is Some && spec_decode_hex(agg_vkey@)->0.len()
                == 32;
            &&& proposer == Err::<Proposer, _>(StartupError::BadAggregationVkey) <==> !written
            &&& proposer == Err::<Proposer, _>(StartupError::MissingRollupConfig) <==> written
                && rollup_config_hash is None
            &&& proposer is Ok <==> written && rollup_config_hash is Some
        }),
{
}

/// Setting up takes its steps in one order: the chain is checked and taken, and then either the
/// cluster's configuration is read and its keys are set up, or the network's signer, mode, prover
/// and the keys of both programs are.
pub proof fn law_start_up_takes_its_steps_in_order(
    step: StartupStep,
    event: StartupEvent,
    cluster: bool,
    next: StartupStep,
)
    requires
        step.admits(event),
        call_ensures(StartupStep::next, (step, event, cluster), next),
    ensures
        !(next is CheckChainLock),
        next is AddChainLock <==> event == (StartupEvent::ChainLock { locked: false }),
        next is ReadClusterConfig <==> step is AddChainLock && event is Succeeded && cluster,
        next is SetUpClusterKeys <==> step is ReadClusterConfig && event is Succeeded,
        next is GetNetworkSigner <==> step is AddChainLock && event is Succeeded && !cluster,
        next is DetermineNetworkMode <==> step is GetNetworkSigner && event is Succeeded,
        next is BuildNetworkProver <==> step is DetermineNetworkMode && event is Succeeded,
        next is SetUpRangeKeys <==> step is BuildNetworkProver && event is Succeeded,
        next is SetUpAggregationKeys <==> step is SetUpRangeKeys && event is Succeeded,
        next is Ready <==> (step is SetUpClusterKeys || step is SetUpAggregationKeys) && event
            is Succeeded,
        next == (StartupStep::Failed { error: StartupError::ChainLocked }) <==> event
            == (StartupEvent::ChainLock { locked: true }),
        next == (StartupStep::Failed { error: StartupError::CallFailed }) <==> event is Failed,
{
}

/// Setting up starts with the check of the chain.
pub proof fn law_start_up_checks_the_chain_first(step: StartupStep)
    requires
        call_ensures(Proposer::start_up, (), step),
    ensures
        step is CheckChainLock,
{
}

} // verus!
