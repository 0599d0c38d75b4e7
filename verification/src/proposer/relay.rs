//! Relaying completed aggregations to the contract, and what becomes of refused ones.
//!
//! A pass is a chain of steps, as in [`crate::proposer::proof_status`]: each [`SubmitStep`] names
//! the one thing to do next, and [`SubmitStep::next`] goes on from what came of it.
use alloy_json_rpc::RpcError;
use alloy_transport::TransportErrorKind;
use vstd::prelude::*;

use crate::block::{BlockId, BlockNumberOrTag};
use crate::outside::{error_response_in, option_view};
use crate::proposer::Proposer;
use crate::relay_rejection::{
    anyhow_revert_data, classification, classify_revert_data, rebuilds, revert_data_of_anyhow,
    revert_data_of_rpc_error, rpc_revert_data, NoVerdictReason, RejectionView, RelayRejection,
};
use crate::request::{Address, OPSuccinctRequest, RequestStatus, ValidityGauge, B256};

verus! {

/// The status that a classified rejection moves the request to, or `None` to leave it where it is.
pub open spec fn spec_rejection_action(rejection: RejectionView) -> Option<RequestStatus> {
    if rebuilds(rejection) {
        Some(RequestStatus::Failed)
    } else {
        None
    }
}

/// The status that a classified rejection moves the request to, or `None` to leave it where it is.
///
/// A rejected aggregation that stays `Complete` keeps counting as active, so that no replacement is
/// ever built and the contract head freezes.
pub fn rejection_action(rejection: &RelayRejection) -> (action: Option<RequestStatus>)
    ensures
        action == spec_rejection_action(rejection@),
{
    if rejection.should_rebuild() {
        Some(RequestStatus::Failed)
    } else {
        None
    }
}

/// The value of the gauge that tells an operator that a contract guard blocks the proposer: 1 where
/// the request is left alone, 0 where it is built again.
pub fn guard_gauge_value(action: Option<RequestStatus>) -> (value: u32)
    ensures
        value == if action is None {
            1u32
        } else {
            0u32
        },
{
    match action {
        None => 1,
        Some(_) => 0,
    }
}

/// What the chain recorded about a mined transaction.
#[derive(Debug, Clone, Copy, PartialEq, Eq)]
pub struct TransactionReceipt {
    /// Whether the transaction succeeded.
    pub status: bool,
    pub transaction_hash: B256,
    pub block_number: Option<u64>,
    pub gas_used: u64,
    pub effective_gas_price: u128,
    pub from: Address,
}

/// What the L1 node did with a `proposeL2Output` transaction, decided from the send result alone.
#[derive(Debug)]
pub enum SendOutcome {
    /// Mined and succeeded.
    Landed(B256),
    /// Mined and reverted. A receipt carries no revert data, so the reason needs a replay.
    MinedReverted(Box<TransactionReceipt>),
    /// Rejected before broadcast, carrying the revert data the node returned. This is the common
    /// case: gas estimation catches a deterministic revert, and the transaction never reaches a
    /// block.
    RejectedBeforeBroadcast(Vec<u8>),
    /// Never delivered. Nothing to classify; retry unchanged.
    Undelivered(anyhow::Error),
}

/// An outcome is what a send result says.
pub open spec fn is_outcome_of(
    outcome: SendOutcome,
    result: Result<TransactionReceipt, anyhow::Error>,
) -> bool {
    match result {
        Ok(receipt) => outcome == if receipt.status {
            SendOutcome::Landed(receipt.transaction_hash)
        } else {
            SendOutcome::MinedReverted(Box::new(receipt))
        },
        Err(e) => match anyhow_revert_data(e) {
            Some(data) => outcome matches SendOutcome::RejectedBeforeBroadcast(d) && d@ == data,
            None => outcome == SendOutcome::Undelivered(e),
        },
    }
}

/// See [`SendOutcome`].
pub fn send_outcome(result: Result<TransactionReceipt, anyhow::Error>) -> (outcome: SendOutcome)
    ensures
        is_outcome_of(outcome, result),
{
    match result {
        Ok(receipt) => {
            if receipt.status {
                SendOutcome::Landed(receipt.transaction_hash)
            } else {
                SendOutcome::MinedReverted(Box::new(receipt))
            }
        },
        Err(e) => match revert_data_of_anyhow(&e) {
            Some(data) => SendOutcome::RejectedBeforeBroadcast(data),
            None => SendOutcome::Undelivered(e),
        },
    }
}

/// The outcome of a bounded `eth_call` replay: the inner `Result` is the call, the outer is the
/// timeout around it.
pub type ReplayResult = Result<
    Result<Vec<u8>, RpcError<TransportErrorKind>>,
    tokio::time::error::Elapsed,
>;

/// What the revert data of a replay says, if it came with any.
pub open spec fn replayed_classification(data: Option<Seq<u8>>) -> RejectionView {
    match data {
        Some(d) => classification(d),
        None => RejectionView::NoVerdict { reason: NoVerdictReason::ReplayUnreachable },
    }
}

/// What a replay says.
pub open spec fn spec_replay_verdict(replay: ReplayResult) -> RejectionView {
    match replay {
        Ok(Err(e)) => replayed_classification(rpc_revert_data(error_response_in(e))),
        Ok(Ok(_)) => RejectionView::NoVerdict { reason: NoVerdictReason::ReplayDidNotRevert },
        Err(_) => RejectionView::NoVerdict { reason: NoVerdictReason::ReplayTimedOut },
    }
}

/// Reads a rejection out of the revert data of a replay that failed.
pub fn verdict_of_revert_data(data: Option<Vec<u8>>) -> (rejection: RelayRejection)
    ensures
        rejection@ == replayed_classification(option_view(data)),
{
    match data {
        Some(data) => classify_revert_data(data.as_slice()),
        None => RelayRejection::NoVerdict { reason: NoVerdictReason::ReplayUnreachable },
    }
}

/// Reads a rejection out of a replayed `eth_call`.
pub fn replay_verdict(replay: ReplayResult) -> (rejection: RelayRejection)
    ensures
        rejection@ == spec_replay_verdict(replay),
{
    match replay {
        Ok(Err(e)) => verdict_of_revert_data(revert_data_of_rpc_error(&e)),
        Ok(Ok(_)) => RelayRejection::NoVerdict { reason: NoVerdictReason::ReplayDidNotRevert },
        Err(_) => RelayRejection::NoVerdict { reason: NoVerdictReason::ReplayTimedOut },
    }
}

/// The block at which a mined transaction is replayed: its own, where that is known.
pub fn replay_block(receipt: &TransactionReceipt) -> (block: BlockId)
    ensures
        block == BlockId::Number(
            match receipt.block_number {
                Some(number) => BlockNumberOrTag::Number(number),
                None => BlockNumberOrTag::Latest,
            },
        ),
{
    match receipt.block_number {
        Some(number) => BlockId::Number(BlockNumberOrTag::Number(number)),
        None => BlockId::Number(BlockNumberOrTag::Latest),
    }
}

/// The arguments of `proposeL2Output`.
#[derive(Debug, Clone, PartialEq, Eq)]
pub struct Proposal {
    pub output_root: B256,
    pub l2_block_number: u64,
    pub l1_block_number: u64,
    pub proof: Vec<u8>,
}

/// The aggregation that is being relayed.
#[derive(Debug, Clone, Copy, PartialEq, Eq, Structural)]
pub struct Relayed {
    pub id: i64,
    pub end_block: i64,
}

/// How a pass ended.
#[derive(Debug, Clone, PartialEq, Eq)]
pub enum SubmitEnd {
    /// There is no completed aggregation.
    NothingToRelay,
    /// The aggregation landed; the contract's head is now at its end block.
    Relayed { end_block: i64 },
    /// The chain refused the aggregation. That is an outcome, not an error: the pass goes on, and
    /// builds the replacement.
    Rejected { rejection: RelayRejection },
    /// A dispute game factory is configured, which the contracts do not support.
    DisputeGameConfigured,
    /// The transaction was never delivered, or a call to the chain or the database failed.
    Failed,
}

/// What to do next.
#[derive(Debug, Clone, PartialEq, Eq)]
pub enum SubmitStep {
    /// Read the latest block number that the contract holds.
    ReadHead,
    /// Fetch the completed aggregation that starts at a block.
    FetchCompleted { latest_proposed: i64 },
    /// Read the L2 output at a block.
    ReadOutput { block_number: u64, request: OPSuccinctRequest },
    /// Send the transaction.
    Send { proposal: Proposal, relayed: Relayed },
    /// Replay the transaction, as its sender and at its block, for at most so many seconds.
    Replay { from: Address, block: BlockId, timeout: u64, relayed: Relayed },
    /// Mark the request as failed, so that a new one is built.
    MarkFailed { id: i64, rejection: RelayRejection },
    /// Mark the request as relayed.
    MarkRelayed { relayed: Relayed, transaction_hash: B256 },
    Done { end: SubmitEnd },
}

/// What came of a step.
#[derive(Debug)]
pub enum SubmitEvent {
    Head { number: u64 },
    Completed { request: Option<OPSuccinctRequest> },
    Output { output_root: B256 },
    Sent { result: Result<TransactionReceipt, anyhow::Error> },
    Replayed { replay: ReplayResult },
    Succeeded,
    Failed,
}

/// What a pass counts: gauges that go up, and the gauge of the contract guard where it is set.
#[derive(Debug, Clone, PartialEq, Eq)]
pub struct SubmitGauges {
    pub counted: Vec<ValidityGauge>,
    pub blocked_by_guard: Option<u32>,
}

/// The mathematical content of [`SubmitGauges`].
pub struct SubmitGaugesView {
    pub counted: Seq<ValidityGauge>,
    pub blocked_by_guard: Option<u32>,
}

impl View for SubmitGauges {
    type V = SubmitGaugesView;

    open spec fn view(&self) -> SubmitGaugesView {
        SubmitGaugesView { counted: self.counted@, blocked_by_guard: self.blocked_by_guard }
    }
}

/// The gauges that a pass counts up or sets.
pub open spec fn gauges(counted: Seq<ValidityGauge>, blocked_by_guard: Option<u32>) -> SubmitGaugesView {
    SubmitGaugesView { counted, blocked_by_guard }
}

/// An aggregation can be relayed: it has a proof and a checkpoint, and its numbers are those of
/// blocks.
pub open spec fn is_relayable(request: OPSuccinctRequest) -> bool {
    &&& request.end_block >= 0
    &&& request.checkpointed_l1_block_number is Some
    &&& request.checkpointed_l1_block_number->0 >= 0
    &&& request.proof is Some
}

/// What follows a rejection: the request is failed so that a new one is built, unless no proof
/// could satisfy the guard that refused it.
pub open spec fn rejected_with(
    next: SubmitStep,
    gauged: SubmitGaugesView,
    id: i64,
    rejection: RejectionView,
) -> bool {
    &&& gauged.counted == seq![ValidityGauge::RelayAggProofErrorCount]
    &&& if rebuilds(rejection) {
        &&& gauged.blocked_by_guard == Some(0u32)
        &&& next matches SubmitStep::MarkFailed { id: failed, rejection: kept }
        &&& failed == id
        &&& kept@ == rejection
    } else {
        &&& gauged.blocked_by_guard == Some(1u32)
        &&& next matches SubmitStep::Done { end: SubmitEnd::Rejected { rejection: kept } }
        &&& kept@ == rejection
    }
}

/// Every byte of an address is zero.
pub open spec fn is_zero_address(address: Seq<u8>) -> bool {
    forall|i: int| 0 <= i < address.len() ==> address[i] == 0
}

impl SubmitStep {
    /// The events that can come of a step. An aggregation that is sent has all that sending it
    /// takes.
    pub open spec fn admits(self, event: SubmitEvent, proposer: Proposer) -> bool {
        match event {
            SubmitEvent::Failed => self is ReadHead || self is FetchCompleted || self is ReadOutput
                || self is MarkFailed || self is MarkRelayed,
            SubmitEvent::Head { .. } => self is ReadHead,
            SubmitEvent::Completed { .. } => self is FetchCompleted,
            SubmitEvent::Output { .. } => {
                &&& self matches SubmitStep::ReadOutput { request, .. }
                &&& is_zero_address(proposer.requester_config.dgf_address@) ==> is_relayable(request)
            },
            SubmitEvent::Sent { .. } => self is Send,
            SubmitEvent::Replayed { .. } => self is Replay,
            SubmitEvent::Succeeded => self is MarkFailed || self is MarkRelayed,
        }
    }

    /// `next` and the gauges are what follows a step, by what came of it.
    pub open spec fn leads_to(
        self,
        event: SubmitEvent,
        proposer: Proposer,
        next: SubmitStep,
        gauged: SubmitGaugesView,
    ) -> bool {
        let quiet = gauges(Seq::empty(), None);
        let counted = gauges(seq![ValidityGauge::RelayAggProofErrorCount], None);
        let failed = SubmitStep::Done { end: SubmitEnd::Failed };
        match (self, event) {
            (SubmitStep::MarkFailed { rejection, .. }, _) => {
                &&& next == (SubmitStep::Done { end: SubmitEnd::Rejected { rejection } })
                &&& gauged == if event is Succeeded {
                    gauges(seq![ValidityGauge::AggProofRebuiltAfterRejection], None)
                } else {
                    quiet
                }
            },
            (SubmitStep::ReadOutput { .. }, SubmitEvent::Failed) => next == failed && gauged
                == counted,
            (_, SubmitEvent::Failed) => next == failed && gauged == quiet,
            (_, SubmitEvent::Head { number }) => next == (SubmitStep::FetchCompleted {
                latest_proposed: number as i64,
            }) && gauged == quiet,
            (_, SubmitEvent::Completed { request }) => next == (match request {
                None => SubmitStep::Done { end: SubmitEnd::NothingToRelay },
                Some(request) => SubmitStep::ReadOutput {
                    block_number: request.end_block as u64,
                    request,
                },
            }) && gauged == quiet,
            (SubmitStep::ReadOutput { request, .. }, SubmitEvent::Output { output_root }) => {
                if is_zero_address(proposer.requester_config.dgf_address@) {
                    &&& next matches SubmitStep::Send { proposal, relayed }
                    &&& proposal.output_root == output_root
                    &&& proposal.l2_block_number == request.end_block
                    &&& proposal.l1_block_number == request.checkpointed_l1_block_number->0
                    &&& proposal.proof == request.proof->0
                    &&& relayed == (Relayed { id: request.id, end_block: request.end_block })
                    &&& gauged == quiet
                } else {
                    next == (SubmitStep::Done { end: SubmitEnd::DisputeGameConfigured }) && gauged
                        == counted
                }
            },
            (SubmitStep::Send { relayed, .. }, SubmitEvent::Sent { result }) => match result {
                Ok(receipt) => {
                    &&& next == if receipt.status {
                        SubmitStep::MarkRelayed {
                            relayed,
                            transaction_hash: receipt.transaction_hash,
                        }
                    } else {
                        SubmitStep::Replay {
                            from: receipt.from,
                            block: BlockId::Number(
                                match receipt.block_number {
                                    Some(number) => BlockNumberOrTag::Number(number),
                                    None => BlockNumberOrTag::Latest,
                                },
                            ),
                            timeout: proposer.requester_config.network_calls_timeout,
                            relayed,
                        }
                    }
                    &&& gauged == quiet
                },
                Err(e) => match anyhow_revert_data(e) {
                    Some(data) => rejected_with(next, gauged, relayed.id, classification(data)),
                    None => next == failed && gauged == counted,
                },
            },
            (SubmitStep::Replay { relayed, .. }, SubmitEvent::Replayed { replay }) => rejected_with(
                next,
                gauged,
                relayed.id,
                spec_replay_verdict(replay),
            ),
            (SubmitStep::MarkRelayed { relayed, .. }, _) => next == (SubmitStep::Done {
                end: SubmitEnd::Relayed { end_block: relayed.end_block },
            }) && gauged == quiet,
            _ => false,
        }
    }

    /// Goes on from a step, by what came of it, and says what to count.
    pub fn next(self, event: SubmitEvent, proposer: &Proposer) -> (result: (
        SubmitStep,
        SubmitGauges,
    ))
        requires
            self.admits(event, *proposer),
        ensures
            self.leads_to(event, *proposer, result.0, result.1@),
    {
        let mut quiet = SubmitGauges { counted: Vec::new(), blocked_by_guard: None };
        match (self, event) {
            (SubmitStep::MarkFailed { rejection, .. }, event) => {
                if let SubmitEvent::Succeeded = event {
                    quiet.counted.push(ValidityGauge::AggProofRebuiltAfterRejection);
                }
                (SubmitStep::Done { end: SubmitEnd::Rejected { rejection } }, quiet)
            },
            (SubmitStep::ReadOutput { .. }, SubmitEvent::Failed) => {
                quiet.counted.push(ValidityGauge::RelayAggProofErrorCount);
                (SubmitStep::Done { end: SubmitEnd::Failed }, quiet)
            },
            (_, SubmitEvent::Failed) => (SubmitStep::Done { end: SubmitEnd::Failed }, quiet),
            (_, SubmitEvent::Head { number }) => (
                SubmitStep::FetchCompleted { latest_proposed: number as i64 },
                quiet,
            ),
            (_, SubmitEvent::Completed { request }) => match request {
                None => (SubmitStep::Done { end: SubmitEnd::NothingToRelay }, quiet),
                Some(request) => (
                    SubmitStep::ReadOutput { block_number: request.end_block as u64, request },
                    quiet,
                ),
            },
            (SubmitStep::ReadOutput { request, .. }, SubmitEvent::Output { output_root }) => {
                if proposer.dispute_game_configured() {
                    quiet.counted.push(ValidityGauge::RelayAggProofErrorCount);
                    return (SubmitStep::Done { end: SubmitEnd::DisputeGameConfigured }, quiet);
                }
                let relayed = Relayed { id: request.id, end_block: request.end_block };
                let l2_block_number: u64 = request.end_block as u64;
                match (request.checkpointed_l1_block_number, request.proof) {
                    (Some(number), Some(proof)) => (
                        SubmitStep::Send {
                            proposal: Proposal {
                                output_root,
                                l2_block_number,
                                l1_block_number: number as u64,
                                proof,
                            },
                            relayed,
                        },
                        quiet,
                    ),
                    _ => (SubmitStep::Done { end: SubmitEnd::Failed }, quiet),
                }
            },
            (SubmitStep::Send { relayed, .. }, SubmitEvent::Sent { result }) => match send_outcome(
                result,
            ) {
                SendOutcome::Landed(transaction_hash) => (
                    SubmitStep::MarkRelayed { relayed, transaction_hash },
                    quiet,
                ),
                SendOutcome::MinedReverted(receipt) => (
                    SubmitStep::Replay {
                        from: receipt.from,
                        block: replay_block(&receipt),
                        timeout: proposer.requester_config.network_calls_timeout,
                        relayed,
                    },
                    quiet,
                ),
                SendOutcome::RejectedBeforeBroadcast(data) => handle_relay_rejection(
                    relayed.id,
                    classify_revert_data(data.as_slice()),
                ),
                SendOutcome::Undelivered(_) => {
                    quiet.counted.push(ValidityGauge::RelayAggProofErrorCount);
                    (SubmitStep::Done { end: SubmitEnd::Failed }, quiet)
                },
            },
            (SubmitStep::Replay { relayed, .. }, SubmitEvent::Replayed { replay }) => {
                handle_relay_rejection(relayed.id, replay_verdict(replay))
            },
            (SubmitStep::MarkRelayed { relayed, .. }, _) => (
                SubmitStep::Done { end: SubmitEnd::Relayed { end_block: relayed.end_block } },
                quiet,
            ),
            _ => (SubmitStep::Done { end: SubmitEnd::Failed }, quiet),
        }
    }
}

/// What follows a rejection: see [`rejected_with`].
fn handle_relay_rejection(id: i64, rejection: RelayRejection) -> (result: (SubmitStep, SubmitGauges))
    ensures
        rejected_with(result.0, result.1@, id, rejection@),
{
    let action = rejection_action(&rejection);
    let mut counted: Vec<ValidityGauge> = Vec::new();
    counted.push(ValidityGauge::RelayAggProofErrorCount);
    let gauged = SubmitGauges { counted, blocked_by_guard: Some(guard_gauge_value(action)) };
    match action {
        Some(_) => (SubmitStep::MarkFailed { id, rejection }, gauged),
        None => (SubmitStep::Done { end: SubmitEnd::Rejected { rejection } }, gauged),
    }
}

impl Proposer {
    /// Starts to relay the completed aggregation. The gauge of the contract guard is cleared first,
    /// so that it does not outlive the guard that set it.
    pub fn submit_agg_proofs(&self) -> (result: (SubmitStep, SubmitGauges))
        ensures
            result.0 == SubmitStep::ReadHead,
            result.1@ == gauges(Seq::empty(), Some(0u32)),
    {
        (
            SubmitStep::ReadHead,
            SubmitGauges { counted: Vec::new(), blocked_by_guard: Some(0) },
        )
    }

    /// Whether a dispute game factory is configured.
    pub fn dispute_game_configured(&self) -> (configured: bool)
        ensures
            configured == !is_zero_address(self.requester_config.dgf_address@),
    {
        let mut i: usize = 0;
        while i < 20
            invariant
                i <= 20,
                self.requester_config.dgf_address@.len() == 20,
                forall|j: int| 0 <= j < i ==> self.requester_config.dgf_address@[j] == 0,
            decreases 20 - i,
        {
            if self.requester_config.dgf_address[i] != 0 {
                assert(self.requester_config.dgf_address@[i as int] != 0);
                return true;
            }
            i += 1;
        }
        false
    }
}

/// An aggregation is marked as relayed only if its transaction was mined and succeeded, and under
/// the hash of that transaction.
pub proof fn law_only_a_landed_aggregation_is_relayed(
    step: SubmitStep,
    event: SubmitEvent,
    proposer: Proposer,
    next: SubmitStep,
    gauged: SubmitGaugesView,
)
    requires
        step.admits(event, proposer),
        step.leads_to(event, proposer, next, gauged),
    ensures
        next matches SubmitStep::MarkRelayed { relayed, transaction_hash } ==> {
            &&& event matches SubmitEvent::Sent { result: Ok(receipt) }
            &&& receipt.status
            &&& receipt.transaction_hash == transaction_hash
            &&& step matches SubmitStep::Send { relayed: sent, .. }
            &&& sent == relayed
        },
{
}

/// A transaction that was never delivered says nothing about the proof: the request is left as it
/// is.
pub proof fn law_an_undelivered_aggregation_is_left_alone(
    step: SubmitStep,
    e: anyhow::Error,
    proposer: Proposer,
    next: SubmitStep,
    gauged: SubmitGaugesView,
)
    requires
        step is Send,
        anyhow_revert_data(e) is None,
        step.leads_to(SubmitEvent::Sent { result: Err(e) }, proposer, next, gauged),
    ensures
        next == (SubmitStep::Done { end: SubmitEnd::Failed }),
        gauged.blocked_by_guard is None,
{
}

/// A refused aggregation is failed exactly if it is to be built again, and the gauge of the
/// contract guard says exactly whether it is not.
pub proof fn law_the_gauge_agrees_with_what_happens_to_the_request(
    step: SubmitStep,
    event: SubmitEvent,
    proposer: Proposer,
    next: SubmitStep,
    gauged: SubmitGaugesView,
)
    requires
        step.admits(event, proposer),
        step.leads_to(event, proposer, next, gauged),
    ensures
        gauged.blocked_by_guard is Some ==> {
            &&& gauged.blocked_by_guard->0 == 0 <==> next is MarkFailed
            &&& gauged.blocked_by_guard->0 == 1 <==> next is Done
        },
        next is MarkFailed ==> gauged.blocked_by_guard == Some(0u32),
{
}

/// A rebuild is counted exactly when the request was marked as failed, not when that was merely
/// tried.
pub proof fn law_a_rebuild_is_counted_once_it_is_written(
    step: SubmitStep,
    event: SubmitEvent,
    proposer: Proposer,
    next: SubmitStep,
    gauged: SubmitGaugesView,
)
    requires
        step.admits(event, proposer),
        step.leads_to(event, proposer, next, gauged),
    ensures
        gauged.counted.contains(ValidityGauge::AggProofRebuiltAfterRejection) <==> step is MarkFailed
            && event is Succeeded,
{
    if gauged.counted.len() == 1 {
        assert(gauged.counted[0] == ValidityGauge::AggProofRebuiltAfterRejection
            || gauged.counted[0] == ValidityGauge::RelayAggProofErrorCount);
        if gauged.counted[0] == ValidityGauge::AggProofRebuiltAfterRejection {
            assert(gauged.counted.contains(gauged.counted[0]));
        }
    }
}

/// A rejection by the chain never ends a pass with an error.
pub proof fn law_a_rejection_is_not_an_error(
    step: SubmitStep,
    event: SubmitEvent,
    proposer: Proposer,
    next: SubmitStep,
    gauged: SubmitGaugesView,
)
    requires
        step is MarkFailed || step is Replay,
        step.admits(event, proposer),
        step.leads_to(event, proposer, next, gauged),
    ensures
        next is MarkFailed || (next is Done && next->end is Rejected),
{
}

/// An upper bound on the number of steps that are left.
pub open spec fn steps_left(step: SubmitStep) -> nat {
    match step {
        SubmitStep::ReadHead => 6,
        SubmitStep::FetchCompleted { .. } => 5,
        SubmitStep::ReadOutput { .. } => 4,
        SubmitStep::Send { .. } => 3,
        SubmitStep::Replay { .. } => 2,
        SubmitStep::MarkFailed { .. } => 1,
        SubmitStep::MarkRelayed { .. } => 1,
        SubmitStep::Done { .. } => 0,
    }
}

/// A pass comes to an end, whatever the chain and the database answer.
pub proof fn law_a_pass_comes_to_an_end(
    step: SubmitStep,
    event: SubmitEvent,
    proposer: Proposer,
    next: SubmitStep,
    gauged: SubmitGaugesView,
)
    requires
        step.admits(event, proposer),
        step.leads_to(event, proposer, next, gauged),
    ensures
        steps_left(next) < steps_left(step),
{
}

/// What is sent is what was stored: the output root is the one that was read, the L2 block is the
/// end of the aggregation, the L1 block is its checkpoint, and the proof is its proof, byte for
/// byte and of any length. What is relayed is that very request.
pub proof fn law_what_is_sent_is_what_was_stored(
    step: SubmitStep,
    event: SubmitEvent,
    proposer: Proposer,
    next: SubmitStep,
    gauged: SubmitGauges,
)
    requires
        step.admits(event, proposer),
        call_ensures(SubmitStep::next, (step, event, &proposer), (next, gauged)),
    ensures
        next matches SubmitStep::Send { proposal, relayed } ==> {
            &&& step matches SubmitStep::ReadOutput { request, .. }
            &&& event matches SubmitEvent::Output { output_root }
            &&& proposal.output_root@ == output_root@
            &&& proposal.l2_block_number == request.end_block
            &&& request.checkpointed_l1_block_number matches Some(number)
            &&& proposal.l1_block_number == number
            &&& request.proof matches Some(stored)
            &&& proposal.proof@.len() == stored@.len()
            &&& forall|k: int|
                0 <= k < stored@.len() ==> #[trigger] proposal.proof@[k] == stored@[k]
            &&& relayed.id == request.id
            &&& relayed.end_block == request.end_block
        },
{
}

/// A completed aggregation is sent once its output is known, exactly if no dispute game factory is
/// configured: if every byte of its address is zero.
pub proof fn law_an_aggregation_is_sent_unless_a_dispute_game_is_configured(
    block_number: u64,
    request: OPSuccinctRequest,
    output_root: B256,
    proposer: Proposer,
    next: SubmitStep,
    gauged: SubmitGauges,
)
    requires
        (SubmitStep::ReadOutput { block_number, request }).admits(
            SubmitEvent::Output { output_root },
            proposer,
        ),
        call_ensures(
            SubmitStep::next,
            (
                SubmitStep::ReadOutput { block_number, request },
                SubmitEvent::Output { output_root },
                &proposer,
            ),
            (next, gauged),
        ),
    ensures
        next is Send <==> forall|k: int|
            0 <= k < 20 ==> proposer.requester_config.dgf_address@[k] == 0,
        next is Send || next == (SubmitStep::Done { end: SubmitEnd::DisputeGameConfigured }),
{
    assert(proposer.requester_config.dgf_address@.len() == 20);
}

/// The aggregation that is looked for starts at the contract's head, and the output that is read is
/// the one at its end block.
pub proof fn law_the_output_is_read_at_the_end_of_the_aggregation(
    step: SubmitStep,
    event: SubmitEvent,
    proposer: Proposer,
    next: SubmitStep,
    gauged: SubmitGauges,
)
    requires
        step.admits(event, proposer),
        call_ensures(SubmitStep::next, (step, event, &proposer), (next, gauged)),
    ensures
        next is FetchCompleted <==> event is Head,
        next matches SubmitStep::FetchCompleted { latest_proposed } ==> latest_proposed
            == event->Head_number as i64,
        next is ReadOutput <==> event is Completed && event->Completed_request is Some,
        next matches SubmitStep::ReadOutput { block_number, request } ==> {
            &&& event == (SubmitEvent::Completed { request: Some(request) })
            &&& block_number == request.end_block as u64
        },
{
}

/// A mined transaction that reverted is replayed as its sender sent it and at its own block, or the
/// latest where that is not known, for as long as a call to the network may take.
pub proof fn law_a_reverted_transaction_is_replayed_as_it_was_sent(
    step: SubmitStep,
    event: SubmitEvent,
    proposer: Proposer,
    next: SubmitStep,
    gauged: SubmitGauges,
)
    requires
        step.admits(event, proposer),
        call_ensures(SubmitStep::next, (step, event, &proposer), (next, gauged)),
    ensures
        next is Replay <==> (event matches SubmitEvent::Sent { result: Ok(receipt) }
            && !receipt.status),
        next matches SubmitStep::Replay { from, block, timeout, relayed } ==> {
            &&& event matches SubmitEvent::Sent { result: Ok(receipt) }
            &&& from@ == receipt.from@
            &&& receipt.block_number matches Some(number) ==> block == BlockId::Number(
                BlockNumberOrTag::Number(number),
            )
            &&& receipt.block_number is None ==> block == BlockId::Number(BlockNumberOrTag::Latest)
            &&& timeout == proposer.requester_config.network_calls_timeout
            &&& step matches SubmitStep::Send { relayed: sent, .. }
            &&& relayed == sent
        },
{
}

/// A transaction that landed has its aggregation marked as relayed, and no other has.
pub proof fn law_a_landed_transaction_is_recorded(
    step: SubmitStep,
    event: SubmitEvent,
    proposer: Proposer,
    next: SubmitStep,
    gauged: SubmitGauges,
)
    requires
        step.admits(event, proposer),
        call_ensures(SubmitStep::next, (step, event, &proposer), (next, gauged)),
    ensures
        next is MarkRelayed <==> (event matches SubmitEvent::Sent { result: Ok(receipt) }
            && receipt.status),
        next matches SubmitStep::MarkRelayed { relayed, transaction_hash } ==> {
            &&& transaction_hash@ == event->result->Ok_0.transaction_hash@
            &&& step matches SubmitStep::Send { relayed: sent, .. }
            &&& relayed == sent
        },
{
}

/// A refused aggregation is marked as failed under its own identifier, with the rejection that the
/// chain gave; only one that was refused by a guard that no proof can satisfy is not. The pass ends
/// with that same rejection.
pub proof fn law_a_refused_aggregation_is_failed_unless_a_guard_stands_in_its_way(
    step: SubmitStep,
    event: SubmitEvent,
    proposer: Proposer,
    next: SubmitStep,
    gauged: SubmitGauges,
)
    requires
        step.admits(event, proposer),
        call_ensures(SubmitStep::next, (step, event, &proposer), (next, gauged)),
    ensures
        next matches SubmitStep::MarkFailed { id, rejection } ==> {
            &&& !(rejection is UnsatisfiableGuard)
            &&& (step matches SubmitStep::Send { relayed, .. } && relayed.id == id) || (step
                matches SubmitStep::Replay { relayed, .. } && relayed.id == id)
            &&& gauged.blocked_by_guard == Some(0u32)
        },
        next matches SubmitStep::Done { end: SubmitEnd::Rejected { rejection } } ==> {
            ||| step matches SubmitStep::MarkFailed { rejection: kept, .. } && kept == rejection
                && gauged.blocked_by_guard is None
            ||| rejection is UnsatisfiableGuard && (step is Send || step is Replay)
                && gauged.blocked_by_guard == Some(1u32)
        },
        step is Replay || step is MarkFailed ==> next is MarkFailed || (next is Done && next->end
            is Rejected),
{
}

/// What a replay tells: a call that did not revert, or did not return in time, is no verdict, and
/// neither is one that failed without revert data; revert data is classified.
pub proof fn law_a_replay_tells_why_a_transaction_was_refused(
    replay: ReplayResult,
    rejection: RelayRejection,
)
    requires
        call_ensures(replay_verdict, (replay,), rejection),
    ensures
        replay is Err ==> rejection == (RelayRejection::NoVerdict {
            reason: NoVerdictReason::ReplayTimedOut,
        }),
        replay matches Ok(Ok(_)) ==> rejection == (RelayRejection::NoVerdict {
            reason: NoVerdictReason::ReplayDidNotRevert,
        }),
        replay matches Ok(Err(e)) ==> match rpc_revert_data(error_response_in(e)) {
            Some(data) => rejection@ == classification(data),
            None => rejection == (RelayRejection::NoVerdict {
                reason: NoVerdictReason::ReplayUnreachable,
            }),
        },
{
}

/// The rejection that a pass goes on with is the one that the replay or the refused call tells.
pub proof fn law_the_rejection_is_what_the_chain_told(
    step: SubmitStep,
    event: SubmitEvent,
    proposer: Proposer,
    next: SubmitStep,
    gauged: SubmitGauges,
    verdict: RelayRejection,
)
    requires
        step is Send || step is Replay,
        step.admits(event, proposer),
        call_ensures(SubmitStep::next, (step, event, &proposer), (next, gauged)),
        match event {
            SubmitEvent::Sent { result: Err(e) } => match anyhow_revert_data(e) {
                Some(data) => verdict@ == classification(data),
                None => false,
            },
            SubmitEvent::Replayed { replay } => call_ensures(replay_verdict, (replay,), verdict),
            _ => false,
        },
    ensures
        verdict is UnsatisfiableGuard ==> {
            &&& next matches SubmitStep::Done { end: SubmitEnd::Rejected { rejection } }
            &&& rejection@ == verdict@
        },
        !(verdict is UnsatisfiableGuard) ==> {
            &&& next matches SubmitStep::MarkFailed { rejection, .. }
            &&& rejection@ == verdict@
        },
{
}

/// What each end of a pass means.
pub proof fn law_the_end_of_a_pass_says_what_happened(
    step: SubmitStep,
    event: SubmitEvent,
    proposer: Proposer,
    next: SubmitStep,
    gauged: SubmitGauges,
)
    requires
        step.admits(event, proposer),
        call_ensures(SubmitStep::next, (step, event, &proposer), (next, gauged)),
    ensures
        next == (SubmitStep::Done { end: SubmitEnd::NothingToRelay }) <==> event is Completed
            && event->Completed_request is None,
        next matches SubmitStep::Done { end: SubmitEnd::Relayed { end_block } } ==> step is MarkRelayed
            && event is Succeeded && end_block == step->MarkRelayed_relayed.end_block,
        step is MarkRelayed && event is Succeeded ==> next is Done && next->end is Relayed,
        next == (SubmitStep::Done { end: SubmitEnd::Failed }) <==> (event is Failed && !(step
            is MarkFailed)) || (event matches SubmitEvent::Sent { result: Err(e) }
            && anyhow_revert_data(e) is None),
{
}

/// What a pass counts: a relay error where the output could not be read, where a dispute game is
/// configured, and where the transaction was not delivered or was refused; and a rebuild once it is
/// written. The gauge of the contract guard is set only by a refusal.
pub proof fn law_each_gauge_counts_one_thing(
    step: SubmitStep,
    event: SubmitEvent,
    proposer: Proposer,
    next: SubmitStep,
    gauged: SubmitGauges,
    gauge: ValidityGauge,
)
    requires
        step.admits(event, proposer),
        call_ensures(SubmitStep::next, (step, event, &proposer), (next, gauged)),
    ensures
        gauged.counted@.len() <= 1,
        gauged.counted@.contains(gauge) <==> match gauge {
            ValidityGauge::RelayAggProofErrorCount => {
                ||| step is ReadOutput && !(next is Send)
                ||| step is Replay
                ||| event matches SubmitEvent::Sent { result: Err(_) }
            },
            ValidityGauge::AggProofRebuiltAfterRejection => step is MarkFailed && event is Succeeded,
            _ => false,
        },
        gauged.blocked_by_guard is Some <==> step is Replay || (event matches SubmitEvent::Sent {
            result: Err(e),
        } && anyhow_revert_data(e) is Some),
{
    if gauged.counted@.len() == 1 {
        assert(gauged.counted@.contains(gauged.counted@[0]));
    }
}

/// A send result says what the node did with a transaction, and nothing of it is lost: the hash of
/// one that landed, the receipt of one that reverted, the error of one that was never delivered.
pub proof fn law_a_send_result_is_told_in_full(
    result: Result<TransactionReceipt, anyhow::Error>,
    outcome: SendOutcome,
)
    requires
        call_ensures(send_outcome, (result,), outcome),
    ensures
        outcome is Landed <==> result is Ok && result->Ok_0.status,
        outcome matches SendOutcome::Landed(hash) ==> hash@ == result->Ok_0.transaction_hash@,
        outcome is MinedReverted <==> result is Ok && !result->Ok_0.status,
        outcome matches SendOutcome::MinedReverted(receipt) ==> *receipt == result->Ok_0,
        outcome is RejectedBeforeBroadcast <==> result is Err && anyhow_revert_data(
            result->Err_0,
        ) is Some,
        outcome matches SendOutcome::RejectedBeforeBroadcast(data) ==> Some(data@)
            == anyhow_revert_data(result->Err_0),
        outcome matches SendOutcome::Undelivered(e) ==> e == result->Err_0,
{
}

/// A rejection fails its request, and clears the gauge of the contract guard, unless it is by a
/// guard that no proof can satisfy; then the request stays as it is, and the gauge is set.
pub proof fn law_the_guard_gauge_is_set_by_unsatisfiable_guards(
    rejection: RelayRejection,
    action: Option<RequestStatus>,
    value: u32,
)
    requires
        call_ensures(rejection_action, (&rejection,), action),
        call_ensures(guard_gauge_value, (action,), value),
    ensures
        rejection is UnsatisfiableGuard <==> action is None,
        rejection is UnsatisfiableGuard <==> value == 1,
        value == 0 || value == 1,
        action is Some ==> action == Some(RequestStatus::Failed),
{
}

/// These are the steps of a pass from its start on, with what came of each of them but the last.
pub open spec fn is_pass(
    steps: Seq<SubmitStep>,
    events: Seq<SubmitEvent>,
    gauged: Seq<SubmitGaugesView>,
    proposer: Proposer,
) -> bool {
    &&& steps.len() == events.len() + 1
    &&& gauged.len() == events.len()
    &&& steps[0] is ReadHead
    &&& forall|i: int| #![trigger events[i]]
        0 <= i < events.len() ==> steps[i].admits(events[i], proposer) && steps[i].leads_to(
            events[i],
            proposer,
            steps[i + 1],
            gauged[i],
        )
}

/// A pass starts by reading the head, with the gauge of the contract guard cleared and nothing
/// counted.
pub proof fn law_a_pass_starts_with_the_guard_gauge_cleared(
    proposer: Proposer,
    step: SubmitStep,
    gauged: SubmitGauges,
)
    requires
        call_ensures(Proposer::submit_agg_proofs, (&proposer,), (step, gauged)),
    ensures
        is_pass(seq![step], Seq::empty(), Seq::empty(), proposer),
        gauged.counted@.len() == 0,
        gauged.blocked_by_guard == Some(0u32),
{
}

/// The aggregation that a step of a pass is about, by its identifier and its end block.
pub open spec fn relayed_of(step: SubmitStep) -> Option<Relayed> {
    match step {
        SubmitStep::ReadOutput { request, .. } => Some(
            Relayed { id: request.id, end_block: request.end_block },
        ),
        SubmitStep::Send { relayed, .. } => Some(relayed),
        SubmitStep::Replay { relayed, .. } => Some(relayed),
        SubmitStep::MarkRelayed { relayed, .. } => Some(relayed),
        _ => None,
    }
}

/// A pass, as a whole: it sends, marks and reports the one aggregation that it fetched. What it
/// sends is that aggregation's proof with the output root that it read; what it marks as relayed or
/// failed is that aggregation; and the head that it reports is that aggregation's end block.
pub proof fn law_a_pass_is_about_the_aggregation_that_it_fetched(
    steps: Seq<SubmitStep>,
    events: Seq<SubmitEvent>,
    gauged: Seq<SubmitGaugesView>,
    proposer: Proposer,
    n: int,
)
    requires
        is_pass(steps, events, gauged, proposer),
        0 <= n <= events.len(),
    ensures
        steps[n] matches SubmitStep::Send { proposal, .. } ==> {
            &&& n == 3
            &&& events[1] matches SubmitEvent::Completed { request: Some(request) }
            &&& events[2] matches SubmitEvent::Output { output_root }
            &&& proposal.output_root@ == output_root@
            &&& proposal.l2_block_number == request.end_block
            &&& request.checkpointed_l1_block_number == Some(proposal.l1_block_number as i64)
            &&& request.proof is Some && proposal.proof@ == request.proof->0@
        },
        steps[n] matches SubmitStep::MarkRelayed { relayed, .. } ==> {
            &&& events[1] matches SubmitEvent::Completed { request: Some(request) }
            &&& relayed.id == request.id
        },
        steps[n] matches SubmitStep::MarkFailed { id, .. } ==> {
            &&& events[1] matches SubmitEvent::Completed { request: Some(request) }
            &&& id == request.id
        },
        steps[n] matches SubmitStep::Done { end: SubmitEnd::Relayed { end_block } } ==> {
            &&& events[1] matches SubmitEvent::Completed { request: Some(request) }
            &&& end_block == request.end_block
        },
{
    lemma_pass_keeps_its_aggregation(steps, events, gauged, proposer, n);
    if n > 0 {
        lemma_pass_keeps_its_aggregation(steps, events, gauged, proposer, n - 1);
        let event = events[n - 1];
        assert(steps[n - 1].leads_to(event, proposer, steps[n], gauged[n - 1]));
    }
}

/// The aggregation that a pass is about is the one that it fetched.
proof fn lemma_pass_keeps_its_aggregation(
    steps: Seq<SubmitStep>,
    events: Seq<SubmitEvent>,
    gauged: Seq<SubmitGaugesView>,
    proposer: Proposer,
    n: int,
)
    requires
        is_pass(steps, events, gauged, proposer),
        0 <= n <= events.len(),
    ensures
        steps[n] is ReadHead ==> n == 0,
        steps[n] is FetchCompleted ==> n == 1,
        steps[n] matches SubmitStep::ReadOutput { request, .. } ==> n == 2 && events[1]
            == (SubmitEvent::Completed { request: Some(request) }),
        steps[n] is Send ==> n == 3,
        relayed_of(steps[n]) matches Some(relayed) ==> {
            &&& n >= 2
            &&& events[1] matches SubmitEvent::Completed { request: Some(request) }
            &&& relayed.id == request.id
            &&& relayed.end_block == request.end_block
        },
        steps[n] matches SubmitStep::MarkFailed { id, .. } ==> {
            &&& n >= 2
            &&& events[1] matches SubmitEvent::Completed { request: Some(request) }
            &&& id == request.id
        },
    decreases n,
{
    if n > 0 {
        lemma_pass_keeps_its_aggregation(steps, events, gauged, proposer, n - 1);
        let event = events[n - 1];
        assert(steps[n - 1].leads_to(event, proposer, steps[n], gauged[n - 1]));
    }
}

/// Every aggregation that has what sending it takes can go on to be sent: an end block and a
/// checkpoint that are numbers of blocks, and a proof.
pub proof fn law_a_complete_aggregation_can_be_sent(
    block_number: u64,
    request: OPSuccinctRequest,
    output_root: B256,
    proposer: Proposer,
)
    requires
        request.end_block >= 0,
        request.checkpointed_l1_block_number is Some && request.checkpointed_l1_block_number->0 >= 0,
        request.proof is Some,
    ensures
        (SubmitStep::ReadOutput { block_number, request }).admits(
            SubmitEvent::Output { output_root },
            proposer,
        ),
{
}

/// A mined transaction is replayed at its own block where that is known, and at the latest
/// otherwise. A dispute game factory is configured exactly if some byte of its address is not zero.
/// Revert data that came with a replay is classified, and without any there is no verdict.
pub proof fn law_replays_are_set_up_and_read(
    receipt: TransactionReceipt,
    block: BlockId,
    proposer: Proposer,
    configured: bool,
    data: Option<Vec<u8>>,
    rejection: RelayRejection,
)
    requires
        call_ensures(replay_block, (&receipt,), block),
        call_ensures(Proposer::dispute_game_configured, (&proposer,), configured),
        call_ensures(verdict_of_revert_data, (data,), rejection),
    ensures
        receipt.block_number matches Some(number) ==> block == BlockId::Number(
            BlockNumberOrTag::Number(number),
        ),
        receipt.block_number is None ==> block == BlockId::Number(BlockNumberOrTag::Latest),
        configured <==> exists|k: int|
            0 <= k < 20 && #[trigger] proposer.requester_config.dgf_address@[k] != 0,
        data is None ==> rejection == (RelayRejection::NoVerdict {
            reason: NoVerdictReason::ReplayUnreachable,
        }),
        data is Some ==> rejection@ == classification(data->0@),
{
    assert(proposer.requester_config.dgf_address@.len() == 20);
}

} // verus!
