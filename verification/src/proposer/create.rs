//! Creating aggregation requests over completed range proofs.
//!
//! A pass is a chain of steps, as in [`crate::proposer::proof_status`]: each [`CreateStep`] names
//! the one thing to do next, and [`CreateStep::next`] goes on from what came of it.
use vstd::prelude::*;

use crate::block::{BlockId, BlockNumberOrTag};
use crate::outside::{header_hash, header_hash_of, header_number, header_number_of};
use crate::proposer::aggregation::{
    checkpoint_plan, highest_contiguous_end, is_proven,
    law_a_sound_chain_ends_at_the_highest_proven_block,
    law_every_block_below_the_highest_is_proven, lemma_chain_ends_where_it_breaks,
    select_checkpoint_block_number,
    spec_checkpoint_plan, spec_highest_contiguous_end, spec_select_checkpoint_block_number,
    CachedCheckpoint, CheckpointPlan, RangeError, RecheckpointReason,
};
use crate::proposer::Proposer;
use crate::request::{
    request_mode, spec_request_mode, NewAggregationRequest, RequestMode, B256,
};

verus! {

/// An aggregation may be built on the head that was read: it is not behind what this pass relayed.
pub open spec fn spec_create_should_run(latest_proposed: i64, relayed_end: Option<i64>) -> bool {
    relayed_end is Some ==> latest_proposed >= relayed_end->0
}

/// Whether an aggregation may be built on the head that was read from the contract.
///
/// `relayed_end` is the end block that this pass has relayed. An endpoint that lags behind the
/// relay reports a head that does not include it yet; building on that head would build a second
/// aggregation over a range that was already proposed.
pub fn create_should_run(latest_proposed: i64, relayed_end: Option<i64>) -> (run: bool)
    ensures
        run == spec_create_should_run(latest_proposed, relayed_end),
{
    match relayed_end {
        Some(end) => latest_proposed >= end,
        None => true,
    }
}

/// The blocks that an aggregation is to cover, from the contract's head to the end of the chain of
/// completed range proofs.
#[derive(Debug, Clone, Copy, PartialEq, Eq, Structural)]
pub struct Span {
    pub start_block: i64,
    pub end_block: i64,
}

/// The checkpoint of an earlier aggregation request over the same span.
#[derive(Debug, Clone, Copy, PartialEq, Eq)]
pub struct ExistingCheckpoint {
    pub hash: B256,
    pub number: i64,
}

/// Why a pass failed.
#[derive(Debug, Clone, Copy, PartialEq, Eq, Structural)]
pub enum CreateError {
    /// The completed range proofs do not form a chain that can be built on.
    BadRanges { error: RangeError },
    /// A range proof records a negative L1 head.
    NegativeL1Head,
    /// The earlier request records a negative L1 block number.
    NegativeCheckpoint,
    /// The transaction that checkpoints the L1 block reverted.
    CheckpointReverted,
    /// A call to the chain or the database failed.
    CallFailed,
}

/// How a pass ended.
#[derive(Debug, Clone, Copy, PartialEq, Eq, Structural)]
pub enum CreateEnd {
    /// The head that was read is behind what this pass relayed.
    HeadBehindRelay,
    /// There already is an aggregation for this start block.
    AlreadyActive,
    /// No completed range proof is contiguous to the head.
    NothingProven,
    /// The completed range proofs do not reach far enough yet.
    TooShort,
    /// A request was created.
    Created,
    Failed(CreateError),
}

/// What to do next.
#[derive(Debug, Clone, Copy, PartialEq, Eq)]
pub enum CreateStep {
    /// Read the latest block number that the contract holds.
    ReadHead { relayed_end: Option<i64> },
    /// Count the aggregations that are under way from this start block.
    CountActive { latest_proposed: i64 },
    /// Fetch the completed ranges behind this block, in the order of their start blocks.
    FetchCompleted { latest_proposed: i64 },
    /// Read the contract's submission interval.
    ReadSubmissionInterval { span: Span },
    /// Look for a failed request over the same span that has a checkpoint.
    FetchExisting { span: Span },
    /// Fetch the largest L1 head among the range proofs of the span.
    FetchMaxL1Head { span: Span, existing: Option<ExistingCheckpoint> },
    /// Read the hash that the contract holds for an L1 block number.
    ReadHistoricHash { span: Span, hash: B256, number: u64, batch_max_l1_head: Option<u64> },
    /// Read the header of the L1 block that a fresh checkpoint is anchored at.
    ReadAnchor {
        span: Span,
        anchor: BlockId,
        reason: RecheckpointReason,
        batch_max_l1_head: Option<u64>,
    },
    /// Read the header of the L1 block to checkpoint.
    ReadCheckpointHeader { span: Span, number: u64, batch_max_l1_head: Option<u64> },
    /// Send the transaction that checkpoints an L1 block.
    SendCheckpoint { span: Span, number: u64, hash: B256, batch_max_l1_head: Option<u64> },
    /// Insert the request into the database.
    Insert { request: NewAggregationRequest, batch_max_l1_head: Option<u64> },
    Done { end: CreateEnd },
}

/// What came of a step.
#[derive(Debug, PartialEq, Eq)]
pub enum CreateEvent {
    Head { number: u64 },
    ActiveCount { count: i64 },
    Completed { ranges: Vec<(i64, i64)> },
    SubmissionInterval { blocks: u64 },
    Existing { existing: Option<ExistingCheckpoint> },
    MaxL1Head { number: Option<i64> },
    HistoricHash { hash: B256 },
    /// An L1 header.
    Header { header: alloy_consensus::Header },
    /// A mined transaction, and whether it succeeded.
    Receipt { success: bool },
    Inserted,
    Failed,
}

/// The number of blocks that an aggregation must cover: what the contract asks for, or what the
/// proposer was told, whichever is more.
pub open spec fn submission_interval(contract: u64, configured: u64) -> i64 {
    if contract > configured {
        contract as i64
    } else {
        configured as i64
    }
}

/// The request for an aggregation over a span with a checkpoint.
pub open spec fn new_request(
    proposer: Proposer,
    span: Span,
    number: u64,
    hash: B256,
) -> NewAggregationRequest {
    NewAggregationRequest {
        mode: spec_request_mode(proposer.requester_config.mock),
        start_block: span.start_block,
        end_block: span.end_block,
        commitments: proposer.commitments,
        chains: proposer.requester_config.chains,
        checkpointed_l1_block_number: number as i64,
        checkpointed_l1_block_hash: hash,
        prover_address: proposer.driver_config.signer_address,
    }
}

/// What follows once it is known what checkpoint is at hand.
pub open spec fn after_plan(
    proposer: Proposer,
    span: Span,
    cached: Option<CachedCheckpoint>,
    batch_max_l1_head: Option<u64>,
) -> CreateStep {
    match spec_checkpoint_plan(cached, batch_max_l1_head) {
        CheckpointPlan::Reuse { hash, number } => CreateStep::Insert {
            request: new_request(proposer, span, number, hash),
            batch_max_l1_head,
        },
        CheckpointPlan::Fresh { anchor, reason } => CreateStep::ReadAnchor {
            span,
            anchor,
            reason,
            batch_max_l1_head,
        },
    }
}

/// A pass ended.
pub open spec fn done(end: CreateEnd) -> CreateStep {
    CreateStep::Done { end }
}

impl CreateStep {
    /// The events that can come of a step.
    pub open spec fn admits(self, event: CreateEvent) -> bool {
        match event {
            CreateEvent::Failed => !(self is Done),
            CreateEvent::Head { .. } => self is ReadHead,
            CreateEvent::ActiveCount { .. } => self is CountActive,
            CreateEvent::Completed { .. } => self is FetchCompleted,
            CreateEvent::SubmissionInterval { .. } => self is ReadSubmissionInterval,
            CreateEvent::Existing { .. } => self is FetchExisting,
            CreateEvent::MaxL1Head { .. } => self is FetchMaxL1Head,
            CreateEvent::HistoricHash { .. } => self is ReadHistoricHash,
            CreateEvent::Header { .. } => self is ReadAnchor || self is ReadCheckpointHeader,
            CreateEvent::Receipt { .. } => self is SendCheckpoint,
            CreateEvent::Inserted => self is Insert,
        }
    }

    /// `next` is what follows a step, by what came of it.
    pub open spec fn leads_to(self, event: CreateEvent, proposer: Proposer, next: CreateStep) -> bool {
        match (self, event) {
            (_, CreateEvent::Failed) => next == done(CreateEnd::Failed(CreateError::CallFailed)),
            (CreateStep::ReadHead { relayed_end }, CreateEvent::Head { number }) => next == (
            if spec_create_should_run(number as i64, relayed_end) {
                CreateStep::CountActive { latest_proposed: number as i64 }
            } else {
                done(CreateEnd::HeadBehindRelay)
            }),
            (CreateStep::CountActive { latest_proposed }, CreateEvent::ActiveCount { count }) => next
                == (if count > 0 {
                done(CreateEnd::AlreadyActive)
            } else {
                CreateStep::FetchCompleted { latest_proposed }
            }),
            (CreateStep::FetchCompleted { latest_proposed }, CreateEvent::Completed { ranges }) => next
                == (match spec_highest_contiguous_end(ranges@) {
                Err(error) => done(CreateEnd::Failed(CreateError::BadRanges { error })),
                Ok(None) => done(CreateEnd::NothingProven),
                Ok(Some(end)) => if ranges@[0].0 == latest_proposed {
                    CreateStep::ReadSubmissionInterval {
                        span: Span { start_block: latest_proposed, end_block: end },
                    }
                } else {
                    done(CreateEnd::NothingProven)
                },
            }),
            (
                CreateStep::ReadSubmissionInterval { span },
                CreateEvent::SubmissionInterval { blocks },
            ) => next == (if span.end_block - span.start_block >= submission_interval(
                blocks,
                proposer.requester_config.submission_interval,
            ) {
                CreateStep::FetchExisting { span }
            } else {
                done(CreateEnd::TooShort)
            }),
            (CreateStep::FetchExisting { span }, CreateEvent::Existing { existing }) => next
                == (CreateStep::FetchMaxL1Head { span, existing }),
            (CreateStep::FetchMaxL1Head { span, existing }, CreateEvent::MaxL1Head { number }) => {
                let batch_max_l1_head = match number {
                    Some(n) => Some(n as u64),
                    None => None,
                };
                next == (if number is Some && number->0 < 0 {
                    done(CreateEnd::Failed(CreateError::NegativeL1Head))
                } else {
                    match existing {
                        None => after_plan(proposer, span, None, batch_max_l1_head),
                        Some(checkpoint) => if checkpoint.number < 0 {
                            done(CreateEnd::Failed(CreateError::NegativeCheckpoint))
                        } else {
                            CreateStep::ReadHistoricHash {
                                span,
                                hash: checkpoint.hash,
                                number: checkpoint.number as u64,
                                batch_max_l1_head,
                            }
                        },
                    }
                })
            },
            (
                CreateStep::ReadHistoricHash { span, hash, number, batch_max_l1_head },
                CreateEvent::HistoricHash { hash: onchain_hash },
            ) => next == after_plan(
                proposer,
                span,
                Some(CachedCheckpoint { hash, number, onchain_hash }),
                batch_max_l1_head,
            ),
            (
                CreateStep::ReadAnchor { span, batch_max_l1_head, .. },
                CreateEvent::Header { header },
            ) => {
                let wanted = spec_select_checkpoint_block_number(
                    header_number_of(header),
                    batch_max_l1_head,
                );
                if wanted == header_number_of(header) {
                    next.sends_checkpoint(span, header, batch_max_l1_head)
                } else {
                    next == (CreateStep::ReadCheckpointHeader {
                        span,
                        number: wanted,
                        batch_max_l1_head,
                    })
                }
            },
            (
                CreateStep::ReadCheckpointHeader { span, batch_max_l1_head, .. },
                CreateEvent::Header { header },
            ) => next.sends_checkpoint(span, header, batch_max_l1_head),
            (
                CreateStep::SendCheckpoint { span, number, hash, batch_max_l1_head },
                CreateEvent::Receipt { success },
            ) => next == (if success {
                CreateStep::Insert {
                    request: new_request(proposer, span, number, hash),
                    batch_max_l1_head,
                }
            } else {
                done(CreateEnd::Failed(CreateError::CheckpointReverted))
            }),
            (CreateStep::Insert { .. }, CreateEvent::Inserted) => next == done(CreateEnd::Created),
            _ => false,
        }
    }

    /// The step checkpoints the L1 block with this header, under its number and its hash.
    pub open spec fn sends_checkpoint(
        self,
        span: Span,
        header: alloy_consensus::Header,
        batch_max_l1_head: Option<u64>,
    ) -> bool {
        &&& self matches CreateStep::SendCheckpoint {
            span: sent_span,
            number: sent_number,
            hash,
            batch_max_l1_head: sent_max,
        }
        &&& sent_span == span
        &&& sent_number == header_number_of(header)
        &&& hash@ == header_hash_of(header)
        &&& sent_max == batch_max_l1_head
    }

    /// Goes on from a step, by what came of it.
    pub fn next(self, event: CreateEvent, proposer: &Proposer) -> (next: CreateStep)
        requires
            self.admits(event),
        ensures
            self.leads_to(event, *proposer, next),
    {
        if let CreateEvent::Failed = event {
            return CreateStep::Done { end: CreateEnd::Failed(CreateError::CallFailed) };
        }
        match (self, event) {
            (CreateStep::ReadHead { relayed_end }, CreateEvent::Head { number }) => {
                if create_should_run(number as i64, relayed_end) {
                    CreateStep::CountActive { latest_proposed: number as i64 }
                } else {
                    CreateStep::Done { end: CreateEnd::HeadBehindRelay }
                }
            },
            (CreateStep::CountActive { latest_proposed }, CreateEvent::ActiveCount { count }) => {
                if count > 0 {
                    CreateStep::Done { end: CreateEnd::AlreadyActive }
                } else {
                    CreateStep::FetchCompleted { latest_proposed }
                }
            },
            (
                CreateStep::FetchCompleted { latest_proposed },
                CreateEvent::Completed { ranges },
            ) => match highest_contiguous_end(ranges.as_slice()) {
                Err(error) => CreateStep::Done {
                    end: CreateEnd::Failed(CreateError::BadRanges { error }),
                },
                Ok(None) => CreateStep::Done { end: CreateEnd::NothingProven },
                Ok(Some(end)) => {
                    if ranges[0].0 == latest_proposed {
                        CreateStep::ReadSubmissionInterval {
                            span: Span { start_block: latest_proposed, end_block: end },
                        }
                    } else {
                        CreateStep::Done { end: CreateEnd::NothingProven }
                    }
                },
            },
            (
                CreateStep::ReadSubmissionInterval { span },
                CreateEvent::SubmissionInterval { blocks },
            ) => {
                let configured: u64 = proposer.requester_config.submission_interval;
                let interval: i64 = if blocks > configured {
                    blocks as i64
                } else {
                    configured as i64
                };
                if span.end_block as i128 - span.start_block as i128 >= interval as i128 {
                    CreateStep::FetchExisting { span }
                } else {
                    CreateStep::Done { end: CreateEnd::TooShort }
                }
            },
            (CreateStep::FetchExisting { span }, CreateEvent::Existing { existing }) => {
                CreateStep::FetchMaxL1Head { span, existing }
            },
            (
                CreateStep::FetchMaxL1Head { span, existing },
                CreateEvent::MaxL1Head { number },
            ) => {
                let batch_max_l1_head: Option<u64> = match number {
                    Some(n) => {
                        if n < 0 {
                            return CreateStep::Done {
                                end: CreateEnd::Failed(CreateError::NegativeL1Head),
                            };
                        }
                        Some(n as u64)
                    },
                    None => None,
                };
                match existing {
                    None => proposer.plan_step(span, None, batch_max_l1_head),
                    Some(checkpoint) => {
                        if checkpoint.number < 0 {
                            CreateStep::Done {
                                end: CreateEnd::Failed(CreateError::NegativeCheckpoint),
                            }
                        } else {
                            CreateStep::ReadHistoricHash {
                                span,
                                hash: checkpoint.hash,
                                number: checkpoint.number as u64,
                                batch_max_l1_head,
                            }
                        }
                    },
                }
            },
            (
                CreateStep::ReadHistoricHash { span, hash, number, batch_max_l1_head },
                CreateEvent::HistoricHash { hash: onchain_hash },
            ) => proposer.plan_step(
                span,
                Some(CachedCheckpoint { hash, number, onchain_hash }),
                batch_max_l1_head,
            ),
            (
                CreateStep::ReadAnchor { span, batch_max_l1_head, .. },
                CreateEvent::Header { header },
            ) => {
                let number: u64 = header_number(&header);
                let wanted: u64 = select_checkpoint_block_number(number, batch_max_l1_head);
                if wanted == number {
                    CreateStep::SendCheckpoint {
                        span,
                        number,
                        hash: header_hash(&header),
                        batch_max_l1_head,
                    }
                } else {
                    CreateStep::ReadCheckpointHeader { span, number: wanted, batch_max_l1_head }
                }
            },
            (
                CreateStep::ReadCheckpointHeader { span, batch_max_l1_head, .. },
                CreateEvent::Header { header },
            ) => CreateStep::SendCheckpoint {
                span,
                number: header_number(&header),
                hash: header_hash(&header),
                batch_max_l1_head,
            },
            (
                CreateStep::SendCheckpoint { span, number, hash, batch_max_l1_head },
                CreateEvent::Receipt { success },
            ) => {
                if success {
                    CreateStep::Insert {
                        request: proposer.aggregation_request(span, number, hash),
                        batch_max_l1_head,
                    }
                } else {
                    CreateStep::Done { end: CreateEnd::Failed(CreateError::CheckpointReverted) }
                }
            },
            _ => CreateStep::Done { end: CreateEnd::Created },
        }
    }
}

impl Proposer {
    /// Starts to create an aggregation request. `relayed_end` is the end block that this pass has
    /// relayed.
    pub fn create_aggregation_proofs(&self, relayed_end: Option<i64>) -> (step: CreateStep)
        ensures
            step == (CreateStep::ReadHead { relayed_end }),
    {
        CreateStep::ReadHead { relayed_end }
    }

    /// What follows once it is known what checkpoint is at hand.
    fn plan_step(
        &self,
        span: Span,
        cached: Option<CachedCheckpoint>,
        batch_max_l1_head: Option<u64>,
    ) -> (step: CreateStep)
        ensures
            step == after_plan(*self, span, cached, batch_max_l1_head),
    {
        match checkpoint_plan(cached, batch_max_l1_head) {
            CheckpointPlan::Reuse { hash, number } => CreateStep::Insert {
                request: self.aggregation_request(span, number, hash),
                batch_max_l1_head,
            },
            CheckpointPlan::Fresh { anchor, reason } => CreateStep::ReadAnchor {
                span,
                anchor,
                reason,
                batch_max_l1_head,
            },
        }
    }

    /// The request for an aggregation over a span with a checkpoint.
    fn aggregation_request(&self, span: Span, number: u64, hash: B256) -> (request:
        NewAggregationRequest)
        ensures
            request == new_request(*self, span, number, hash),
    {
        NewAggregationRequest {
            mode: request_mode(self.requester_config.mock),
            start_block: span.start_block,
            end_block: span.end_block,
            commitments: self.commitments,
            chains: self.requester_config.chains,
            checkpointed_l1_block_number: number as i64,
            checkpointed_l1_block_hash: hash,
            prover_address: self.driver_config.signer_address,
        }
    }
}

/// The first block of the aggregation that a step is about, once it is known.
pub open spec fn start_of(step: CreateStep) -> Option<i64> {
    match step {
        CreateStep::CountActive { latest_proposed } => Some(latest_proposed),
        CreateStep::FetchCompleted { latest_proposed } => Some(latest_proposed),
        CreateStep::ReadSubmissionInterval { span } => Some(span.start_block),
        CreateStep::FetchExisting { span } => Some(span.start_block),
        CreateStep::FetchMaxL1Head { span, .. } => Some(span.start_block),
        CreateStep::ReadHistoricHash { span, .. } => Some(span.start_block),
        CreateStep::ReadAnchor { span, .. } => Some(span.start_block),
        CreateStep::ReadCheckpointHeader { span, .. } => Some(span.start_block),
        CreateStep::SendCheckpoint { span, .. } => Some(span.start_block),
        CreateStep::Insert { request, .. } => Some(request.start_block),
        _ => None,
    }
}

/// No aggregation is built below `relayed_end`.
pub open spec fn builds_above(step: CreateStep, relayed_end: i64) -> bool {
    match step {
        CreateStep::ReadHead { relayed_end: given } => given == Some(relayed_end),
        _ => start_of(step) is Some ==> start_of(step)->0 >= relayed_end,
    }
}

/// A pass that relayed an aggregation never builds a second one over the blocks that it relayed,
/// however far the endpoint that reports the head lags behind.
pub proof fn law_no_second_aggregation_over_a_relayed_range(
    step: CreateStep,
    event: CreateEvent,
    proposer: Proposer,
    next: CreateStep,
    relayed_end: i64,
)
    requires
        builds_above(step, relayed_end),
        step.admits(event),
        step.leads_to(event, proposer, next),
    ensures
        builds_above(next, relayed_end),
{
}

/// A pass that relayed nothing goes on whatever the head is.
pub proof fn law_without_a_relay_creation_goes_on(number: u64, proposer: Proposer, next: CreateStep)
    requires
        (CreateStep::ReadHead { relayed_end: None }).leads_to(
            CreateEvent::Head { number },
            proposer,
            next,
        ),
    ensures
        next == (CreateStep::CountActive { latest_proposed: number as i64 }),
{
}

/// The blocks that the aggregation of a step covers, once their number was checked.
pub open spec fn checked_span(step: CreateStep) -> Option<Span> {
    match step {
        CreateStep::FetchExisting { span } => Some(span),
        CreateStep::FetchMaxL1Head { span, .. } => Some(span),
        CreateStep::ReadHistoricHash { span, .. } => Some(span),
        CreateStep::ReadAnchor { span, .. } => Some(span),
        CreateStep::ReadCheckpointHeader { span, .. } => Some(span),
        CreateStep::SendCheckpoint { span, .. } => Some(span),
        CreateStep::Insert { request, .. } => Some(
            Span { start_block: request.start_block, end_block: request.end_block },
        ),
        _ => None,
    }
}

/// The L1 block number that a step is about to checkpoint or to record, and the batch's largest L1
/// head.
pub open spec fn chosen_checkpoint(step: CreateStep) -> Option<(int, Option<u64>)> {
    match step {
        CreateStep::ReadCheckpointHeader { number, batch_max_l1_head, .. } => Some(
            (number as int, batch_max_l1_head),
        ),
        CreateStep::SendCheckpoint { number, batch_max_l1_head, .. } => Some(
            (number as int, batch_max_l1_head),
        ),
        CreateStep::Insert { request, batch_max_l1_head } => Some(
            (request.checkpointed_l1_block_number as int, batch_max_l1_head),
        ),
        _ => None,
    }
}

/// What holds at every step of a pass: an aggregation covers at least as many blocks as the
/// proposer was told, its checkpoint is not below the L1 head of any of its range proofs, and a
/// fresh checkpoint is anchored at a block that does not reorg.
pub open spec fn is_sound(step: CreateStep, proposer: Proposer) -> bool {
    &&& checked_span(step) matches Some(span) ==> span.end_block - span.start_block
        >= proposer.requester_config.submission_interval
    &&& chosen_checkpoint(step) matches Some((number, Some(max))) ==> number >= max
    &&& step matches CreateStep::ReadAnchor { anchor, .. } ==> anchor == BlockId::Number(
        BlockNumberOrTag::Safe,
    )
    &&& step matches CreateStep::ReadHistoricHash { number, .. } ==> number <= i64::MAX
    &&& step matches CreateStep::SendCheckpoint { number, .. } ==> number <= i64::MAX
}

/// The numbers that came back fit the database's columns, and a node that was asked for the header
/// of a block by its number answered with that block.
pub open spec fn is_plausible(step: CreateStep, event: CreateEvent) -> bool {
    &&& event matches CreateEvent::SubmissionInterval { blocks } ==> blocks <= i64::MAX
    &&& event matches CreateEvent::Header { header } ==> header_number_of(header) <= i64::MAX
    &&& (step matches CreateStep::ReadCheckpointHeader { number, .. } && event is Header)
        ==> header_number_of(event->header) == step->ReadCheckpointHeader_number
}

/// Every step of a pass leads to a sound one. In particular the request that is inserted in the end
/// covers enough blocks, and its checkpoint lets the guest reach every range proof.
pub proof fn law_created_aggregations_are_sound(
    step: CreateStep,
    event: CreateEvent,
    proposer: Proposer,
    next: CreateStep,
)
    requires
        proposer.requester_config.submission_interval <= i64::MAX,
        is_sound(step, proposer),
        step.admits(event),
        is_plausible(step, event),
        step.leads_to(event, proposer, next),
    ensures
        is_sound(next, proposer),
{
}

/// Every block of a span is proven by one of the ranges.
pub open spec fn covers(ranges: Seq<(i64, i64)>, span: Span) -> bool {
    forall|block: int|
        span.start_block <= block < span.end_block ==> #[trigger] is_proven(ranges, block)
}

/// Only blocks that range proofs cover are aggregated: the span of an aggregation starts at the
/// head, ends where the chain of completed ranges ends, and every block of it lies in one of those
/// ranges.
pub proof fn law_only_proven_blocks_are_aggregated(
    latest_proposed: i64,
    ranges: Vec<(i64, i64)>,
    proposer: Proposer,
    next: CreateStep,
)
    requires
        (CreateStep::FetchCompleted { latest_proposed }).leads_to(
            CreateEvent::Completed { ranges },
            proposer,
            next,
        ),
    ensures
        next matches CreateStep::ReadSubmissionInterval { span } ==> {
            &&& span.start_block == latest_proposed
            &&& spec_highest_contiguous_end(ranges@) == Ok::<_, RangeError>(Some(span.end_block))
            &&& covers(ranges@, span)
        },
{
    if let CreateStep::ReadSubmissionInterval { span } = next {
        law_a_sound_chain_ends_at_the_highest_proven_block(ranges@);
        assert forall|block: int| span.start_block <= block < span.end_block implies #[trigger]
        is_proven(ranges@, block) by {
            law_every_block_below_the_highest_is_proven(ranges@, block);
        }
    }
}

/// Nothing is aggregated over a gap: where the first completed range does not start at the head,
/// the pass ends without a checkpoint and without a request.
pub proof fn law_nothing_is_aggregated_over_a_gap(
    latest_proposed: i64,
    ranges: Vec<(i64, i64)>,
    proposer: Proposer,
    next: CreateStep,
)
    requires
        (CreateStep::FetchCompleted { latest_proposed }).leads_to(
            CreateEvent::Completed { ranges },
            proposer,
            next,
        ),
        ranges@.len() > 0,
        ranges@[0].0 != latest_proposed,
    ensures
        next is Done,
{
}

/// A request is inserted only with a checkpoint that the contract holds: one that was read back
/// from it under the recorded hash, or one whose transaction has just succeeded.
pub proof fn law_only_a_checkpointed_block_is_built_on(
    step: CreateStep,
    event: CreateEvent,
    proposer: Proposer,
    next: CreateStep,
)
    requires
        step.admits(event),
        step.leads_to(event, proposer, next),
        next is Insert,
    ensures
        (step matches CreateStep::ReadHistoricHash { hash, .. } && event
            matches CreateEvent::HistoricHash { hash: onchain } && hash@ == onchain@ && hash
            == next->request.checkpointed_l1_block_hash) || (step
            matches CreateStep::SendCheckpoint { hash, .. } && event
            matches CreateEvent::Receipt { success } && success && hash
            == next->request.checkpointed_l1_block_hash),
{
}

/// An upper bound on the number of steps that are left.
pub open spec fn steps_left(step: CreateStep) -> nat {
    match step {
        CreateStep::ReadHead { .. } => 11,
        CreateStep::CountActive { .. } => 10,
        CreateStep::FetchCompleted { .. } => 9,
        CreateStep::ReadSubmissionInterval { .. } => 8,
        CreateStep::FetchExisting { .. } => 7,
        CreateStep::FetchMaxL1Head { .. } => 6,
        CreateStep::ReadHistoricHash { .. } => 5,
        CreateStep::ReadAnchor { .. } => 4,
        CreateStep::ReadCheckpointHeader { .. } => 3,
        CreateStep::SendCheckpoint { .. } => 2,
        CreateStep::Insert { .. } => 1,
        CreateStep::Done { .. } => 0,
    }
}

/// A pass comes to an end, whatever the chain and the database answer.
pub proof fn law_a_pass_comes_to_an_end(
    step: CreateStep,
    event: CreateEvent,
    proposer: Proposer,
    next: CreateStep,
)
    requires
        step.admits(event),
        step.leads_to(event, proposer, next),
    ensures
        steps_left(next) < steps_left(step),
{
}

/// These are the steps of a pass from its start on, with what came of each of them but the last.
pub open spec fn is_pass(
    steps: Seq<CreateStep>,
    events: Seq<CreateEvent>,
    proposer: Proposer,
) -> bool {
    &&& steps.len() == events.len() + 1
    &&& steps[0] is ReadHead
    &&& forall|i: int| #![trigger events[i]]
        0 <= i < events.len() ==> steps[i].admits(events[i]) && steps[i].leads_to(
            events[i],
            proposer,
            steps[i + 1],
        )
}

/// A pass, as a whole: an aggregation that it inserts starts at the head that the pass read from
/// the contract, not below what the pass was told to have relayed, and ends where the chain of
/// completed ranges that the pass fetched ends. Each of its blocks lies in one of those ranges. It
/// covers at least as many blocks as the contract asks for and as the proposer was told, and has a
/// checkpoint that is not below the L1 head of any of its range proofs.
pub proof fn law_a_pass_inserts_only_sound_aggregations(
    steps: Seq<CreateStep>,
    events: Seq<CreateEvent>,
    proposer: Proposer,
)
    requires
        proposer.requester_config.submission_interval <= i64::MAX,
        is_pass(steps, events, proposer),
        forall|i: int| #![trigger events[i]]
            0 <= i < events.len() ==> is_plausible(steps[i], events[i]),
        steps.last() is Insert,
    ensures
        ({
            let request = steps.last()->request;
            let max = steps.last()->Insert_batch_max_l1_head;
            &&& events.len() > 0
            &&& events[0] matches CreateEvent::Head { number }
            &&& request.start_block == number as i64
            &&& steps[0]->relayed_end is Some ==> request.start_block >= steps[0]->relayed_end->0
            &&& events.len() > 3
            &&& events[2] matches CreateEvent::Completed { ranges }
            &&& spec_highest_contiguous_end(ranges@) == Ok::<_, RangeError>(Some(request.end_block))
            &&& covers(
                ranges@,
                Span { start_block: request.start_block, end_block: request.end_block },
            )
            &&& events[3] matches CreateEvent::SubmissionInterval { blocks }
            &&& request.end_block - request.start_block >= submission_interval(
                blocks,
                proposer.requester_config.submission_interval,
            )
            &&& request.end_block - request.start_block
                >= proposer.requester_config.submission_interval
            &&& max is Some ==> request.checkpointed_l1_block_number >= max->0
        }),
{
    lemma_pass_is_sound(steps, events, proposer, events.len() as int);
    lemma_pass_keeps_its_start(steps, events, proposer, events.len() as int);
    lemma_pass_keeps_its_span(steps, events, proposer, events.len() as int);
}

/// The completed ranges that a pass fetched prove every block of a span, and it ends where their
/// chain ends.
pub open spec fn span_is_proven(events: Seq<CreateEvent>, span: Span) -> bool {
    &&& events.len() > 2
    &&& events[2] matches CreateEvent::Completed { ranges }
    &&& spec_highest_contiguous_end(ranges@) == Ok::<_, RangeError>(Some(span.end_block))
    &&& covers(ranges@, span)
}

/// A pass keeps the span that it took from the completed ranges, and goes on only with one that is
/// as long as the contract and the configuration ask for.
proof fn lemma_pass_keeps_its_span(
    steps: Seq<CreateStep>,
    events: Seq<CreateEvent>,
    proposer: Proposer,
    n: int,
)
    requires
        is_pass(steps, events, proposer),
        0 <= n <= events.len(),
    ensures
        steps[n] is ReadHead ==> n == 0,
        steps[n] is CountActive ==> n == 1,
        steps[n] is FetchCompleted ==> n == 2,
        steps[n] matches CreateStep::ReadSubmissionInterval { span } ==> n == 3 && span_is_proven(
            events,
            span,
        ),
        checked_span(steps[n]) matches Some(span) ==> {
            &&& span_is_proven(events, span)
            &&& events.len() > 3
            &&& events[3] matches CreateEvent::SubmissionInterval { blocks }
            &&& span.end_block - span.start_block >= submission_interval(
                blocks,
                proposer.requester_config.submission_interval,
            )
        },
    decreases n,
{
    if n > 0 {
        lemma_pass_keeps_its_span(steps, events, proposer, n - 1);
        let event = events[n - 1];
        if let CreateStep::FetchCompleted { latest_proposed } = steps[n - 1] {
            if let CreateEvent::Completed { ranges } = event {
                law_only_proven_blocks_are_aggregated(latest_proposed, ranges, proposer, steps[n]);
            }
        }
    }
}

/// Every step of a pass is sound.
proof fn lemma_pass_is_sound(
    steps: Seq<CreateStep>,
    events: Seq<CreateEvent>,
    proposer: Proposer,
    n: int,
)
    requires
        proposer.requester_config.submission_interval <= i64::MAX,
        is_pass(steps, events, proposer),
        forall|i: int| #![trigger events[i]]
            0 <= i < events.len() ==> is_plausible(steps[i], events[i]),
        0 <= n <= events.len(),
    ensures
        is_sound(steps[n], proposer),
    decreases n,
{
    if n > 0 {
        lemma_pass_is_sound(steps, events, proposer, n - 1);
        let event = events[n - 1];
        law_created_aggregations_are_sound(steps[n - 1], event, proposer, steps[n]);
    }
}

/// A pass keeps the start block that it took from the contract's head.
proof fn lemma_pass_keeps_its_start(
    steps: Seq<CreateStep>,
    events: Seq<CreateEvent>,
    proposer: Proposer,
    n: int,
)
    requires
        is_pass(steps, events, proposer),
        0 <= n <= events.len(),
    ensures
        start_of(steps[n]) is Some ==> {
            &&& events.len() > 0
            &&& events[0] matches CreateEvent::Head { number }
            &&& start_of(steps[n]) == Some(number as i64)
            &&& spec_create_should_run(number as i64, steps[0]->relayed_end)
        },
        steps[n] is ReadHead ==> n == 0,
    decreases n,
{
    if n > 0 {
        lemma_pass_keeps_its_start(steps, events, proposer, n - 1);
        let event = events[n - 1];
    }
}

/// A pass takes at most eleven steps.
pub proof fn law_a_pass_is_short(
    steps: Seq<CreateStep>,
    events: Seq<CreateEvent>,
    proposer: Proposer,
)
    requires
        is_pass(steps, events, proposer),
    ensures
        events.len() <= 11,
{
    lemma_pass_uses_its_steps_up(steps, events, proposer, events.len() as int);
}

/// Each step of a pass uses up one of those that are left.
proof fn lemma_pass_uses_its_steps_up(
    steps: Seq<CreateStep>,
    events: Seq<CreateEvent>,
    proposer: Proposer,
    n: int,
)
    requires
        is_pass(steps, events, proposer),
        0 <= n <= events.len(),
    ensures
        steps_left(steps[n]) + n <= 11,
    decreases n,
{
    if n > 0 {
        lemma_pass_uses_its_steps_up(steps, events, proposer, n - 1);
        let event = events[n - 1];
        law_a_pass_comes_to_an_end(steps[n - 1], event, proposer, steps[n]);
    }
}

/// The request that is inserted after a checkpoint transaction has succeeded records the very block
/// that was checkpointed, by its number and its hash, and covers the span that it was checkpointed
/// for. After one that reverted nothing is inserted.
pub proof fn law_the_checkpointed_block_is_recorded(
    span: Span,
    number: u64,
    hash: B256,
    batch_max_l1_head: Option<u64>,
    success: bool,
    proposer: Proposer,
    next: CreateStep,
)
    requires
        call_ensures(
            CreateStep::next,
            (
                CreateStep::SendCheckpoint { span, number, hash, batch_max_l1_head },
                CreateEvent::Receipt { success },
                &proposer,
            ),
            next,
        ),
    ensures
        success ==> {
            &&& next matches CreateStep::Insert { request, batch_max_l1_head: kept }
            &&& request.checkpointed_l1_block_number == number as i64
            &&& request.checkpointed_l1_block_hash@ == hash@
            &&& request.start_block == span.start_block
            &&& request.end_block == span.end_block
            &&& kept == batch_max_l1_head
        },
        !success ==> next == (CreateStep::Done {
            end: CreateEnd::Failed(CreateError::CheckpointReverted),
        }),
{
}

/// The number and the hash that are checkpointed belong to one header: the one that was just read.
pub proof fn law_a_checkpoint_is_of_one_header(
    step: CreateStep,
    event: CreateEvent,
    proposer: Proposer,
    next: CreateStep,
)
    requires
        step.admits(event),
        call_ensures(CreateStep::next, (step, event, &proposer), next),
    ensures
        next matches CreateStep::SendCheckpoint { number, hash, .. } ==> {
            &&& event matches CreateEvent::Header { header }
            &&& number == header_number_of(header)
            &&& hash@ == header_hash_of(header)
        },
        step is ReadCheckpointHeader && event is Header ==> next is SendCheckpoint,
{
}

/// A pass, as a whole: number and hash of the checkpoint that an inserted request records belong to
/// one block. Either they are those of the header that the pass read last, and whose checkpoint
/// transaction has succeeded; or they are those of the earlier request that the pass found, and the
/// contract has answered with that hash. The largest L1 head that goes with the request is the one
/// that the pass fetched.
pub proof fn law_a_pass_records_one_checkpointed_block(
    steps: Seq<CreateStep>,
    events: Seq<CreateEvent>,
    proposer: Proposer,
)
    requires
        is_pass(steps, events, proposer),
        forall|i: int| #![trigger events[i]]
            0 <= i < events.len() ==> is_plausible(steps[i], events[i]),
        steps.last() is Insert,
    ensures
        ({
            let n = events.len() as int;
            let request = steps.last()->request;
            &&& n > 6
            &&& {
                ||| {
                    &&& events[n - 1] == (CreateEvent::Receipt { success: true })
                    &&& events[n - 2] matches CreateEvent::Header { header }
                    &&& request.checkpointed_l1_block_number == header_number_of(header)
                    &&& request.checkpointed_l1_block_hash@ == header_hash_of(header)
                }
                ||| {
                    &&& events[n - 1] matches CreateEvent::HistoricHash { hash }
                    &&& events[4] matches CreateEvent::Existing { existing: Some(existing) }
                    &&& request.checkpointed_l1_block_number == existing.number
                    &&& request.checkpointed_l1_block_hash@ == existing.hash@
                    &&& hash@ == existing.hash@
                }
            }
            &&& events[5] matches CreateEvent::MaxL1Head { number }
            &&& number is Some == steps.last()->Insert_batch_max_l1_head is Some
            &&& number is Some ==> number->0 == steps.last()->Insert_batch_max_l1_head->0
        }),
{
    let n = events.len() as int;
    lemma_pass_keeps_its_checkpoint(steps, events, proposer, n);
    lemma_pass_keeps_its_checkpoint(steps, events, proposer, n - 1);
    let last = events[n - 1];
    assert(steps[n - 1].leads_to(last, proposer, steps[n]));
    if steps[n - 1] is SendCheckpoint {
        let before = events[n - 2];
        assert(steps[n - 2].leads_to(before, proposer, steps[n - 1]));
    }
}

/// The largest L1 head that a step of a pass goes on with, once it is known.
pub open spec fn max_l1_head_of(step: CreateStep) -> Option<Option<u64>> {
    match step {
        CreateStep::ReadHistoricHash { batch_max_l1_head, .. } => Some(batch_max_l1_head),
        CreateStep::ReadAnchor { batch_max_l1_head, .. } => Some(batch_max_l1_head),
        CreateStep::ReadCheckpointHeader { batch_max_l1_head, .. } => Some(batch_max_l1_head),
        CreateStep::SendCheckpoint { batch_max_l1_head, .. } => Some(batch_max_l1_head),
        CreateStep::Insert { batch_max_l1_head, .. } => Some(batch_max_l1_head),
        _ => None,
    }
}

/// A pass keeps the earlier checkpoint that it found and the largest L1 head that it fetched.
proof fn lemma_pass_keeps_its_checkpoint(
    steps: Seq<CreateStep>,
    events: Seq<CreateEvent>,
    proposer: Proposer,
    n: int,
)
    requires
        is_pass(steps, events, proposer),
        0 <= n <= events.len(),
    ensures
        steps[n] is ReadHead ==> n == 0,
        steps[n] is CountActive ==> n == 1,
        steps[n] is FetchCompleted ==> n == 2,
        steps[n] is ReadSubmissionInterval ==> n == 3,
        steps[n] is FetchExisting ==> n == 4,
        steps[n] matches CreateStep::FetchMaxL1Head { existing, .. } ==> n == 5 && events[4]
            == (CreateEvent::Existing { existing }),
        steps[n] matches CreateStep::ReadHistoricHash { hash, number, .. } ==> {
            &&& n == 6
            &&& events[4] matches CreateEvent::Existing { existing: Some(existing) }
            &&& existing.number == number
            &&& existing.hash == hash
        },
        max_l1_head_of(steps[n]) matches Some(max) ==> {
            &&& n >= 6
            &&& events[5] matches CreateEvent::MaxL1Head { number }
            &&& number is Some == max is Some
            &&& number is Some ==> number->0 == max->0
        },
        steps[n] is Insert || steps[n] is SendCheckpoint ==> n > 6,
    decreases n,
{
    if n > 0 {
        lemma_pass_keeps_its_checkpoint(steps, events, proposer, n - 1);
        let event = events[n - 1];
        assert(steps[n - 1].leads_to(event, proposer, steps[n]));
    }
}

/// Every inserted request carries the proposer's own configuration, field by field: whether it is
/// only mocked, the programs and the rollup it is about, the chains, and the account that it is
/// proved for.
pub proof fn law_requests_carry_the_proposers_configuration(
    step: CreateStep,
    event: CreateEvent,
    proposer: Proposer,
    next: CreateStep,
)
    requires
        step.admits(event),
        call_ensures(CreateStep::next, (step, event, &proposer), next),
    ensures
        next matches CreateStep::Insert { request, .. } ==> {
            &&& request.mode == RequestMode::Mock <==> proposer.requester_config.mock
            &&& request.mode == RequestMode::Real <==> !proposer.requester_config.mock
            &&& request.commitments.range_vkey_commitment@
                == proposer.commitments.range_vkey_commitment@
            &&& request.commitments.agg_vkey_hash@ == proposer.commitments.agg_vkey_hash@
            &&& request.commitments.rollup_config_hash@ == proposer.commitments.rollup_config_hash@
            &&& request.chains.l1_chain_id == proposer.requester_config.chains.l1_chain_id
            &&& request.chains.l2_chain_id == proposer.requester_config.chains.l2_chain_id
            &&& request.prover_address@ == proposer.driver_config.signer_address@
        },
{
}

/// Once the blocks of an aggregation are known, they stay the same up to the inserted request.
pub proof fn law_the_span_is_kept(
    step: CreateStep,
    event: CreateEvent,
    proposer: Proposer,
    next: CreateStep,
)
    requires
        step.admits(event),
        call_ensures(CreateStep::next, (step, event, &proposer), next),
    ensures
        checked_span(next) is Some && checked_span(step) is Some ==> checked_span(next)
            == checked_span(step),
        checked_span(next) is Some && checked_span(step) is None ==> step
            == (CreateStep::ReadSubmissionInterval { span: checked_span(next)->0 }),
{
}

/// A head is built on exactly if it is not behind what the pass has relayed.
pub proof fn law_a_head_behind_the_relay_is_not_built_on(
    relayed_end: Option<i64>,
    number: u64,
    proposer: Proposer,
    next: CreateStep,
)
    requires
        call_ensures(
            CreateStep::next,
            (CreateStep::ReadHead { relayed_end }, CreateEvent::Head { number }, &proposer),
            next,
        ),
    ensures
        next == (CreateStep::Done { end: CreateEnd::HeadBehindRelay }) <==> relayed_end is Some && (
        number as i64) < relayed_end->0,
        next is CountActive <==> relayed_end is None || number as i64 >= relayed_end->0,
        next matches CreateStep::CountActive { latest_proposed } ==> latest_proposed == number as i64,
{
}

/// There is one aggregation at a time from a start block: while one is under way, no other is
/// created.
pub proof fn law_one_aggregation_at_a_time(
    latest_proposed: i64,
    count: i64,
    proposer: Proposer,
    next: CreateStep,
)
    requires
        call_ensures(
            CreateStep::next,
            (
                CreateStep::CountActive { latest_proposed },
                CreateEvent::ActiveCount { count },
                &proposer,
            ),
            next,
        ),
    ensures
        next == (CreateStep::Done { end: CreateEnd::AlreadyActive }) <==> count >= 1,
        next == (CreateStep::FetchCompleted { latest_proposed }) <==> count < 1,
{
}

/// Where the completed ranges from the first up to the one at `last` follow one another, and the
/// next one, if there is one, does not, the aggregation covers them from the head on, if the first
/// one starts there. It is an error if one of them holds no block, or if the next one starts before
/// they end.
pub proof fn law_an_aggregation_ends_at_the_first_gap(
    latest_proposed: i64,
    ranges: Vec<(i64, i64)>,
    last: int,
    proposer: Proposer,
    next: CreateStep,
)
    requires
        0 <= last < ranges@.len(),
        forall|i: int| 0 < i <= last ==> (#[trigger] ranges@[i]).0 == ranges@[i - 1].1,
        last + 1 < ranges@.len() ==> ranges@[last + 1].0 != ranges@[last].1,
        call_ensures(
            CreateStep::next,
            (
                CreateStep::FetchCompleted { latest_proposed },
                CreateEvent::Completed { ranges },
                &proposer,
            ),
            next,
        ),
    ensures
        ({
            let empty = exists|i: int| 0 <= i <= last && (#[trigger] ranges@[i]).0 >= ranges@[i].1;
            let overlapping = last + 1 < ranges@.len() && ranges@[last + 1].0 < ranges@[last].1;
            &&& next == (CreateStep::Done {
                end: CreateEnd::Failed(CreateError::BadRanges { error: RangeError::Empty }),
            }) <==> empty
            &&& next == (CreateStep::Done {
                end: CreateEnd::Failed(CreateError::BadRanges { error: RangeError::Overlapping }),
            }) <==> !empty && overlapping
            &&& next == (CreateStep::ReadSubmissionInterval {
                span: Span { start_block: latest_proposed, end_block: ranges@[last].1 },
            }) <==> !empty && !overlapping && ranges@[0].0 == latest_proposed
            &&& next == (CreateStep::Done { end: CreateEnd::NothingProven }) <==> !empty
                && !overlapping && ranges@[0].0 != latest_proposed
        }),
{
    lemma_chain_ends_where_it_breaks(ranges@, last);
}

/// Without completed ranges there is nothing to aggregate.
pub proof fn law_without_completed_ranges_nothing_is_aggregated(
    latest_proposed: i64,
    ranges: Vec<(i64, i64)>,
    proposer: Proposer,
    next: CreateStep,
)
    requires
        ranges@.len() == 0,
        call_ensures(
            CreateStep::next,
            (
                CreateStep::FetchCompleted { latest_proposed },
                CreateEvent::Completed { ranges },
                &proposer,
            ),
            next,
        ),
    ensures
        next == (CreateStep::Done { end: CreateEnd::NothingProven }),
{
}

/// An aggregation is long enough exactly if it covers as many blocks as the contract asks for, and
/// as many as the proposer was told: the larger of the two numbers decides.
pub proof fn law_an_aggregation_is_as_long_as_both_ask_for(
    span: Span,
    blocks: u64,
    larger: u64,
    proposer: Proposer,
    next: CreateStep,
)
    requires
        larger >= blocks,
        larger >= proposer.requester_config.submission_interval,
        larger == blocks || larger == proposer.requester_config.submission_interval,
        call_ensures(
            CreateStep::next,
            (
                CreateStep::ReadSubmissionInterval { span },
                CreateEvent::SubmissionInterval { blocks },
                &proposer,
            ),
            next,
        ),
    ensures
        next == (CreateStep::FetchExisting { span }) <==> span.end_block - span.start_block
            >= larger as i64,
        next == (CreateStep::Done { end: CreateEnd::TooShort }) <==> span.end_block - span.start_block
            < larger as i64,
        larger <= i64::MAX ==> (next is FetchExisting <==> span.end_block - span.start_block >= blocks
            && span.end_block - span.start_block >= proposer.requester_config.submission_interval),
{
}

/// An earlier checkpoint is handed on as it was found, and is looked up on the contract by its
/// number once the largest L1 head is known. Numbers below zero are refused; without an earlier
/// checkpoint a fresh one is anchored at the safe head.
pub proof fn law_an_earlier_checkpoint_is_looked_up(
    span: Span,
    existing: Option<ExistingCheckpoint>,
    number: Option<i64>,
    proposer: Proposer,
    found: CreateStep,
    next: CreateStep,
)
    requires
        call_ensures(
            CreateStep::next,
            (CreateStep::FetchExisting { span }, CreateEvent::Existing { existing }, &proposer),
            found,
        ),
        call_ensures(CreateStep::next, (found, CreateEvent::MaxL1Head { number }, &proposer), next),
    ensures
        found is FetchMaxL1Head,
        next == (CreateStep::Done { end: CreateEnd::Failed(CreateError::NegativeL1Head) })
            <==> number is Some && number->0 < 0,
        next == (CreateStep::Done { end: CreateEnd::Failed(CreateError::NegativeCheckpoint) })
            <==> !(number is Some && number->0 < 0) && existing is Some && existing->0.number < 0,
        next matches CreateStep::ReadHistoricHash { span: kept, hash, number: at, batch_max_l1_head }
            ==> {
            &&& kept == span
            &&& existing is Some
            &&& hash@ == existing->0.hash@
            &&& at == existing->0.number
            &&& number is None <==> batch_max_l1_head is None
            &&& number is Some ==> batch_max_l1_head->0 == number->0
        },
        next matches CreateStep::ReadAnchor { span: kept, anchor, reason, batch_max_l1_head } ==> {
            &&& kept == span
            &&& anchor == BlockId::Number(BlockNumberOrTag::Safe)
            &&& reason == RecheckpointReason::NoCachedCheckpoint
            &&& existing is None
            &&& number is None <==> batch_max_l1_head is None
            &&& number is Some ==> batch_max_l1_head->0 == number->0
        },
        next is Done || next is ReadHistoricHash || next is ReadAnchor,
{
}

/// An earlier checkpoint is built on exactly if the contract holds its hash, which is not the zero
/// hash, and no range proof of the batch has a later L1 head. Otherwise a fresh one is anchored at
/// the safe head.
pub proof fn law_an_earlier_checkpoint_is_built_on_if_it_still_serves(
    span: Span,
    hash: B256,
    number: u64,
    batch_max_l1_head: Option<u64>,
    onchain_hash: B256,
    proposer: Proposer,
    next: CreateStep,
)
    requires
        call_ensures(
            CreateStep::next,
            (
                CreateStep::ReadHistoricHash { span, hash, number, batch_max_l1_head },
                CreateEvent::HistoricHash { hash: onchain_hash },
                &proposer,
            ),
            next,
        ),
    ensures
        next is Insert <==> {
            &&& exists|k: int| 0 <= k < 32 && #[trigger] onchain_hash@[k] != 0
            &&& onchain_hash@ == hash@
            &&& batch_max_l1_head is Some ==> batch_max_l1_head->0 <= number
        },
        next matches CreateStep::Insert { request, batch_max_l1_head: kept } ==> {
            &&& request.checkpointed_l1_block_number == number as i64
            &&& request.checkpointed_l1_block_hash@ == hash@
            &&& kept == batch_max_l1_head
        },
        next is Insert || next is ReadAnchor,
        next matches CreateStep::ReadAnchor { anchor, reason, batch_max_l1_head: kept, .. } ==> {
            let held = exists|k: int| 0 <= k < 32 && #[trigger] onchain_hash@[k] != 0;
            &&& anchor == BlockId::Number(BlockNumberOrTag::Safe)
            &&& kept == batch_max_l1_head
            &&& reason == RecheckpointReason::NotOnChain <==> !held
            &&& reason == RecheckpointReason::HashMismatch <==> held && onchain_hash@ != hash@
            &&& reason == RecheckpointReason::BelowBatchMaxL1Head <==> held && onchain_hash@ == hash@
        },
{
    assert(onchain_hash@.len() == 32);
}

/// The anchor itself is checkpointed exactly if no range proof of the batch has a later L1 head;
/// otherwise the block at that head is.
pub proof fn law_a_fresh_checkpoint_reaches_every_range_proof(
    span: Span,
    anchor: BlockId,
    reason: RecheckpointReason,
    batch_max_l1_head: Option<u64>,
    header: alloy_consensus::Header,
    proposer: Proposer,
    next: CreateStep,
)
    requires
        call_ensures(
            CreateStep::next,
            (
                CreateStep::ReadAnchor { span, anchor, reason, batch_max_l1_head },
                CreateEvent::Header { header },
                &proposer,
            ),
            next,
        ),
    ensures
        next is SendCheckpoint <==> batch_max_l1_head is None || batch_max_l1_head->0
            <= header_number_of(header),
        next is SendCheckpoint || next is ReadCheckpointHeader,
        next matches CreateStep::ReadCheckpointHeader { span: kept, number, batch_max_l1_head: max }
            ==> kept == span && Some(number) == batch_max_l1_head && max == batch_max_l1_head,
        next matches CreateStep::SendCheckpoint { span: kept, batch_max_l1_head: max, .. } ==> kept
            == span && max == batch_max_l1_head,
{
}

/// A pass that inserted its request has created it, and no other has; a call that failed ends a
/// pass.
pub proof fn law_a_pass_creates_what_it_inserted(
    step: CreateStep,
    event: CreateEvent,
    proposer: Proposer,
    next: CreateStep,
)
    requires
        step.admits(event),
        call_ensures(CreateStep::next, (step, event, &proposer), next),
    ensures
        next == (CreateStep::Done { end: CreateEnd::Created }) <==> step is Insert && event
            is Inserted,
        next == (CreateStep::Done { end: CreateEnd::Failed(CreateError::CallFailed) }) <==> event
            is Failed,
{
}

/// A pass starts by reading the head, with what was relayed before it.
pub proof fn law_a_pass_starts_at_the_head(
    proposer: Proposer,
    relayed_end: Option<i64>,
    step: CreateStep,
)
    requires
        call_ensures(Proposer::create_aggregation_proofs, (&proposer, relayed_end), step),
    ensures
        is_pass(seq![step], Seq::empty(), proposer),
        step == (CreateStep::ReadHead { relayed_end }),
{
}

/// A head may be built on exactly if it is not behind what was relayed.
pub proof fn law_creation_runs_unless_the_head_is_behind(
    latest_proposed: i64,
    relayed_end: Option<i64>,
    run: bool,
)
    requires
        call_ensures(create_should_run, (latest_proposed, relayed_end), run),
    ensures
        !run <==> relayed_end is Some && latest_proposed < relayed_end->0,
{
}

} // verus!
