//! The proposer's loop: what one pass does in which order, and which failures it survives.
use vstd::prelude::*;

use crate::bytes::same_hash;
use crate::proposer::aggregation::{
    highest_contiguous_end, lemma_chain_ends_where_it_breaks, spec_highest_contiguous_end, RangeError,
};
use crate::proposer::cluster_status::ClusterStatusEnd;
use crate::proposer::create::{CreateEnd, CreateEvent, CreateStep};
use crate::proposer::proof_status::ProofStatusEnd;
use crate::proposer::ranges::RangesEnd;
use crate::proposer::relay::SubmitEnd;
use crate::proposer::tasks::QueueEnd;
use crate::proposer::Proposer;
use crate::relay_rejection::RelayRejection;
use crate::request::{CommitmentConfig, RequestStatus, ValidityGauge};

verus! {

/// Which of the contract's commitments are those of the proposer.
#[derive(Debug, Clone, Copy, PartialEq, Eq, Structural)]
pub struct ConfigMatch {
    pub rollup_config_hash: bool,
    pub agg_vkey_hash: bool,
    pub range_vkey_commitment: bool,
}

/// Which of the contract's commitments are those of the proposer.
pub open spec fn config_match(contract: CommitmentConfig, proposer: Proposer) -> ConfigMatch {
    ConfigMatch {
        rollup_config_hash: contract.rollup_config_hash@ == proposer.commitments.rollup_config_hash@,
        agg_vkey_hash: contract.agg_vkey_hash@ == proposer.commitments.agg_vkey_hash@,
        range_vkey_commitment: contract.range_vkey_commitment@
            == proposer.commitments.range_vkey_commitment@,
    }
}

/// What to do next while the proposer is started.
#[derive(Debug, Clone, PartialEq, Eq)]
pub enum InitializeStep {
    /// Read the contract's commitments, and check them.
    ValidateContractConfig,
    /// Delete the requests with one of these statuses: they cannot be taken up again.
    DeleteRequests { statuses: Vec<RequestStatus> },
    /// Cancel the requests that are being proved for other commitments.
    CancelMismatched,
    /// Find the gaps between the latest proposed and the finalized block, and add requests that
    /// cover them: see [`Proposer::add_new_ranges`].
    AddNewRanges,
    Done { succeeded: bool },
}

impl InitializeStep {
    /// `next` is what follows a step, by whether it succeeded.
    pub open spec fn leads_to(self, succeeded: bool, next: InitializeStep) -> bool {
        if !succeeded {
            next == (InitializeStep::Done { succeeded: false })
        } else {
            match self {
                InitializeStep::ValidateContractConfig => {
                    &&& next matches InitializeStep::DeleteRequests { statuses }
                    &&& statuses@ == seq![
                        RequestStatus::Unrequested,
                        RequestStatus::Execution,
                        RequestStatus::WitnessGeneration,
                    ]
                },
                InitializeStep::DeleteRequests { .. } => next == InitializeStep::CancelMismatched,
                InitializeStep::CancelMismatched => next == InitializeStep::AddNewRanges,
                _ => next == (InitializeStep::Done { succeeded: true }),
            }
        }
    }

    /// Goes on from a step, by whether it succeeded.
    pub fn next(self, succeeded: bool) -> (next: InitializeStep)
        requires
            !(self is Done),
        ensures
            self.leads_to(succeeded, next),
    {
        if !succeeded {
            return InitializeStep::Done { succeeded: false };
        }
        match self {
            InitializeStep::ValidateContractConfig => InitializeStep::DeleteRequests {
                statuses: vec![
                    RequestStatus::Unrequested,
                    RequestStatus::Execution,
                    RequestStatus::WitnessGeneration,
                ],
            },
            InitializeStep::DeleteRequests { .. } => InitializeStep::CancelMismatched,
            InitializeStep::CancelMismatched => InitializeStep::AddNewRanges,
            _ => InitializeStep::Done { succeeded: true },
        }
    }
}

/// These are the steps of an initialization from its start on, with whether each of them but the
/// last succeeded.
pub open spec fn is_initialization(steps: Seq<InitializeStep>, events: Seq<bool>) -> bool {
    &&& steps.len() == events.len() + 1
    &&& steps[0] is ValidateContractConfig
    &&& forall|i: int| #![trigger events[i]]
        0 <= i < events.len() ==> !(steps[i] is Done) && steps[i].leads_to(events[i], steps[i + 1])
}

/// An initialization, as a whole: it succeeds only once the contract was checked, what cannot be
/// taken up again was deleted, what was proved for other commitments was cancelled, and requests
/// were added for what nothing covers, in this order.
pub proof fn law_initialization_does_all_of_its_tasks(steps: Seq<InitializeStep>, events: Seq<bool>)
    requires
        is_initialization(steps, events),
        steps.last() == (InitializeStep::Done { succeeded: true }),
    ensures
        events == seq![true, true, true, true],
        steps[1] is DeleteRequests,
        steps[2] is CancelMismatched,
        steps[3] is AddNewRanges,
{
    let n = events.len() as int;
    assert(n > 0);
    let e0 = events[0];
    if n > 1 {
        let e1 = events[1];
    }
    if n > 2 {
        let e2 = events[2];
    }
    if n > 3 {
        let e3 = events[3];
    }
    if n > 4 {
        let e4 = events[4];
    }
    assert(events =~= seq![true, true, true, true]);
}

/// A gauge that shows a number.
#[derive(Debug, Clone, Copy, PartialEq, Eq, Structural)]
pub enum MetricGauge {
    CurrentUnrequestedProofs,
    CurrentProvingProofs,
    CurrentWitnessgenProofs,
    CurrentExecuteProofs,
    HighestProvenContiguousBlock,
    LatestContractL2Block,
    L2UnsafeHeadBlock,
    L2FinalizedBlock,
    MinBlockToProveToAgg,
}

/// The numbers that are gathered before the first gauges are set.
#[derive(Debug, Clone, Copy, PartialEq, Eq, Structural)]
pub struct Progress {
    pub latest_proposed: u64,
    pub highest_proven: u64,
}

/// What to do next while the metrics are gathered.
#[derive(Debug, Clone, Copy, PartialEq, Eq, Structural)]
pub enum MetricsStep {
    /// Read the latest block number that the contract holds.
    ReadHead,
    /// Fetch the completed ranges behind this block, in the order of their start blocks.
    FetchCompleted { latest_proposed: u64 },
    CountUnrequested { progress: Progress },
    CountProve { progress: Progress, unrequested: i64 },
    CountExecution { progress: Progress, unrequested: i64, prove: i64 },
    CountWitnessGeneration { progress: Progress, unrequested: i64, prove: i64, execution: i64 },
    /// Read the number of the latest L2 block.
    ReadUnsafeHead { progress: Progress },
    /// Read the number of the latest finalized L2 block.
    ReadFinalizedHead { progress: Progress },
    /// Read the contract's submission interval.
    ReadSubmissionInterval { progress: Progress },
    Done { error: Option<MetricsError> },
}

/// Why the metrics could not be gathered.
#[derive(Debug, Clone, Copy, PartialEq, Eq, Structural)]
pub enum MetricsError {
    BadRanges { error: RangeError },
    CallFailed,
}

/// What came of a step.
#[derive(Debug, Clone, PartialEq, Eq)]
pub enum MetricsEvent {
    Number { number: u64 },
    Completed { ranges: Vec<(i64, i64)> },
    Count { count: i64 },
    Failed,
}

/// The gauges that are set before the heads are read.
pub open spec fn count_readings(
    progress: Progress,
    unrequested: i64,
    prove: i64,
    execution: i64,
    witness_generation: i64,
) -> Seq<(MetricGauge, i128)> {
    seq![
        (MetricGauge::CurrentUnrequestedProofs, unrequested as i128),
        (MetricGauge::CurrentProvingProofs, prove as i128),
        (MetricGauge::CurrentWitnessgenProofs, witness_generation as i128),
        (MetricGauge::CurrentExecuteProofs, execution as i128),
        (MetricGauge::HighestProvenContiguousBlock, progress.highest_proven as i128),
        (MetricGauge::LatestContractL2Block, progress.latest_proposed as i128),
    ]
}

/// The block that completed range proofs must reach for the next aggregation.
pub open spec fn min_block_to_prove(latest_proposed: u64, contract: u64, configured: u64) -> int {
    latest_proposed + if contract > configured {
        contract as int
    } else {
        configured as int
    }
}

impl MetricsStep {
    /// The events that can come of a step.
    pub open spec fn admits(self, event: MetricsEvent) -> bool {
        match event {
            MetricsEvent::Failed => !(self is Done),
            MetricsEvent::Completed { .. } => self is FetchCompleted,
            MetricsEvent::Number { .. } => self is ReadHead || self is ReadUnsafeHead
                || self is ReadFinalizedHead || self is ReadSubmissionInterval,
            MetricsEvent::Count { .. } => self is CountUnrequested || self is CountProve
                || self is CountExecution || self is CountWitnessGeneration,
        }
    }

    /// What follows a step, by what came of it.
    pub open spec fn spec_next(self, event: MetricsEvent) -> MetricsStep {
        match (self, event) {
            (_, MetricsEvent::Failed) => MetricsStep::Done { error: Some(MetricsError::CallFailed) },
            (MetricsStep::ReadHead, MetricsEvent::Number { number }) => MetricsStep::FetchCompleted {
                latest_proposed: number,
            },
            (
                MetricsStep::FetchCompleted { latest_proposed },
                MetricsEvent::Completed { ranges },
            ) => match spec_highest_contiguous_end(ranges@) {
                Err(error) => MetricsStep::Done { error: Some(MetricsError::BadRanges { error }) },
                Ok(end) => MetricsStep::CountUnrequested {
                    progress: Progress {
                        latest_proposed,
                        highest_proven: match end {
                            Some(block) => block as u64,
                            None => latest_proposed,
                        },
                    },
                },
            },
            (MetricsStep::CountUnrequested { progress }, MetricsEvent::Count { count }) => {
                MetricsStep::CountProve { progress, unrequested: count }
            },
            (MetricsStep::CountProve { progress, unrequested }, MetricsEvent::Count { count }) => {
                MetricsStep::CountExecution { progress, unrequested, prove: count }
            },
            (
                MetricsStep::CountExecution { progress, unrequested, prove },
                MetricsEvent::Count { count },
            ) => MetricsStep::CountWitnessGeneration {
                progress,
                unrequested,
                prove,
                execution: count,
            },
            (MetricsStep::CountWitnessGeneration { progress, .. }, _) => {
                MetricsStep::ReadUnsafeHead { progress }
            },
            (MetricsStep::ReadUnsafeHead { progress }, _) => MetricsStep::ReadFinalizedHead {
                progress,
            },
            (MetricsStep::ReadFinalizedHead { progress }, _) => MetricsStep::ReadSubmissionInterval {
                progress,
            },
            _ => MetricsStep::Done { error: None },
        }
    }

    /// The gauges that a step sets, by what came of it.
    pub open spec fn spec_readings(self, event: MetricsEvent, proposer: Proposer) -> Seq<
        (MetricGauge, i128),
    > {
        match (self, event) {
            (
                MetricsStep::CountWitnessGeneration { progress, unrequested, prove, execution },
                MetricsEvent::Count { count },
            ) => count_readings(progress, unrequested, prove, execution, count),
            (MetricsStep::ReadUnsafeHead { .. }, MetricsEvent::Number { number }) => seq![
                (MetricGauge::L2UnsafeHeadBlock, number as i128),
            ],
            (MetricsStep::ReadFinalizedHead { .. }, MetricsEvent::Number { number }) => seq![
                (MetricGauge::L2FinalizedBlock, number as i128),
            ],
            (
                MetricsStep::ReadSubmissionInterval { progress },
                MetricsEvent::Number { number },
            ) => seq![
                (
                    MetricGauge::MinBlockToProveToAgg,
                    min_block_to_prove(
                        progress.latest_proposed,
                        number,
                        proposer.requester_config.submission_interval,
                    ) as i128,
                ),
            ],
            _ => Seq::empty(),
        }
    }

    /// Goes on from a step, by what came of it, and says which gauges to set.
    pub fn next(self, event: MetricsEvent, proposer: &Proposer) -> (result: (
        MetricsStep,
        Vec<(MetricGauge, i128)>,
    ))
        requires
            self.admits(event),
        ensures
            result.0 == self.spec_next(event),
            result.1@ == self.spec_readings(event, *proposer),
    {
        let mut readings: Vec<(MetricGauge, i128)> = Vec::new();
        if let MetricsEvent::Failed = event {
            return (MetricsStep::Done { error: Some(MetricsError::CallFailed) }, readings);
        }
        let next = match (self, event) {
            (MetricsStep::ReadHead, MetricsEvent::Number { number }) => MetricsStep::FetchCompleted {
                latest_proposed: number,
            },
            (
                MetricsStep::FetchCompleted { latest_proposed },
                MetricsEvent::Completed { ranges },
            ) => match highest_contiguous_end(ranges.as_slice()) {
                Err(error) => MetricsStep::Done { error: Some(MetricsError::BadRanges { error }) },
                Ok(end) => {
                    let highest_proven: u64 = match end {
                        Some(block) => block as u64,
                        None => latest_proposed,
                    };
                    MetricsStep::CountUnrequested {
                        progress: Progress { latest_proposed, highest_proven },
                    }
                },
            },
            (MetricsStep::CountUnrequested { progress }, MetricsEvent::Count { count }) => {
                MetricsStep::CountProve { progress, unrequested: count }
            },
            (MetricsStep::CountProve { progress, unrequested }, MetricsEvent::Count { count }) => {
                MetricsStep::CountExecution { progress, unrequested, prove: count }
            },
            (
                MetricsStep::CountExecution { progress, unrequested, prove },
                MetricsEvent::Count { count },
            ) => MetricsStep::CountWitnessGeneration {
                progress,
                unrequested,
                prove,
                execution: count,
            },
            (
                MetricsStep::CountWitnessGeneration { progress, unrequested, prove, execution },
                MetricsEvent::Count { count },
            ) => {
                readings.push((MetricGauge::CurrentUnrequestedProofs, unrequested as i128));
                readings.push((MetricGauge::CurrentProvingProofs, prove as i128));
                readings.push((MetricGauge::CurrentWitnessgenProofs, count as i128));
                readings.push((MetricGauge::CurrentExecuteProofs, execution as i128));
                readings.push(
                    (MetricGauge::HighestProvenContiguousBlock, progress.highest_proven as i128),
                );
                readings.push((MetricGauge::LatestContractL2Block, progress.latest_proposed as i128));
                MetricsStep::ReadUnsafeHead { progress }
            },
            (MetricsStep::ReadUnsafeHead { progress }, MetricsEvent::Number { number }) => {
                readings.push((MetricGauge::L2UnsafeHeadBlock, number as i128));
                MetricsStep::ReadFinalizedHead { progress }
            },
            (MetricsStep::ReadFinalizedHead { progress }, MetricsEvent::Number { number }) => {
                readings.push((MetricGauge::L2FinalizedBlock, number as i128));
                MetricsStep::ReadSubmissionInterval { progress }
            },
            (MetricsStep::ReadSubmissionInterval { progress }, MetricsEvent::Number { number }) => {
                let configured: u64 = proposer.requester_config.submission_interval;
                let interval: u64 = if number > configured {
                    number
                } else {
                    configured
                };
                readings.push(
                    (
                        MetricGauge::MinBlockToProveToAgg,
                        progress.latest_proposed as i128 + interval as i128,
                    ),
                );
                MetricsStep::Done { error: None }
            },
            _ => MetricsStep::Done { error: None },
        };
        (next, readings)
    }
}

/// What to do next about the requests that are being proved.
#[derive(Debug, Clone, Copy, PartialEq, Eq, Structural)]
pub enum ProvingStep {
    /// Fetch the requests that are being proved.
    FetchRequests,
    /// Follow the request at `at` out of `count`.
    Process { at: usize, count: usize },
    Done { succeeded: bool },
}

/// What came of a step.
#[derive(Debug, Clone, Copy, PartialEq, Eq, Structural)]
pub enum ProvingEvent {
    Fetched { count: usize },
    Processed,
    Failed,
}

impl ProvingStep {
    /// A step is about one of the requests.
    pub open spec fn wf(self) -> bool {
        self matches ProvingStep::Process { at, count } ==> at < count
    }

    /// The events that can come of a step.
    pub open spec fn admits(self, event: ProvingEvent) -> bool {
        match self {
            ProvingStep::FetchRequests => event is Fetched || event is Failed,
            ProvingStep::Process { .. } => event is Processed || event is Failed,
            ProvingStep::Done { .. } => false,
        }
    }

    /// What follows a step, by what came of it. A request on the cluster that could not be followed
    /// does not keep the others from being followed.
    pub open spec fn spec_next(self, event: ProvingEvent, cluster: bool) -> ProvingStep {
        match (self, event) {
            (ProvingStep::FetchRequests, ProvingEvent::Fetched { count }) => if count > 0 {
                ProvingStep::Process { at: 0, count }
            } else {
                ProvingStep::Done { succeeded: true }
            },
            (ProvingStep::Process { at, count }, _) => if event is Failed && !cluster {
                ProvingStep::Done { succeeded: false }
            } else if at + 1 < count {
                ProvingStep::Process { at: (at + 1) as usize, count }
            } else {
                ProvingStep::Done { succeeded: true }
            },
            _ => ProvingStep::Done { succeeded: false },
        }
    }

    /// Goes on from a step, by what came of it.
    pub fn next(self, event: ProvingEvent, cluster: bool) -> (next: ProvingStep)
        requires
            self.wf(),
            self.admits(event),
        ensures
            next.wf(),
            next == self.spec_next(event, cluster),
    {
        match (self, event) {
            (ProvingStep::FetchRequests, ProvingEvent::Fetched { count }) => {
                if count > 0 {
                    ProvingStep::Process { at: 0, count }
                } else {
                    ProvingStep::Done { succeeded: true }
                }
            },
            (ProvingStep::Process { at, count }, event) => {
                let failed: bool = match event {
                    ProvingEvent::Failed => true,
                    _ => false,
                };
                if failed && !cluster {
                    ProvingStep::Done { succeeded: false }
                } else if at + 1 < count {
                    ProvingStep::Process { at: at + 1, count }
                } else {
                    ProvingStep::Done { succeeded: true }
                }
            },
            _ => ProvingStep::Done { succeeded: false },
        }
    }
}

/// What one pass of the loop does next.
#[derive(Debug, Clone, Copy, PartialEq, Eq, Structural)]
pub enum IterationStep {
    ValidateContractConfig,
    LogMetrics,
    HandleOngoingTasks,
    SetOrphanedTasksToFailed,
    HandleProvingRequests,
    /// Check that the L1 heads of the completed range proofs are still part of the chain.
    ReconcileCanonicality,
    AddNewRanges,
    SubmitAggregations,
    /// With the end block of the aggregation that this pass relayed.
    CreateAggregations { relayed_end: Option<i64> },
    RequestQueuedProofs,
    UpdateChainLock,
    Done { succeeded: bool },
}

/// What came of a step.
#[derive(Debug, Clone, Copy, PartialEq, Eq, Structural)]
pub enum IterationEvent {
    Succeeded,
    /// Aggregations were submitted, and this is the end block of the one that landed, if one did.
    Submitted { relayed_end: Option<i64> },
    /// The completed range proofs were checked, and this says whether they can all be acted on.
    Reconciled { canonical: bool },
    Failed,
}

impl IterationStep {
    /// The events that can come of a step.
    pub open spec fn admits(self, event: IterationEvent) -> bool {
        match event {
            IterationEvent::Failed => !(self is Done),
            IterationEvent::Submitted { .. } => self is SubmitAggregations,
            IterationEvent::Reconciled { .. } => self is ReconcileCanonicality,
            IterationEvent::Succeeded => !(self is Done || self is SubmitAggregations
                || self is ReconcileCanonicality),
        }
    }

    /// A failure of the step does not end the pass: gathering metrics must never be able to stop
    /// the proposer, and a transaction that waits on the chain says nothing about whether the rest
    /// of the pass can go on.
    pub open spec fn may_fail(self) -> bool {
        self is LogMetrics || self is SubmitAggregations || self is CreateAggregations
    }

    /// What comes after a step. Aggregations are submitted before new ones are created: a rejection
    /// makes room for its replacement, which is then built in the same pass.
    pub open spec fn successor(self, relayed_end: Option<i64>) -> IterationStep {
        match self {
            IterationStep::ValidateContractConfig => IterationStep::LogMetrics,
            IterationStep::LogMetrics => IterationStep::HandleOngoingTasks,
            IterationStep::HandleOngoingTasks => IterationStep::SetOrphanedTasksToFailed,
            IterationStep::SetOrphanedTasksToFailed => IterationStep::HandleProvingRequests,
            IterationStep::HandleProvingRequests => IterationStep::ReconcileCanonicality,
            IterationStep::ReconcileCanonicality => IterationStep::AddNewRanges,
            IterationStep::AddNewRanges => IterationStep::SubmitAggregations,
            IterationStep::SubmitAggregations => IterationStep::CreateAggregations { relayed_end },
            IterationStep::CreateAggregations { .. } => IterationStep::RequestQueuedProofs,
            IterationStep::RequestQueuedProofs => IterationStep::UpdateChainLock,
            _ => IterationStep::Done { succeeded: true },
        }
    }

    /// What follows a step, by what came of it. While there are range proofs that cannot be acted
    /// on, nothing is scheduled or delivered; only the chain lock is renewed.
    pub open spec fn spec_next(self, event: IterationEvent) -> IterationStep {
        match event {
            IterationEvent::Reconciled { canonical: false } => IterationStep::UpdateChainLock,
            IterationEvent::Failed if !self.may_fail() => IterationStep::Done { succeeded: false },
            IterationEvent::Submitted { relayed_end } => self.successor(relayed_end),
            _ => self.successor(None),
        }
    }

    /// The gauge to count up: a failed submission or creation that the pass survives.
    pub open spec fn spec_gauge(self, event: IterationEvent) -> Option<ValidityGauge> {
        if event is Failed && (self is SubmitAggregations || self is CreateAggregations) {
            Some(ValidityGauge::TotalErrorCount)
        } else {
            None
        }
    }

    /// Goes on from a step, by what came of it, and says which gauge to count up.
    pub fn next(self, event: IterationEvent) -> (result: (IterationStep, Option<ValidityGauge>))
        requires
            self.admits(event),
        ensures
            result.0 == self.spec_next(event),
            result.1 == self.spec_gauge(event),
    {
        let failed: bool = match event {
            IterationEvent::Failed => true,
            _ => false,
        };
        let relayed: Option<i64> = match event {
            IterationEvent::Submitted { relayed_end } => relayed_end,
            _ => None,
        };
        match self {
            IterationStep::LogMetrics => (IterationStep::HandleOngoingTasks, None),
            IterationStep::SubmitAggregations => (
                IterationStep::CreateAggregations { relayed_end: relayed },
                if failed {
                    Some(ValidityGauge::TotalErrorCount)
                } else {
                    None
                },
            ),
            IterationStep::CreateAggregations { .. } => (
                IterationStep::RequestQueuedProofs,
                if failed {
                    Some(ValidityGauge::TotalErrorCount)
                } else {
                    None
                },
            ),
            step => {
                if failed {
                    return (IterationStep::Done { succeeded: false }, None);
                }
                let next = match step {
                    IterationStep::ValidateContractConfig => IterationStep::LogMetrics,
                    IterationStep::HandleOngoingTasks => IterationStep::SetOrphanedTasksToFailed,
                    IterationStep::SetOrphanedTasksToFailed => IterationStep::HandleProvingRequests,
                    IterationStep::HandleProvingRequests => IterationStep::ReconcileCanonicality,
                    IterationStep::ReconcileCanonicality => match event {
                        IterationEvent::Reconciled { canonical: false } => {
                            IterationStep::UpdateChainLock
                        },
                        _ => IterationStep::AddNewRanges,
                    },
                    IterationStep::AddNewRanges => IterationStep::SubmitAggregations,
                    IterationStep::RequestQueuedProofs => IterationStep::UpdateChainLock,
                    _ => IterationStep::Done { succeeded: true },
                };
                (next, None)
            },
        }
    }
}

/// What the end of a submission means for the pass: a rejection by the chain is an outcome, only
/// what was never delivered is a failure.
pub open spec fn spec_after_submission(end: SubmitEnd) -> IterationEvent {
    match end {
        SubmitEnd::Relayed { end_block } => IterationEvent::Submitted {
            relayed_end: Some(end_block),
        },
        SubmitEnd::NothingToRelay | SubmitEnd::Rejected { .. } => IterationEvent::Submitted {
            relayed_end: None,
        },
        SubmitEnd::DisputeGameConfigured | SubmitEnd::Failed => IterationEvent::Failed,
    }
}

/// What the end of a submission means for the pass.
pub fn after_submission(end: &SubmitEnd) -> (event: IterationEvent)
    ensures
        event == spec_after_submission(*end),
{
    match end {
        SubmitEnd::Relayed { end_block } => IterationEvent::Submitted {
            relayed_end: Some(*end_block),
        },
        SubmitEnd::NothingToRelay | SubmitEnd::Rejected { .. } => IterationEvent::Submitted {
            relayed_end: None,
        },
        SubmitEnd::DisputeGameConfigured | SubmitEnd::Failed => IterationEvent::Failed,
    }
}

/// What the end of a creation means for the pass.
pub fn after_creation(end: &CreateEnd) -> (event: IterationEvent)
    ensures
        event == if end is Failed {
            IterationEvent::Failed
        } else {
            IterationEvent::Succeeded
        },
{
    match end {
        CreateEnd::Failed(_) => IterationEvent::Failed,
        _ => IterationEvent::Succeeded,
    }
}

/// What the end of adding ranges means for the pass.
pub fn after_ranges(end: &RangesEnd) -> (event: IterationEvent)
    ensures
        event == if *end == RangesEnd::Failed {
            IterationEvent::Failed
        } else {
            IterationEvent::Succeeded
        },
{
    match end {
        RangesEnd::Failed => IterationEvent::Failed,
        _ => IterationEvent::Succeeded,
    }
}

/// What the end of requesting proofs means for the pass.
pub fn after_queue(end: &QueueEnd) -> (event: IterationEvent)
    ensures
        event == if *end == QueueEnd::Failed {
            IterationEvent::Failed
        } else {
            IterationEvent::Succeeded
        },
{
    match end {
        QueueEnd::Failed => IterationEvent::Failed,
        _ => IterationEvent::Succeeded,
    }
}

/// What the end of following a request on the network means for the requests behind it.
pub fn after_proof_status(end: &ProofStatusEnd) -> (event: ProvingEvent)
    ensures
        event == if end is Failed {
            ProvingEvent::Failed
        } else {
            ProvingEvent::Processed
        },
{
    match end {
        ProofStatusEnd::Failed(_) => ProvingEvent::Failed,
        _ => ProvingEvent::Processed,
    }
}

/// What the end of following a request on the cluster means for the requests behind it.
pub fn after_cluster_status(end: &ClusterStatusEnd) -> (event: ProvingEvent)
    ensures
        event == if end is Failed {
            ProvingEvent::Failed
        } else {
            ProvingEvent::Processed
        },
{
    match end {
        ClusterStatusEnd::Failed(_) => ProvingEvent::Failed,
        _ => ProvingEvent::Processed,
    }
}

/// A pass in which the chain rejected an aggregation goes on to build its replacement, on whatever
/// head it reads then.
pub proof fn law_a_rejected_aggregation_is_replaced_in_the_same_pass(
    rejection: RelayRejection,
    proposer: Proposer,
    number: u64,
    next: CreateStep,
)
    requires
        (CreateStep::ReadHead { relayed_end: None }).leads_to(
            CreateEvent::Head { number },
            proposer,
            next,
        ),
    ensures
        IterationStep::SubmitAggregations.spec_next(
            spec_after_submission(SubmitEnd::Rejected { rejection }),
        ) == (IterationStep::CreateAggregations { relayed_end: None }),
        next == (CreateStep::CountActive { latest_proposed: number as i64 }),
{
}

/// A pass that relayed an aggregation creates the next one only on a head that is not behind it.
pub proof fn law_creation_waits_for_the_relayed_head(
    end_block: i64,
    proposer: Proposer,
    number: u64,
    next: CreateStep,
)
    requires
        (CreateStep::ReadHead { relayed_end: Some(end_block) }).leads_to(
            CreateEvent::Head { number },
            proposer,
            next,
        ),
    ensures
        IterationStep::SubmitAggregations.spec_next(
            spec_after_submission(SubmitEnd::Relayed { end_block }),
        ) == (IterationStep::CreateAggregations { relayed_end: Some(end_block) }),
        next is Done <==> (number as i64) < end_block,
{
}

/// The pause after a pass that failed, in seconds.
pub const ERROR_PAUSE: u64 = 10;

/// What the proposer does next.
#[derive(Debug, Clone, Copy, PartialEq, Eq, Structural)]
pub enum RunStep {
    Initialize,
    InitializeGauges,
    Iterate,
    Sleep { seconds: u64 },
    /// The proposer could not be initialized.
    Stop,
}

impl RunStep {
    /// What follows a step, by whether it succeeded. A pass that failed is followed by a short
    /// pause, one that succeeded by the configured one; only a failed start ends the loop.
    pub open spec fn spec_next(self, succeeded: bool, proposer: Proposer) -> RunStep {
        match self {
            RunStep::Initialize => if succeeded {
                RunStep::InitializeGauges
            } else {
                RunStep::Stop
            },
            RunStep::InitializeGauges => RunStep::Iterate,
            RunStep::Iterate => RunStep::Sleep {
                seconds: if succeeded {
                    proposer.driver_config.loop_interval
                } else {
                    ERROR_PAUSE
                },
            },
            RunStep::Sleep { .. } => RunStep::Iterate,
            RunStep::Stop => RunStep::Stop,
        }
    }

    /// Goes on from a step, by whether it succeeded, and says which gauge to count up.
    pub fn next(self, succeeded: bool, proposer: &Proposer) -> (result: (
        RunStep,
        Option<ValidityGauge>,
    ))
        ensures
            result.0 == self.spec_next(succeeded, *proposer),
            result.1 == if self is Iterate && !succeeded {
                Some(ValidityGauge::TotalErrorCount)
            } else {
                None
            },
    {
        match self {
            RunStep::Initialize => {
                if succeeded {
                    (RunStep::InitializeGauges, None)
                } else {
                    (RunStep::Stop, None)
                }
            },
            RunStep::InitializeGauges => (RunStep::Iterate, None),
            RunStep::Iterate => {
                if succeeded {
                    (RunStep::Sleep { seconds: proposer.driver_config.loop_interval }, None)
                } else {
                    (
                        RunStep::Sleep { seconds: ERROR_PAUSE },
                        Some(ValidityGauge::TotalErrorCount),
                    )
                }
            },
            RunStep::Sleep { .. } => (RunStep::Iterate, None),
            RunStep::Stop => (RunStep::Stop, None),
        }
    }
}

impl Proposer {
    /// Checks that the contract's commitments are those of the proposer.
    pub fn validate_contract_config(&self, contract: &CommitmentConfig) -> (result: Result<
        (),
        ConfigMatch,
    >)
        ensures
            result is Ok <==> config_match(*contract, *self) == (ConfigMatch {
                rollup_config_hash: true,
                agg_vkey_hash: true,
                range_vkey_commitment: true,
            }),
            result matches Err(found) ==> found == config_match(*contract, *self),
    {
        let found = ConfigMatch {
            rollup_config_hash: same_hash(
                &contract.rollup_config_hash,
                &self.commitments.rollup_config_hash,
            ),
            agg_vkey_hash: same_hash(&contract.agg_vkey_hash, &self.commitments.agg_vkey_hash),
            range_vkey_commitment: same_hash(
                &contract.range_vkey_commitment,
                &self.commitments.range_vkey_commitment,
            ),
        };
        if !found.rollup_config_hash || !found.agg_vkey_hash || !found.range_vkey_commitment {
            Err(found)
        } else {
            Ok(())
        }
    }

    /// Starts to clean the database up.
    pub fn initialize_proposer(&self) -> (step: InitializeStep)
        ensures
            step == InitializeStep::ValidateContractConfig,
    {
        InitializeStep::ValidateContractConfig
    }

    /// Starts to gather the metrics.
    pub fn log_proposer_metrics(&self) -> (step: MetricsStep)
        ensures
            step == MetricsStep::ReadHead,
    {
        MetricsStep::ReadHead
    }

    /// Starts to follow the requests that are being proved. There are none where proofs are made
    /// synchronously.
    pub fn handle_proving_requests(&self, synchronous: bool) -> (step: ProvingStep)
        ensures
            step == if synchronous {
                ProvingStep::Done { succeeded: true }
            } else {
                ProvingStep::FetchRequests
            },
    {
        if synchronous {
            ProvingStep::Done { succeeded: true }
        } else {
            ProvingStep::FetchRequests
        }
    }

    /// Starts a pass of the loop.
    pub fn run_loop_iteration(&self) -> (step: IterationStep)
        ensures
            step == IterationStep::ValidateContractConfig,
    {
        IterationStep::ValidateContractConfig
    }

    /// Starts the proposer.
    pub fn run(&self) -> (step: RunStep)
        ensures
            step == RunStep::Initialize,
    {
        RunStep::Initialize
    }
}

/// A pass that succeeds has renewed the chain lock, as its last act.
pub proof fn law_a_successful_pass_renews_the_lock(step: IterationStep, event: IterationEvent)
    requires
        step.admits(event),
        step.spec_next(event) == (IterationStep::Done { succeeded: true }),
    ensures
        step == IterationStep::UpdateChainLock,
        event == IterationEvent::Succeeded,
{
}

/// Neither metrics nor a transaction that could not be sent end a pass: range proofs are still
/// requested and the lock is still renewed.
pub proof fn law_metrics_and_transactions_do_not_end_a_pass(step: IterationStep)
    requires
        step is LogMetrics || step is SubmitAggregations || step is CreateAggregations,
    ensures
        !(step.spec_next(IterationEvent::Failed) is Done),
{
}

/// Every other failure ends the pass at once.
pub proof fn law_other_failures_end_a_pass(step: IterationStep)
    requires
        step.admits(IterationEvent::Failed),
        !(step is LogMetrics || step is SubmitAggregations || step is CreateAggregations),
    ensures
        step.spec_next(IterationEvent::Failed) == (IterationStep::Done { succeeded: false }),
{
}

/// New aggregations are created only after completed ones were submitted, and with the end block of
/// the one that landed.
pub proof fn law_submission_comes_before_creation(step: IterationStep, event: IterationEvent)
    requires
        step.admits(event),
        step.spec_next(event) is CreateAggregations,
    ensures
        step is SubmitAggregations,
        event matches IterationEvent::Submitted { relayed_end } ==> step.spec_next(event)
            == (IterationStep::CreateAggregations { relayed_end }),
        event is Failed ==> step.spec_next(event) == (IterationStep::CreateAggregations {
            relayed_end: None,
        }),
{
}

/// An upper bound on the number of steps of a pass that are left.
pub open spec fn steps_left(step: IterationStep) -> nat {
    match step {
        IterationStep::ValidateContractConfig => 11,
        IterationStep::LogMetrics => 10,
        IterationStep::HandleOngoingTasks => 9,
        IterationStep::SetOrphanedTasksToFailed => 8,
        IterationStep::HandleProvingRequests => 7,
        IterationStep::ReconcileCanonicality => 6,
        IterationStep::AddNewRanges => 5,
        IterationStep::SubmitAggregations => 4,
        IterationStep::CreateAggregations { .. } => 3,
        IterationStep::RequestQueuedProofs => 2,
        IterationStep::UpdateChainLock => 1,
        IterationStep::Done { .. } => 0,
    }
}

/// A pass comes to an end, whatever its steps come to.
pub proof fn law_a_pass_comes_to_an_end(step: IterationStep, event: IterationEvent)
    requires
        step.admits(event),
    ensures
        steps_left(step.spec_next(event)) < steps_left(step),
{
}

/// These are the steps of a pass of the loop from its start on, with what came of each of them but
/// the last.
pub open spec fn is_iteration(steps: Seq<IterationStep>, events: Seq<IterationEvent>) -> bool {
    &&& steps.len() == events.len() + 1
    &&& steps[0] == IterationStep::ValidateContractConfig
    &&& forall|i: int| #![trigger events[i]]
        0 <= i < events.len() ==> steps[i].admits(events[i]) && steps[i + 1]
            == steps[i].spec_next(events[i])
}

/// A pass of the loop, as a whole: if nothing fails in it but metrics, submissions and creations,
/// it renews the chain lock as its last act, and succeeds.
pub proof fn law_a_pass_renews_the_lock_whatever_the_chain_does(
    steps: Seq<IterationStep>,
    events: Seq<IterationEvent>,
)
    requires
        is_iteration(steps, events),
        forall|i: int| #![trigger events[i]]
            0 <= i < events.len() && events[i] is Failed ==> steps[i].may_fail(),
        steps.last() is Done,
    ensures
        events.len() > 0,
        steps[events.len() - 1] == IterationStep::UpdateChainLock,
        steps.last() == (IterationStep::Done { succeeded: true }),
{
    let n = events.len() as int;
    assert(n > 0);
    let event = events[n - 1];
    assert(steps[n - 1].admits(event));
}

/// A pass of the loop, as a whole: if all range proofs can be acted on, and nothing fails in it but
/// metrics, submissions and creations, it requests queued proofs.
pub proof fn law_a_pass_requests_proofs_whatever_the_chain_does(
    steps: Seq<IterationStep>,
    events: Seq<IterationEvent>,
)
    requires
        is_iteration(steps, events),
        forall|i: int| #![trigger events[i]]
            0 <= i < events.len() ==> (events[i] is Failed ==> steps[i].may_fail()) && events[i]
                != (IterationEvent::Reconciled { canonical: false }),
        steps.last() is Done,
    ensures
        events.len() == 11,
        steps[9] == IterationStep::RequestQueuedProofs,
{
    let n = events.len() as int;
    lemma_iteration_goes_on(steps, events, n);
    if n >= 9 {
        lemma_iteration_goes_on(steps, events, 9);
    }
}

/// A pass in which nothing fails that may not, and all range proofs can be acted on, takes its
/// steps one after the other.
proof fn lemma_iteration_goes_on(steps: Seq<IterationStep>, events: Seq<IterationEvent>, n: int)
    requires
        is_iteration(steps, events),
        forall|i: int| #![trigger events[i]]
            0 <= i < events.len() ==> (events[i] is Failed ==> steps[i].may_fail()) && events[i]
                != (IterationEvent::Reconciled { canonical: false }),
        0 <= n <= events.len(),
    ensures
        n <= 11,
        steps_left(steps[n]) == 11 - n,
    decreases n,
{
    if n > 0 {
        lemma_iteration_goes_on(steps, events, n - 1);
        let event = events[n - 1];
        assert(steps[n - 1].admits(event));
    }
}

/// While there are range proofs that cannot be acted on, a pass adds no ranges, relays and creates
/// no aggregations and requests no proofs, but renews the chain lock.
pub proof fn law_nothing_is_done_with_unverified_range_proofs(step: IterationStep)
    requires
        step.admits(IterationEvent::Reconciled { canonical: false }),
    ensures
        step.spec_next(IterationEvent::Reconciled { canonical: false })
            == IterationStep::UpdateChainLock,
        forall|event: IterationEvent| #[trigger]
            IterationStep::UpdateChainLock.admits(event)
                ==> IterationStep::UpdateChainLock.spec_next(event) is Done,
{
}

/// Once it has started, the proposer never stops by itself.
pub proof fn law_a_started_proposer_goes_on(step: RunStep, succeeded: bool, proposer: Proposer)
    requires
        !(step is Initialize || step is Stop),
    ensures
        !(step.spec_next(succeeded, proposer) is Initialize),
        !(step.spec_next(succeeded, proposer) is Stop),
{
}

/// On the cluster, every request is followed, whatever becomes of the others.
pub proof fn law_cluster_requests_do_not_hinder_one_another(at: usize, count: usize, event: ProvingEvent)
    requires
        at < count,
        (ProvingStep::Process { at, count }).admits(event),
    ensures
        (ProvingStep::Process { at, count }).spec_next(event, true) == if at + 1 < count {
            ProvingStep::Process { at: (at + 1) as usize, count }
        } else {
            ProvingStep::Done { succeeded: true }
        },
{
}

/// The contract is the proposer's own exactly if its rollup config hash, its aggregation key and
/// its range key are; otherwise the error says of each of the three whether it is.
pub proof fn law_each_commitment_is_held_against_its_own(
    proposer: Proposer,
    contract: CommitmentConfig,
    result: Result<(), ConfigMatch>,
)
    requires
        call_ensures(Proposer::validate_contract_config, (&proposer, &contract), result),
    ensures
        ({
            let rollup = contract.rollup_config_hash@ == proposer.commitments.rollup_config_hash@;
            let aggregation = contract.agg_vkey_hash@ == proposer.commitments.agg_vkey_hash@;
            let range = contract.range_vkey_commitment@
                == proposer.commitments.range_vkey_commitment@;
            &&& result is Ok <==> rollup && aggregation && range
            &&& result matches Err(found) ==> {
                &&& found.rollup_config_hash <==> rollup
                &&& found.agg_vkey_hash <==> aggregation
                &&& found.range_vkey_commitment <==> range
            }
        }),
{
}

/// While the proposer is started, exactly the requests that no prover has yet are deleted: those
/// that are not requested, in witness generation or in execution.
pub proof fn law_only_requests_without_a_prover_are_deleted(
    step: InitializeStep,
    succeeded: bool,
    next: InitializeStep,
    status: RequestStatus,
)
    requires
        !(step is Done),
        call_ensures(InitializeStep::next, (step, succeeded), next),
    ensures
        next matches InitializeStep::DeleteRequests { statuses } ==> (statuses@.contains(status)
            <==> status is Unrequested || status is WitnessGeneration || status is Execution),
{
    if let InitializeStep::DeleteRequests { statuses } = next {
        assert(statuses@[0] is Unrequested && statuses@[1] is Execution
            && statuses@[2] is WitnessGeneration);
    }
}

/// Each step of an initialization follows from one, which must have succeeded; a step that failed
/// ends it.
pub proof fn law_an_initialization_takes_its_steps_in_order(
    step: InitializeStep,
    succeeded: bool,
    next: InitializeStep,
)
    requires
        !(step is Done),
        call_ensures(InitializeStep::next, (step, succeeded), next),
    ensures
        next is DeleteRequests <==> step is ValidateContractConfig && succeeded,
        next is CancelMismatched <==> step is DeleteRequests && succeeded,
        next is AddNewRanges <==> step is CancelMismatched && succeeded,
        next == (InitializeStep::Done { succeeded: true }) <==> step is AddNewRanges && succeeded,
        next == (InitializeStep::Done { succeeded: false }) <==> !succeeded,
{
}

/// The proposer's tasks start at their first steps. There is nothing to follow where proofs are
/// made synchronously.
pub proof fn law_each_task_starts_at_its_first_step(
    proposer: Proposer,
    synchronous: bool,
    initialize: InitializeStep,
    metrics: MetricsStep,
    proving: ProvingStep,
    iteration: IterationStep,
    run: RunStep,
)
    requires
        call_ensures(Proposer::initialize_proposer, (&proposer,), initialize),
        call_ensures(Proposer::log_proposer_metrics, (&proposer,), metrics),
        call_ensures(Proposer::handle_proving_requests, (&proposer, synchronous), proving),
        call_ensures(Proposer::run_loop_iteration, (&proposer,), iteration),
        call_ensures(Proposer::run, (&proposer,), run),
    ensures
        is_initialization(seq![initialize], Seq::empty()),
        is_gathering(seq![metrics], Seq::empty()),
        is_iteration(seq![iteration], Seq::empty()),
        run is Initialize,
        proving is FetchRequests <==> !synchronous,
        proving == (ProvingStep::Done { succeeded: true }) <==> synchronous,
{
}

/// These are the steps of gathering the metrics from its start on, with what came of each of them
/// but the last.
pub open spec fn is_gathering(steps: Seq<MetricsStep>, events: Seq<MetricsEvent>) -> bool {
    &&& steps.len() == events.len() + 1
    &&& steps[0] is ReadHead
    &&& forall|i: int| #![trigger events[i]]
        0 <= i < events.len() ==> steps[i].admits(events[i]) && steps[i + 1]
            == steps[i].spec_next(events[i])
}

/// Gathering metrics takes its steps in one order, and keeps what it has counted.
proof fn lemma_metrics_are_gathered_in_order(steps: Seq<MetricsStep>, events: Seq<MetricsEvent>, n: int)
    requires
        is_gathering(steps, events),
        0 <= n <= events.len(),
    ensures
        steps[n] is ReadHead ==> n == 0,
        steps[n] matches MetricsStep::FetchCompleted { latest_proposed } ==> n == 1 && events[0]
            == (MetricsEvent::Number { number: latest_proposed }),
        steps[n] is CountUnrequested ==> n == 2,
        steps[n] matches MetricsStep::CountProve { unrequested, .. } ==> n == 3 && events[2]
            == (MetricsEvent::Count { count: unrequested }),
        steps[n] matches MetricsStep::CountExecution { unrequested, prove, .. } ==> n == 4
            && events[2] == (MetricsEvent::Count { count: unrequested }) && events[3]
            == (MetricsEvent::Count { count: prove }),
        steps[n] matches MetricsStep::CountWitnessGeneration { unrequested, prove, execution, .. }
            ==> n == 5 && events[2] == (MetricsEvent::Count { count: unrequested }) && events[3]
            == (MetricsEvent::Count { count: prove }) && events[4] == (MetricsEvent::Count {
            count: execution,
        }),
        steps[n] is ReadUnsafeHead ==> n == 6,
        steps[n] is ReadFinalizedHead ==> n == 7,
        steps[n] is ReadSubmissionInterval ==> n == 8,
        steps[n] is Done ==> n > 0,
        progress_of(steps[n]) matches Some(progress) ==> n > 1 && events[0]
            == (MetricsEvent::Number { number: progress.latest_proposed }) && progress_of(steps[2])
            == Some(progress),
    decreases n,
{
    if n > 0 {
        lemma_metrics_are_gathered_in_order(steps, events, n - 1);
        let event = events[n - 1];
        assert(steps[n - 1].admits(event) && steps[n] == steps[n - 1].spec_next(event));
    }
}

/// What is known of the progress at a step.
pub open spec fn progress_of(step: MetricsStep) -> Option<Progress> {
    match step {
        MetricsStep::CountUnrequested { progress } => Some(progress),
        MetricsStep::CountProve { progress, .. } => Some(progress),
        MetricsStep::CountExecution { progress, .. } => Some(progress),
        MetricsStep::CountWitnessGeneration { progress, .. } => Some(progress),
        MetricsStep::ReadUnsafeHead { progress } => Some(progress),
        MetricsStep::ReadFinalizedHead { progress } => Some(progress),
        MetricsStep::ReadSubmissionInterval { progress } => Some(progress),
        _ => None,
    }
}

/// Each gauge shows the number that was gathered for it: the counts of requests by their status,
/// the head of the contract, the heads of the chain, and the block that the next aggregation must
/// reach, which is as far behind the head as the contract and the configuration both ask for.
pub proof fn law_each_gauge_shows_its_own_number(
    steps: Seq<MetricsStep>,
    events: Seq<MetricsEvent>,
    proposer: Proposer,
    n: int,
    next: MetricsStep,
    readings: Vec<(MetricGauge, i128)>,
    gauge: MetricGauge,
    value: i128,
)
    requires
        is_gathering(steps, events),
        0 <= n < events.len(),
        call_ensures(MetricsStep::next, (steps[n], events[n], &proposer), (next, readings)),
        readings@.contains((gauge, value)),
    ensures
        match gauge {
            MetricGauge::CurrentUnrequestedProofs => events[2] matches MetricsEvent::Count { count }
                && value == count,
            MetricGauge::CurrentProvingProofs => events[3] matches MetricsEvent::Count { count }
                && value == count,
            MetricGauge::CurrentExecuteProofs => events[4] matches MetricsEvent::Count { count }
                && value == count,
            MetricGauge::CurrentWitnessgenProofs => events[5] matches MetricsEvent::Count { count }
                && value == count,
            MetricGauge::HighestProvenContiguousBlock => progress_of(steps[2]) is Some && value
                == progress_of(steps[2])->0.highest_proven,
            MetricGauge::LatestContractL2Block => events[0] matches MetricsEvent::Number { number }
                && value == number,
            MetricGauge::L2UnsafeHeadBlock => events[6] matches MetricsEvent::Number { number }
                && value == number,
            MetricGauge::L2FinalizedBlock => events[7] matches MetricsEvent::Number { number }
                && value == number,
            MetricGauge::MinBlockToProveToAgg => {
                &&& events[0] matches MetricsEvent::Number { number: head }
                &&& events[8] matches MetricsEvent::Number { number: interval }
                &&& value >= head + interval
                &&& value >= head + proposer.requester_config.submission_interval
                &&& value == head + interval || value == head
                    + proposer.requester_config.submission_interval
            },
        },
{
    lemma_metrics_are_gathered_in_order(steps, events, n);
    let event = events[n];
    assert(steps[n].admits(event));
    let k = choose|k: int| 0 <= k < readings@.len() && readings@[k] == (gauge, value);
    assert(readings@.len() <= 6);
    assert(readings@[k] == (gauge, value));
    assert(readings@ == steps[n].spec_readings(event, proposer));
}

/// Gathering that succeeds sets every gauge: the counts and the blocks that are known by then once
/// the last count is there, the heads and the next aggregation's block one after the other.
pub proof fn law_every_gauge_is_set(
    step: MetricsStep,
    event: MetricsEvent,
    proposer: Proposer,
    next: MetricsStep,
    readings: Vec<(MetricGauge, i128)>,
    gauge: MetricGauge,
)
    requires
        step.admits(event),
        !(event is Failed),
        call_ensures(MetricsStep::next, (step, event, &proposer), (next, readings)),
    ensures
        (exists|value: i128| #[trigger] readings@.contains((gauge, value))) <==> match gauge {
            MetricGauge::L2UnsafeHeadBlock => step is ReadUnsafeHead,
            MetricGauge::L2FinalizedBlock => step is ReadFinalizedHead,
            MetricGauge::MinBlockToProveToAgg => step is ReadSubmissionInterval,
            _ => step is CountWitnessGeneration,
        },
        next == (MetricsStep::Done { error: None }) <==> step is ReadSubmissionInterval,
{
    let shown = readings@;
    assert(shown == step.spec_readings(event, proposer));
    if step is CountWitnessGeneration {
        assert(shown.contains(shown[0]) && shown.contains(shown[1]) && shown.contains(shown[2]));
        assert(shown.contains(shown[3]) && shown.contains(shown[4]) && shown.contains(shown[5]));
        assert(shown[0].0 is CurrentUnrequestedProofs && shown[1].0 is CurrentProvingProofs);
        assert(shown[2].0 is CurrentWitnessgenProofs && shown[3].0 is CurrentExecuteProofs);
        assert(shown[4].0 is HighestProvenContiguousBlock && shown[5].0 is LatestContractL2Block);
        let at = match gauge {
            MetricGauge::CurrentUnrequestedProofs => 0int,
            MetricGauge::CurrentProvingProofs => 1int,
            MetricGauge::CurrentWitnessgenProofs => 2int,
            MetricGauge::CurrentExecuteProofs => 3int,
            MetricGauge::HighestProvenContiguousBlock => 4int,
            _ => 5int,
        };
        assert(shown.contains((shown[at].0, shown[at].1)));
    } else if shown.len() == 1 {
        assert(shown.contains((shown[0].0, shown[0].1)));
    }
}

/// Where the completed ranges from the first up to the one at `last` follow one another, and the
/// next one, if there is one, does not, the highest proven block is the end of that one; without
/// completed ranges it is the contract's head. Ranges that do not form a sound chain end the
/// gathering.
pub proof fn law_the_highest_proven_block_is_before_the_first_gap(
    latest_proposed: u64,
    ranges: Vec<(i64, i64)>,
    last: int,
    proposer: Proposer,
    next: MetricsStep,
    readings: Vec<(MetricGauge, i128)>,
)
    requires
        ranges@.len() > 0 ==> 0 <= last < ranges@.len(),
        forall|i: int|
            0 < i <= last && i < ranges@.len() ==> (#[trigger] ranges@[i]).0 == ranges@[i - 1].1,
        last + 1 < ranges@.len() ==> ranges@[last + 1].0 != ranges@[last].1,
        call_ensures(
            MetricsStep::next,
            (
                MetricsStep::FetchCompleted { latest_proposed },
                MetricsEvent::Completed { ranges },
                &proposer,
            ),
            (next, readings),
        ),
    ensures
        readings@.len() == 0,
        ranges@.len() == 0 ==> next == (MetricsStep::CountUnrequested {
            progress: Progress { latest_proposed, highest_proven: latest_proposed },
        }),
        ranges@.len() > 0 ==> {
            let empty = exists|i: int| 0 <= i <= last && (#[trigger] ranges@[i]).0 >= ranges@[i].1;
            let overlapping = last + 1 < ranges@.len() && ranges@[last + 1].0 < ranges@[last].1;
            &&& next == (MetricsStep::Done {
                error: Some(MetricsError::BadRanges { error: RangeError::Empty }),
            }) <==> empty
            &&& next == (MetricsStep::Done {
                error: Some(MetricsError::BadRanges { error: RangeError::Overlapping }),
            }) <==> !empty && overlapping
            &&& !empty && !overlapping ==> {
                &&& next matches MetricsStep::CountUnrequested { progress }
                &&& progress.latest_proposed == latest_proposed
                &&& progress.highest_proven == ranges@[last].1 as u64
            }
        },
{
    if ranges@.len() > 0 {
        lemma_chain_ends_where_it_breaks(ranges@, last);
    }
}

/// Each step of the gathering follows from one; a call that failed ends it, and sets nothing.
pub proof fn law_metrics_are_gathered_in_order(
    step: MetricsStep,
    event: MetricsEvent,
    proposer: Proposer,
    next: MetricsStep,
    readings: Vec<(MetricGauge, i128)>,
)
    requires
        step.admits(event),
        call_ensures(MetricsStep::next, (step, event, &proposer), (next, readings)),
    ensures
        next == (MetricsStep::Done { error: Some(MetricsError::CallFailed) }) <==> event is Failed,
        event is Failed ==> readings@.len() == 0,
        !(event is Failed) ==> {
            &&& next is FetchCompleted <==> step is ReadHead
            &&& next is CountProve <==> step is CountUnrequested
            &&& next is CountExecution <==> step is CountProve
            &&& next is CountWitnessGeneration <==> step is CountExecution
            &&& next is ReadUnsafeHead <==> step is CountWitnessGeneration
            &&& next is ReadFinalizedHead <==> step is ReadUnsafeHead
            &&& next is ReadSubmissionInterval <==> step is ReadFinalizedHead
        },
{
}

/// The requests that are being proved are followed one after the other, from the first to the last.
/// A request that could not be followed ends the pass on the network, and does not on the cluster.
pub proof fn law_requests_are_followed_one_after_the_other(
    step: ProvingStep,
    event: ProvingEvent,
    cluster: bool,
    next: ProvingStep,
)
    requires
        step.wf(),
        step.admits(event),
        call_ensures(ProvingStep::next, (step, event, cluster), next),
    ensures
        step is FetchRequests && event is Failed ==> next == (ProvingStep::Done { succeeded: false }),
        event matches ProvingEvent::Fetched { count } ==> {
            &&& count > 0 ==> next == (ProvingStep::Process { at: 0, count })
            &&& count == 0 ==> next == (ProvingStep::Done { succeeded: true })
        },
        step matches ProvingStep::Process { at, count } ==> {
            &&& next == (ProvingStep::Done { succeeded: false }) <==> event is Failed && !cluster
            &&& next is Process <==> at + 1 < count && (event is Processed || cluster)
            &&& next matches ProvingStep::Process { at: then, count: of } ==> then == at + 1 && of
                == count
            &&& next == (ProvingStep::Done { succeeded: true }) <==> at + 1 == count && (event
                is Processed || cluster)
        },
{
}

/// A pass of the loop takes its steps in one order, and each only once the one before it is done:
/// the contract is checked, metrics are logged, tasks are handled, orphans failed, proofs followed,
/// range proofs reconciled, ranges added, aggregations submitted, then created, proofs requested,
/// and the lock renewed.
pub proof fn law_a_pass_takes_its_steps_in_order(
    step: IterationStep,
    event: IterationEvent,
    next: IterationStep,
    gauge: Option<ValidityGauge>,
)
    requires
        step.admits(event),
        call_ensures(IterationStep::next, (step, event), (next, gauge)),
    ensures
        !(next is ValidateContractConfig),
        next is LogMetrics <==> step is ValidateContractConfig && !(event is Failed),
        next is HandleOngoingTasks <==> step is LogMetrics,
        next is SetOrphanedTasksToFailed <==> step is HandleOngoingTasks && !(event is Failed),
        next is HandleProvingRequests <==> step is SetOrphanedTasksToFailed && !(event is Failed),
        next is ReconcileCanonicality <==> step is HandleProvingRequests && !(event is Failed),
        next is AddNewRanges <==> event == (IterationEvent::Reconciled { canonical: true }),
        next is SubmitAggregations <==> step is AddNewRanges && !(event is Failed),
        next is CreateAggregations <==> step is SubmitAggregations,
        next is RequestQueuedProofs <==> step is CreateAggregations,
        next is UpdateChainLock <==> (step is RequestQueuedProofs && !(event is Failed)) || event
            == (IterationEvent::Reconciled { canonical: false }),
        next == (IterationStep::Done { succeeded: true }) <==> step is UpdateChainLock && !(event
            is Failed),
        next == (IterationStep::Done { succeeded: false }) <==> event is Failed && !(step is LogMetrics
            || step is SubmitAggregations || step is CreateAggregations),
        next matches IterationStep::CreateAggregations { relayed_end } ==> match event {
            IterationEvent::Submitted { relayed_end: end } => relayed_end == end,
            _ => relayed_end is None,
        },
        gauge == Some(ValidityGauge::TotalErrorCount) <==> event is Failed && (step
            is SubmitAggregations || step is CreateAggregations),
        gauge is Some ==> gauge == Some(ValidityGauge::TotalErrorCount),
{
}

/// What the end of each task means for the pass: only an error fails it. An aggregation that landed
/// is handed on by its end block; one that the chain refused, or that was not there, is not an
/// error.
pub proof fn law_only_errors_fail_a_step(
    submit: SubmitEnd,
    submitted: IterationEvent,
    create: CreateEnd,
    created: IterationEvent,
    ranges: RangesEnd,
    added: IterationEvent,
    queue: QueueEnd,
    requested: IterationEvent,
)
    requires
        call_ensures(after_submission, (&submit,), submitted),
        call_ensures(after_creation, (&create,), created),
        call_ensures(after_ranges, (&ranges,), added),
        call_ensures(after_queue, (&queue,), requested),
    ensures
        submitted is Failed <==> submit is Failed || submit is DisputeGameConfigured,
        submitted is Failed || submitted is Submitted,
        submitted matches IterationEvent::Submitted { relayed_end } ==> match submit {
            SubmitEnd::Relayed { end_block } => relayed_end == Some(end_block),
            _ => relayed_end is None,
        },
        created is Failed <==> create is Failed,
        created is Succeeded <==> !(create is Failed),
        added is Failed <==> ranges is Failed,
        added is Succeeded <==> !(ranges is Failed),
        requested is Failed <==> queue is Failed,
        requested is Succeeded <==> !(queue is Failed),
{
}

/// A request that timed out, was cancelled or was given up is dealt with; only an error keeps it
/// from being followed.
pub proof fn law_only_errors_hinder_the_following_of_requests(
    network: ProofStatusEnd,
    on_network: ProvingEvent,
    on: ClusterStatusEnd,
    on_cluster: ProvingEvent,
)
    requires
        call_ensures(after_proof_status, (&network,), on_network),
        call_ensures(after_cluster_status, (&on,), on_cluster),
    ensures
        on_network is Failed <==> network is Failed,
        on_network is Processed <==> !(network is Failed),
        on_cluster is Failed <==> on is Failed,
        on_cluster is Processed <==> !(on is Failed),
{
}

/// Passes and pauses follow one another once the proposer was initialized: a pass that succeeded is
/// followed by the configured pause, one that failed, which is counted, by one of ten seconds. Only
/// a proposer that could not be initialized stops.
pub proof fn law_passes_and_pauses_follow_one_another(
    step: RunStep,
    succeeded: bool,
    proposer: Proposer,
    next: RunStep,
    gauge: Option<ValidityGauge>,
)
    requires
        call_ensures(RunStep::next, (step, succeeded, &proposer), (next, gauge)),
    ensures
        next is Stop <==> step is Stop || (step is Initialize && !succeeded),
        next is InitializeGauges <==> step is Initialize && succeeded,
        next is Iterate <==> step is InitializeGauges || step is Sleep,
        next is Sleep <==> step is Iterate,
        next matches RunStep::Sleep { seconds } ==> {
            &&& succeeded ==> seconds == proposer.driver_config.loop_interval
            &&& !succeeded ==> seconds == 10
        },
        gauge == Some(ValidityGauge::TotalErrorCount) <==> step is Iterate && !succeeded,
        gauge is None <==> !(step is Iterate) || succeeded,
{
}

} // verus!
