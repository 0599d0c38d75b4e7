//! Following one request that the prover network is proving.
//!
//! A pass over a request is a chain of steps. Each [`ProofStatusStep`] names the one thing to do
//! next; what came of it is handed back as a [`ProofStatusEvent`], and [`ProofStatusStep::next`]
//! says what follows and which gauges to count up.
use vstd::prelude::*;

use crate::bytes::word_at;
use crate::outside::option_view;
use crate::proposer::Proposer;
use crate::request::{OPSuccinctRequest, ValidityGauge};

verus! {

/// What the prover network says about the fulfillment of a request.
#[derive(Debug, Clone, Copy, PartialEq, Eq, Structural)]
pub enum FulfillmentStatus {
    Unspecified,
    Requested,
    Assigned,
    Fulfilled,
    Unfulfillable,
}

/// The prover networks.
#[derive(Debug, Clone, Copy, PartialEq, Eq, Structural)]
pub enum NetworkMode {
    Mainnet,
    Reserved,
}

/// The proof systems that a proof can come from.
#[derive(Debug, Clone, Copy, PartialEq, Eq, Structural)]
pub enum ProofKind {
    Core,
    Compressed,
    Plonk,
    Groth16,
}

/// How a proof is turned into the bytes that are stored.
#[derive(Debug, Clone, Copy, PartialEq, Eq, Structural)]
pub enum ProofEncoding {
    /// The whole proof, serialized.
    Serialized,
    /// The bytes that the contract verifies.
    OnChain,
}

/// The bytes that are stored for a proof: compressed proofs are serialized whole, Groth16 and PLONK
/// proofs are stored as the contract takes them, and core proofs are not supported.
pub open spec fn spec_proof_encoding(kind: ProofKind) -> Option<ProofEncoding> {
    match kind {
        ProofKind::Compressed => Some(ProofEncoding::Serialized),
        ProofKind::Groth16 => Some(ProofEncoding::OnChain),
        ProofKind::Plonk => Some(ProofEncoding::OnChain),
        ProofKind::Core => None,
    }
}

/// How a proof of a kind is stored, or `None` where it is not supported.
pub fn proof_encoding(kind: ProofKind) -> (encoding: Option<ProofEncoding>)
    ensures
        encoding == spec_proof_encoding(kind),
{
    match kind {
        ProofKind::Compressed => Some(ProofEncoding::Serialized),
        ProofKind::Groth16 | ProofKind::Plonk => Some(ProofEncoding::OnChain),
        ProofKind::Core => None,
    }
}

/// The network's answer on the state of a proof.
#[derive(Debug, Clone, Copy, PartialEq, Eq, Structural)]
pub struct ProofStatus {
    pub deadline: u64,
    pub execution_status: i32,
    pub fulfillment_status: FulfillmentStatus,
    /// The proof that came along, by its kind.
    pub proof: Option<ProofKind>,
}

/// The network's record of a request.
#[derive(Debug, Clone, Copy, PartialEq, Eq, Structural)]
pub struct RequestDetails {
    pub created_at: u64,
    pub fulfillment_status: FulfillmentStatus,
}

/// What the decisions depend on besides the request.
#[derive(Debug, Clone, Copy, PartialEq, Eq, Structural)]
pub struct StatusSettings {
    pub network_mode: NetworkMode,
    /// How long, in seconds, a request may wait for a prover.
    pub auction_timeout: u64,
}

/// Why following a request failed.
#[derive(Debug, Clone, Copy, PartialEq, Eq, Structural)]
pub enum ProofStatusError {
    /// There is no network prover to ask.
    MissingNetworkProver,
    /// The network reported a proof as fulfilled and returned none.
    FulfilledWithoutProof,
    /// Core proofs are not supported.
    CoreProof,
    /// A call to the network, the clock or the database failed.
    CallFailed,
}

/// Why a request is marked as failed.
#[derive(Debug, Clone, Copy, PartialEq, Eq, Structural)]
pub enum FailureCause {
    /// The proof's deadline has passed.
    Deadline,
    /// The network says that the request cannot be fulfilled.
    Unfulfillable,
}

/// How a pass over a request ended.
#[derive(Debug, Clone, Copy, PartialEq, Eq, Structural)]
pub enum ProofStatusEnd {
    /// The request carries no identifier to ask for.
    NoProofRequestId,
    /// No prover took the request in time; it was cancelled.
    AuctionExpired,
    /// The deadline passed; the request was marked as failed.
    TimedOut,
    /// The proof was stored.
    Completed,
    /// The request was marked as failed.
    Unfulfillable,
    /// The proof is still being made.
    Pending,
    Failed(ProofStatusError),
}

/// What to do next about a request.
#[derive(Debug, Clone, Copy, PartialEq, Eq)]
pub enum ProofStatusStep {
    FetchStatus { proof_request_id: [u8; 32] },
    FetchDetails { status: ProofStatus },
    ReadClock { status: ProofStatus, details: Option<RequestDetails> },
    CancelRequest,
    MarkCancelled,
    MarkFailed { execution_status: i32, cause: FailureCause },
    StoreProof { encoding: ProofEncoding },
    UpdateProveDuration,
    FetchStatistics,
    InsertStatistics,
    Done { end: ProofStatusEnd },
}

/// What came of a step.
#[derive(Debug, Clone, Copy, PartialEq, Eq, Structural)]
pub enum ProofStatusEvent {
    Status { status: ProofStatus },
    Details { details: Option<RequestDetails> },
    Clock { now: u64 },
    /// The execution statistics, if the network has any.
    Statistics { present: bool },
    Succeeded,
    /// A call to the network did not return in time.
    TimedOut,
    Failed,
}

/// What a status means for a request.
#[derive(Debug, Clone, Copy, PartialEq, Eq, Structural)]
pub enum StatusDecision {
    Cancel,
    Fail { cause: FailureCause },
    Store { encoding: ProofEncoding },
    Refuse { error: ProofStatusError },
    Wait,
}

/// The request still waits for a prover although the auction is over.
pub open spec fn auction_expired(
    details: Option<RequestDetails>,
    settings: StatusSettings,
    now: u64,
) -> bool {
    &&& details is Some
    &&& settings.network_mode == NetworkMode::Mainnet
    &&& details->0.fulfillment_status == FulfillmentStatus::Requested
    &&& now > details->0.created_at + settings.auction_timeout
}

/// What a status means for a request: an expired auction comes before a passed deadline, and a
/// passed deadline before whatever the network says of the proof.
pub open spec fn spec_decide_status(
    status: ProofStatus,
    details: Option<RequestDetails>,
    settings: StatusSettings,
    now: u64,
) -> StatusDecision {
    if auction_expired(details, settings, now) {
        StatusDecision::Cancel
    } else if now > status.deadline {
        StatusDecision::Fail { cause: FailureCause::Deadline }
    } else {
        match status.fulfillment_status {
            FulfillmentStatus::Fulfilled => match status.proof {
                None => StatusDecision::Refuse { error: ProofStatusError::FulfilledWithoutProof },
                Some(kind) => match spec_proof_encoding(kind) {
                    Some(encoding) => StatusDecision::Store { encoding },
                    None => StatusDecision::Refuse { error: ProofStatusError::CoreProof },
                },
            },
            FulfillmentStatus::Unfulfillable => StatusDecision::Fail {
                cause: FailureCause::Unfulfillable,
            },
            _ => StatusDecision::Wait,
        }
    }
}

/// Decides what a status means for a request.
pub fn decide_status(
    status: &ProofStatus,
    details: &Option<RequestDetails>,
    settings: &StatusSettings,
    now: u64,
) -> (decision: StatusDecision)
    ensures
        decision == spec_decide_status(*status, *details, *settings, now),
{
    if let Some(details) = details {
        let auction_deadline: u128 = details.created_at as u128 + settings.auction_timeout as u128;
        if settings.network_mode == NetworkMode::Mainnet && details.fulfillment_status
            == FulfillmentStatus::Requested && now as u128 > auction_deadline {
            return StatusDecision::Cancel;
        }
    }
    if now > status.deadline {
        return StatusDecision::Fail { cause: FailureCause::Deadline };
    }
    match status.fulfillment_status {
        FulfillmentStatus::Fulfilled => match status.proof {
            None => StatusDecision::Refuse { error: ProofStatusError::FulfilledWithoutProof },
            Some(kind) => match proof_encoding(kind) {
                Some(encoding) => StatusDecision::Store { encoding },
                None => StatusDecision::Refuse { error: ProofStatusError::CoreProof },
            },
        },
        FulfillmentStatus::Unfulfillable => StatusDecision::Fail {
            cause: FailureCause::Unfulfillable,
        },
        _ => StatusDecision::Wait,
    }
}

impl ProofStatusStep {
    /// Whether a step is a call to the prover network, and so bounded in time.
    pub open spec fn is_network_call(self) -> bool {
        self is FetchStatus || self is FetchDetails || self is CancelRequest
            || self is FetchStatistics
    }

    /// The events that can come of a step.
    pub open spec fn admits(self, event: ProofStatusEvent) -> bool {
        match event {
            ProofStatusEvent::Failed => !(self is Done),
            ProofStatusEvent::TimedOut => self.is_network_call(),
            ProofStatusEvent::Status { .. } => self is FetchStatus,
            ProofStatusEvent::Details { .. } => self is FetchDetails,
            ProofStatusEvent::Clock { .. } => self is ReadClock,
            ProofStatusEvent::Statistics { .. } => self is FetchStatistics,
            ProofStatusEvent::Succeeded => self is CancelRequest || self is MarkCancelled
                || self is MarkFailed || self is StoreProof || self is UpdateProveDuration
                || self is InsertStatistics,
        }
    }

    /// What follows a step, by what came of it.
    pub open spec fn spec_next(
        self,
        event: ProofStatusEvent,
        settings: StatusSettings,
    ) -> ProofStatusStep {
        match (self, event) {
            (_, ProofStatusEvent::Failed) | (_, ProofStatusEvent::TimedOut) => ProofStatusStep::Done {
                end: ProofStatusEnd::Failed(ProofStatusError::CallFailed),
            },
            (_, ProofStatusEvent::Status { status }) => ProofStatusStep::FetchDetails { status },
            (
                ProofStatusStep::FetchDetails { status },
                ProofStatusEvent::Details { details },
            ) => ProofStatusStep::ReadClock { status, details },
            (
                ProofStatusStep::ReadClock { status, details },
                ProofStatusEvent::Clock { now },
            ) => match spec_decide_status(status, details, settings, now) {
                StatusDecision::Cancel => ProofStatusStep::CancelRequest,
                StatusDecision::Fail { cause } => ProofStatusStep::MarkFailed {
                    execution_status: status.execution_status,
                    cause,
                },
                StatusDecision::Store { encoding } => ProofStatusStep::StoreProof { encoding },
                StatusDecision::Refuse { error } => ProofStatusStep::Done {
                    end: ProofStatusEnd::Failed(error),
                },
                StatusDecision::Wait => ProofStatusStep::Done { end: ProofStatusEnd::Pending },
            },
            (ProofStatusStep::CancelRequest, _) => ProofStatusStep::MarkCancelled,
            (ProofStatusStep::MarkCancelled, _) => ProofStatusStep::Done {
                end: ProofStatusEnd::AuctionExpired,
            },
            (ProofStatusStep::MarkFailed { cause, .. }, _) => ProofStatusStep::Done {
                end: match cause {
                    FailureCause::Deadline => ProofStatusEnd::TimedOut,
                    FailureCause::Unfulfillable => ProofStatusEnd::Unfulfillable,
                },
            },
            (ProofStatusStep::StoreProof { .. }, _) => ProofStatusStep::UpdateProveDuration,
            (ProofStatusStep::UpdateProveDuration, _) => ProofStatusStep::FetchStatistics,
            (ProofStatusStep::FetchStatistics, ProofStatusEvent::Statistics { present: true }) => {
                ProofStatusStep::InsertStatistics
            },
            _ => ProofStatusStep::Done { end: ProofStatusEnd::Completed },
        }
    }

    /// The gauges that a step counts up, by what came of it.
    ///
    /// A request that is marked as cancelled or failed counts as a retry; where that marking fails,
    /// it counts as a retry error, except for an unfulfillable request.
    pub open spec fn spec_gauges(self, event: ProofStatusEvent) -> Seq<ValidityGauge> {
        match (self, event) {
            (_, ProofStatusEvent::TimedOut) => seq![ValidityGauge::NetworkCallTimeoutCount],
            (ProofStatusStep::MarkCancelled, ProofStatusEvent::Failed) => seq![
                ValidityGauge::RetryErrorCount,
            ],
            (ProofStatusStep::MarkCancelled, ProofStatusEvent::Succeeded) => seq![
                ValidityGauge::ProofRequestRetryCount,
                ValidityGauge::ProofRequestTimeoutErrorCount,
            ],
            (
                ProofStatusStep::MarkFailed { cause: FailureCause::Deadline, .. },
                ProofStatusEvent::Failed,
            ) => seq![ValidityGauge::RetryErrorCount],
            (
                ProofStatusStep::MarkFailed { cause: FailureCause::Deadline, .. },
                ProofStatusEvent::Succeeded,
            ) => seq![
                ValidityGauge::ProofRequestRetryCount,
                ValidityGauge::ProofRequestTimeoutErrorCount,
            ],
            (
                ProofStatusStep::MarkFailed { cause: FailureCause::Unfulfillable, .. },
                ProofStatusEvent::Succeeded,
            ) => seq![ValidityGauge::ProofRequestRetryCount],
            _ => Seq::empty(),
        }
    }

    /// Goes on from a step, by what came of it, and counts the gauges up.
    pub fn next(self, event: ProofStatusEvent, settings: &StatusSettings) -> (result: (
        ProofStatusStep,
        Vec<ValidityGauge>,
    ))
        requires
            self.admits(event),
        ensures
            result.0 == self.spec_next(event, *settings),
            result.1@ == self.spec_gauges(event),
    {
        let mut gauges: Vec<ValidityGauge> = Vec::new();
        let failed = ProofStatusStep::Done {
            end: ProofStatusEnd::Failed(ProofStatusError::CallFailed),
        };
        match event {
            ProofStatusEvent::TimedOut => {
                gauges.push(ValidityGauge::NetworkCallTimeoutCount);
                return (failed, gauges);
            },
            ProofStatusEvent::Failed => {
                match self {
                    ProofStatusStep::MarkCancelled => gauges.push(ValidityGauge::RetryErrorCount),
                    ProofStatusStep::MarkFailed { cause: FailureCause::Deadline, .. } => {
                        gauges.push(ValidityGauge::RetryErrorCount)
                    },
                    _ => {},
                }
                return (failed, gauges);
            },
            ProofStatusEvent::Status { status } => {
                return (ProofStatusStep::FetchDetails { status }, gauges);
            },
            _ => {},
        }
        let next = match self {
            ProofStatusStep::FetchDetails { status } => match event {
                ProofStatusEvent::Details { details } => ProofStatusStep::ReadClock {
                    status,
                    details,
                },
                _ => failed,
            },
            ProofStatusStep::ReadClock { status, details } => match event {
                ProofStatusEvent::Clock { now } => match decide_status(
                    &status,
                    &details,
                    settings,
                    now,
                ) {
                    StatusDecision::Cancel => ProofStatusStep::CancelRequest,
                    StatusDecision::Fail { cause } => ProofStatusStep::MarkFailed {
                        execution_status: status.execution_status,
                        cause,
                    },
                    StatusDecision::Store { encoding } => ProofStatusStep::StoreProof { encoding },
                    StatusDecision::Refuse { error } => ProofStatusStep::Done {
                        end: ProofStatusEnd::Failed(error),
                    },
                    StatusDecision::Wait => ProofStatusStep::Done { end: ProofStatusEnd::Pending },
                },
                _ => failed,
            },
            ProofStatusStep::CancelRequest => ProofStatusStep::MarkCancelled,
            ProofStatusStep::MarkCancelled => {
                gauges.push(ValidityGauge::ProofRequestRetryCount);
                gauges.push(ValidityGauge::ProofRequestTimeoutErrorCount);
                ProofStatusStep::Done { end: ProofStatusEnd::AuctionExpired }
            },
            ProofStatusStep::MarkFailed { cause, .. } => {
                gauges.push(ValidityGauge::ProofRequestRetryCount);
                match cause {
                    FailureCause::Deadline => {
                        gauges.push(ValidityGauge::ProofRequestTimeoutErrorCount);
                        ProofStatusStep::Done { end: ProofStatusEnd::TimedOut }
                    },
                    FailureCause::Unfulfillable => ProofStatusStep::Done {
                        end: ProofStatusEnd::Unfulfillable,
                    },
                }
            },
            ProofStatusStep::StoreProof { .. } => ProofStatusStep::UpdateProveDuration,
            ProofStatusStep::UpdateProveDuration => ProofStatusStep::FetchStatistics,
            ProofStatusStep::FetchStatistics => match event {
                ProofStatusEvent::Statistics { present: true } => ProofStatusStep::InsertStatistics,
                _ => ProofStatusStep::Done { end: ProofStatusEnd::Completed },
            },
            _ => ProofStatusStep::Done { end: ProofStatusEnd::Completed },
        };
        (next, gauges)
    }
}

/// Where following a request starts.
pub open spec fn spec_start_proof_status(
    has_network_prover: bool,
    proof_request_id: Option<Seq<u8>>,
    step: ProofStatusStep,
) -> bool {
    if !has_network_prover {
        step == (ProofStatusStep::Done {
            end: ProofStatusEnd::Failed(ProofStatusError::MissingNetworkProver),
        })
    } else {
        match proof_request_id {
            None => step == (ProofStatusStep::Done { end: ProofStatusEnd::NoProofRequestId }),
            Some(id) => step is FetchStatus && step->proof_request_id@ == id,
        }
    }
}

impl Proposer {
    /// Starts to follow a request. The identifier of a proof request is 32 bytes long.
    pub fn process_proof_request_status(&self, request: &OPSuccinctRequest) -> (step: ProofStatusStep)
        requires
            self.driver_config.has_network_prover && request.proof_request_id is Some
                ==> request.proof_request_id->0@.len() == 32,
        ensures
            spec_start_proof_status(
                self.driver_config.has_network_prover,
                option_view(request.proof_request_id),
                step,
            ),
    {
        if !self.driver_config.has_network_prover {
            return ProofStatusStep::Done {
                end: ProofStatusEnd::Failed(ProofStatusError::MissingNetworkProver),
            };
        }
        match &request.proof_request_id {
            None => ProofStatusStep::Done { end: ProofStatusEnd::NoProofRequestId },
            Some(id) => {
                let word: [u8; 32] = word_at(id.as_slice(), 0);
                assert(word@ =~= id@);
                ProofStatusStep::FetchStatus { proof_request_id: word }
            },
        }
    }

    /// What following a request depends on, for the network that it was sent to.
    pub fn status_settings(&self, network_mode: NetworkMode) -> (settings: StatusSettings)
        ensures
            settings == (StatusSettings {
                network_mode,
                auction_timeout: self.requester_config.auction_timeout,
            }),
    {
        StatusSettings { network_mode, auction_timeout: self.requester_config.auction_timeout }
    }
}

/// An upper bound on the number of steps that are left.
pub open spec fn steps_left(step: ProofStatusStep) -> nat {
    match step {
        ProofStatusStep::FetchStatus { .. } => 7,
        ProofStatusStep::FetchDetails { .. } => 6,
        ProofStatusStep::ReadClock { .. } => 5,
        ProofStatusStep::StoreProof { .. } => 4,
        ProofStatusStep::UpdateProveDuration => 3,
        ProofStatusStep::FetchStatistics => 2,
        ProofStatusStep::InsertStatistics => 1,
        ProofStatusStep::CancelRequest => 2,
        ProofStatusStep::MarkCancelled => 1,
        ProofStatusStep::MarkFailed { .. } => 1,
        ProofStatusStep::Done { .. } => 0,
    }
}

/// A pass over a request comes to an end, whatever the network and the database answer.
pub proof fn law_a_pass_comes_to_an_end(
    step: ProofStatusStep,
    event: ProofStatusEvent,
    settings: StatusSettings,
)
    requires
        step.admits(event),
    ensures
        steps_left(step.spec_next(event, settings)) < steps_left(step),
{
}

/// A proof is stored exactly if it is there, fulfilled, of a supported kind, and neither the
/// auction nor the deadline has run out.
pub proof fn law_only_a_timely_proof_is_stored(
    status: ProofStatus,
    details: Option<RequestDetails>,
    settings: StatusSettings,
    now: u64,
)
    ensures
        (ProofStatusStep::ReadClock { status, details }).spec_next(
            ProofStatusEvent::Clock { now },
            settings,
        ) is StoreProof <==> {
            &&& !auction_expired(details, settings, now)
            &&& now <= status.deadline
            &&& status.fulfillment_status == FulfillmentStatus::Fulfilled
            &&& status.proof is Some
            &&& status.proof->0 != ProofKind::Core
        },
{
}

/// A request is cancelled in the network exactly if its auction has expired.
pub proof fn law_only_an_expired_auction_is_cancelled(
    status: ProofStatus,
    details: Option<RequestDetails>,
    settings: StatusSettings,
    now: u64,
)
    ensures
        (ProofStatusStep::ReadClock { status, details }).spec_next(
            ProofStatusEvent::Clock { now },
            settings,
        ) is CancelRequest <==> auction_expired(details, settings, now),
{
}

/// A timeout is counted exactly when a pass ends because of one.
pub proof fn law_timeouts_are_counted_when_they_end_a_pass(
    step: ProofStatusStep,
    event: ProofStatusEvent,
    settings: StatusSettings,
)
    requires
        step.admits(event),
    ensures
        step.spec_gauges(event).contains(ValidityGauge::ProofRequestTimeoutErrorCount) <==> {
            let next = step.spec_next(event, settings);
            next is Done && (next->end is AuctionExpired || next->end is TimedOut)
        },
{
    let gauges = step.spec_gauges(event);
    if gauges.len() == 2 {
        assert(gauges[1] == ValidityGauge::ProofRequestTimeoutErrorCount);
    }
}

/// A compressed proof, and no other, is stored serialized as a whole; Groth16 and PLONK proofs, and
/// no others, are stored as the contract takes them; a core proof is not stored.
pub proof fn law_the_kind_of_a_proof_decides_how_it_is_stored(
    kind: ProofKind,
    encoding: Option<ProofEncoding>,
)
    requires
        call_ensures(proof_encoding, (kind,), encoding),
    ensures
        encoding == Some(ProofEncoding::Serialized) <==> kind == ProofKind::Compressed,
        encoding == Some(ProofEncoding::OnChain) <==> kind == ProofKind::Groth16 || kind
            == ProofKind::Plonk,
        encoding is None <==> kind == ProofKind::Core,
{
}

/// Whenever a pass goes on to store a proof, it stores the proof of the status that it has:
/// serialized exactly if that is a compressed one, and as the contract takes it exactly if that is
/// a Groth16 or a PLONK one.
pub proof fn law_a_stored_proof_is_encoded_by_its_kind(
    step: ProofStatusStep,
    event: ProofStatusEvent,
    settings: StatusSettings,
    next: ProofStatusStep,
    gauges: Vec<ValidityGauge>,
)
    requires
        step.admits(event),
        call_ensures(ProofStatusStep::next, (step, event, &settings), (next, gauges)),
    ensures
        next matches ProofStatusStep::StoreProof { encoding } ==> {
            &&& step is ReadClock
            &&& step->ReadClock_status.fulfillment_status == FulfillmentStatus::Fulfilled
            &&& encoding == ProofEncoding::Serialized <==> step->ReadClock_status.proof == Some(
                ProofKind::Compressed,
            )
            &&& encoding == ProofEncoding::OnChain <==> step->ReadClock_status.proof == Some(
                ProofKind::Groth16,
            ) || step->ReadClock_status.proof == Some(ProofKind::Plonk)
        },
{
}

/// What becomes of a request once its status and the time are known: a request that no prover on
/// the main network took before its auction ended is cancelled; else one whose deadline has passed
/// is failed; else a fulfilled one is stored, or refused where there is no proof or only a core
/// proof; an unfulfillable one is failed; and any other is waited for. A failed one is marked with
/// the execution status that the network reported.
pub proof fn law_status_and_time_decide_about_a_request(
    status: ProofStatus,
    details: Option<RequestDetails>,
    now: u64,
    settings: StatusSettings,
    next: ProofStatusStep,
    gauges: Vec<ValidityGauge>,
)
    requires
        call_ensures(
            ProofStatusStep::next,
            (
                ProofStatusStep::ReadClock { status, details },
                ProofStatusEvent::Clock { now },
                &settings,
            ),
            (next, gauges),
        ),
    ensures
        ({
            let expired = settings.network_mode == NetworkMode::Mainnet && details is Some
                && details->0.fulfillment_status == FulfillmentStatus::Requested && now
                - details->0.created_at > settings.auction_timeout;
            let in_time = !expired && now <= status.deadline;
            let fulfilled = in_time && status.fulfillment_status == FulfillmentStatus::Fulfilled;
            let unfulfillable = in_time && status.fulfillment_status
                == FulfillmentStatus::Unfulfillable;
            &&& next is CancelRequest <==> expired
            &&& next == (ProofStatusStep::MarkFailed {
                execution_status: status.execution_status,
                cause: FailureCause::Deadline,
            }) <==> !expired && now > status.deadline
            &&& next == (ProofStatusStep::MarkFailed {
                execution_status: status.execution_status,
                cause: FailureCause::Unfulfillable,
            }) <==> unfulfillable
            &&& next is StoreProof <==> fulfilled && status.proof is Some && status.proof->0
                != ProofKind::Core
            &&& next == (ProofStatusStep::Done {
                end: ProofStatusEnd::Failed(ProofStatusError::FulfilledWithoutProof),
            }) <==> fulfilled && status.proof is None
            &&& next == (ProofStatusStep::Done {
                end: ProofStatusEnd::Failed(ProofStatusError::CoreProof),
            }) <==> fulfilled && status.proof == Some(ProofKind::Core)
            &&& next == (ProofStatusStep::Done { end: ProofStatusEnd::Pending }) <==> in_time
                && !fulfilled && !unfulfillable
        }),
{
}

/// What the network said is what the pass decides on: the status is followed by the request's
/// details and the time, and is kept until then.
pub proof fn law_the_networks_answers_are_kept(
    step: ProofStatusStep,
    event: ProofStatusEvent,
    settings: StatusSettings,
    next: ProofStatusStep,
    gauges: Vec<ValidityGauge>,
)
    requires
        step.admits(event),
        call_ensures(ProofStatusStep::next, (step, event, &settings), (next, gauges)),
    ensures
        !(next is FetchStatus),
        event matches ProofStatusEvent::Status { status } ==> next
            == (ProofStatusStep::FetchDetails { status }),
        next matches ProofStatusStep::FetchDetails { status } ==> event
            == (ProofStatusEvent::Status { status }),
        event is Details <==> next is ReadClock,
        next matches ProofStatusStep::ReadClock { status, details } ==> step
            == (ProofStatusStep::FetchDetails { status }) && event == (ProofStatusEvent::Details {
            details,
        }),
{
}

/// Each act of a pass has one act before it, which must have succeeded, and the end of a pass says
/// what was done last.
pub proof fn law_each_act_follows_from_one(
    step: ProofStatusStep,
    event: ProofStatusEvent,
    settings: StatusSettings,
    next: ProofStatusStep,
    gauges: Vec<ValidityGauge>,
)
    requires
        step.admits(event),
        call_ensures(ProofStatusStep::next, (step, event, &settings), (next, gauges)),
    ensures
        next is MarkCancelled <==> step is CancelRequest && event is Succeeded,
        next is UpdateProveDuration <==> step is StoreProof && event is Succeeded,
        next is FetchStatistics <==> step is UpdateProveDuration && event is Succeeded,
        next is InsertStatistics <==> event == (ProofStatusEvent::Statistics { present: true }),
        next == (ProofStatusStep::Done { end: ProofStatusEnd::AuctionExpired }) <==> step
            is MarkCancelled && event is Succeeded,
        next == (ProofStatusStep::Done { end: ProofStatusEnd::TimedOut }) <==> step is MarkFailed
            && step->cause == FailureCause::Deadline && event is Succeeded,
        next == (ProofStatusStep::Done { end: ProofStatusEnd::Unfulfillable }) <==> step is MarkFailed
            && step->cause == FailureCause::Unfulfillable && event is Succeeded,
        next == (ProofStatusStep::Done { end: ProofStatusEnd::Completed }) <==> (step
            is InsertStatistics && event is Succeeded) || event == (ProofStatusEvent::Statistics {
            present: false,
        }),
        next == (ProofStatusStep::Done {
            end: ProofStatusEnd::Failed(ProofStatusError::CallFailed),
        }) <==> event is Failed || event is TimedOut,
{
}

/// What a pass counts: a call to the network that took too long; a retry for each request that was
/// cancelled or failed; a timeout where that was because of the auction or the deadline; and a
/// retry error where such a request could not be marked. Nothing else is counted, and nothing
/// twice.
pub proof fn law_each_gauge_counts_one_thing(
    step: ProofStatusStep,
    event: ProofStatusEvent,
    settings: StatusSettings,
    next: ProofStatusStep,
    gauges: Vec<ValidityGauge>,
    gauge: ValidityGauge,
)
    requires
        step.admits(event),
        call_ensures(ProofStatusStep::next, (step, event, &settings), (next, gauges)),
    ensures
        gauges@.no_duplicates(),
        gauges@.contains(gauge) <==> match gauge {
            ValidityGauge::NetworkCallTimeoutCount => event is TimedOut,
            ValidityGauge::ProofRequestRetryCount => event is Succeeded && (step is MarkCancelled
                || step is MarkFailed),
            ValidityGauge::ProofRequestTimeoutErrorCount => event is Succeeded && (step
                is MarkCancelled || (step is MarkFailed && step->cause == FailureCause::Deadline)),
            ValidityGauge::RetryErrorCount => event is Failed && (step is MarkCancelled || (step
                is MarkFailed && step->cause == FailureCause::Deadline)),
            _ => false,
        },
{
    let counted = gauges@;
    if counted.len() >= 1 {
        assert(counted.contains(counted[0]));
    }
    if counted.len() >= 2 {
        assert(counted.contains(counted[1]));
    }
}

/// A pass over a request starts by asking for the very identifier that the request carries. It ends
/// at once where there is no network to ask, or nothing to ask for.
pub proof fn law_a_pass_asks_for_the_requests_identifier(
    proposer: Proposer,
    request: OPSuccinctRequest,
    step: ProofStatusStep,
)
    requires
        request.proof_request_id is Some ==> request.proof_request_id->0@.len() == 32,
        call_ensures(Proposer::process_proof_request_status, (&proposer, &request), step),
    ensures
        step is FetchStatus <==> proposer.driver_config.has_network_prover
            && request.proof_request_id is Some,
        step matches ProofStatusStep::FetchStatus { proof_request_id } ==> proof_request_id@
            == request.proof_request_id->0@,
        step == (ProofStatusStep::Done {
            end: ProofStatusEnd::Failed(ProofStatusError::MissingNetworkProver),
        }) <==> !proposer.driver_config.has_network_prover,
        step == (ProofStatusStep::Done { end: ProofStatusEnd::NoProofRequestId }) <==> {
            &&& proposer.driver_config.has_network_prover
            &&& request.proof_request_id is None
        },
{
}

/// An auction lasts as long as the proposer was told.
pub proof fn law_the_configured_auction_timeout_counts(
    proposer: Proposer,
    network_mode: NetworkMode,
    settings: StatusSettings,
)
    requires
        call_ensures(Proposer::status_settings, (&proposer, network_mode), settings),
    ensures
        settings.auction_timeout == proposer.requester_config.auction_timeout,
        settings.network_mode == network_mode,
{
}

/// A decision is about the auction first, then about the deadline, and only then about what the
/// network says of the proof.
pub proof fn law_a_decision_weighs_auction_then_deadline_then_status(
    status: ProofStatus,
    details: Option<RequestDetails>,
    settings: StatusSettings,
    now: u64,
    decision: StatusDecision,
)
    requires
        call_ensures(decide_status, (&status, &details, &settings, now), decision),
    ensures
        ({
            let expired = settings.network_mode == NetworkMode::Mainnet && details is Some
                && details->0.fulfillment_status == FulfillmentStatus::Requested && now
                - details->0.created_at > settings.auction_timeout;
            let in_time = !expired && now <= status.deadline;
            let fulfilled = in_time && status.fulfillment_status == FulfillmentStatus::Fulfilled;
            &&& decision is Cancel <==> expired
            &&& decision == (StatusDecision::Fail { cause: FailureCause::Deadline }) <==> !expired
                && now > status.deadline
            &&& decision == (StatusDecision::Fail { cause: FailureCause::Unfulfillable }) <==> in_time
                && status.fulfillment_status == FulfillmentStatus::Unfulfillable
            &&& decision == (StatusDecision::Store { encoding: ProofEncoding::Serialized })
                <==> fulfilled && status.proof == Some(ProofKind::Compressed)
            &&& decision == (StatusDecision::Store { encoding: ProofEncoding::OnChain })
                <==> fulfilled && (status.proof == Some(ProofKind::Groth16) || status.proof == Some(
                ProofKind::Plonk,
            ))
            &&& decision == (StatusDecision::Refuse {
                error: ProofStatusError::FulfilledWithoutProof,
            }) <==> fulfilled && status.proof is None
            &&& decision == (StatusDecision::Refuse { error: ProofStatusError::CoreProof })
                <==> fulfilled && status.proof == Some(ProofKind::Core)
            &&& decision is Wait <==> in_time && !fulfilled && status.fulfillment_status
                != FulfillmentStatus::Unfulfillable
        }),
{
}

} // verus!
