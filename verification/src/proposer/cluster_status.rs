//! Following one request that a self-hosted cluster is proving.
//!
//! A pass over a request is a chain of steps, as in [`crate::proposer::proof_status`]. Between the
//! passes the proposer keeps a table of the cluster's handles, with the number of polls of each
//! that failed in a row.
use std::collections::HashMap;
use vstd::prelude::*;

use crate::outside::{grpc_code_in, renders_as};
use crate::proposer::failure::{
    is_transport_fault, no_bisect_reason, sheds, spec_no_bisect_reason, NoBisectReason,
    GRPC_FAILED_PRECONDITION,
};
use crate::proposer::proof_status::{
    proof_encoding, spec_proof_encoding, ProofEncoding, ProofKind,
};
use crate::proposer::Proposer;
use crate::request::{request_error_gauge, OPSuccinctRequest, RequestType, ValidityGauge};
use crate::text::occurs_in;

verus! {

broadcast use vstd::std_specs::hash::group_hash_axioms;

/// Number of consecutive poll failures before a cluster proof is given up.
pub const MAX_CONSECUTIVE_POLL_FAILURES: u32 = 3;

/// The cluster's handles that the proposer holds, each with the number of polls of it that failed
/// in a row.
pub struct ClusterHandles {
    failures: HashMap<i64, u32>,
}

impl View for ClusterHandles {
    type V = Map<i64, nat>;

    closed spec fn view(&self) -> Map<i64, nat> {
        self.failures@.map_values(|count: u32| count as nat)
    }
}

/// What a failed poll means for a request.
#[derive(Debug, Clone, Copy, PartialEq, Eq, Structural)]
pub enum PollFailure {
    /// It is polled again in the next pass.
    Transient,
    /// It is given up.
    Permanent,
}

/// The failures of a request after one more failed poll. A request without a handle has no count.
pub open spec fn poll_failure(handles: Map<i64, nat>, id: i64) -> PollFailure {
    if handles.contains_key(id) && handles[id] + 1 < MAX_CONSECUTIVE_POLL_FAILURES {
        PollFailure::Transient
    } else {
        PollFailure::Permanent
    }
}

impl ClusterHandles {
    /// Every request that is still polled has failed fewer times than it may.
    pub open spec fn wf(&self) -> bool {
        forall|id: i64| #[trigger]
            self@.contains_key(id) ==> self@[id] < MAX_CONSECUTIVE_POLL_FAILURES
    }

    /// A table without handles.
    pub fn new() -> (handles: ClusterHandles)
        ensures
            handles.wf(),
            handles@ == Map::<i64, nat>::empty(),
    {
        let handles = ClusterHandles { failures: HashMap::new() };
        assert(handles@ =~= Map::<i64, nat>::empty());
        handles
    }

    /// Whether there is a handle for a request.
    pub fn contains(&self, id: i64) -> (found: bool)
        ensures
            found == self@.contains_key(id),
    {
        self.failures.contains_key(&id)
    }

    /// Takes a handle in, with no failed polls.
    pub fn insert(&mut self, id: i64)
        requires
            old(self).wf(),
        ensures
            final(self).wf(),
            final(self)@ == old(self)@.insert(id, 0),
    {
        self.failures.insert(id, 0);
        assert(self@ =~= old(self)@.insert(id, 0));
    }

    /// Drops the handle of a request.
    pub fn remove(&mut self, id: i64)
        requires
            old(self).wf(),
        ensures
            final(self).wf(),
            final(self)@ == old(self)@.remove(id),
    {
        self.failures.remove(&id);
        assert(self@ =~= old(self)@.remove(id));
    }

    /// Notes that a request was found pending: the failures so far no longer count.
    pub fn note_pending(&mut self, id: i64)
        requires
            old(self).wf(),
        ensures
            final(self).wf(),
            final(self)@ == if old(self)@.contains_key(id) {
                old(self)@.insert(id, 0)
            } else {
                old(self)@
            },
    {
        if self.failures.contains_key(&id) {
            self.failures.insert(id, 0);
            assert(self@ =~= old(self)@.insert(id, 0));
        }
    }

    /// Notes that a poll of a request failed, and says whether it is given up. The handle of a
    /// request that is given up is dropped.
    pub fn note_failure(&mut self, id: i64) -> (failure: PollFailure)
        requires
            old(self).wf(),
        ensures
            final(self).wf(),
            failure == poll_failure(old(self)@, id),
            final(self)@ == match failure {
                PollFailure::Transient => old(self)@.insert(id, old(self)@[id] + 1),
                PollFailure::Permanent => old(self)@.remove(id),
            },
    {
        let count: Option<u32> = match self.failures.get(&id) {
            Some(count) => Some(*count),
            None => None,
        };
        match count {
            Some(count) => {
                assert(self@.contains_key(id) && self@[id] == count);
                if count + 1 < MAX_CONSECUTIVE_POLL_FAILURES {
                    self.failures.insert(id, count + 1);
                    assert(self@ =~= old(self)@.insert(id, old(self)@[id] + 1));
                    PollFailure::Transient
                } else {
                    self.failures.remove(&id);
                    assert(self@ =~= old(self)@.remove(id));
                    PollFailure::Permanent
                }
            },
            None => {
                assert(!self@.contains_key(id));
                assert(self@ =~= old(self)@.remove(id));
                PollFailure::Permanent
            },
        }
    }
}

/// Why following a request failed.
#[derive(Debug, Clone, Copy, PartialEq, Eq, Structural)]
pub enum ClusterStatusError {
    /// There is no cluster to poll.
    MissingClusterConfig,
    /// The row of a request that is being proved holds no cluster proof handle.
    MissingProofHandle,
    /// The row of a request that is being proved holds no request time.
    MissingRequestTime,
    /// Core proofs are not supported.
    CoreProof,
    /// A call to the database failed, or the row's handle could not be read.
    CallFailed,
}

/// How a pass over a request ended.
#[derive(Debug, Clone, Copy, PartialEq, Eq, Structural)]
pub enum ClusterStatusEnd {
    /// The request took too long and was marked as failed.
    TimedOut,
    /// The proof was stored.
    Completed,
    /// The proof is still being made.
    Pending,
    /// The poll failed; the request is polled again in the next pass.
    WillPollAgain,
    /// Polling failed for good, and the request was marked as failed.
    GivenUp,
    /// Polling failed for good, for a reason that says nothing about the range: the same range is
    /// requested again.
    WillRequestAgain { reason: NoBisectReason },
    Failed(ClusterStatusError),
}

/// What to do next about a request.
#[derive(Debug, Clone, Copy, PartialEq, Eq, Structural)]
pub enum ClusterStatusStep {
    /// Read the time, to see whether the proof takes too long.
    ReadClock,
    /// Read the cluster proof handle of the request's row.
    ReadHandle,
    /// Read the time, to see how long the proof may still take.
    ReadClockAgain,
    /// Poll the cluster; with a handle made anew from the row and the remaining seconds, where
    /// there are any given.
    Poll { remaining: Option<u64> },
    StoreProof { encoding: ProofEncoding },
    UpdateProveDuration,
    /// Mark the request as failed.
    MarkFailed { timed_out: bool },
    /// Set the request back to be requested again.
    ResetForRetry { reason: NoBisectReason },
    Done { end: ClusterStatusEnd },
}

/// What came of a step.
#[derive(Debug, Clone, Copy, PartialEq, Eq, Structural)]
pub enum ClusterStatusEvent {
    /// The time, in microseconds since the epoch.
    Clock { now: i64 },
    Proved { kind: ProofKind },
    Pending,
    PollFailed { reason: Option<NoBisectReason> },
    Succeeded,
    Failed,
}

/// A pass over a request: the next step, the gauges to count up and the handles that are kept.
pub struct ClusterStatusOutcome {
    pub step: ClusterStatusStep,
    pub gauges: Seq<ValidityGauge>,
    pub handles: Map<i64, nat>,
}

/// The number of microseconds in a second.
pub const MICROS_PER_SECOND: i64 = 1_000_000;

/// The full seconds since a proof was requested, not below zero. Both times are in microseconds.
pub open spec fn elapsed_seconds(requested: Option<i64>, now: i64) -> int {
    match requested {
        Some(then) => if now > then {
            (now - then) / (MICROS_PER_SECOND as int)
        } else {
            0
        },
        None => 0,
    }
}

/// The seconds that are left of a timeout.
pub open spec fn remaining_seconds(timeout: u64, requested: Option<i64>, now: i64) -> int {
    if elapsed_seconds(requested, now) > timeout {
        0
    } else {
        timeout - elapsed_seconds(requested, now)
    }
}

/// The full seconds since a proof was requested, not below zero.
fn seconds_since(requested: Option<i64>, now: i64) -> (seconds: i64)
    ensures
        seconds == elapsed_seconds(requested, now),
        seconds >= 0,
{
    match requested {
        Some(then) => {
            if now > then {
                let micros: i128 = now as i128 - then as i128;
                let seconds: i128 = micros / (MICROS_PER_SECOND as i128);
                seconds as i64
            } else {
                0
            }
        },
        None => 0,
    }
}

/// Nothing is counted or forgotten on the way to a step.
pub open spec fn quietly(step: ClusterStatusStep, handles: Map<i64, nat>) -> ClusterStatusOutcome {
    ClusterStatusOutcome { step, gauges: Seq::empty(), handles }
}

/// A pass ends with an error.
pub open spec fn refused(error: ClusterStatusError, handles: Map<i64, nat>) -> ClusterStatusOutcome {
    quietly(ClusterStatusStep::Done { end: ClusterStatusEnd::Failed(error) }, handles)
}

/// A request is failed: its handle is dropped and the failure is counted by the request's type
/// before the row is touched.
pub open spec fn failing(
    timed_out: bool,
    req_type: RequestType,
    id: i64,
    handles: Map<i64, nat>,
) -> ClusterStatusOutcome {
    ClusterStatusOutcome {
        step: ClusterStatusStep::MarkFailed { timed_out },
        gauges: seq![request_error_gauge(req_type)],
        handles: handles.remove(id),
    }
}

/// What follows once a request is known to be in time: it is polled, for which a handle that is not
/// held is read from the row.
pub open spec fn in_time(request: OPSuccinctRequest, handles: Map<i64, nat>) -> ClusterStatusOutcome {
    if handles.contains_key(request.id) {
        quietly(ClusterStatusStep::Poll { remaining: None }, handles)
    } else if request.has_cluster_proof_handle {
        quietly(ClusterStatusStep::ReadHandle, handles)
    } else {
        refused(ClusterStatusError::MissingProofHandle, handles)
    }
}

impl ClusterStatusStep {
    /// The events that can come of a step.
    pub open spec fn admits(self, event: ClusterStatusEvent) -> bool {
        match self {
            ClusterStatusStep::ReadClock | ClusterStatusStep::ReadClockAgain => {
                event is Clock
            },
            ClusterStatusStep::Poll { .. } => event is Proved || event is Pending
                || event is PollFailed,
            ClusterStatusStep::ReadHandle => event is Succeeded || event is Failed,
            ClusterStatusStep::StoreProof { .. } => event is Succeeded || event is Failed,
            ClusterStatusStep::UpdateProveDuration => event is Succeeded || event is Failed,
            ClusterStatusStep::MarkFailed { .. } => event is Succeeded || event is Failed,
            ClusterStatusStep::ResetForRetry { .. } => event is Succeeded || event is Failed,
            ClusterStatusStep::Done { .. } => false,
        }
    }

    /// What follows a step, by what came of it.
    pub open spec fn spec_next(
        self,
        event: ClusterStatusEvent,
        request: OPSuccinctRequest,
        proving_timeout: u64,
        handles: Map<i64, nat>,
    ) -> ClusterStatusOutcome {
        match (self, event) {
            (ClusterStatusStep::MarkFailed { .. }, ClusterStatusEvent::Failed) => {
                ClusterStatusOutcome {
                    step: ClusterStatusStep::Done {
                        end: ClusterStatusEnd::Failed(ClusterStatusError::CallFailed),
                    },
                    gauges: seq![ValidityGauge::RetryErrorCount],
                    handles,
                }
            },
            (_, ClusterStatusEvent::Failed) => refused(ClusterStatusError::CallFailed, handles),
            (ClusterStatusStep::ReadClock, ClusterStatusEvent::Clock { now }) => {
                if elapsed_seconds(request.proof_request_time, now) > (proving_timeout as i64) {
                    failing(true, request.req_type, request.id, handles)
                } else {
                    in_time(request, handles)
                }
            },
            (ClusterStatusStep::ReadHandle, _) => {
                if request.proof_request_time is Some {
                    quietly(ClusterStatusStep::ReadClockAgain, handles)
                } else {
                    refused(ClusterStatusError::MissingRequestTime, handles)
                }
            },
            (ClusterStatusStep::ReadClockAgain, ClusterStatusEvent::Clock { now }) => {
                quietly(
                    ClusterStatusStep::Poll {
                        remaining: Some(remaining_seconds(
                            proving_timeout,
                            request.proof_request_time,
                            now,
                        ) as u64),
                    },
                    handles.insert(request.id, 0),
                )
            },
            (_, ClusterStatusEvent::Proved { kind }) => match spec_proof_encoding(kind) {
                Some(encoding) => quietly(ClusterStatusStep::StoreProof { encoding }, handles),
                None => refused(ClusterStatusError::CoreProof, handles),
            },
            (_, ClusterStatusEvent::Pending) => quietly(
                ClusterStatusStep::Done { end: ClusterStatusEnd::Pending },
                if handles.contains_key(request.id) {
                    handles.insert(request.id, 0)
                } else {
                    handles
                },
            ),
            (_, ClusterStatusEvent::PollFailed { reason }) => match poll_failure(
                handles,
                request.id,
            ) {
                PollFailure::Transient => quietly(
                    ClusterStatusStep::Done { end: ClusterStatusEnd::WillPollAgain },
                    handles.insert(request.id, handles[request.id] + 1),
                ),
                PollFailure::Permanent => match reason {
                    Some(reason) => quietly(
                        ClusterStatusStep::ResetForRetry { reason },
                        handles.remove(request.id),
                    ),
                    None => failing(false, request.req_type, request.id, handles),
                },
            },
            (ClusterStatusStep::StoreProof { .. }, _) => quietly(
                ClusterStatusStep::UpdateProveDuration,
                handles,
            ),
            (ClusterStatusStep::UpdateProveDuration, _) => quietly(
                ClusterStatusStep::Done { end: ClusterStatusEnd::Completed },
                handles.remove(request.id),
            ),
            (ClusterStatusStep::MarkFailed { timed_out }, _) => ClusterStatusOutcome {
                step: ClusterStatusStep::Done {
                    end: if timed_out {
                        ClusterStatusEnd::TimedOut
                    } else {
                        ClusterStatusEnd::GivenUp
                    },
                },
                gauges: if timed_out {
                    seq![
                        ValidityGauge::ProofRequestRetryCount,
                        ValidityGauge::ProofRequestTimeoutErrorCount,
                    ]
                } else {
                    seq![ValidityGauge::ProofRequestRetryCount]
                },
                handles,
            },
            (ClusterStatusStep::ResetForRetry { reason }, _) => quietly(
                ClusterStatusStep::Done { end: ClusterStatusEnd::WillRequestAgain { reason } },
                handles,
            ),
            _ => quietly(self, handles),
        }
    }

    /// Goes on from a step, by what came of it: gives the next step and the gauges to count up, and
    /// keeps the table of handles.
    pub fn next(
        self,
        event: ClusterStatusEvent,
        request: &OPSuccinctRequest,
        proving_timeout: u64,
        handles: &mut ClusterHandles,
    ) -> (result: (ClusterStatusStep, Vec<ValidityGauge>))
        requires
            self.admits(event),
            old(handles).wf(),
        ensures
            final(handles).wf(),
            result.0 == self.spec_next(event, *request, proving_timeout, old(handles)@).step,
            result.1@ == self.spec_next(event, *request, proving_timeout, old(handles)@).gauges,
            final(handles)@ == self.spec_next(event, *request, proving_timeout, old(handles)@).handles,
    {
        let mut gauges: Vec<ValidityGauge> = Vec::new();
        let failed = ClusterStatusStep::Done {
            end: ClusterStatusEnd::Failed(ClusterStatusError::CallFailed),
        };
        if let ClusterStatusEvent::Failed = event {
            if let ClusterStatusStep::MarkFailed { .. } = self {
                gauges.push(ValidityGauge::RetryErrorCount);
            }
            return (failed, gauges);
        }
        let next = match self {
            ClusterStatusStep::ReadClock => match event {
                ClusterStatusEvent::Clock { now } => {
                    let elapsed: i64 = seconds_since(request.proof_request_time, now);
                    if elapsed > proving_timeout as i64 {
                        handles.remove(request.id);
                        gauges.push(error_gauge(request.req_type));
                        ClusterStatusStep::MarkFailed { timed_out: true }
                    } else {
                        poll_in_time(request, handles)
                    }
                },
                _ => self,
            },
            ClusterStatusStep::ReadHandle => match request.proof_request_time {
                Some(_) => ClusterStatusStep::ReadClockAgain,
                None => ClusterStatusStep::Done {
                    end: ClusterStatusEnd::Failed(ClusterStatusError::MissingRequestTime),
                },
            },
            ClusterStatusStep::ReadClockAgain => match event {
                ClusterStatusEvent::Clock { now } => {
                    let elapsed: u64 = seconds_since(request.proof_request_time, now) as u64;
                    let remaining: u64 = if elapsed > proving_timeout {
                        0
                    } else {
                        proving_timeout - elapsed
                    };
                    handles.insert(request.id);
                    ClusterStatusStep::Poll { remaining: Some(remaining) }
                },
                _ => self,
            },
            ClusterStatusStep::Poll { .. } => match event {
                ClusterStatusEvent::Proved { kind } => match proof_encoding(kind) {
                    Some(encoding) => ClusterStatusStep::StoreProof { encoding },
                    None => ClusterStatusStep::Done {
                        end: ClusterStatusEnd::Failed(ClusterStatusError::CoreProof),
                    },
                },
                ClusterStatusEvent::PollFailed { reason } => match handles.note_failure(request.id) {
                    PollFailure::Transient => ClusterStatusStep::Done {
                        end: ClusterStatusEnd::WillPollAgain,
                    },
                    PollFailure::Permanent => match reason {
                        Some(reason) => ClusterStatusStep::ResetForRetry { reason },
                        None => {
                            gauges.push(error_gauge(request.req_type));
                            ClusterStatusStep::MarkFailed { timed_out: false }
                        },
                    },
                },
                _ => {
                    handles.note_pending(request.id);
                    ClusterStatusStep::Done { end: ClusterStatusEnd::Pending }
                },
            },
            ClusterStatusStep::StoreProof { .. } => ClusterStatusStep::UpdateProveDuration,
            ClusterStatusStep::UpdateProveDuration => {
                handles.remove(request.id);
                ClusterStatusStep::Done { end: ClusterStatusEnd::Completed }
            },
            ClusterStatusStep::MarkFailed { timed_out } => {
                gauges.push(ValidityGauge::ProofRequestRetryCount);
                if timed_out {
                    gauges.push(ValidityGauge::ProofRequestTimeoutErrorCount);
                    ClusterStatusStep::Done { end: ClusterStatusEnd::TimedOut }
                } else {
                    ClusterStatusStep::Done { end: ClusterStatusEnd::GivenUp }
                }
            },
            ClusterStatusStep::ResetForRetry { reason } => ClusterStatusStep::Done {
                end: ClusterStatusEnd::WillRequestAgain { reason },
            },
            ClusterStatusStep::Done { .. } => self,
        };
        (next, gauges)
    }
}

/// What a failed poll is, by the error that it failed with.
pub fn failed_poll(e: &anyhow::Error) -> (event: ClusterStatusEvent)
    ensures
        exists|rendered: Seq<char>| #[trigger]
            renders_as(*e, rendered) && event == (ClusterStatusEvent::PollFailed {
                reason: spec_no_bisect_reason(grpc_code_in(*e), rendered),
            }),
{
    ClusterStatusEvent::PollFailed { reason: no_bisect_reason(e) }
}

/// The gauge that counts the failed requests of a type.
fn error_gauge(req_type: RequestType) -> (gauge: ValidityGauge)
    ensures
        gauge == request_error_gauge(req_type),
{
    match req_type {
        RequestType::Range => ValidityGauge::RangeProofRequestErrorCount,
        RequestType::Aggregation => ValidityGauge::AggProofRequestErrorCount,
    }
}

/// The step of a request that is in time.
fn poll_in_time(request: &OPSuccinctRequest, handles: &ClusterHandles) -> (step: ClusterStatusStep)
    ensures
        step == in_time(*request, handles@).step,
{
    if handles.contains(request.id) {
        ClusterStatusStep::Poll { remaining: None }
    } else if request.has_cluster_proof_handle {
        ClusterStatusStep::ReadHandle
    } else {
        ClusterStatusStep::Done {
            end: ClusterStatusEnd::Failed(ClusterStatusError::MissingProofHandle),
        }
    }
}

impl Proposer {
    /// Starts to follow a request. The time is checked first, where the row says when the proof was
    /// requested.
    pub fn process_cluster_proof_status(
        &self,
        has_cluster_config: bool,
        request: &OPSuccinctRequest,
        handles: &ClusterHandles,
    ) -> (step: ClusterStatusStep)
        ensures
            step == if !has_cluster_config {
                refused(ClusterStatusError::MissingClusterConfig, handles@).step
            } else if request.proof_request_time is Some {
                ClusterStatusStep::ReadClock
            } else {
                in_time(*request, handles@).step
            },
    {
        if !has_cluster_config {
            return ClusterStatusStep::Done {
                end: ClusterStatusEnd::Failed(ClusterStatusError::MissingClusterConfig),
            };
        }
        match request.proof_request_time {
            Some(_) => ClusterStatusStep::ReadClock,
            None => poll_in_time(request, handles),
        }
    }
}

/// The handles after one more poll of a request, which failed or found it pending.
pub open spec fn handles_after_poll(handles: Map<i64, nat>, id: i64, failed: bool) -> Map<i64, nat> {
    if !failed {
        if handles.contains_key(id) {
            handles.insert(id, 0)
        } else {
            handles
        }
    } else {
        match poll_failure(handles, id) {
            PollFailure::Transient => handles.insert(id, handles[id] + 1),
            PollFailure::Permanent => handles.remove(id),
        }
    }
}

/// The handles after a number of polls of a request, of which each failed or found it pending.
pub open spec fn handles_after_polls(handles: Map<i64, nat>, id: i64, polls: Seq<bool>) -> Map<
    i64,
    nat,
>
    decreases polls.len(),
{
    if polls.len() == 0 {
        handles
    } else {
        handles_after_poll(
            handles_after_polls(handles, id, polls.drop_last()),
            id,
            polls.last(),
        )
    }
}

/// Three polls in a row failed, ending with the poll at `at`.
pub open spec fn three_failed_in_a_row(polls: Seq<bool>, at: int) -> bool {
    2 <= at < polls.len() && polls[at] && polls[at - 1] && polls[at - 2]
}

/// A request that was just taken in is given up exactly if three polls of it in a row have failed:
/// fewer never do it, and a poll that finds it pending starts the count anew.
pub proof fn law_three_failures_in_a_row_give_up(handles: Map<i64, nat>, id: i64, polls: Seq<bool>)
    ensures
        !handles_after_polls(handles.insert(id, 0), id, polls).contains_key(id) <==> exists|at: int|
            #[trigger] three_failed_in_a_row(polls, at),
{
    lemma_failures_are_a_run(handles.insert(id, 0), id, polls);
}

/// The count is the length of the run of failures at the end.
proof fn lemma_failures_are_a_run(handles: Map<i64, nat>, id: i64, polls: Seq<bool>)
    requires
        handles.contains_key(id),
        handles[id] == 0,
    ensures
        !handles_after_polls(handles, id, polls).contains_key(id) <==> exists|at: int| #[trigger]
            three_failed_in_a_row(polls, at),
        handles_after_polls(handles, id, polls).contains_key(id) ==> {
            let count = handles_after_polls(handles, id, polls)[id];
            &&& count < 3
            &&& count <= polls.len()
            &&& forall|k: int| polls.len() - count <= k < polls.len() ==> polls[k]
            &&& count < polls.len() ==> !polls[polls.len() - count - 1]
        },
    decreases polls.len(),
{
    if polls.len() > 0 {
        let front = polls.drop_last();
        let n = polls.len() as int;
        lemma_failures_are_a_run(handles, id, front);
        let before = handles_after_polls(handles, id, front);
        assert(forall|k: int| 0 <= k < n - 1 ==> front[k] == polls[k]);
        if !before.contains_key(id) {
            let at = choose|at: int| three_failed_in_a_row(front, at);
            assert(three_failed_in_a_row(polls, at));
        } else {
            assert forall|at: int| three_failed_in_a_row(polls, at) implies at == n - 1 by {
                if at < n - 1 {
                    assert(three_failed_in_a_row(front, at));
                }
            }
            if polls.last() && before[id] == 2 {
                assert(three_failed_in_a_row(polls, n - 1));
            } else if polls.last() {
                assert(!three_failed_in_a_row(polls, n - 1));
            }
        }
    }
}

/// Polling a request keeps the table of handles in just this way.
pub proof fn law_a_poll_keeps_the_handles(
    remaining: Option<u64>,
    reason: Option<NoBisectReason>,
    request: OPSuccinctRequest,
    proving_timeout: u64,
    handles: Map<i64, nat>,
)
    ensures
        (ClusterStatusStep::Poll { remaining }).spec_next(
            ClusterStatusEvent::PollFailed { reason },
            request,
            proving_timeout,
            handles,
        ).handles == handles_after_poll(handles, request.id, true),
        (ClusterStatusStep::Poll { remaining }).spec_next(
            ClusterStatusEvent::Pending,
            request,
            proving_timeout,
            handles,
        ).handles == handles_after_poll(handles, request.id, false),
{
}

/// A pass over a request leaves the handles of all other requests alone.
pub proof fn law_other_handles_are_left_alone(
    step: ClusterStatusStep,
    event: ClusterStatusEvent,
    request: OPSuccinctRequest,
    proving_timeout: u64,
    handles: Map<i64, nat>,
    other: i64,
)
    requires
        step.admits(event),
        other != request.id,
    ensures
        ({
            let after = step.spec_next(event, request, proving_timeout, handles).handles;
            &&& after.contains_key(other) == handles.contains_key(other)
            &&& handles.contains_key(other) ==> after[other] == handles[other]
        }),
{
}

/// A request that was given up or timed out is failed or requested again only after its handle was
/// dropped, so no handle outlives its request even where the database cannot be written.
pub proof fn law_a_failed_request_keeps_no_handle(
    step: ClusterStatusStep,
    event: ClusterStatusEvent,
    request: OPSuccinctRequest,
    proving_timeout: u64,
    handles: Map<i64, nat>,
)
    requires
        step.admits(event),
    ensures
        ({
            let outcome = step.spec_next(event, request, proving_timeout, handles);
            outcome.step is MarkFailed || outcome.step is ResetForRetry
                ==> !outcome.handles.contains_key(request.id)
        }),
{
}

/// A poll that failed for a reason that says nothing about the range never leads to a bisection:
/// the request is polled again, or requested again as it is.
pub proof fn law_a_range_that_was_not_tried_is_not_bisected(
    remaining: Option<u64>,
    reason: NoBisectReason,
    request: OPSuccinctRequest,
    proving_timeout: u64,
    handles: Map<i64, nat>,
)
    ensures
        !((ClusterStatusStep::Poll { remaining }).spec_next(
            ClusterStatusEvent::PollFailed { reason: Some(reason) },
            request,
            proving_timeout,
            handles,
        ).step is MarkFailed),
{
}

/// The class of the error decides about a request whose polls failed too often: one that says
/// nothing about the range has the request requested again as it is, any other marks it as failed.
pub proof fn law_the_class_of_a_poll_error_decides(
    remaining: Option<u64>,
    code: Option<i32>,
    rendered: Seq<char>,
    request: OPSuccinctRequest,
    proving_timeout: u64,
    handles: Map<i64, nat>,
)
    requires
        poll_failure(handles, request.id) == PollFailure::Permanent,
    ensures
        ({
            let step = (ClusterStatusStep::Poll { remaining }).spec_next(
                ClusterStatusEvent::PollFailed { reason: spec_no_bisect_reason(code, rendered) },
                request,
                proving_timeout,
                handles,
            ).step;
            &&& step is MarkFailed <==> !sheds(rendered) && !is_transport_fault(code, rendered)
                && code != Some(GRPC_FAILED_PRECONDITION)
            &&& step is ResetForRetry <==> !(step is MarkFailed)
        }),
{
}

/// An upper bound on the number of steps that are left.
pub open spec fn steps_left(step: ClusterStatusStep) -> nat {
    match step {
        ClusterStatusStep::ReadClock => 6,
        ClusterStatusStep::ReadHandle => 5,
        ClusterStatusStep::ReadClockAgain => 4,
        ClusterStatusStep::Poll { .. } => 3,
        ClusterStatusStep::StoreProof { .. } => 2,
        ClusterStatusStep::UpdateProveDuration => 1,
        ClusterStatusStep::MarkFailed { .. } => 1,
        ClusterStatusStep::ResetForRetry { .. } => 1,
        ClusterStatusStep::Done { .. } => 0,
    }
}

/// A pass over a request comes to an end, whatever the cluster and the database answer.
pub proof fn law_a_pass_comes_to_an_end(
    step: ClusterStatusStep,
    event: ClusterStatusEvent,
    request: OPSuccinctRequest,
    proving_timeout: u64,
    handles: Map<i64, nat>,
)
    requires
        step.admits(event),
    ensures
        steps_left(step.spec_next(event, request, proving_timeout, handles).step) < steps_left(step),
{
}

/// A proof from the cluster is stored serialized exactly if it is a compressed one, and as the
/// contract takes it exactly if it is a Groth16 or a PLONK one; a core proof is refused.
pub proof fn law_a_stored_proof_is_encoded_by_its_kind(
    remaining: Option<u64>,
    kind: ProofKind,
    request: OPSuccinctRequest,
    proving_timeout: u64,
    handles: &mut ClusterHandles,
    next: ClusterStatusStep,
    gauges: Vec<ValidityGauge>,
)
    requires
        call_ensures(
            ClusterStatusStep::next,
            (
                ClusterStatusStep::Poll { remaining },
                ClusterStatusEvent::Proved { kind },
                &request,
                proving_timeout,
                handles,
            ),
            (next, gauges),
        ),
    ensures
        next == (ClusterStatusStep::StoreProof { encoding: ProofEncoding::Serialized }) <==> kind
            == ProofKind::Compressed,
        next == (ClusterStatusStep::StoreProof { encoding: ProofEncoding::OnChain }) <==> kind
            == ProofKind::Groth16 || kind == ProofKind::Plonk,
        next == (ClusterStatusStep::Done {
            end: ClusterStatusEnd::Failed(ClusterStatusError::CoreProof),
        }) <==> kind == ProofKind::Core,
        final(handles)@ == old(handles)@,
{
}

/// A request whose proof has taken longer than it may, by at least a full second, is failed. Any
/// other is polled: with its handle where it is held, else with the one in its row; without either
/// it cannot be.
pub proof fn law_a_request_is_polled_as_long_as_it_is_in_time(
    now: i64,
    request: OPSuccinctRequest,
    proving_timeout: u64,
    handles: &mut ClusterHandles,
    next: ClusterStatusStep,
    gauges: Vec<ValidityGauge>,
)
    requires
        call_ensures(
            ClusterStatusStep::next,
            (
                ClusterStatusStep::ReadClock,
                ClusterStatusEvent::Clock { now },
                &request,
                proving_timeout,
                handles,
            ),
            (next, gauges),
        ),
    ensures
        ({
            let micros = if request.proof_request_time is Some && now
                > request.proof_request_time->0 {
                now - request.proof_request_time->0
            } else {
                0
            };
            let late = micros >= (proving_timeout as i64 + 1) * 1_000_000;
            &&& next == (ClusterStatusStep::MarkFailed { timed_out: true }) <==> late
            &&& late ==> final(handles)@ == old(handles)@.remove(request.id)
            &&& !late ==> final(handles)@ == old(handles)@
            &&& next == (ClusterStatusStep::Poll { remaining: None }) <==> !late
                && old(handles)@.contains_key(request.id)
            &&& next is ReadHandle <==> !late && !old(handles)@.contains_key(request.id)
                && request.has_cluster_proof_handle
            &&& next == (ClusterStatusStep::Done {
                end: ClusterStatusEnd::Failed(ClusterStatusError::MissingProofHandle),
            }) <==> !late && !old(handles)@.contains_key(request.id)
                && !request.has_cluster_proof_handle
        }),
{
}

/// A handle that was read from a row is polled for the seconds that are left of the timeout,
/// counted from when the proof was requested: none are left once they have passed, and all are
/// while the clock is not past the request. The handle is taken in with no failed polls.
pub proof fn law_a_handle_is_polled_for_what_is_left_of_its_time(
    now: i64,
    then: i64,
    request: OPSuccinctRequest,
    proving_timeout: u64,
    handles: &mut ClusterHandles,
    next: ClusterStatusStep,
    gauges: Vec<ValidityGauge>,
)
    requires
        request.proof_request_time == Some(then),
        call_ensures(
            ClusterStatusStep::next,
            (
                ClusterStatusStep::ReadClockAgain,
                ClusterStatusEvent::Clock { now },
                &request,
                proving_timeout,
                handles,
            ),
            (next, gauges),
        ),
    ensures
        next matches ClusterStatusStep::Poll { remaining: Some(remaining) } && {
            &&& remaining <= proving_timeout
            &&& now <= then ==> remaining == proving_timeout
            &&& now > then && remaining > 0 ==> (proving_timeout - remaining) * 1_000_000 <= now - then
                < (proving_timeout - remaining + 1) * 1_000_000
            &&& remaining == 0 && now > then ==> proving_timeout * 1_000_000 <= now - then
        },
        final(handles)@ == old(handles)@.insert(request.id, 0),
{
}

/// A handle that was read from a row needs the time of the request to go with it.
pub proof fn law_a_handle_needs_the_time_of_its_request(
    event: ClusterStatusEvent,
    request: OPSuccinctRequest,
    proving_timeout: u64,
    handles: &mut ClusterHandles,
    next: ClusterStatusStep,
    gauges: Vec<ValidityGauge>,
)
    requires
        event is Succeeded || event is Failed,
        call_ensures(
            ClusterStatusStep::next,
            (ClusterStatusStep::ReadHandle, event, &request, proving_timeout, handles),
            (next, gauges),
        ),
    ensures
        next is ReadClockAgain <==> event is Succeeded && request.proof_request_time is Some,
        next == (ClusterStatusStep::Done {
            end: ClusterStatusEnd::Failed(ClusterStatusError::MissingRequestTime),
        }) <==> event is Succeeded && request.proof_request_time is None,
        next == (ClusterStatusStep::Done {
            end: ClusterStatusEnd::Failed(ClusterStatusError::CallFailed),
        }) <==> event is Failed,
{
}

/// A failed poll is counted as long as fewer than three have failed in a row, and the request is
/// polled again. The third gives the request up: its handle is dropped, and it is requested again
/// where the failure says nothing about its range, and failed otherwise. A request without a handle
/// is given up at once.
pub proof fn law_a_third_failed_poll_gives_a_request_up(
    remaining: Option<u64>,
    reason: Option<NoBisectReason>,
    request: OPSuccinctRequest,
    proving_timeout: u64,
    handles: &mut ClusterHandles,
    next: ClusterStatusStep,
    gauges: Vec<ValidityGauge>,
)
    requires
        call_ensures(
            ClusterStatusStep::next,
            (
                ClusterStatusStep::Poll { remaining },
                ClusterStatusEvent::PollFailed { reason },
                &request,
                proving_timeout,
                handles,
            ),
            (next, gauges),
        ),
    ensures
        ({
            let held = old(handles)@.contains_key(request.id);
            let again = held && old(handles)@[request.id] <= 1;
            &&& next == (ClusterStatusStep::Done { end: ClusterStatusEnd::WillPollAgain }) <==> again
            &&& again ==> final(handles)@ == old(handles)@.insert(
                request.id,
                old(handles)@[request.id] + 1,
            )
            &&& !again ==> final(handles)@ == old(handles)@.remove(request.id)
            &&& next == (ClusterStatusStep::MarkFailed { timed_out: false }) <==> !again && reason
                is None
            &&& next is ResetForRetry <==> !again && reason is Some
            &&& next matches ClusterStatusStep::ResetForRetry { reason: kept } ==> reason == Some(kept)
        }),
{
}

/// A poll that finds a request pending ends the pass and forgets the failures so far.
pub proof fn law_a_pending_request_starts_its_count_anew(
    remaining: Option<u64>,
    request: OPSuccinctRequest,
    proving_timeout: u64,
    handles: &mut ClusterHandles,
    next: ClusterStatusStep,
    gauges: Vec<ValidityGauge>,
)
    requires
        call_ensures(
            ClusterStatusStep::next,
            (
                ClusterStatusStep::Poll { remaining },
                ClusterStatusEvent::Pending,
                &request,
                proving_timeout,
                handles,
            ),
            (next, gauges),
        ),
    ensures
        next == (ClusterStatusStep::Done { end: ClusterStatusEnd::Pending }),
        final(handles)@.dom() == old(handles)@.dom(),
        final(handles)@.contains_key(request.id) ==> final(handles)@[request.id] == 0,
        forall|id: i64|
            id != request.id && #[trigger] old(handles)@.contains_key(id) ==> final(handles)@[id]
                == old(handles)@[id],
{
    assert(final(handles)@.dom() =~= old(handles)@.dom());
}

/// Each act of a pass has one act before it, which must have succeeded, and the end of a pass says
/// what was done last. The handle of a completed request is dropped.
pub proof fn law_each_act_follows_from_one(
    step: ClusterStatusStep,
    event: ClusterStatusEvent,
    request: OPSuccinctRequest,
    proving_timeout: u64,
    handles: &mut ClusterHandles,
    next: ClusterStatusStep,
    gauges: Vec<ValidityGauge>,
)
    requires
        step.admits(event),
        call_ensures(
            ClusterStatusStep::next,
            (step, event, &request, proving_timeout, handles),
            (next, gauges),
        ),
    ensures
        next is UpdateProveDuration <==> step is StoreProof && event is Succeeded,
        next == (ClusterStatusStep::Done { end: ClusterStatusEnd::Completed }) <==> step
            is UpdateProveDuration && event is Succeeded,
        step is UpdateProveDuration && event is Succeeded ==> final(handles)@
            == old(handles)@.remove(request.id),
        next == (ClusterStatusStep::Done { end: ClusterStatusEnd::TimedOut }) <==> step
            == (ClusterStatusStep::MarkFailed { timed_out: true }) && event is Succeeded,
        next == (ClusterStatusStep::Done { end: ClusterStatusEnd::GivenUp }) <==> step
            == (ClusterStatusStep::MarkFailed { timed_out: false }) && event is Succeeded,
        next matches ClusterStatusStep::Done { end: ClusterStatusEnd::WillRequestAgain { reason } }
            ==> step == (ClusterStatusStep::ResetForRetry { reason }) && event is Succeeded,
        step matches ClusterStatusStep::ResetForRetry { reason } ==> event is Succeeded ==> next
            == (ClusterStatusStep::Done { end: ClusterStatusEnd::WillRequestAgain { reason } }),
        next == (ClusterStatusStep::Done {
            end: ClusterStatusEnd::Failed(ClusterStatusError::CallFailed),
        }) <==> event is Failed,
        event is Failed || step is StoreProof || step is MarkFailed || step is ResetForRetry || step
            is ReadHandle ==> final(handles)@ == old(handles)@,
{
}

/// What a pass counts: a failed request by its type as soon as it is to be failed; a retry once
/// that is written, with a timeout where it took too long; and a retry error where it cannot be
/// written. Nothing else is counted, and nothing twice.
pub proof fn law_each_gauge_counts_one_thing(
    step: ClusterStatusStep,
    event: ClusterStatusEvent,
    request: OPSuccinctRequest,
    proving_timeout: u64,
    handles: &mut ClusterHandles,
    next: ClusterStatusStep,
    gauges: Vec<ValidityGauge>,
    gauge: ValidityGauge,
)
    requires
        step.admits(event),
        call_ensures(
            ClusterStatusStep::next,
            (step, event, &request, proving_timeout, handles),
            (next, gauges),
        ),
    ensures
        gauges@.no_duplicates(),
        gauges@.contains(gauge) <==> match gauge {
            ValidityGauge::RangeProofRequestErrorCount => next is MarkFailed && request.req_type
                == RequestType::Range,
            ValidityGauge::AggProofRequestErrorCount => next is MarkFailed && request.req_type
                == RequestType::Aggregation,
            ValidityGauge::ProofRequestRetryCount => step is MarkFailed && event is Succeeded,
            ValidityGauge::ProofRequestTimeoutErrorCount => step == (ClusterStatusStep::MarkFailed {
                timed_out: true,
            }) && event is Succeeded,
            ValidityGauge::RetryErrorCount => step is MarkFailed && event is Failed,
            _ => false,
        },
{
    let counted = gauges@;
    if counted.len() >= 1 {
        assert(counted.contains(counted[0]));
    }
    if counted.len() >= 2 {
        assert(counted.contains(counted[1]));
    }
}

/// A pass over a request ends at once where there is no cluster. Otherwise it starts by looking at
/// the time, where the row says when the proof was requested, and else with a poll, for which there
/// must be a handle.
pub proof fn law_a_pass_looks_at_the_time_first(
    proposer: Proposer,
    has_cluster_config: bool,
    request: OPSuccinctRequest,
    handles: ClusterHandles,
    step: ClusterStatusStep,
)
    requires
        call_ensures(
            Proposer::process_cluster_proof_status,
            (&proposer, has_cluster_config, &request, &handles),
            step,
        ),
    ensures
        ({
            let timeless = has_cluster_config && request.proof_request_time is None;
            let held = handles@.contains_key(request.id);
            &&& step == (ClusterStatusStep::Done {
                end: ClusterStatusEnd::Failed(ClusterStatusError::MissingClusterConfig),
            }) <==> !has_cluster_config
            &&& step is ReadClock <==> has_cluster_config && request.proof_request_time is Some
            &&& step == (ClusterStatusStep::Poll { remaining: None }) <==> timeless && held
            &&& step is ReadHandle <==> timeless && !held && request.has_cluster_proof_handle
            &&& step == (ClusterStatusStep::Done {
                end: ClusterStatusEnd::Failed(ClusterStatusError::MissingProofHandle),
            }) <==> timeless && !held && !request.has_cluster_proof_handle
        }),
{
}

/// A new table holds no handle; one that is taken in has no failed polls, and one that is dropped
/// is gone.
pub proof fn law_handles_are_taken_in_and_dropped_one_by_one(
    empty: ClusterHandles,
    taken_in: &mut ClusterHandles,
    dropped: &mut ClusterHandles,
    id: i64,
    other: i64,
)
    requires
        call_ensures(ClusterHandles::new, (), empty),
        call_ensures(ClusterHandles::insert, (taken_in, id), ()),
        call_ensures(ClusterHandles::remove, (dropped, id), ()),
    ensures
        !empty@.contains_key(id),
        final(taken_in)@.contains_key(id),
        final(taken_in)@[id] == 0,
        !final(dropped)@.contains_key(id),
        other != id ==> {
            &&& final(taken_in)@.contains_key(other) == old(taken_in)@.contains_key(other)
            &&& final(dropped)@.contains_key(other) == old(dropped)@.contains_key(other)
        },
{
}

/// A poll that failed with an error carries the reason not to bisect that the error's code tells,
/// unless it tells of an admission shed: 14 for an unreachable backend, 9 for a request that cannot
/// be served, and no reason for any other code.
pub proof fn law_the_code_of_a_poll_error_is_its_reason(
    e: anyhow::Error,
    number: i32,
    event: ClusterStatusEvent,
)
    requires
        grpc_code_in(e) == Some(number),
        call_ensures(failed_poll, (&e,), event),
        forall|rendered: Seq<char>| #[trigger]
            renders_as(e, rendered) ==> !occurs_in("x-sp1-admission-shed"@, rendered),
    ensures
        event matches ClusterStatusEvent::PollFailed { reason } && {
            &&& reason == Some(NoBisectReason::TransientTransport) <==> number == 14
            &&& reason == Some(NoBisectReason::UnsatisfiablePrecondition) <==> number == 9
            &&& reason is None <==> number != 14 && number != 9
        },
{
}

/// A poll that failed with an error whose every rendering holds the router's marker was shed.
pub proof fn law_a_shed_poll_is_known_by_its_marker(e: anyhow::Error, event: ClusterStatusEvent)
    requires
        call_ensures(failed_poll, (&e,), event),
        forall|rendered: Seq<char>| #[trigger]
            renders_as(e, rendered) ==> occurs_in("x-sp1-admission-shed"@, rendered),
    ensures
        event == (ClusterStatusEvent::PollFailed { reason: Some(NoBisectReason::AdmissionShed) }),
{
}

/// A failed poll is counted where the handle is held and at most one has failed before; otherwise
/// the request is given up, and its handle is gone. A request that is found pending starts its
/// count anew, if its handle is held.
pub proof fn law_the_table_counts_failed_polls(
    failed: &mut ClusterHandles,
    failure: PollFailure,
    pending: &mut ClusterHandles,
    asked: ClusterHandles,
    found: bool,
    id: i64,
)
    requires
        call_ensures(ClusterHandles::note_failure, (failed, id), failure),
        call_ensures(ClusterHandles::note_pending, (pending, id), ()),
        call_ensures(ClusterHandles::contains, (&asked, id), found),
    ensures
        failure == PollFailure::Transient <==> old(failed)@.contains_key(id) && old(failed)@[id] <= 1,
        failure == PollFailure::Transient ==> final(failed)@.contains_key(id) && final(failed)@[id]
            == old(failed)@[id] + 1,
        failure == PollFailure::Permanent ==> !final(failed)@.contains_key(id),
        final(pending)@.contains_key(id) <==> old(pending)@.contains_key(id),
        old(pending)@.contains_key(id) ==> final(pending)@[id] == 0,
        found <==> asked@.contains_key(id),
{
}

} // verus!
