//! The tasks that generate witnesses and make proof requests: what becomes of finished ones, and
//! which request gets the next.
use std::collections::HashSet;
use vstd::prelude::*;

use crate::outside::{grpc_code_in, renders_as};
use crate::proposer::aggregation::{chains, lemma_chains_in_place, ranges_of};
use crate::proposer::failure::{
    is_transport_fault, no_bisect_reason, sheds, spec_no_bisect_reason, NoBisectReason,
    GRPC_FAILED_PRECONDITION,
};
use crate::proposer::Proposer;
use crate::request::{OPSuccinctRequest, ValidityGauge};
use crate::text::occurs_in;

verus! {

broadcast use vstd::std_specs::hash::group_hash_axioms;

/// The requests that a task is working on.
pub struct TaskMap {
    ids: HashSet<i64>,
}

impl View for TaskMap {
    type V = Set<i64>;

    closed spec fn view(&self) -> Set<i64> {
        self.ids@
    }
}

impl TaskMap {
    /// No tasks.
    pub fn new() -> (tasks: TaskMap)
        ensures
            tasks@ == Set::<i64>::empty(),
    {
        TaskMap { ids: HashSet::new() }
    }

    /// Whether a task is working on a request.
    pub fn contains(&self, id: i64) -> (found: bool)
        ensures
            found == self@.contains(id),
    {
        self.ids.contains(&id)
    }

    /// Takes a task in.
    pub fn insert(&mut self, id: i64)
        ensures
            final(self)@ == old(self)@.insert(id),
    {
        self.ids.insert(id);
    }

    /// Drops a task.
    pub fn remove(&mut self, id: i64)
        ensures
            final(self)@ == old(self)@.remove(id),
    {
        self.ids.remove(&id);
    }
}

/// The identifiers of the tasks that have finished, in the order they are given in.
pub open spec fn finished_ids(tasks: Seq<(i64, bool)>) -> Seq<i64>
    decreases tasks.len(),
{
    if tasks.len() == 0 {
        Seq::empty()
    } else {
        let front = finished_ids(tasks.drop_last());
        if tasks.last().1 {
            front.push(tasks.last().0)
        } else {
            front
        }
    }
}

/// What is left of some tasks are those that are not gone.
pub open spec fn is_left_of(after: Set<i64>, before: Set<i64>, gone: Seq<i64>) -> bool {
    forall|id: i64| #[trigger] after.contains(id) <==> before.contains(id) && !gone.contains(id)
}

/// Takes the finished tasks out. Each task is given with whether it has finished.
pub fn reap_finished(tasks: &mut TaskMap, states: &[(i64, bool)]) -> (finished: Vec<i64>)
    ensures
        finished@ == finished_ids(states@),
        forall|id: i64| #[trigger]
            final(tasks)@.contains(id) <==> old(tasks)@.contains(id) && !finished@.contains(id),
        is_left_of(final(tasks)@, old(tasks)@, finished@),
{
    let mut finished: Vec<i64> = Vec::new();
    let mut i: usize = 0;
    assert(states@.take(0) =~= Seq::<(i64, bool)>::empty());
    while i < states.len()
        invariant
            i <= states@.len(),
            finished@ == finished_ids(states@.take(i as int)),
            forall|id: i64| #[trigger]
                tasks@.contains(id) <==> old(tasks)@.contains(id) && !finished@.contains(id),
        decreases states@.len() - i,
    {
        let ghost before = finished@;
        let ghost kept = tasks@;
        if states[i].1 {
            tasks.remove(states[i].0);
            finished.push(states[i].0);
        }
        proof {
            let next = states@.take(i + 1);
            assert(next.drop_last() =~= states@.take(i as int));
            assert(next.last() == states@[i as int]);
            if states@[i as int].1 {
                assert forall|id: i64| #[trigger]
                    tasks@.contains(id) <==> old(tasks)@.contains(id) && !finished@.contains(id) by {
                    assert(kept.contains(id) <==> old(tasks)@.contains(id) && !before.contains(id));
                    lemma_push_contains(before, states@[i as int].0, id);
                }
            }
        }
        i += 1;
    }
    assert(states@.take(states@.len() as int) =~= states@);
    finished
}

/// What a sequence holds with one more element.
proof fn lemma_push_contains(ids: Seq<i64>, more: i64, id: i64)
    ensures
        ids.push(more).contains(id) <==> ids.contains(id) || id == more,
{
    if ids.contains(id) {
        let i = choose|i: int| 0 <= i < ids.len() && ids[i] == id;
        assert(ids.push(more)[i] == id);
    }
    if id == more {
        assert(ids.push(more)[ids.len() as int] == id);
    }
}

/// How a task ended.
#[derive(Debug, Clone, Copy, PartialEq, Eq, Structural)]
pub enum TaskOutcome {
    Succeeded,
    /// With an error, and the reason why it must not bisect the range, if it must not.
    Failed { reason: Option<NoBisectReason> },
    Panicked,
}

/// What is to be done about the request of a finished task.
#[derive(Debug, Clone, Copy, PartialEq, Eq, Structural)]
pub enum TaskAction {
    Nothing,
    /// Set the request back to `Unrequested`, so that the same range is tried again. A failure to
    /// do so is logged only.
    ResetToUnrequested { reason: NoBisectReason },
    /// Mark the request as failed, which may split its range. A failure to do so is counted.
    MarkFailed,
}

/// What is to be done about the request of a finished task. Only a failure that tells something
/// about the range may bisect it; a panic carries no such reason.
pub open spec fn spec_task_action(outcome: TaskOutcome) -> TaskAction {
    match outcome {
        TaskOutcome::Succeeded => TaskAction::Nothing,
        TaskOutcome::Failed { reason: Some(reason) } => TaskAction::ResetToUnrequested { reason },
        TaskOutcome::Failed { reason: None } => TaskAction::MarkFailed,
        TaskOutcome::Panicked => TaskAction::MarkFailed,
    }
}

/// Decides what is to be done about the request of a finished task.
pub fn task_action(outcome: TaskOutcome) -> (action: TaskAction)
    ensures
        action == spec_task_action(outcome),
{
    match outcome {
        TaskOutcome::Succeeded => TaskAction::Nothing,
        TaskOutcome::Failed { reason: Some(reason) } => TaskAction::ResetToUnrequested { reason },
        TaskOutcome::Failed { reason: None } | TaskOutcome::Panicked => TaskAction::MarkFailed,
    }
}

/// How a task ended that failed with an error.
pub fn failed_task(e: &anyhow::Error) -> (outcome: TaskOutcome)
    ensures
        exists|rendered: Seq<char>| #[trigger]
            renders_as(*e, rendered) && outcome == (TaskOutcome::Failed {
                reason: spec_no_bisect_reason(grpc_code_in(*e), rendered),
            }),
{
    TaskOutcome::Failed { reason: no_bisect_reason(e) }
}

/// The gauge to count up once an action was carried out, or was not.
pub fn task_gauge(action: TaskAction, succeeded: bool) -> (gauge: Option<ValidityGauge>)
    ensures
        gauge == match action {
            TaskAction::MarkFailed => Some(
                if succeeded {
                    ValidityGauge::ProofRequestRetryCount
                } else {
                    ValidityGauge::RetryErrorCount
                },
            ),
            _ => None,
        },
{
    match action {
        TaskAction::MarkFailed => {
            if succeeded {
                Some(ValidityGauge::ProofRequestRetryCount)
            } else {
                Some(ValidityGauge::RetryErrorCount)
            }
        },
        _ => None,
    }
}

/// The requests that no task is working on, in their order.
pub open spec fn orphans(ids: Seq<i64>, tasks: Set<i64>) -> Seq<i64> {
    ids.filter(|id: i64| !tasks.contains(id))
}

/// The requests that are said to be in witness generation or execution and that no task is working
/// on: they are to be marked as failed, in this order.
pub fn orphaned_tasks(witnessgen: &[i64], execution: &[i64], tasks: &TaskMap) -> (orphaned: Vec<i64>)
    ensures
        orphaned@ == orphans(witnessgen@ + execution@, tasks@),
{
    let mut orphaned: Vec<i64> = Vec::new();
    push_orphans(&mut orphaned, witnessgen, tasks);
    push_orphans(&mut orphaned, execution, tasks);
    proof {
        Seq::filter_distributes_over_add(
            witnessgen@,
            execution@,
            |id: i64| !tasks@.contains(id),
        );
        assert(orphaned@ =~= orphans(witnessgen@ + execution@, tasks@));
    }
    orphaned
}

/// Appends the requests that no task is working on.
fn push_orphans(orphaned: &mut Vec<i64>, ids: &[i64], tasks: &TaskMap)
    ensures
        final(orphaned)@ == old(orphaned)@ + orphans(ids@, tasks@),
{
    let mut i: usize = 0;
    proof {
        reveal(Seq::filter);
        assert(ids@.take(0) =~= Seq::<i64>::empty());
        assert(orphans(ids@.take(0), tasks@) =~= Seq::<i64>::empty());
        assert(orphaned@ =~= old(orphaned)@ + orphans(ids@.take(0), tasks@));
    }
    while i < ids.len()
        invariant
            i <= ids@.len(),
            orphaned@ == old(orphaned)@ + orphans(ids@.take(i as int), tasks@),
        decreases ids@.len() - i,
    {
        let ghost before = orphaned@;
        if !tasks.contains(ids[i]) {
            orphaned.push(ids[i]);
        }
        proof {
            reveal(Seq::filter);
            let next = ids@.take(i + 1);
            assert(next.drop_last() =~= ids@.take(i as int));
            assert(next.last() == ids@[i as int]);
            assert(orphaned@ =~= old(orphaned)@ + orphans(next, tasks@));
        }
        i += 1;
    }
    assert(ids@.take(ids@.len() as int) =~= ids@);
}

/// A request is found orphaned exactly if it is listed and no task is working on it.
pub proof fn law_only_requests_without_a_task_are_orphaned(ids: Seq<i64>, tasks: Set<i64>, id: i64)
    ensures
        orphans(ids, tasks).contains(id) <==> ids.contains(id) && !tasks.contains(id),
    decreases ids.len(),
{
    reveal(Seq::filter);
    if ids.len() > 0 {
        let front = ids.drop_last();
        let last = ids.last();
        law_only_requests_without_a_task_are_orphaned(front, tasks, id);
        assert(ids =~= front.push(last));
        lemma_push_contains(front, last, id);
        lemma_push_contains(orphans(front, tasks), last, id);
    }
}

/// The class of the error decides about the request of a task that failed: one that says nothing
/// about the range has the same range tried again, any other may bisect it.
pub proof fn law_the_class_of_a_task_error_decides(code: Option<i32>, rendered: Seq<char>)
    ensures
        ({
            let action = spec_task_action(
                TaskOutcome::Failed { reason: spec_no_bisect_reason(code, rendered) },
            );
            &&& action is MarkFailed <==> !sheds(rendered) && !is_transport_fault(code, rendered)
                && code != Some(GRPC_FAILED_PRECONDITION)
            &&& action is ResetToUnrequested <==> !(action is MarkFailed)
        }),
{
}

/// A finished task whose failure says nothing about the range never leads to a bisection.
pub proof fn law_a_range_that_was_not_tried_is_not_bisected(reason: NoBisectReason)
    ensures
        spec_task_action(TaskOutcome::Failed { reason: Some(reason) })
            == (TaskAction::ResetToUnrequested { reason }),
{
}

/// What to do next about the finished tasks. They are handled one after the other; `at` is the
/// place of the current one.
#[derive(Debug, Clone, PartialEq, Eq)]
pub enum OngoingStep {
    /// Await the task, which has finished.
    Join { finished: Vec<i64>, at: usize },
    /// Set the task's request back to `Unrequested`.
    ResetToUnrequested { finished: Vec<i64>, at: usize, reason: NoBisectReason },
    /// Mark the task's request as failed.
    MarkFailed { finished: Vec<i64>, at: usize },
    Done,
}

/// What came of a step.
#[derive(Debug, Clone, Copy, PartialEq, Eq, Structural)]
pub enum OngoingEvent {
    Ended { outcome: TaskOutcome },
    Succeeded,
    Failed,
}

/// The steps that are still to come: the finished tasks from the current one on, and whether the
/// current one was awaited already.
pub open spec fn still_to_come(step: OngoingStep) -> (Seq<i64>, bool) {
    match step {
        OngoingStep::Join { finished, at } => (finished@.skip(at as int), false),
        OngoingStep::ResetToUnrequested { finished, at, .. } => (finished@.skip(at as int), true),
        OngoingStep::MarkFailed { finished, at } => (finished@.skip(at as int), true),
        OngoingStep::Done => (Seq::empty(), false),
    }
}

/// What is to be done about the current task's request, once the task was awaited.
pub open spec fn current_action(step: OngoingStep) -> TaskAction {
    match step {
        OngoingStep::ResetToUnrequested { reason, .. } => TaskAction::ResetToUnrequested { reason },
        OngoingStep::MarkFailed { .. } => TaskAction::MarkFailed,
        _ => TaskAction::Nothing,
    }
}

impl OngoingStep {
    /// A step is about one of the finished tasks.
    pub open spec fn wf(self) -> bool {
        match self {
            OngoingStep::Join { finished, at } => at < finished.len(),
            OngoingStep::ResetToUnrequested { finished, at, .. } => at < finished.len(),
            OngoingStep::MarkFailed { finished, at } => at < finished.len(),
            OngoingStep::Done => true,
        }
    }

    /// The events that can come of a step.
    pub open spec fn admits(self, event: OngoingEvent) -> bool {
        match self {
            OngoingStep::Join { .. } => event is Ended,
            OngoingStep::Done => false,
            _ => event is Succeeded || event is Failed,
        }
    }

    /// Goes on from a step, by what came of it, and says which gauge to count up. Neither a task
    /// nor the database can end the pass early.
    pub fn next(self, event: OngoingEvent) -> (result: (OngoingStep, Option<ValidityGauge>))
        requires
            self.admits(event),
            self.wf(),
        ensures
            result.0.wf(),
            match event {
                OngoingEvent::Ended { outcome } => {
                    &&& result.1 is None
                    &&& if spec_task_action(outcome) is Nothing {
                        still_to_come(result.0) == (still_to_come(self).0.skip(1), false)
                    } else {
                        &&& still_to_come(result.0) == (still_to_come(self).0, true)
                        &&& current_action(result.0) == spec_task_action(outcome)
                    }
                },
                _ => {
                    &&& still_to_come(result.0) == (still_to_come(self).0.skip(1), false)
                    &&& result.1 == match current_action(self) {
                        TaskAction::MarkFailed => Some(
                            if event is Succeeded {
                                ValidityGauge::ProofRequestRetryCount
                            } else {
                                ValidityGauge::RetryErrorCount
                            },
                        ),
                        _ => None,
                    }
                },
            },
    {
        match self {
            OngoingStep::Join { finished, at } => match event {
                OngoingEvent::Ended { outcome } => match task_action(outcome) {
                    TaskAction::Nothing => (following(finished, at), None),
                    TaskAction::ResetToUnrequested { reason } => (
                        OngoingStep::ResetToUnrequested { finished, at, reason },
                        None,
                    ),
                    TaskAction::MarkFailed => (OngoingStep::MarkFailed { finished, at }, None),
                },
                _ => (OngoingStep::Done, None),
            },
            OngoingStep::ResetToUnrequested { finished, at, .. } => (following(finished, at), None),
            OngoingStep::MarkFailed { finished, at } => {
                let succeeded: bool = match event {
                    OngoingEvent::Succeeded => true,
                    _ => false,
                };
                (following(finished, at), task_gauge(TaskAction::MarkFailed, succeeded))
            },
            OngoingStep::Done => (OngoingStep::Done, None),
        }
    }
}

/// The step about the next finished task.
fn following(finished: Vec<i64>, at: usize) -> (step: OngoingStep)
    requires
        at < finished.len(),
    ensures
        step.wf(),
        still_to_come(step) == (finished@.skip(at as int).skip(1), false),
{
    let ghost rest = finished@.skip(at as int).skip(1);
    if at + 1 < finished.len() {
        assert(finished@.skip(at + 1) =~= rest);
        OngoingStep::Join { finished, at: at + 1 }
    } else {
        assert(rest =~= Seq::<i64>::empty());
        OngoingStep::Done
    }
}

impl Proposer {
    /// Starts to handle the tasks. Each is given with whether it has finished; the finished ones
    /// are taken out of the map, so that their requests can get a new task.
    pub fn handle_ongoing_tasks(&self, tasks: &mut TaskMap, states: &[(i64, bool)]) -> (step:
        OngoingStep)
        ensures
            step.wf(),
            still_to_come(step) == (finished_ids(states@), false),
            forall|id: i64| #[trigger]
                final(tasks)@.contains(id) <==> old(tasks)@.contains(id) && !finished_ids(
                    states@,
                ).contains(id),
            is_left_of(final(tasks)@, old(tasks)@, finished_ids(states@)),
    {
        let finished: Vec<i64> = reap_finished(tasks, states);
        if finished.len() == 0 {
            OngoingStep::Done
        } else {
            assert(finished@.skip(0) =~= finished@);
            OngoingStep::Join { finished, at: 0 }
        }
    }
}

/// How many requests are under way.
#[derive(Debug, Clone, Copy, PartialEq, Eq, Structural)]
pub struct RequestCounts {
    pub witness_generation: i64,
    pub execution: i64,
    pub prove: i64,
}

/// Whether another proof may be requested.
#[derive(Debug, Clone, Copy, PartialEq, Eq, Structural)]
pub enum QueueRoom {
    /// As many requests as may be are in witness generation, execution or proving.
    TooManyRequests,
    /// As many requests as may be are in witness generation or execution.
    TooManyWitnessGenerations,
    Room,
}

/// Whether another proof may be requested: neither limit is reached.
pub open spec fn spec_queue_room(counts: RequestCounts, proposer: Proposer) -> QueueRoom {
    if counts.witness_generation + counts.execution + counts.prove
        >= proposer.requester_config.max_concurrent_proof_requests as i64 {
        QueueRoom::TooManyRequests
    } else if counts.witness_generation + counts.execution
        >= proposer.requester_config.max_concurrent_witness_gen as i64 {
        QueueRoom::TooManyWitnessGenerations
    } else {
        QueueRoom::Room
    }
}

/// How a pass over the queue ended.
#[derive(Debug, Clone, Copy, PartialEq, Eq, Structural)]
pub enum QueueEnd {
    NoRoom { room: QueueRoom },
    /// There is nothing to request.
    Empty,
    /// A task is still working on the request that is next.
    TaskStillThere,
    /// A task was started for a request.
    Requested,
    /// A call to the chain or the database failed.
    Failed,
}

/// What to do next.
#[derive(Debug, Clone, PartialEq, Eq)]
pub enum QueueStep {
    CountWitnessGeneration,
    CountExecution { witness_generation: i64 },
    CountProve { witness_generation: i64, execution: i64 },
    /// Read the latest block number that the contract holds.
    ReadHead,
    /// Fetch the aggregation request that starts at a block and is not requested yet.
    FetchAggregation { latest_proposed: i64 },
    /// Fetch the range proofs that an aggregation request is about.
    FetchRangeProofs { latest_proposed: i64, request: OPSuccinctRequest },
    /// Fetch the first range request behind a block that is not requested yet.
    FetchRange { latest_proposed: i64 },
    /// Start a task for a request.
    Spawn { request: OPSuccinctRequest },
    Done { end: QueueEnd },
}

/// What came of a step.
#[derive(Debug, Clone, PartialEq, Eq)]
pub enum QueueEvent {
    Count { count: i64 },
    Head { number: u64 },
    Request { request: Option<OPSuccinctRequest> },
    RangeProofs { range_proofs: Vec<OPSuccinctRequest> },
    Spawned,
    Failed,
}

/// `next` starts a task for a request, unless one is still working on it.
pub open spec fn takes(
    next: QueueStep,
    request: OPSuccinctRequest,
    before: Set<i64>,
    after: Set<i64>,
) -> bool {
    if before.contains(request.id) {
        &&& next == (QueueStep::Done { end: QueueEnd::TaskStillThere })
        &&& after == before
    } else {
        &&& next == (QueueStep::Spawn { request })
        &&& after == before.insert(request.id)
    }
}

impl QueueStep {
    /// The events that can come of a step.
    pub open spec fn admits(self, event: QueueEvent) -> bool {
        match event {
            QueueEvent::Failed => !(self is Spawn || self is Done),
            QueueEvent::Count { .. } => self is CountWitnessGeneration || self is CountExecution
                || self is CountProve,
            QueueEvent::Head { .. } => self is ReadHead,
            QueueEvent::Request { .. } => self is FetchAggregation || self is FetchRange,
            QueueEvent::RangeProofs { .. } => self is FetchRangeProofs,
            QueueEvent::Spawned => self is Spawn,
        }
    }

    /// `next` and the tasks `after` are what follows a step, by what came of it.
    pub open spec fn leads_to(
        self,
        event: QueueEvent,
        proposer: Proposer,
        before: Set<i64>,
        next: QueueStep,
        after: Set<i64>,
    ) -> bool {
        match (self, event) {
            (_, QueueEvent::Failed) => next == (QueueStep::Done { end: QueueEnd::Failed }) && after
                == before,
            (QueueStep::CountWitnessGeneration, QueueEvent::Count { count }) => next == (
            QueueStep::CountExecution { witness_generation: count }) && after == before,
            (
                QueueStep::CountExecution { witness_generation },
                QueueEvent::Count { count },
            ) => next == (QueueStep::CountProve { witness_generation, execution: count }) && after
                == before,
            (
                QueueStep::CountProve { witness_generation, execution },
                QueueEvent::Count { count },
            ) => {
                let room = spec_queue_room(
                    RequestCounts { witness_generation, execution, prove: count },
                    proposer,
                );
                &&& next == (if room == QueueRoom::Room {
                    QueueStep::ReadHead
                } else {
                    QueueStep::Done { end: QueueEnd::NoRoom { room } }
                })
                &&& after == before
            },
            (_, QueueEvent::Head { number }) => next == (QueueStep::FetchAggregation {
                latest_proposed: number as i64,
            }) && after == before,
            (
                QueueStep::FetchAggregation { latest_proposed },
                QueueEvent::Request { request },
            ) => next == (match request {
                Some(request) => QueueStep::FetchRangeProofs { latest_proposed, request },
                None => QueueStep::FetchRange { latest_proposed },
            }) && after == before,
            (
                QueueStep::FetchRangeProofs { latest_proposed, request },
                QueueEvent::RangeProofs { range_proofs },
            ) => if chains(ranges_of(range_proofs@), request.start_block, request.end_block) {
                takes(next, request, before, after)
            } else {
                next == (QueueStep::FetchRange { latest_proposed }) && after == before
            },
            (QueueStep::FetchRange { .. }, QueueEvent::Request { request }) => match request {
                Some(request) => takes(next, request, before, after),
                None => next == (QueueStep::Done { end: QueueEnd::Empty }) && after == before,
            },
            _ => next == (QueueStep::Done { end: QueueEnd::Requested }) && after == before,
        }
    }

    /// The gauge to count up: an aggregation request whose range proofs do not cover it.
    pub open spec fn spec_gauge(self, event: QueueEvent) -> Option<ValidityGauge> {
        match (self, event) {
            (
                QueueStep::FetchRangeProofs { request, .. },
                QueueEvent::RangeProofs { range_proofs },
            ) => if chains(ranges_of(range_proofs@), request.start_block, request.end_block) {
                None
            } else {
                Some(ValidityGauge::AggProofValidationErrorCount)
            },
            _ => None,
        }
    }

    /// Goes on from a step, by what came of it: keeps the map of tasks, and says which gauge to
    /// count up.
    pub fn next(self, event: QueueEvent, proposer: &Proposer, tasks: &mut TaskMap) -> (result: (
        QueueStep,
        Option<ValidityGauge>,
    ))
        requires
            self.admits(event),
        ensures
            self.leads_to(event, *proposer, old(tasks)@, result.0, final(tasks)@),
            result.1 == self.spec_gauge(event),
    {
        if let QueueEvent::Failed = event {
            return (QueueStep::Done { end: QueueEnd::Failed }, None);
        }
        match (self, event) {
            (QueueStep::CountWitnessGeneration, QueueEvent::Count { count }) => (
                QueueStep::CountExecution { witness_generation: count },
                None,
            ),
            (
                QueueStep::CountExecution { witness_generation },
                QueueEvent::Count { count },
            ) => (QueueStep::CountProve { witness_generation, execution: count }, None),
            (
                QueueStep::CountProve { witness_generation, execution },
                QueueEvent::Count { count },
            ) => {
                let counts = RequestCounts { witness_generation, execution, prove: count };
                match proposer.queue_room(&counts) {
                    QueueRoom::Room => (QueueStep::ReadHead, None),
                    room => (QueueStep::Done { end: QueueEnd::NoRoom { room } }, None),
                }
            },
            (_, QueueEvent::Head { number }) => (
                QueueStep::FetchAggregation { latest_proposed: number as i64 },
                None,
            ),
            (
                QueueStep::FetchAggregation { latest_proposed },
                QueueEvent::Request { request },
            ) => match request {
                Some(request) => (QueueStep::FetchRangeProofs { latest_proposed, request }, None),
                None => (QueueStep::FetchRange { latest_proposed }, None),
            },
            (
                QueueStep::FetchRangeProofs { latest_proposed, request },
                QueueEvent::RangeProofs { range_proofs },
            ) => {
                if proposer.validate_aggregation_request(range_proofs.as_slice(), &request) {
                    (take_request(request, tasks), None)
                } else {
                    (
                        QueueStep::FetchRange { latest_proposed },
                        Some(ValidityGauge::AggProofValidationErrorCount),
                    )
                }
            },
            (QueueStep::FetchRange { .. }, QueueEvent::Request { request }) => match request {
                Some(request) => (take_request(request, tasks), None),
                None => (QueueStep::Done { end: QueueEnd::Empty }, None),
            },
            _ => (QueueStep::Done { end: QueueEnd::Requested }, None),
        }
    }
}

/// Takes a request for a new task, unless one is still working on it.
fn take_request(request: OPSuccinctRequest, tasks: &mut TaskMap) -> (step: QueueStep)
    ensures
        takes(step, request, old(tasks)@, final(tasks)@),
{
    if tasks.contains(request.id) {
        QueueStep::Done { end: QueueEnd::TaskStillThere }
    } else {
        tasks.insert(request.id);
        QueueStep::Spawn { request }
    }
}

impl Proposer {
    /// Starts a pass over the queue: an aggregation request whose range proofs cover it comes
    /// first, the range request with the lowest start block second.
    pub fn request_queued_proofs(&self) -> (step: QueueStep)
        ensures
            step == QueueStep::CountWitnessGeneration,
    {
        QueueStep::CountWitnessGeneration
    }

    /// Whether another proof may be requested.
    pub fn queue_room(&self, counts: &RequestCounts) -> (room: QueueRoom)
        ensures
            room == spec_queue_room(*counts, *self),
    {
        let unproved: i128 = counts.witness_generation as i128 + counts.execution as i128;
        let under_way: i128 = unproved + counts.prove as i128;
        if under_way >= (self.requester_config.max_concurrent_proof_requests as i64) as i128 {
            return QueueRoom::TooManyRequests;
        }
        if unproved >= (self.requester_config.max_concurrent_witness_gen as i64) as i128 {
            return QueueRoom::TooManyWitnessGenerations;
        }
        QueueRoom::Room
    }
}

/// A task is started for a request only if none is working on it, and an aggregation request gets
/// one only if its range proofs cover it without gap or overlap.
pub proof fn law_a_request_gets_one_task_at_a_time(
    step: QueueStep,
    event: QueueEvent,
    proposer: Proposer,
    before: Set<i64>,
    next: QueueStep,
    after: Set<i64>,
)
    requires
        step.admits(event),
        step.leads_to(event, proposer, before, next, after),
    ensures
        next matches QueueStep::Spawn { request } ==> {
            &&& !before.contains(request.id)
            &&& after == before.insert(request.id)
            &&& step matches QueueStep::FetchRangeProofs { request: aggregation, .. } ==> {
                &&& aggregation == request
                &&& event matches QueueEvent::RangeProofs { range_proofs }
                &&& chains(ranges_of(range_proofs@), request.start_block, request.end_block)
            }
        },
        !(next is Spawn) ==> after == before,
{
}

/// Nothing is requested while either limit is reached.
pub proof fn law_the_limits_are_kept(
    witness_generation: i64,
    execution: i64,
    prove: i64,
    proposer: Proposer,
    tasks: Set<i64>,
    next: QueueStep,
)
    requires
        proposer.requester_config.max_concurrent_proof_requests <= i64::MAX,
        proposer.requester_config.max_concurrent_witness_gen <= i64::MAX,
        (QueueStep::CountProve { witness_generation, execution }).leads_to(
            QueueEvent::Count { count: prove },
            proposer,
            tasks,
            next,
            tasks,
        ),
    ensures
        next is Done || (witness_generation + execution + prove
            < proposer.requester_config.max_concurrent_proof_requests && witness_generation + execution
            < proposer.requester_config.max_concurrent_witness_gen),
{
}

/// Exactly the tasks that have finished are taken out, in the order they are given in; every other
/// task stays.
pub proof fn law_exactly_the_finished_tasks_are_taken_out(
    tasks: &mut TaskMap,
    states: &[(i64, bool)],
    finished: Vec<i64>,
    id: i64,
)
    requires
        call_ensures(reap_finished, (tasks, states), finished),
    ensures
        finished@.contains(id) <==> states@.contains((id, true)),
        final(tasks)@.contains(id) <==> old(tasks)@.contains(id) && !states@.contains((id, true)),
        (forall|i: int| 0 <= i < states@.len() ==> (#[trigger] states@[i]).1) ==> finished@
            == states@.map_values(|state: (i64, bool)| state.0),
{
    lemma_finished_ids(states@, id);
    assert(final(tasks)@.contains(id) <==> old(tasks)@.contains(id) && !finished@.contains(id));
}

/// The finished tasks among those that are given.
proof fn lemma_finished_ids(states: Seq<(i64, bool)>, id: i64)
    ensures
        finished_ids(states).contains(id) <==> states.contains((id, true)),
        (forall|i: int| 0 <= i < states.len() ==> (#[trigger] states[i]).1) ==> finished_ids(states)
            == states.map_values(|state: (i64, bool)| state.0),
    decreases states.len(),
{
    if states.len() > 0 {
        let front = states.drop_last();
        let last = states.last();
        lemma_finished_ids(front, id);
        lemma_push_contains(finished_ids(front), last.0, id);
        if states.contains((id, true)) {
            let i = choose|i: int| 0 <= i < states.len() && states[i] == (id, true);
            if i < front.len() {
                assert(front[i] == (id, true));
            }
        }
        if front.contains((id, true)) {
            let i = choose|i: int| 0 <= i < front.len() && front[i] == (id, true);
            assert(states[i] == (id, true));
        }
        if last == (id, true) {
            assert(states[states.len() - 1] == (id, true));
        }
        if forall|i: int| 0 <= i < states.len() ==> (#[trigger] states[i]).1 {
            assert forall|i: int| 0 <= i < front.len() implies (#[trigger] front[i]).1 by {
                assert(front[i] == states[i]);
            }
            assert(last == states[states.len() - 1]);
            assert(finished_ids(states) =~= states.map_values(|state: (i64, bool)| state.0));
        }
    } else {
        assert(finished_ids(states) =~= states.map_values(|state: (i64, bool)| state.0));
    }
}

/// Only a task that ended with an error or a panic has its request touched: it is set back, with
/// the reason, exactly if the error carries a reason not to bisect, and failed otherwise.
pub proof fn law_the_outcome_of_a_task_decides_about_its_request(
    outcome: TaskOutcome,
    action: TaskAction,
)
    requires
        call_ensures(task_action, (outcome,), action),
    ensures
        action is Nothing <==> outcome is Succeeded,
        action is ResetToUnrequested <==> outcome is Failed && outcome->reason is Some,
        action matches TaskAction::ResetToUnrequested { reason } ==> outcome == (TaskOutcome::Failed {
            reason: Some(reason),
        }),
        action is MarkFailed <==> outcome is Panicked || (outcome is Failed && outcome->reason is None),
{
}

/// A request that was failed counts as a retry, one that could not be as a retry error, and nothing
/// else counts.
pub proof fn law_failed_requests_are_counted(
    action: TaskAction,
    succeeded: bool,
    gauge: Option<ValidityGauge>,
)
    requires
        call_ensures(task_gauge, (action, succeeded), gauge),
    ensures
        gauge == Some(ValidityGauge::ProofRequestRetryCount) <==> action is MarkFailed && succeeded,
        gauge == Some(ValidityGauge::RetryErrorCount) <==> action is MarkFailed && !succeeded,
        gauge is None <==> !(action is MarkFailed),
{
}

/// The requests that are failed as orphaned are exactly those that are said to be in witness
/// generation or execution while no task is working on them.
pub proof fn law_orphans_are_under_way_without_a_task(
    witnessgen: &[i64],
    execution: &[i64],
    tasks: TaskMap,
    orphaned: Vec<i64>,
    id: i64,
)
    requires
        call_ensures(orphaned_tasks, (witnessgen, execution, &tasks), orphaned),
    ensures
        orphaned@.contains(id) <==> (witnessgen@.contains(id) || execution@.contains(id))
            && !tasks@.contains(id),
{
    let both = witnessgen@ + execution@;
    law_only_requests_without_a_task_are_orphaned(both, tasks@, id);
    if witnessgen@.contains(id) {
        let i = choose|i: int| 0 <= i < witnessgen@.len() && witnessgen@[i] == id;
        assert(both[i] == id);
    }
    if execution@.contains(id) {
        let i = choose|i: int| 0 <= i < execution@.len() && execution@[i] == id;
        assert(both[witnessgen@.len() + i] == id);
    }
    if both.contains(id) {
        let i = choose|i: int| 0 <= i < both.len() && both[i] == id;
        if i < witnessgen@.len() {
            assert(witnessgen@[i] == id);
        } else {
            assert(execution@[i - witnessgen@.len()] == id);
        }
    }
}

/// An awaited task that succeeded is followed by the next; one that failed or panicked has its own
/// request set back, with the reason not to bisect, or failed where there is none.
pub proof fn law_an_awaited_task_has_its_own_request_treated(
    finished: Vec<i64>,
    at: usize,
    outcome: TaskOutcome,
    next: OngoingStep,
    gauge: Option<ValidityGauge>,
)
    requires
        at < finished@.len(),
        call_ensures(
            OngoingStep::next,
            (OngoingStep::Join { finished, at }, OngoingEvent::Ended { outcome }),
            (next, gauge),
        ),
    ensures
        gauge is None,
        next is MarkFailed <==> outcome is Panicked || (outcome is Failed && outcome->reason is None),
        next is ResetToUnrequested <==> outcome is Failed && outcome->reason is Some,
        next matches OngoingStep::MarkFailed { finished: kept, at: now } ==> kept@[now as int]
            == finished@[at as int] && kept@.skip(now as int) == finished@.skip(at as int),
        next matches OngoingStep::ResetToUnrequested { finished: kept, at: now, reason } ==> {
            &&& kept@[now as int] == finished@[at as int]
            &&& kept@.skip(now as int) == finished@.skip(at as int)
            &&& outcome == (TaskOutcome::Failed { reason: Some(reason) })
        },
        outcome is Succeeded ==> is_about_the_next(next, finished@, at as int),
{
    let rest = finished@.skip(at as int);
    assert(rest[0] == finished@[at as int]);
    assert(rest.skip(1) =~= finished@.skip(at + 1));
    if let OngoingStep::MarkFailed { finished: kept, at: now } = next {
        assert(kept@.skip(now as int)[0] == kept@[now as int]);
    }
    if let OngoingStep::ResetToUnrequested { finished: kept, at: now, reason } = next {
        assert(kept@.skip(now as int)[0] == kept@[now as int]);
        assert(current_action(next) == (TaskAction::ResetToUnrequested { reason }));
    }
    if outcome is Succeeded {
        lemma_about_the_next(next, finished@, at as int);
    }
}

/// The step awaits the finished task behind the one at `at`, and those behind it are still to come;
/// where there is none, the pass is done.
pub open spec fn is_about_the_next(step: OngoingStep, finished: Seq<i64>, at: int) -> bool {
    if at + 1 < finished.len() {
        &&& step matches OngoingStep::Join { finished: kept, at: now }
        &&& kept@.skip(now as int) == finished.skip(at + 1)
    } else {
        step is Done
    }
}

/// A step that is yet to await the rest of the tasks is about the next one.
proof fn lemma_about_the_next(step: OngoingStep, finished: Seq<i64>, at: int)
    requires
        0 <= at < finished.len(),
        step.wf(),
        still_to_come(step) == (finished.skip(at + 1), false),
    ensures
        is_about_the_next(step, finished, at),
{
    assert(still_to_come(step).0.len() == finished.len() - at - 1);
}

/// Once a request was treated, or could not be, the pass goes on to the next finished task: nothing
/// ends it early. Only a request that was to be failed is counted.
pub proof fn law_a_treated_request_is_followed_by_the_next_task(
    finished: Vec<i64>,
    at: usize,
    reason: NoBisectReason,
    event: OngoingEvent,
    after_failing: OngoingStep,
    gauge: Option<ValidityGauge>,
    after_reset: OngoingStep,
    quiet: Option<ValidityGauge>,
)
    requires
        at < finished@.len(),
        event is Succeeded || event is Failed,
        call_ensures(
            OngoingStep::next,
            (OngoingStep::MarkFailed { finished, at }, event),
            (after_failing, gauge),
        ),
        call_ensures(
            OngoingStep::next,
            (OngoingStep::ResetToUnrequested { finished, at, reason }, event),
            (after_reset, quiet),
        ),
    ensures
        is_about_the_next(after_failing, finished@, at as int),
        is_about_the_next(after_reset, finished@, at as int),
        gauge == Some(ValidityGauge::ProofRequestRetryCount) <==> event is Succeeded,
        gauge == Some(ValidityGauge::RetryErrorCount) <==> event is Failed,
        quiet is None,
{
    let rest = finished@.skip(at as int);
    assert(rest.skip(1) =~= finished@.skip(at + 1));
    lemma_about_the_next(after_failing, finished@, at as int);
    lemma_about_the_next(after_reset, finished@, at as int);
}

/// A pass over the tasks awaits each that has finished, from the first on, and none that has not;
/// their requests can get a new task.
pub proof fn law_a_pass_awaits_what_has_finished(
    proposer: Proposer,
    tasks: &mut TaskMap,
    states: &[(i64, bool)],
    step: OngoingStep,
    id: i64,
)
    requires
        call_ensures(Proposer::handle_ongoing_tasks, (&proposer, tasks, states), step),
    ensures
        step is Done <==> forall|i: int| 0 <= i < states@.len() ==> !(#[trigger] states@[i]).1,
        step is Done || step is Join,
        step matches OngoingStep::Join { finished, at } ==> (finished@.skip(at as int).contains(id)
            <==> states@.contains((id, true))),
        final(tasks)@.contains(id) <==> old(tasks)@.contains(id) && !states@.contains((id, true)),
{
    lemma_finished_ids(states@, id);
    let ids = finished_ids(states@);
    assert(final(tasks)@.contains(id) <==> old(tasks)@.contains(id) && !ids.contains(id));
    if ids.len() > 0 {
        lemma_finished_ids(states@, ids[0]);
        assert(ids.contains(ids[0]));
        let i = choose|i: int| 0 <= i < states@.len() && states@[i] == (ids[0], true);
        assert(states@[i].1);
    } else {
        assert forall|i: int| 0 <= i < states@.len() implies !(#[trigger] states@[i]).1 by {
            if states@[i].1 {
                lemma_finished_ids(states@, states@[i].0);
                assert(states@[i] == (states@[i].0, true));
            }
        }
    }
}

/// Another proof may be requested exactly if fewer requests are under way than may be, and fewer
/// are in witness generation or execution than may be.
pub proof fn law_there_is_room_below_both_limits(
    proposer: Proposer,
    counts: RequestCounts,
    room: QueueRoom,
)
    requires
        call_ensures(Proposer::queue_room, (&proposer, &counts), room),
    ensures
        ({
            let unproved = counts.witness_generation + counts.execution;
            let full = unproved + counts.prove
                >= proposer.requester_config.max_concurrent_proof_requests as i64;
            let crowded = unproved >= proposer.requester_config.max_concurrent_witness_gen as i64;
            &&& room == QueueRoom::Room <==> !full && !crowded
            &&& room == QueueRoom::TooManyRequests <==> full
            &&& room == QueueRoom::TooManyWitnessGenerations <==> !full && crowded
        }),
{
}

/// A pass over the queue counts the requests in witness generation, in execution and in proving,
/// and goes on with just these counts: to the head exactly if there is room below both limits.
pub proof fn law_the_queue_is_counted_before_it_is_served(
    proposer: Proposer,
    tasks: &mut TaskMap,
    step: QueueStep,
    event: QueueEvent,
    next: QueueStep,
    gauge: Option<ValidityGauge>,
)
    requires
        event is Count,
        step.admits(event),
        call_ensures(QueueStep::next, (step, event, &proposer, tasks), (next, gauge)),
    ensures
        gauge is None,
        final(tasks)@ == old(tasks)@,
        step is CountWitnessGeneration ==> next == (QueueStep::CountExecution {
            witness_generation: event->count,
        }),
        step matches QueueStep::CountExecution { witness_generation } ==> next
            == (QueueStep::CountProve { witness_generation, execution: event->count }),
        step matches QueueStep::CountProve { witness_generation, execution } ==> {
            let unproved = witness_generation + execution;
            let full = unproved + event->count
                >= proposer.requester_config.max_concurrent_proof_requests as i64;
            let crowded = unproved >= proposer.requester_config.max_concurrent_witness_gen as i64;
            &&& next is ReadHead <==> !full && !crowded
            &&& next == (QueueStep::Done {
                end: QueueEnd::NoRoom { room: QueueRoom::TooManyRequests },
            }) <==> full
            &&& next == (QueueStep::Done {
                end: QueueEnd::NoRoom { room: QueueRoom::TooManyWitnessGenerations },
            }) <==> !full && crowded
        },
{
}

/// The aggregation request at the head comes first. Its range proofs are fetched; where they do not
/// cover it, which is counted, or where there is no such request, the first range request behind
/// the head is fetched in its place.
pub proof fn law_an_aggregation_at_the_head_comes_first(
    proposer: Proposer,
    tasks: &mut TaskMap,
    step: QueueStep,
    event: QueueEvent,
    next: QueueStep,
    gauge: Option<ValidityGauge>,
)
    requires
        step.admits(event),
        call_ensures(QueueStep::next, (step, event, &proposer, tasks), (next, gauge)),
    ensures
        next is FetchAggregation <==> event is Head,
        next matches QueueStep::FetchAggregation { latest_proposed } ==> latest_proposed
            == event->number as i64,
        next is FetchRangeProofs <==> step is FetchAggregation && event is Request && event->request
            is Some,
        next matches QueueStep::FetchRangeProofs { latest_proposed, request } ==> event
            == (QueueEvent::Request { request: Some(request) }) && step
            == (QueueStep::FetchAggregation { latest_proposed }),
        next matches QueueStep::FetchRange { latest_proposed } ==> {
            ||| step == (QueueStep::FetchAggregation { latest_proposed }) && event
                == (QueueEvent::Request { request: None })
            ||| step is FetchRangeProofs && step->FetchRangeProofs_latest_proposed == latest_proposed
                && gauge == Some(ValidityGauge::AggProofValidationErrorCount)
        },
        step is FetchAggregation && event == (QueueEvent::Request { request: None }) ==> next
            is FetchRange,
        gauge is Some ==> gauge == Some(ValidityGauge::AggProofValidationErrorCount) && step
            is FetchRangeProofs && next is FetchRange,
{
}

/// An aggregation request is served exactly if its range proofs start where it starts, end where it
/// ends, and each one starts where the one before it ends.
pub proof fn law_only_a_covered_aggregation_is_served(
    proposer: Proposer,
    tasks: &mut TaskMap,
    latest_proposed: i64,
    request: OPSuccinctRequest,
    range_proofs: Vec<OPSuccinctRequest>,
    next: QueueStep,
    gauge: Option<ValidityGauge>,
)
    requires
        call_ensures(
            QueueStep::next,
            (
                QueueStep::FetchRangeProofs { latest_proposed, request },
                QueueEvent::RangeProofs { range_proofs },
                &proposer,
                tasks,
            ),
            (next, gauge),
        ),
    ensures
        next is FetchRange <==> !{
            &&& range_proofs@.len() > 0
            &&& range_proofs@[0].start_block == request.start_block
            &&& range_proofs@[range_proofs@.len() - 1].end_block == request.end_block
            &&& forall|i: int, j: int|
                0 <= i && j == i + 1 && j < range_proofs@.len() ==> (#[trigger]
                range_proofs@[i]).end_block == (#[trigger] range_proofs@[j]).start_block
        },
        !(next is FetchRange) ==> gauge is None && (next == (QueueStep::Spawn { request }) || next
            == (QueueStep::Done { end: QueueEnd::TaskStillThere })),
{
    lemma_chains_in_place(range_proofs@, request.start_block, request.end_block);
}

/// A task is started for the very request that was fetched, exactly if none is working on it, and
/// is then known to be working on it.
pub proof fn law_a_fetched_request_gets_its_task(
    proposer: Proposer,
    tasks: &mut TaskMap,
    step: QueueStep,
    event: QueueEvent,
    next: QueueStep,
    gauge: Option<ValidityGauge>,
)
    requires
        step.admits(event),
        call_ensures(QueueStep::next, (step, event, &proposer, tasks), (next, gauge)),
    ensures
        next matches QueueStep::Spawn { request } ==> {
            &&& !old(tasks)@.contains(request.id)
            &&& final(tasks)@ == old(tasks)@.insert(request.id)
            &&& (step is FetchRange && event == (QueueEvent::Request { request: Some(request) }))
                || (step is FetchRangeProofs && step->FetchRangeProofs_request == request)
        },
        step is FetchRange && event is Request && event->request is Some ==> {
            &&& next is Spawn <==> !old(tasks)@.contains(event->request->0.id)
            &&& next == (QueueStep::Done { end: QueueEnd::TaskStillThere })
                <==> old(tasks)@.contains(event->request->0.id)
        },
        next == (QueueStep::Done { end: QueueEnd::TaskStillThere }) && step is FetchRangeProofs
            ==> old(tasks)@.contains(step->FetchRangeProofs_request.id),
        !(next is Spawn) ==> final(tasks)@ == old(tasks)@,
{
}

/// What the other ends of a pass mean.
pub proof fn law_the_end_of_a_pass_says_what_happened(
    proposer: Proposer,
    tasks: &mut TaskMap,
    step: QueueStep,
    event: QueueEvent,
    next: QueueStep,
    gauge: Option<ValidityGauge>,
)
    requires
        step.admits(event),
        call_ensures(QueueStep::next, (step, event, &proposer, tasks), (next, gauge)),
    ensures
        next == (QueueStep::Done { end: QueueEnd::Failed }) <==> event is Failed,
        next == (QueueStep::Done { end: QueueEnd::Requested }) <==> event is Spawned,
        next == (QueueStep::Done { end: QueueEnd::Empty }) <==> step is FetchRange && event
            == (QueueEvent::Request { request: None }),
{
}

/// A pass over the queue starts by counting.
pub proof fn law_a_pass_starts_by_counting(proposer: Proposer, step: QueueStep)
    requires
        call_ensures(Proposer::request_queued_proofs, (&proposer,), step),
    ensures
        step is CountWitnessGeneration,
{
}

/// A task that failed with an error carries the reason not to bisect that the error's code tells,
/// unless it tells of an admission shed: 14 for an unreachable backend, 9 for a request that cannot
/// be served, and no reason for any other code.
pub proof fn law_the_code_of_a_task_error_is_its_reason(
    e: anyhow::Error,
    number: i32,
    outcome: TaskOutcome,
)
    requires
        grpc_code_in(e) == Some(number),
        call_ensures(failed_task, (&e,), outcome),
        forall|rendered: Seq<char>| #[trigger]
            renders_as(e, rendered) ==> !occurs_in("x-sp1-admission-shed"@, rendered),
    ensures
        outcome matches TaskOutcome::Failed { reason } && {
            &&& reason == Some(NoBisectReason::TransientTransport) <==> number == 14
            &&& reason == Some(NoBisectReason::UnsatisfiablePrecondition) <==> number == 9
            &&& reason is None <==> number != 14 && number != 9
        },
{
}

/// A task that failed with an error whose every rendering holds the router's marker was shed.
pub proof fn law_a_shed_task_is_known_by_its_marker(e: anyhow::Error, outcome: TaskOutcome)
    requires
        call_ensures(failed_task, (&e,), outcome),
        forall|rendered: Seq<char>| #[trigger]
            renders_as(e, rendered) ==> occurs_in("x-sp1-admission-shed"@, rendered),
    ensures
        outcome == (TaskOutcome::Failed { reason: Some(NoBisectReason::AdmissionShed) }),
{
}

/// At first there is no task. A task that is taken in is there, one that is dropped is not, and the
/// others are as they were.
pub proof fn law_tasks_are_taken_in_and_dropped_one_by_one(
    empty: TaskMap,
    taken_in: &mut TaskMap,
    dropped: &mut TaskMap,
    asked: TaskMap,
    found: bool,
    id: i64,
    other: i64,
)
    requires
        call_ensures(TaskMap::new, (), empty),
        call_ensures(TaskMap::insert, (taken_in, id), ()),
        call_ensures(TaskMap::remove, (dropped, id), ()),
        call_ensures(TaskMap::contains, (&asked, id), found),
    ensures
        !empty@.contains(id),
        final(taken_in)@.contains(id),
        !final(dropped)@.contains(id),
        found <==> asked@.contains(id),
        other != id ==> {
            &&& final(taken_in)@.contains(other) == old(taken_in)@.contains(other)
            &&& final(dropped)@.contains(other) == old(dropped)@.contains(other)
        },
{
}

} // verus!
