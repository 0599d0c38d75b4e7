//! Adding requests for the block ranges that nothing proves yet.
//!
//! A pass is a chain of steps, as in [`crate::proposer::proof_status`]: each [`RangesStep`] names
//! the one thing to do next, and [`RangesStep::next`] goes on from what came of it.
use vstd::prelude::*;

use crate::proposer::Proposer;
use crate::request::{
    request_mode, spec_request_mode, NewRangeRequest, RequestMode, RequestStatus,
};

verus! {

/// Ranges are in the order of their start blocks.
pub open spec fn sorted_by_start(ranges: Seq<(i64, i64)>) -> bool {
    forall|i: int, j: int| 0 <= i < j < ranges.len() ==> (#[trigger] ranges[i]).0 <= (#[trigger]
    ranges[j]).0
}

/// The ranges that start at a block, in their order.
pub open spec fn starting_at(ranges: Seq<(i64, i64)>, start: i64) -> Seq<(i64, i64)> {
    ranges.filter(|range: (i64, i64)| range.0 == start)
}

/// One sequence of ranges is the other in the order of their start blocks, with the ranges that
/// start at the same block left in the order they had.
pub open spec fn is_stable_sort_of(sorted: Seq<(i64, i64)>, ranges: Seq<(i64, i64)>) -> bool {
    &&& sorted_by_start(sorted)
    &&& sorted.len() == ranges.len()
    &&& forall|start: i64| #[trigger] starting_at(sorted, start) == starting_at(ranges, start)
}

/// Nothing starts at a block, if no range does.
proof fn lemma_none_start_at(ranges: Seq<(i64, i64)>, start: i64)
    requires
        forall|i: int| 0 <= i < ranges.len() ==> (#[trigger] ranges[i]).0 != start,
    ensures
        starting_at(ranges, start) == Seq::<(i64, i64)>::empty(),
    decreases ranges.len(),
{
    reveal(Seq::filter);
    if ranges.len() > 0 {
        let front = ranges.drop_last();
        assert forall|i: int| 0 <= i < front.len() implies (#[trigger] front[i]).0 != start by {
            assert(front[i] == ranges[i]);
        }
        lemma_none_start_at(front, start);
        assert(ranges.last() == ranges[ranges.len() - 1]);
    }
}

/// The ranges that start at a block, in two sequences one after the other.
proof fn lemma_starting_at_concat(a: Seq<(i64, i64)>, b: Seq<(i64, i64)>, start: i64)
    ensures
        starting_at(a + b, start) == starting_at(a, start) + starting_at(b, start),
{
    Seq::filter_distributes_over_add(a, b, |range: (i64, i64)| range.0 == start);
}

/// A range among those that start at a block.
proof fn lemma_starting_at_one(range: (i64, i64), start: i64)
    ensures
        starting_at(seq![range], start) == if range.0 == start {
            seq![range]
        } else {
            Seq::<(i64, i64)>::empty()
        },
{
    reveal(Seq::filter);
    assert(seq![range].drop_last() =~= Seq::<(i64, i64)>::empty());
    assert(starting_at(Seq::<(i64, i64)>::empty(), start) =~= Seq::<(i64, i64)>::empty());
    assert(starting_at(seq![range], start) =~= if range.0 == start {
        seq![range]
    } else {
        Seq::<(i64, i64)>::empty()
    });
}

/// Sorts ranges by their start blocks. Ranges that start at the same block keep their order.
pub fn sort_by_start(ranges: &[(i64, i64)]) -> (sorted: Vec<(i64, i64)>)
    ensures
        is_stable_sort_of(sorted@, ranges@),
{
    let mut sorted: Vec<(i64, i64)> = Vec::new();
    let mut taken: usize = 0;
    assert(ranges@.take(0) =~= Seq::<(i64, i64)>::empty());
    while taken < ranges.len()
        invariant
            taken <= ranges@.len(),
            sorted@.len() == taken,
            is_stable_sort_of(sorted@, ranges@.take(taken as int)),
        decreases ranges@.len() - taken,
    {
        let range: (i64, i64) = ranges[taken];
        let ghost before = sorted@;
        let mut at: usize = sorted.len();
        while at > 0 && sorted[at - 1].0 > range.0
            invariant
                at <= sorted@.len(),
                sorted@ == before,
                forall|k: int| at <= k < sorted@.len() ==> (#[trigger] sorted@[k]).0 > range.0,
            decreases at,
        {
            at -= 1;
        }
        sorted.insert(at, range);
        proof {
            let low = before.take(at as int);
            let high = before.skip(at as int);
            assert(before =~= low + high);
            assert(sorted@ =~= low + seq![range] + high);
            assert(ranges@.take(taken + 1) =~= ranges@.take(taken as int) + seq![range]);
            assert forall|start: i64| #[trigger]
                starting_at(sorted@, start) == starting_at(ranges@.take(taken + 1), start) by {
                lemma_starting_at_concat(low, high, start);
                lemma_starting_at_concat(low + seq![range], high, start);
                lemma_starting_at_concat(low, seq![range], start);
                lemma_starting_at_concat(ranges@.take(taken as int), seq![range], start);
                lemma_starting_at_one(range, start);
                assert(starting_at(before, start) == starting_at(
                    ranges@.take(taken as int),
                    start,
                ));
                if start == range.0 {
                    lemma_none_start_at(high, start);
                    assert(starting_at(sorted@, start) =~= starting_at(before, start) + seq![range]);
                } else {
                    assert(starting_at(sorted@, start) =~= starting_at(before, start));
                }
            }
            assert forall|i: int, j: int| 0 <= i < j < sorted@.len() implies (#[trigger]
            sorted@[i]).0 <= (#[trigger] sorted@[j]).0 by {
                let i0 = if i < at { i } else { i - 1 };
                let j0 = if j < at { j } else { j - 1 };
                if i == at {
                    assert(sorted@[j] == before[j - 1]);
                } else if j == at {
                    assert(sorted@[i] == before[i]);
                    assert(before[i].0 <= before[at - 1].0);
                } else {
                    assert(sorted@[i] == before[i0] && sorted@[j] == before[j0]);
                }
            }
        }
        taken += 1;
    }
    assert(ranges@.take(ranges@.len() as int) =~= ranges@);
    sorted
}

/// How a pass ended.
#[derive(Debug, Clone, Copy, PartialEq, Eq, Structural)]
pub enum RangesEnd {
    /// No block was finalized since the latest proposed one.
    NothingFinalized,
    /// Every block is covered by a request.
    NothingToProve,
    /// Requests were inserted.
    Inserted,
    /// A call to the chain or the database failed.
    Failed,
}

/// What to do next.
#[derive(Debug, Clone, PartialEq, Eq)]
pub enum RangesStep {
    /// Read the latest block number that the contract holds.
    ReadLatestProposed,
    /// Read the number of the latest finalized L2 block, seen from the latest proposed one.
    ReadFinalized { latest_proposed: u64 },
    /// Fetch the ranges of the active requests that start at or behind a block.
    FetchRanges { latest_proposed: u64, finalized: u64 },
    /// Find what the sorted ranges leave open between two blocks.
    FindGaps { start: i64, end: i64, ranges: Vec<(i64, i64)> },
    /// Fetch the data of the blocks of the gap at `at`.
    FetchBlockData { gaps: Vec<(i64, i64)>, at: usize },
    /// Split the gaps so that no piece holds more gas or blocks than it may.
    SplitByGas { gaps: Vec<(i64, i64)>, evm_gas_limit: u64, interval: i64 },
    /// Split the gaps so that no piece holds more blocks than it may.
    SplitByBlocks { gaps: Vec<(i64, i64)>, interval: i64 },
    /// Create a request for each of these, and insert them into the database.
    Insert { requests: Vec<NewRangeRequest> },
    Done { end: RangesEnd },
}

/// What came of a step.
#[derive(Debug, Clone, PartialEq, Eq)]
pub enum RangesEvent {
    LatestProposed { number: u64 },
    Finalized { number: Option<u64> },
    /// Ranges of blocks: those of the active requests, those that are left open, or those to prove.
    Ranges { ranges: Vec<(i64, i64)> },
    /// The step was carried out.
    Succeeded,
    Failed,
}

/// The request for the proof of a range.
pub open spec fn range_request(proposer: Proposer, range: (i64, i64)) -> NewRangeRequest {
    NewRangeRequest {
        mode: spec_request_mode(proposer.requester_config.mock),
        start_block: range.0,
        end_block: range.1,
        range_vkey_commitment: proposer.commitments.range_vkey_commitment,
        rollup_config_hash: proposer.commitments.rollup_config_hash,
        chains: proposer.requester_config.chains,
    }
}

/// Gaps from `from` on up to `at` hold no block, and the one at `at`, if there is one, does.
pub open spec fn next_open_gap(gaps: Seq<(i64, i64)>, from: int, at: int) -> bool {
    &&& from <= at <= gaps.len()
    &&& forall|i: int| from <= i < at ==> (#[trigger] gaps[i]).0 >= gaps[i].1
    &&& at < gaps.len() ==> gaps[at].0 < gaps[at].1
}

/// The step fetches the data of the next gap that holds a block, from `from` on, and splits the
/// gaps by gas where there is none left.
pub open spec fn fetches_from(
    step: RangesStep,
    gaps: Seq<(i64, i64)>,
    from: int,
    proposer: Proposer,
) -> bool {
    match step {
        RangesStep::FetchBlockData { gaps: kept, at } => {
            &&& kept@ == gaps
            &&& at < gaps.len()
            &&& next_open_gap(gaps, from, at as int)
        },
        RangesStep::SplitByGas { gaps: kept, evm_gas_limit, interval } => {
            &&& kept@ == gaps
            &&& next_open_gap(gaps, from, gaps.len() as int)
            &&& evm_gas_limit == proposer.requester_config.evm_gas_limit
            &&& interval == proposer.requester_config.range_proof_interval as i64
        },
        _ => false,
    }
}

impl RangesStep {
    /// The events that can come of a step.
    pub open spec fn admits(self, event: RangesEvent) -> bool {
        match event {
            RangesEvent::Failed => !(self is Done),
            RangesEvent::LatestProposed { .. } => self is ReadLatestProposed,
            RangesEvent::Finalized { .. } => self is ReadFinalized,
            RangesEvent::Ranges { .. } => self is FetchRanges || self is FindGaps
                || self is SplitByGas || self is SplitByBlocks,
            RangesEvent::Succeeded => self is FetchBlockData || self is Insert,
        }
    }

    /// A step that fetches block data is about one of the gaps.
    pub open spec fn wf(self) -> bool {
        self matches RangesStep::FetchBlockData { gaps, at } ==> at < gaps.len()
    }

    /// `next` is what follows a step, by what came of it.
    pub open spec fn leads_to(self, event: RangesEvent, proposer: Proposer, next: RangesStep) -> bool {
        match (self, event) {
            (_, RangesEvent::Failed) => next == (RangesStep::Done { end: RangesEnd::Failed }),
            (_, RangesEvent::LatestProposed { number }) => next == (RangesStep::ReadFinalized {
                latest_proposed: number,
            }),
            (
                RangesStep::ReadFinalized { latest_proposed },
                RangesEvent::Finalized { number },
            ) => next == (match number {
                Some(finalized) => RangesStep::FetchRanges { latest_proposed, finalized },
                None => RangesStep::Done { end: RangesEnd::NothingFinalized },
            }),
            (
                RangesStep::FetchRanges { latest_proposed, finalized },
                RangesEvent::Ranges { ranges },
            ) => {
                &&& next matches RangesStep::FindGaps { start, end, ranges: sorted }
                &&& start == latest_proposed as i64
                &&& end == finalized as i64
                &&& is_stable_sort_of(sorted@, ranges@)
            },
            (RangesStep::FindGaps { .. }, RangesEvent::Ranges { ranges: gaps }) => {
                if proposer.requester_config.evm_gas_limit > 0 {
                    fetches_from(next, gaps@, 0, proposer)
                } else {
                    &&& next matches RangesStep::SplitByBlocks { gaps: kept, interval }
                    &&& kept@ == gaps@
                    &&& interval == proposer.requester_config.range_proof_interval as i64
                }
            },
            (RangesStep::FetchBlockData { gaps, at }, _) => fetches_from(
                next,
                gaps@,
                at + 1,
                proposer,
            ),
            (_, RangesEvent::Ranges { ranges }) => {
                if ranges@.len() == 0 {
                    next == (RangesStep::Done { end: RangesEnd::NothingToProve })
                } else {
                    &&& next matches RangesStep::Insert { requests }
                    &&& requests@ == ranges@.map_values(|r: (i64, i64)| range_request(proposer, r))
                }
            },
            _ => next == (RangesStep::Done { end: RangesEnd::Inserted }),
        }
    }

    /// Goes on from a step, by what came of it.
    pub fn next(self, event: RangesEvent, proposer: &Proposer) -> (next: RangesStep)
        requires
            self.admits(event),
            self.wf(),
        ensures
            self.leads_to(event, *proposer, next),
            next.wf(),
    {
        if let RangesEvent::Failed = event {
            return RangesStep::Done { end: RangesEnd::Failed };
        }
        match (self, event) {
            (_, RangesEvent::LatestProposed { number }) => RangesStep::ReadFinalized {
                latest_proposed: number,
            },
            (
                RangesStep::ReadFinalized { latest_proposed },
                RangesEvent::Finalized { number },
            ) => match number {
                Some(finalized) => RangesStep::FetchRanges { latest_proposed, finalized },
                None => RangesStep::Done { end: RangesEnd::NothingFinalized },
            },
            (
                RangesStep::FetchRanges { latest_proposed, finalized },
                RangesEvent::Ranges { ranges },
            ) => RangesStep::FindGaps {
                start: latest_proposed as i64,
                end: finalized as i64,
                ranges: sort_by_start(ranges.as_slice()),
            },
            (RangesStep::FindGaps { .. }, RangesEvent::Ranges { ranges: gaps }) => {
                if proposer.requester_config.evm_gas_limit > 0 {
                    proposer.fetch_next_gap(gaps, 0)
                } else {
                    RangesStep::SplitByBlocks {
                        gaps,
                        interval: proposer.requester_config.range_proof_interval as i64,
                    }
                }
            },
            (RangesStep::FetchBlockData { gaps, at }, _) => proposer.fetch_next_gap(gaps, at + 1),
            (_, RangesEvent::Ranges { ranges }) => {
                if ranges.len() == 0 {
                    RangesStep::Done { end: RangesEnd::NothingToProve }
                } else {
                    RangesStep::Insert { requests: proposer.range_requests(ranges.as_slice()) }
                }
            },
            _ => RangesStep::Done { end: RangesEnd::Inserted },
        }
    }
}

impl Proposer {
    /// Starts to add requests for the ranges that nothing proves yet.
    pub fn add_new_ranges(&self) -> (step: RangesStep)
        ensures
            step == RangesStep::ReadLatestProposed,
    {
        RangesStep::ReadLatestProposed
    }

    /// The statuses of the requests whose ranges count as covered: all that have not failed.
    pub fn active_statuses(&self) -> (statuses: Vec<RequestStatus>)
        ensures
            statuses@ == seq![
                RequestStatus::Unrequested,
                RequestStatus::WitnessGeneration,
                RequestStatus::Execution,
                RequestStatus::Prove,
                RequestStatus::Complete,
            ],
    {
        vec![
            RequestStatus::Unrequested,
            RequestStatus::WitnessGeneration,
            RequestStatus::Execution,
            RequestStatus::Prove,
            RequestStatus::Complete,
        ]
    }

    /// The step that fetches the data of the next gap that holds a block.
    fn fetch_next_gap(&self, gaps: Vec<(i64, i64)>, from: usize) -> (step: RangesStep)
        requires
            from <= gaps@.len(),
        ensures
            fetches_from(step, gaps@, from as int, *self),
            step.wf(),
    {
        let mut at: usize = from;
        while at < gaps.len() && gaps[at].0 >= gaps[at].1
            invariant
                from <= at <= gaps@.len(),
                forall|i: int| from <= i < at ==> (#[trigger] gaps@[i]).0 >= gaps@[i].1,
            decreases gaps@.len() - at,
        {
            at += 1;
        }
        if at < gaps.len() {
            RangesStep::FetchBlockData { gaps, at }
        } else {
            RangesStep::SplitByGas {
                gaps,
                evm_gas_limit: self.requester_config.evm_gas_limit,
                interval: self.requester_config.range_proof_interval as i64,
            }
        }
    }

    /// The requests for the proofs of ranges, one for each, in their order.
    fn range_requests(&self, ranges: &[(i64, i64)]) -> (requests: Vec<NewRangeRequest>)
        ensures
            requests@ == ranges@.map_values(|r: (i64, i64)| range_request(*self, r)),
    {
        let mut requests: Vec<NewRangeRequest> = Vec::new();
        let mut i: usize = 0;
        while i < ranges.len()
            invariant
                i <= ranges@.len(),
                requests@.len() == i,
                forall|j: int| 0 <= j < i ==> #[trigger] requests@[j] == range_request(
                    *self,
                    ranges@[j],
                ),
            decreases ranges@.len() - i,
        {
            requests.push(
                NewRangeRequest {
                    mode: request_mode(self.requester_config.mock),
                    start_block: ranges[i].0,
                    end_block: ranges[i].1,
                    range_vkey_commitment: self.commitments.range_vkey_commitment,
                    rollup_config_hash: self.commitments.rollup_config_hash,
                    chains: self.requester_config.chains,
                },
            );
            i += 1;
        }
        assert(requests@ =~= ranges@.map_values(|r: (i64, i64)| range_request(*self, r)));
        requests
    }
}

/// The blocks whose data a pass fetches are those of the gaps that hold one: a gap is skipped
/// exactly if it is empty.
pub proof fn law_only_empty_gaps_are_skipped(
    step: RangesStep,
    gaps: Seq<(i64, i64)>,
    from: int,
    proposer: Proposer,
    i: int,
)
    requires
        fetches_from(step, gaps, from, proposer),
        from <= i < gaps.len(),
        step matches RangesStep::FetchBlockData { at, .. } ==> i < at,
    ensures
        gaps[i].0 >= gaps[i].1,
{
}

/// Every range to prove gets one request, over the very same blocks.
pub proof fn law_each_range_gets_its_request(
    step: RangesStep,
    ranges: Vec<(i64, i64)>,
    proposer: Proposer,
    next: RangesStep,
    i: int,
)
    requires
        step is SplitByGas || step is SplitByBlocks,
        step.leads_to(RangesEvent::Ranges { ranges }, proposer, next),
        0 <= i < ranges@.len(),
    ensures
        next is Insert,
        next->requests@.len() == ranges@.len(),
        next->requests@[i].start_block == ranges@[i].0,
        next->requests@[i].end_block == ranges@[i].1,
{
}

/// Sorting keeps every range, as often as it is there.
pub proof fn law_sorting_keeps_the_ranges(sorted: Seq<(i64, i64)>, ranges: Seq<(i64, i64)>)
    requires
        is_stable_sort_of(sorted, ranges),
    ensures
        forall|range: (i64, i64)| #[trigger] sorted.contains(range) <==> ranges.contains(range),
{
    assert forall|range: (i64, i64)| #[trigger] sorted.contains(range) <==> ranges.contains(range) by {
        lemma_contained_starts(sorted, range);
        lemma_contained_starts(ranges, range);
        assert(starting_at(sorted, range.0) == starting_at(ranges, range.0));
    }
}

/// A range is among those that start where it starts.
proof fn lemma_contained_starts(ranges: Seq<(i64, i64)>, range: (i64, i64))
    ensures
        ranges.contains(range) <==> starting_at(ranges, range.0).contains(range),
    decreases ranges.len(),
{
    reveal(Seq::filter);
    if ranges.len() > 0 {
        let front = ranges.drop_last();
        let last = ranges.last();
        lemma_contained_starts(front, range);
        assert(ranges =~= front.push(last));
        assert(ranges.contains(range) <==> front.contains(range) || last == range) by {
            if front.contains(range) {
                let i = choose|i: int| 0 <= i < front.len() && front[i] == range;
                assert(ranges[i] == range);
            }
            if last == range {
                assert(ranges[ranges.len() - 1] == range);
            }
        }
        let here = starting_at(ranges, range.0);
        let there = starting_at(front, range.0);
        if last.0 == range.0 {
            assert(here == there.push(last));
            assert(here.contains(range) <==> there.contains(range) || last == range) by {
                if there.contains(range) {
                    let i = choose|i: int| 0 <= i < there.len() && there[i] == range;
                    assert(here[i] == range);
                }
                if last == range {
                    assert(here[here.len() - 1] == range);
                }
            }
        }
    }
}

/// Every inserted request is about one of the ranges to prove, in their order, and carries the
/// proposer's own configuration, field by field: whether it is only mocked, the range program, the
/// rollup, and the L1 and the L2 chain.
pub proof fn law_range_requests_carry_the_proposers_configuration(
    step: RangesStep,
    event: RangesEvent,
    proposer: Proposer,
    next: RangesStep,
    i: int,
)
    requires
        step.admits(event),
        call_ensures(RangesStep::next, (step, event, &proposer), next),
    ensures
        next matches RangesStep::Insert { requests } ==> {
            &&& event matches RangesEvent::Ranges { ranges }
            &&& step is SplitByGas || step is SplitByBlocks
            &&& requests@.len() == ranges@.len()
            &&& 0 <= i < ranges@.len() ==> {
                &&& requests@[i].start_block == ranges@[i].0
                &&& requests@[i].end_block == ranges@[i].1
                &&& requests@[i].chains.l1_chain_id == proposer.requester_config.chains.l1_chain_id
                &&& requests@[i].chains.l2_chain_id == proposer.requester_config.chains.l2_chain_id
                &&& requests@[i].range_vkey_commitment@
                    == proposer.commitments.range_vkey_commitment@
                &&& requests@[i].rollup_config_hash@ == proposer.commitments.rollup_config_hash@
                &&& requests@[i].mode == RequestMode::Mock <==> proposer.requester_config.mock
                &&& requests@[i].mode == RequestMode::Real <==> !proposer.requester_config.mock
            }
        },
{
}

/// Sorting puts ranges in the order of their start blocks, keeps each of them, and leaves those
/// that start at the same block in the order they had.
pub proof fn law_sorting_orders_ranges_by_their_start(
    ranges: &[(i64, i64)],
    sorted: Vec<(i64, i64)>,
    start: i64,
    starts_there: spec_fn((i64, i64)) -> bool,
)
    requires
        call_ensures(sort_by_start, (ranges,), sorted),
        forall|range: (i64, i64)| #[trigger] starts_there(range) <==> range.0 == start,
    ensures
        sorted@.len() == ranges@.len(),
        forall|i: int, j: int|
            0 <= i < j < sorted@.len() ==> (#[trigger] sorted@[i]).0 <= (#[trigger] sorted@[j]).0,
        forall|range: (i64, i64)| #[trigger] sorted@.contains(range) <==> ranges@.contains(range),
        sorted@.filter(starts_there) == ranges@.filter(starts_there),
{
    law_sorting_keeps_the_ranges(sorted@, ranges@);
    lemma_starting_at_filters(sorted@, start, starts_there);
    lemma_starting_at_filters(ranges@, start, starts_there);
    assert(starting_at(sorted@, start) == starting_at(ranges@, start));
}

/// The ranges that start at a block are those that any test for that lets through.
proof fn lemma_starting_at_filters(
    ranges: Seq<(i64, i64)>,
    start: i64,
    starts_there: spec_fn((i64, i64)) -> bool,
)
    requires
        forall|range: (i64, i64)| #[trigger] starts_there(range) <==> range.0 == start,
    ensures
        ranges.filter(starts_there) == starting_at(ranges, start),
    decreases ranges.len(),
{
    reveal(Seq::filter);
    if ranges.len() > 0 {
        lemma_starting_at_filters(ranges.drop_last(), start, starts_there);
        assert(starts_there(ranges.last()) <==> ranges.last().0 == start);
    }
}

/// A pass looks for gaps between the head that it read and the block that it found finalized, in
/// the sorted ranges of the active requests.
pub proof fn law_gaps_are_looked_for_up_to_the_finalized_block(
    step: RangesStep,
    event: RangesEvent,
    proposer: Proposer,
    next: RangesStep,
)
    requires
        step.admits(event),
        call_ensures(RangesStep::next, (step, event, &proposer), next),
    ensures
        next is ReadFinalized <==> event is LatestProposed,
        next matches RangesStep::ReadFinalized { latest_proposed } ==> event
            == (RangesEvent::LatestProposed { number: latest_proposed }),
        next is FetchRanges <==> event is Finalized && event->Finalized_number is Some,
        next matches RangesStep::FetchRanges { latest_proposed, finalized } ==> step
            == (RangesStep::ReadFinalized { latest_proposed }) && event == (RangesEvent::Finalized {
            number: Some(finalized),
        }),
        next is FindGaps <==> step is FetchRanges && event is Ranges,
        next matches RangesStep::FindGaps { start, end, ranges: sorted } ==> {
            &&& step matches RangesStep::FetchRanges { latest_proposed, finalized }
            &&& event matches RangesEvent::Ranges { ranges }
            &&& start == latest_proposed as i64
            &&& end == finalized as i64
            &&& sorted@.len() == ranges@.len()
            &&& forall|i: int, j: int|
                0 <= i < j < sorted@.len() ==> (#[trigger] sorted@[i]).0 <= (#[trigger] sorted@[j]).0
            &&& forall|range: (i64, i64)| #[trigger]
                sorted@.contains(range) <==> ranges@.contains(range)
        },
{
    if next is FindGaps {
        law_sorting_keeps_the_ranges(next->FindGaps_ranges@, event->ranges@);
    }
}

/// The gaps that were found are split by blocks exactly if no gas limit is configured, and by gas
/// otherwise. Either way they are split as they were found, with the configured limits.
pub proof fn law_gaps_are_split_as_configured(
    step: RangesStep,
    event: RangesEvent,
    proposer: Proposer,
    next: RangesStep,
)
    requires
        step.admits(event),
        call_ensures(RangesStep::next, (step, event, &proposer), next),
    ensures
        next is SplitByBlocks <==> step is FindGaps && event is Ranges
            && proposer.requester_config.evm_gas_limit == 0,
        next matches RangesStep::SplitByBlocks { gaps, interval } ==> {
            &&& gaps@ == event->ranges@
            &&& interval == proposer.requester_config.range_proof_interval as i64
        },
        next matches RangesStep::SplitByGas { gaps, evm_gas_limit, interval } ==> {
            &&& step is FindGaps ==> gaps@ == event->ranges@
            &&& step is FindGaps || step is FetchBlockData && gaps@ == step->FetchBlockData_gaps@
            &&& evm_gas_limit == proposer.requester_config.evm_gas_limit
            &&& interval == proposer.requester_config.range_proof_interval as i64
        },
{
}

/// Before gaps are split by gas, the data of each gap that holds a block is fetched, one after the
/// other: no such gap is passed over, and the data of an empty gap is not fetched.
pub proof fn law_the_data_of_every_open_gap_is_fetched(
    step: RangesStep,
    event: RangesEvent,
    proposer: Proposer,
    next: RangesStep,
    i: int,
)
    requires
        step.wf(),
        step.admits(event),
        call_ensures(RangesStep::next, (step, event, &proposer), next),
    ensures
        step is FindGaps && event is Ranges && proposer.requester_config.evm_gas_limit > 0 ==> next
            is FetchBlockData || next is SplitByGas,
        step is FetchBlockData && event is Succeeded ==> next is FetchBlockData || next is SplitByGas,
        next matches RangesStep::FetchBlockData { gaps, at } ==> {
            &&& at < gaps@.len()
            &&& gaps@[at as int].0 < gaps@[at as int].1
            &&& step is FindGaps ==> gaps@ == event->ranges@
            &&& step is FindGaps && 0 <= i < at ==> gaps@[i].0 >= gaps@[i].1
            &&& step matches RangesStep::FetchBlockData { gaps: before, at: last } ==> {
                &&& gaps@ == before@
                &&& last < at
                &&& last < i < at ==> gaps@[i].0 >= gaps@[i].1
            }
        },
        next matches RangesStep::SplitByGas { gaps, .. } ==> {
            &&& step is FindGaps && 0 <= i < gaps@.len() ==> gaps@[i].0 >= gaps@[i].1
            &&& step is FetchBlockData && step->at < i < gaps@.len() ==> gaps@[i].0 >= gaps@[i].1
        },
{
}

/// What each end of a pass means.
pub proof fn law_the_end_of_a_pass_says_what_happened(
    step: RangesStep,
    event: RangesEvent,
    proposer: Proposer,
    next: RangesStep,
)
    requires
        step.admits(event),
        call_ensures(RangesStep::next, (step, event, &proposer), next),
    ensures
        next == (RangesStep::Done { end: RangesEnd::Failed }) <==> event is Failed,
        next == (RangesStep::Done { end: RangesEnd::NothingFinalized }) <==> event is Finalized
            && event->Finalized_number is None,
        next == (RangesStep::Done { end: RangesEnd::NothingToProve }) <==> (step is SplitByGas || step
            is SplitByBlocks) && event is Ranges && event->ranges@.len() == 0,
        next == (RangesStep::Done { end: RangesEnd::Inserted }) <==> step is Insert && event
            is Succeeded,
        next is Insert <==> (step is SplitByGas || step is SplitByBlocks) && event is Ranges
            && event->ranges@.len() > 0,
{
}

/// A range counts as covered by a request exactly as long as the request has neither been relayed,
/// nor failed, nor been cancelled or invalidated.
pub proof fn law_ended_requests_cover_nothing(
    proposer: Proposer,
    statuses: Vec<RequestStatus>,
    status: RequestStatus,
)
    requires
        call_ensures(Proposer::active_statuses, (&proposer,), statuses),
    ensures
        statuses@.contains(status) <==> !(status is Relayed || status is Failed || status is Cancelled
            || status is Invalidated),
{
    let listed = statuses@;
    assert(listed[0] is Unrequested && listed[1] is WitnessGeneration && listed[2] is Execution
        && listed[3] is Prove && listed[4] is Complete);
}

/// A pass starts by reading the head.
pub proof fn law_a_pass_starts_at_the_head(proposer: Proposer, step: RangesStep)
    requires
        call_ensures(Proposer::add_new_ranges, (&proposer,), step),
    ensures
        step is ReadLatestProposed,
{
}

} // verus!
