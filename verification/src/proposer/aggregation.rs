//! Building aggregations: which range proofs they cover, and the L1 block they are checked against.
use vstd::prelude::*;

use crate::block::{BlockId, BlockNumberOrTag};
use crate::bytes::same_hash;
use crate::proposer::Proposer;
use crate::request::{OPSuccinctRequest, B256};

verus! {

/// The L1 block to checkpoint for an aggregation: the `safe` head, but not below the largest
/// `l1Head` among the aggregated range proofs.
pub open spec fn spec_select_checkpoint_block_number(
    safe_block_number: u64,
    batch_max_l1_head: Option<u64>,
) -> u64 {
    match batch_max_l1_head {
        Some(max) => if max > safe_block_number {
            max
        } else {
            safe_block_number
        },
        None => safe_block_number,
    }
}

/// Chooses the L1 block to checkpoint for an aggregation.
///
/// The aggregation guest walks L1 headers back from the checkpointed head by hash and requires every
/// range proof's `l1Head` to lie on that chain, so the checkpoint must be at or after
/// `batch_max_l1_head`. A reorg-stable `safe` head is floored at that value; where no range proof
/// records an `l1Head`, `safe` is taken as it is.
pub fn select_checkpoint_block_number(
    safe_block_number: u64,
    batch_max_l1_head: Option<u64>,
) -> (number: u64)
    ensures
        number == spec_select_checkpoint_block_number(safe_block_number, batch_max_l1_head),
        number >= safe_block_number,
        batch_max_l1_head is Some ==> number >= batch_max_l1_head->0,
{
    match batch_max_l1_head {
        Some(max) => if max > safe_block_number {
            max
        } else {
            safe_block_number
        },
        None => safe_block_number,
    }
}

/// A cached checkpoint from a previous aggregation request, plus what the contract says about it.
#[derive(Debug, Clone, Copy, PartialEq, Eq)]
pub struct CachedCheckpoint {
    /// The L1 block hash the database recorded.
    pub hash: B256,
    /// The L1 block number the database recorded.
    pub number: u64,
    /// `historicBlockHashes(number)` read back from the contract. Zero means the contract has no
    /// checkpoint at that number.
    pub onchain_hash: B256,
}

/// Why a cached checkpoint could not be reused.
#[derive(Debug, Clone, Copy, PartialEq, Eq, Structural)]
pub enum RecheckpointReason {
    /// No prior aggregation request to inherit a checkpoint from.
    NoCachedCheckpoint,
    /// The contract has no checkpoint at that block number.
    NotOnChain,
    /// The contract checkpointed a different hash at that number than the database recorded.
    HashMismatch,
    /// Valid on chain, but below the batch's max `l1Head`.
    BelowBatchMaxL1Head,
}

/// Where a batch's checkpointed L1 block should come from.
#[derive(Debug, Clone, Copy, PartialEq, Eq)]
pub enum CheckpointPlan {
    /// The cached checkpoint is still valid on chain and high enough for the guest.
    Reuse { hash: B256, number: u64 },
    /// Nothing usable is cached: read `anchor` and checkpoint it.
    Fresh { anchor: BlockId, reason: RecheckpointReason },
}

/// The hash of 32 zero bytes, which the contract answers with where it holds no hash.
pub open spec fn is_zero_hash(hash: Seq<u8>) -> bool {
    forall|i: int| 0 <= i < hash.len() ==> hash[i] == 0
}

/// Why a cached checkpoint cannot be reused, if it cannot.
pub open spec fn recheckpoint_reason(
    cached: Option<CachedCheckpoint>,
    batch_max_l1_head: Option<u64>,
) -> Option<RecheckpointReason> {
    match cached {
        None => Some(RecheckpointReason::NoCachedCheckpoint),
        Some(checkpoint) => {
            if is_zero_hash(checkpoint.onchain_hash@) {
                Some(RecheckpointReason::NotOnChain)
            } else if checkpoint.onchain_hash@ != checkpoint.hash@ {
                Some(RecheckpointReason::HashMismatch)
            } else if batch_max_l1_head is Some && checkpoint.number < batch_max_l1_head->0 {
                Some(RecheckpointReason::BelowBatchMaxL1Head)
            } else {
                None
            }
        },
    }
}

/// Where a batch's checkpoint comes from. A fresh one is anchored at `safe`: the header is read by
/// number, so a reorg of the tip between reading it and checkpointing it would orphan the
/// checkpoint.
pub open spec fn spec_checkpoint_plan(
    cached: Option<CachedCheckpoint>,
    batch_max_l1_head: Option<u64>,
) -> CheckpointPlan {
    match recheckpoint_reason(cached, batch_max_l1_head) {
        Some(reason) => CheckpointPlan::Fresh {
            anchor: BlockId::Number(BlockNumberOrTag::Safe),
            reason,
        },
        None => CheckpointPlan::Reuse { hash: cached->0.hash, number: cached->0.number },
    }
}

/// Decides whether a cached checkpoint can be reused, from what was already read.
///
/// A matching hash only proves that the block was not reorged out, not that the guest can reach
/// every range proof's `l1Head` from it; and a reused checkpoint is copied into each rebuilt row, so
/// one below the batch's maximum would fail again and again.
pub fn checkpoint_plan(cached: Option<CachedCheckpoint>, batch_max_l1_head: Option<u64>) -> (plan:
    CheckpointPlan)
    ensures
        plan == spec_checkpoint_plan(cached, batch_max_l1_head),
{
    let anchor = BlockId::Number(BlockNumberOrTag::Safe);
    let cached = match cached {
        Some(cached) => cached,
        None => {
            return CheckpointPlan::Fresh { anchor, reason: RecheckpointReason::NoCachedCheckpoint };
        },
    };
    let zero: B256 = [0; 32];
    if same_hash(&cached.onchain_hash, &zero) {
        return CheckpointPlan::Fresh { anchor, reason: RecheckpointReason::NotOnChain };
    }
    assert(!is_zero_hash(cached.onchain_hash@)) by {
        if is_zero_hash(cached.onchain_hash@) {
            assert(cached.onchain_hash@ =~= zero@);
        }
    }
    if !same_hash(&cached.onchain_hash, &cached.hash) {
        return CheckpointPlan::Fresh { anchor, reason: RecheckpointReason::HashMismatch };
    }
    if let Some(max) = batch_max_l1_head {
        if cached.number < max {
            return CheckpointPlan::Fresh { anchor, reason: RecheckpointReason::BelowBatchMaxL1Head };
        }
    }
    CheckpointPlan::Reuse { hash: cached.hash, number: cached.number }
}

/// Whatever checkpoint is planned, the guest can reach every range proof of the batch from it: a
/// reused one is not below the batch's largest `l1Head`, and a fresh one is anchored at `safe` and
/// floored at that head.
pub proof fn law_a_checkpoint_covers_its_batch(
    cached: Option<CachedCheckpoint>,
    batch_max_l1_head: Option<u64>,
    safe_block_number: u64,
)
    requires
        batch_max_l1_head is Some,
    ensures
        match spec_checkpoint_plan(cached, batch_max_l1_head) {
            CheckpointPlan::Reuse { number, .. } => number >= batch_max_l1_head->0,
            CheckpointPlan::Fresh { anchor, .. } => {
                &&& anchor == BlockId::Number(BlockNumberOrTag::Safe)
                &&& spec_select_checkpoint_block_number(safe_block_number, batch_max_l1_head)
                    >= batch_max_l1_head->0
            },
        },
{
}

/// A reused checkpoint is one that the contract holds under the very hash that was recorded.
pub proof fn law_a_reused_checkpoint_is_on_chain(
    cached: Option<CachedCheckpoint>,
    batch_max_l1_head: Option<u64>,
)
    ensures
        spec_checkpoint_plan(cached, batch_max_l1_head) matches CheckpointPlan::Reuse { hash, number }
            ==> {
            &&& cached is Some
            &&& hash@ == cached->0.onchain_hash@
            &&& number == cached->0.number
            &&& !is_zero_hash(hash@)
        },
{
}

/// The ranges up to and including the one at `last` follow one another without gap or overlap.
pub open spec fn contiguous_up_to(ranges: Seq<(i64, i64)>, last: int) -> bool {
    forall|i: int| 1 <= i <= last ==> (#[trigger] ranges[i]).0 == ranges[i - 1].1
}

/// The contiguous chain that starts with the first range ends with the one at `last`.
pub open spec fn chain_ends_at(ranges: Seq<(i64, i64)>, last: int) -> bool {
    &&& 0 <= last < ranges.len()
    &&& contiguous_up_to(ranges, last)
    &&& last + 1 < ranges.len() ==> ranges[last + 1].0 != ranges[last].1
}

/// The position of the last range of the contiguous chain that starts with the first one.
pub open spec fn chain_end(ranges: Seq<(i64, i64)>) -> int
    decreases ranges.len(),
{
    if ranges.len() <= 1 {
        0
    } else {
        let front = ranges.drop_last();
        let end = chain_end(front);
        if end == front.len() - 1 && ranges.last().0 == front.last().1 {
            ranges.len() - 1
        } else {
            end
        }
    }
}

/// The highest block that a contiguous chain of ranges reaches.
pub open spec fn spec_highest_proven_contiguous_block(ranges: Seq<(i64, i64)>) -> Option<i64> {
    if ranges.len() == 0 {
        None
    } else {
        Some(ranges[chain_end(ranges)].1)
    }
}

/// There is exactly one position at which the chain ends.
proof fn lemma_chain_end(ranges: Seq<(i64, i64)>)
    requires
        ranges.len() > 0,
    ensures
        chain_ends_at(ranges, chain_end(ranges)),
        forall|last: int| #[trigger] chain_ends_at(ranges, last) ==> last == chain_end(ranges),
    decreases ranges.len(),
{
    if ranges.len() > 1 {
        let front = ranges.drop_last();
        let n = ranges.len() as int;
        lemma_chain_end(front);
        let end = chain_end(front);
        assert(forall|i: int| 0 <= i < n - 1 ==> front[i] == ranges[i]);
        assert(contiguous_up_to(front, end));
        assert forall|i: int| 1 <= i <= end implies (#[trigger] ranges[i]).0 == ranges[i - 1].1 by {
            assert(front[i].0 == front[i - 1].1);
        }
        assert(chain_ends_at(ranges, chain_end(ranges)));
    }
    assert forall|last: int| #[trigger] chain_ends_at(ranges, last) implies last == chain_end(
        ranges,
    ) by {
        let end = chain_end(ranges);
        if last < end {
            assert(ranges[last + 1].0 == ranges[last + 1 - 1].1);
        } else if end < last {
            assert(ranges[end + 1].0 == ranges[end + 1 - 1].1);
        }
    }
}

/// Highest block reachable by a contiguous chain of completed range proofs, starting from the first
/// proof and stopping at the first gap (a proof whose start block is not the running end). `None`
/// when there are no completed range proofs.
///
/// The proofs are given in the order of their start blocks.
pub fn highest_proven_contiguous_block(completed_range_proofs: &[(i64, i64)]) -> (block: Option<i64>)
    ensures
        block == spec_highest_proven_contiguous_block(completed_range_proofs@),
        block is None <==> completed_range_proofs@.len() == 0,
        block is Some ==> exists|last: int| #[trigger]
            chain_ends_at(completed_range_proofs@, last) && block == Some(
                completed_range_proofs@[last].1,
            ),
{
    if completed_range_proofs.len() == 0 {
        return None;
    }
    let ghost ranges = completed_range_proofs@;
    let mut current_end: i64 = completed_range_proofs[0].1;
    let mut i: usize = 1;
    while i < completed_range_proofs.len()
        invariant
            ranges == completed_range_proofs@,
            1 <= i <= ranges.len(),
            contiguous_up_to(ranges, i - 1),
            current_end == ranges[i - 1].1,
        decreases ranges.len() - i,
    {
        let (start, end) = completed_range_proofs[i];
        if start != current_end {
            proof {
                lemma_chain_end(ranges);
                assert(chain_ends_at(ranges, i - 1));
            }
            return Some(current_end);
        }
        current_end = end;
        i += 1;
    }
    proof {
        lemma_chain_end(ranges);
        assert(chain_ends_at(ranges, ranges.len() - 1));
    }
    Some(current_end)
}

/// Why completed range proofs do not form a chain that can be built on.
#[derive(Debug, Clone, Copy, PartialEq, Eq, Structural)]
pub enum RangeError {
    /// A range of the chain holds no block.
    Empty,
    /// A range starts inside the chain.
    Overlapping,
}

/// Some range up to and including the one at `last` holds no block.
pub open spec fn holds_empty_range(ranges: Seq<(i64, i64)>, last: int) -> bool {
    exists|i: int| 0 <= i <= last && (#[trigger] ranges[i]).1 <= ranges[i].0
}

/// The end of the contiguous chain that starts with the first range, where that chain is sound.
pub open spec fn spec_highest_contiguous_end(ranges: Seq<(i64, i64)>) -> Result<
    Option<i64>,
    RangeError,
> {
    let last = chain_end(ranges);
    if ranges.len() == 0 {
        Ok(None)
    } else if holds_empty_range(ranges, last) {
        Err(RangeError::Empty)
    } else if last + 1 < ranges.len() && ranges[last + 1].0 < ranges[last].1 {
        Err(RangeError::Overlapping)
    } else {
        Ok(Some(ranges[last].1))
    }
}

/// The end of the contiguous chain of completed range proofs that starts with the first one, or
/// `None` when there are none.
///
/// A range of the chain that holds no block, and a range that starts inside the chain, are errors;
/// what lies behind a gap is not looked at. The proofs are given in the order of their start blocks.
pub fn highest_contiguous_end(completed_range_proofs: &[(i64, i64)]) -> (end: Result<
    Option<i64>,
    RangeError,
>)
    ensures
        end == spec_highest_contiguous_end(completed_range_proofs@),
{
    if completed_range_proofs.len() == 0 {
        return Ok(None);
    }
    let ghost ranges = completed_range_proofs@;
    proof {
        lemma_chain_end(ranges);
    }
    let mut current_end: i64 = completed_range_proofs[0].1;
    if completed_range_proofs[0].1 <= completed_range_proofs[0].0 {
        assert(ranges[0].1 <= ranges[0].0);
        return Err(RangeError::Empty);
    }
    let mut i: usize = 1;
    while i < completed_range_proofs.len()
        invariant
            ranges == completed_range_proofs@,
            1 <= i <= ranges.len(),
            contiguous_up_to(ranges, i - 1),
            !holds_empty_range(ranges, i - 1),
            current_end == ranges[i - 1].1,
            chain_ends_at(ranges, chain_end(ranges)),
            forall|last: int| #[trigger] chain_ends_at(ranges, last) ==> last == chain_end(ranges),
        decreases ranges.len() - i,
    {
        let (start, end) = completed_range_proofs[i];
        if start != current_end {
            assert(chain_ends_at(ranges, i - 1));
            if start < current_end {
                return Err(RangeError::Overlapping);
            }
            return Ok(Some(current_end));
        }
        if end <= start {
            proof {
                let last = chain_end(ranges);
                if last < i {
                    assert(contiguous_up_to(ranges, i as int));
                    assert(ranges[last + 1].0 == ranges[last + 1 - 1].1);
                }
                assert(ranges[i as int].1 <= ranges[i as int].0);
                assert(holds_empty_range(ranges, last));
            }
            return Err(RangeError::Empty);
        }
        current_end = end;
        i += 1;
    }
    assert(chain_ends_at(ranges, ranges.len() - 1));
    Ok(Some(current_end))
}

/// Where the chain is sound, its end is the highest contiguously proven block.
pub proof fn law_a_sound_chain_ends_at_the_highest_proven_block(ranges: Seq<(i64, i64)>)
    ensures
        spec_highest_contiguous_end(ranges) matches Ok(end) ==> end
            == spec_highest_proven_contiguous_block(ranges),
{
}

/// A block lies in a range.
pub open spec fn in_range(range: (i64, i64), block: int) -> bool {
    range.0 <= block < range.1
}

/// A block lies in one of the ranges.
pub open spec fn is_proven(ranges: Seq<(i64, i64)>, block: int) -> bool {
    exists|i: int| 0 <= i < ranges.len() && in_range(#[trigger] ranges[i], block)
}

/// Every block from the start of the first range up to the highest contiguously proven block is
/// proven by one of the ranges.
pub proof fn law_every_block_below_the_highest_is_proven(ranges: Seq<(i64, i64)>, block: int)
    requires
        ranges.len() > 0,
        spec_highest_proven_contiguous_block(ranges) is Some,
        ranges[0].0 <= block < spec_highest_proven_contiguous_block(ranges)->0,
    ensures
        is_proven(ranges, block),
{
    lemma_chain_end(ranges);
    lemma_chain_covers(ranges, chain_end(ranges), block);
}

/// A contiguous chain of ranges covers every block between its ends.
proof fn lemma_chain_covers(ranges: Seq<(i64, i64)>, last: int, block: int)
    requires
        0 <= last < ranges.len(),
        contiguous_up_to(ranges, last),
        ranges[0].0 <= block < ranges[last].1,
    ensures
        exists|i: int| 0 <= i <= last && in_range(#[trigger] ranges[i], block),
    decreases last,
{
    if ranges[last].0 <= block {
        assert(in_range(ranges[last], block));
    } else {
        assert(last > 0);
        assert(ranges[last].0 == ranges[last - 1].1);
        lemma_chain_covers(ranges, last - 1, block);
    }
}

/// The block ranges of requests.
pub open spec fn ranges_of(requests: Seq<OPSuccinctRequest>) -> Seq<(i64, i64)> {
    Seq::new(requests.len(), |i: int| (requests[i].start_block, requests[i].end_block))
}

/// Ranges start at `start`, end at `end` and follow one another without gap or overlap.
pub open spec fn chains(ranges: Seq<(i64, i64)>, start: i64, end: i64) -> bool {
    &&& ranges.len() > 0
    &&& ranges[0].0 == start
    &&& ranges.last().1 == end
    &&& contiguous_up_to(ranges, ranges.len() - 1)
}

impl Proposer {
    /// Validates an aggregation proof request: its range proofs leave no gap, do not overlap and
    /// cover the whole block range.
    pub fn validate_aggregation_request(
        &self,
        range_proofs: &[OPSuccinctRequest],
        agg_request: &OPSuccinctRequest,
    ) -> (valid: bool)
        ensures
            valid == chains(
                ranges_of(range_proofs@),
                agg_request.start_block,
                agg_request.end_block,
            ),
    {
        let ghost ranges = ranges_of(range_proofs@);
        if range_proofs.len() == 0 {
            return false;
        }
        if range_proofs[0].start_block != agg_request.start_block {
            return false;
        }
        let last: usize = range_proofs.len() - 1;
        if range_proofs[last].end_block != agg_request.end_block {
            return false;
        }
        let mut i: usize = 1;
        while i < range_proofs.len()
            invariant
                ranges == ranges_of(range_proofs@),
                1 <= i <= range_proofs@.len(),
                contiguous_up_to(ranges, i - 1),
            decreases range_proofs@.len() - i,
        {
            if range_proofs[i - 1].end_block < range_proofs[i].start_block {
                assert(ranges[i as int].0 != ranges[i - 1].1);
                return false;
            }
            if range_proofs[i - 1].end_block > range_proofs[i].start_block {
                assert(ranges[i as int].0 != ranges[i - 1].1);
                return false;
            }
            i += 1;
        }
        true
    }
}

/// The range proofs of a valid aggregation request, each of at least one block, cover every block
/// of the request exactly once.
pub proof fn law_a_valid_aggregation_covers_each_block_once(
    range_proofs: Seq<OPSuccinctRequest>,
    start: i64,
    end: i64,
    block: int,
)
    requires
        chains(ranges_of(range_proofs), start, end),
        forall|i: int|
            0 <= i < range_proofs.len() ==> (#[trigger] range_proofs[i]).start_block
                < range_proofs[i].end_block,
        start <= block < end,
    ensures
        exists|i: int|
            {
                &&& 0 <= i < range_proofs.len()
                &&& in_range(#[trigger] ranges_of(range_proofs)[i], block)
                &&& forall|j: int|
                    0 <= j < range_proofs.len() && in_range(
                        #[trigger] ranges_of(range_proofs)[j],
                        block,
                    ) ==> j == i
            },
{
    let ranges = ranges_of(range_proofs);
    let last = ranges.len() - 1;
    lemma_chain_covers(ranges, last, block);
    let i = choose|i: int| 0 <= i <= last && in_range(#[trigger] ranges[i], block);
    assert forall|j: int| 0 <= j < range_proofs.len() && in_range(#[trigger] ranges[j], block) implies j
        == i by {
        if j < i {
            lemma_chain_is_ordered(ranges, j, i);
        } else if i < j {
            lemma_chain_is_ordered(ranges, i, j);
        }
    }
}

/// In a contiguous chain of non-empty ranges an earlier one ends before a later one starts.
proof fn lemma_chain_is_ordered(ranges: Seq<(i64, i64)>, i: int, j: int)
    requires
        0 <= i < j < ranges.len(),
        contiguous_up_to(ranges, ranges.len() - 1),
        forall|k: int| 0 <= k < ranges.len() ==> (#[trigger] ranges[k]).0 < ranges[k].1,
    ensures
        ranges[i].1 <= ranges[j].0,
    decreases j - i,
{
    assert(ranges[j].0 == ranges[j - 1].1);
    if i < j - 1 {
        lemma_chain_is_ordered(ranges, i, j - 1);
    }
}

/// A valid aggregation request is one whose range proofs contiguously prove up to its end.
pub proof fn law_a_valid_aggregation_ends_at_the_highest_proven_block(
    ranges: Seq<(i64, i64)>,
    start: i64,
    end: i64,
)
    requires
        chains(ranges, start, end),
    ensures
        spec_highest_proven_contiguous_block(ranges) == Some(end),
{
    lemma_chain_end(ranges);
    assert(chain_ends_at(ranges, ranges.len() - 1));
}

/// The L1 block to checkpoint is the larger of the safe head and the largest L1 head of the batch.
pub proof fn law_the_checkpoint_is_the_larger_of_the_two_heads(
    safe_block_number: u64,
    batch_max_l1_head: Option<u64>,
    number: u64,
)
    requires
        call_ensures(
            select_checkpoint_block_number,
            (safe_block_number, batch_max_l1_head),
            number,
        ),
    ensures
        number >= safe_block_number,
        batch_max_l1_head matches Some(max) ==> number >= max,
        number == safe_block_number || batch_max_l1_head == Some(number),
{
}

/// A cached checkpoint is reused, with its hash and its number, exactly if the contract holds that
/// hash at that number, it is not the zero hash, and no range proof of the batch has a later L1
/// head. Otherwise a fresh one is anchored at the safe head, and the reason is the first of these
/// that fails.
pub proof fn law_a_checkpoint_is_reused_exactly_if_it_still_serves(
    cached: Option<CachedCheckpoint>,
    batch_max_l1_head: Option<u64>,
    plan: CheckpointPlan,
)
    requires
        call_ensures(checkpoint_plan, (cached, batch_max_l1_head), plan),
    ensures
        plan is Reuse <==> {
            &&& cached is Some
            &&& exists|k: int| 0 <= k < 32 && #[trigger] cached->0.onchain_hash@[k] != 0
            &&& forall|k: int|
                0 <= k < 32 ==> #[trigger] cached->0.onchain_hash@[k] == cached->0.hash@[k]
            &&& batch_max_l1_head is Some ==> batch_max_l1_head->0 <= cached->0.number
        },
        plan matches CheckpointPlan::Reuse { hash, number } ==> cached is Some && hash
            == cached->0.hash && number == cached->0.number,
        plan matches CheckpointPlan::Fresh { anchor, reason } ==> {
            &&& anchor == BlockId::Number(BlockNumberOrTag::Safe)
            &&& reason == RecheckpointReason::NoCachedCheckpoint <==> cached is None
            &&& reason == RecheckpointReason::NotOnChain <==> cached is Some && forall|k: int|
                0 <= k < 32 ==> #[trigger] cached->0.onchain_hash@[k] == 0
            &&& reason == RecheckpointReason::BelowBatchMaxL1Head <==> {
                &&& cached is Some
                &&& exists|k: int| 0 <= k < 32 && #[trigger] cached->0.onchain_hash@[k] != 0
                &&& cached->0.onchain_hash@ == cached->0.hash@
            }
        },
{
    if cached is Some {
        let onchain = cached->0.onchain_hash@;
        let hash = cached->0.hash@;
        assert(onchain.len() == 32 && hash.len() == 32);
        if forall|k: int| 0 <= k < 32 ==> #[trigger] onchain[k] == hash[k] {
            assert(onchain =~= hash);
        }
    }
}

/// Where the ranges from the first up to the one at `last` follow one another, and the next one, if
/// there is one, does not, the completed range proofs reach the end of that one: unless one of them
/// holds no block, or the next one starts before that end.
pub proof fn law_completed_ranges_reach_up_to_the_first_gap(
    ranges: Seq<(i64, i64)>,
    last: int,
    completed_range_proofs: &[(i64, i64)],
    end: Result<Option<i64>, RangeError>,
    block: Option<i64>,
)
    requires
        completed_range_proofs@ == ranges,
        0 <= last < ranges.len(),
        forall|i: int| 0 < i <= last ==> (#[trigger] ranges[i]).0 == ranges[i - 1].1,
        last + 1 < ranges.len() ==> ranges[last + 1].0 != ranges[last].1,
        call_ensures(highest_contiguous_end, (completed_range_proofs,), end),
        call_ensures(highest_proven_contiguous_block, (completed_range_proofs,), block),
    ensures
        block == Some(ranges[last].1),
        ({
            let empty = exists|i: int| 0 <= i <= last && (#[trigger] ranges[i]).0 >= ranges[i].1;
            let overlapping = last + 1 < ranges.len() && ranges[last + 1].0 < ranges[last].1;
            &&& end == Err::<Option<i64>, _>(RangeError::Empty) <==> empty
            &&& end == Err::<Option<i64>, _>(RangeError::Overlapping) <==> !empty && overlapping
            &&& end == Ok::<_, RangeError>(Some(ranges[last].1)) <==> !empty && !overlapping
        }),
{
    lemma_chain_ends_where_it_breaks(ranges, last);
}

/// The chain of ranges ends with the one that the next does not follow.
pub(crate) proof fn lemma_chain_ends_where_it_breaks(ranges: Seq<(i64, i64)>, last: int)
    requires
        0 <= last < ranges.len(),
        forall|i: int| 0 < i <= last ==> (#[trigger] ranges[i]).0 == ranges[i - 1].1,
        last + 1 < ranges.len() ==> ranges[last + 1].0 != ranges[last].1,
    ensures
        chain_end(ranges) == last,
        holds_empty_range(ranges, last) <==> exists|i: int|
            0 <= i <= last && (#[trigger] ranges[i]).0 >= ranges[i].1,
{
    lemma_chain_end(ranges);
    assert(chain_ends_at(ranges, last));
    if exists|i: int| 0 <= i <= last && (#[trigger] ranges[i]).0 >= ranges[i].1 {
        let i = choose|i: int| 0 <= i <= last && (#[trigger] ranges[i]).0 >= ranges[i].1;
        assert(ranges[i].1 <= ranges[i].0);
    }
}

/// Without completed range proofs nothing is proven, and that is no error.
pub proof fn law_without_completed_ranges_nothing_is_proven(
    completed_range_proofs: &[(i64, i64)],
    end: Result<Option<i64>, RangeError>,
    block: Option<i64>,
)
    requires
        call_ensures(highest_contiguous_end, (completed_range_proofs,), end),
        call_ensures(highest_proven_contiguous_block, (completed_range_proofs,), block),
    ensures
        completed_range_proofs@.len() == 0 <==> end == Ok::<_, RangeError>(None::<i64>),
        completed_range_proofs@.len() == 0 <==> block is None,
{
}

/// An aggregation request is valid exactly if its first range proof starts where it starts, its
/// last one ends where it ends, and each one starts where the one before it ends.
pub proof fn law_a_valid_aggregation_is_a_chain_of_its_range_proofs(
    proposer: Proposer,
    range_proofs: &[OPSuccinctRequest],
    agg_request: OPSuccinctRequest,
    valid: bool,
)
    requires
        call_ensures(
            Proposer::validate_aggregation_request,
            (&proposer, range_proofs, &agg_request),
            valid,
        ),
    ensures
        valid <==> {
            &&& range_proofs@.len() > 0
            &&& range_proofs@[0].start_block == agg_request.start_block
            &&& range_proofs@[range_proofs@.len() - 1].end_block == agg_request.end_block
            &&& forall|i: int, j: int|
                0 <= i && j == i + 1 && j < range_proofs@.len() ==> (#[trigger]
                range_proofs@[i]).end_block == (#[trigger] range_proofs@[j]).start_block
        },
{
    lemma_chains_in_place(range_proofs@, agg_request.start_block, agg_request.end_block);
}

/// What it takes for the ranges of requests to form a chain.
pub(crate) proof fn lemma_chains_in_place(requests: Seq<OPSuccinctRequest>, start: i64, end: i64)
    ensures
        chains(ranges_of(requests), start, end) <==> {
            &&& requests.len() > 0
            &&& requests[0].start_block == start
            &&& requests[requests.len() - 1].end_block == end
            &&& forall|i: int, j: int|
                0 <= i && j == i + 1 && j < requests.len() ==> (#[trigger] requests[i]).end_block == (
                #[trigger] requests[j]).start_block
        },
{
    let ranges = ranges_of(requests);
    if chains(ranges, start, end) {
        assert forall|i: int, j: int| 0 <= i && j == i + 1 && j < requests.len() implies (#[trigger]
        requests[i]).end_block == (#[trigger] requests[j]).start_block by {
            assert(ranges[j].0 == ranges[j - 1].1);
        }
    }
    if forall|i: int, j: int|
        0 <= i && j == i + 1 && j < requests.len() ==> (#[trigger] requests[i]).end_block == (
        #[trigger] requests[j]).start_block {
        assert forall|i: int| 1 <= i <= ranges.len() - 1 implies (#[trigger] ranges[i]).0 == ranges[i
            - 1].1 by {
            assert(requests[i - 1].end_block == requests[i].start_block);
        }
    }
}

} // verus!
