//! Clearing an account's stuck transactions by replacing them with transfers of nothing to itself.
use vstd::prelude::*;

use crate::request::Address;

verus! {

/// The gas that a plain transfer takes.
pub const TRANSFER_GAS: u64 = 21_000;

/// The number of wei in a gwei.
pub const WEI_PER_GWEI: u128 = 1_000_000_000;

/// What the operator asks for.
#[derive(Debug, Clone, Copy, PartialEq, Eq, Structural)]
pub struct ClearArgs {
    /// First nonce to replace. Defaults to the account's next mineable nonce.
    pub start_nonce: Option<u64>,
    /// Last nonce to replace (inclusive). Defaults to the highest pending nonce.
    pub end_nonce: Option<u64>,
    /// The fee cap of the replacements, in gwei.
    pub max_fee_gwei: u64,
    /// The priority fee of the replacements, in gwei.
    pub priority_fee_gwei: u64,
}

/// The nonces to replace, and the fees to pay, in wei.
#[derive(Debug, Clone, Copy, PartialEq, Eq, Structural)]
pub struct ClearPlan {
    pub start: u64,
    pub end: u64,
    pub max_fee: u128,
    pub priority_fee: u128,
}

/// Why there is no plan.
#[derive(Debug, Clone, Copy, PartialEq, Eq, Structural)]
pub enum ClearError {
    /// The first nonce is above the last one.
    StartAboveEnd { start: u64, end: u64 },
    /// The first nonce was already mined.
    StartAlreadyMined { start: u64, latest: u64 },
    /// The priority fee is above the fee cap.
    PriorityAboveMax,
}

/// The number of transactions that are stuck.
pub open spec fn spec_stuck_count(latest: u64, pending: u64) -> u64 {
    if pending > latest {
        (pending - latest) as u64
    } else {
        0
    }
}

/// The number of transactions that are stuck.
pub fn stuck_count(latest: u64, pending: u64) -> (count: u64)
    ensures
        count == spec_stuck_count(latest, pending),
{
    if pending > latest {
        pending - latest
    } else {
        0
    }
}

/// The first nonce to replace.
pub open spec fn first_nonce(latest: u64, args: ClearArgs) -> u64 {
    match args.start_nonce {
        Some(nonce) => nonce,
        None => latest,
    }
}

/// The last nonce to replace.
pub open spec fn last_nonce(pending: u64, args: ClearArgs) -> u64 {
    match args.end_nonce {
        Some(nonce) => nonce,
        None => (pending - 1) as u64,
    }
}

/// The plan for an account whose next mineable nonce and next free nonce are these. There is
/// nothing to do where the two are the same.
pub open spec fn spec_plan_replacements(latest: u64, pending: u64, args: ClearArgs) -> Result<
    Option<ClearPlan>,
    ClearError,
> {
    let start = first_nonce(latest, args);
    let end = last_nonce(pending, args);
    if pending <= latest {
        Ok(None)
    } else if start > end {
        Err(ClearError::StartAboveEnd { start, end })
    } else if start < latest {
        Err(ClearError::StartAlreadyMined { start, latest })
    } else if args.priority_fee_gwei > args.max_fee_gwei {
        Err(ClearError::PriorityAboveMax)
    } else {
        Ok(
            Some(
                ClearPlan {
                    start,
                    end,
                    max_fee: (args.max_fee_gwei * WEI_PER_GWEI) as u128,
                    priority_fee: (args.priority_fee_gwei * WEI_PER_GWEI) as u128,
                },
            ),
        )
    }
}

/// Plans the replacements.
pub fn plan_replacements(latest: u64, pending: u64, args: &ClearArgs) -> (plan: Result<
    Option<ClearPlan>,
    ClearError,
>)
    ensures
        plan == spec_plan_replacements(latest, pending, *args),
{
    if pending <= latest {
        return Ok(None);
    }
    let start: u64 = match args.start_nonce {
        Some(nonce) => nonce,
        None => latest,
    };
    let end: u64 = match args.end_nonce {
        Some(nonce) => nonce,
        None => pending - 1,
    };
    if start > end {
        return Err(ClearError::StartAboveEnd { start, end });
    }
    if start < latest {
        return Err(ClearError::StartAlreadyMined { start, latest });
    }
    let max_fee: u128 = args.max_fee_gwei as u128 * WEI_PER_GWEI;
    let priority_fee: u128 = args.priority_fee_gwei as u128 * WEI_PER_GWEI;
    if priority_fee > max_fee {
        return Err(ClearError::PriorityAboveMax);
    }
    Ok(Some(ClearPlan { start, end, max_fee, priority_fee }))
}

/// A transaction that replaces a stuck one.
#[derive(Debug, Clone, Copy, PartialEq, Eq)]
pub struct Replacement {
    pub to: Address,
    pub value: u128,
    pub nonce: u64,
    pub gas_limit: u64,
    pub max_fee_per_gas: u128,
    pub max_priority_fee_per_gas: u128,
}

impl ClearPlan {
    /// A plan has at least one nonce, and pays no more priority than it may.
    pub open spec fn wf(self) -> bool {
        self.start <= self.end && self.priority_fee <= self.max_fee
    }

    /// The number of transactions to replace.
    pub fn count(&self) -> (count: u128)
        requires
            self.wf(),
        ensures
            count == self.end - self.start + 1,
    {
        (self.end - self.start) as u128 + 1
    }

    /// The replacement at a nonce: nothing, sent by the account to itself.
    pub open spec fn spec_replacement(self, address: Address, nonce: u64) -> Replacement {
        Replacement {
            to: address,
            value: 0,
            nonce,
            gas_limit: TRANSFER_GAS,
            max_fee_per_gas: self.max_fee,
            max_priority_fee_per_gas: self.priority_fee,
        }
    }

    /// The replacement at a nonce, and the nonce of the next one, if there is one.
    pub fn replacement(&self, address: Address, nonce: u64) -> (result: (Replacement, Option<u64>))
        requires
            self.wf(),
            self.start <= nonce <= self.end,
        ensures
            result.0 == self.spec_replacement(address, nonce),
            result.1 == if nonce < self.end {
                Some((nonce + 1) as u64)
            } else {
                None
            },
    {
        let replacement = Replacement {
            to: address,
            value: 0,
            nonce,
            gas_limit: TRANSFER_GAS,
            max_fee_per_gas: self.max_fee,
            max_priority_fee_per_gas: self.priority_fee,
        };
        if nonce < self.end {
            (replacement, Some(nonce + 1))
        } else {
            (replacement, None)
        }
    }
}

/// What the queue looks like after the replacements.
#[derive(Debug, Clone, Copy, PartialEq, Eq, Structural)]
pub struct QueueReport {
    /// The number of transactions that another sender has queued in the meantime.
    pub foreign: u64,
    /// The number of transactions that are still queued.
    pub still_queued: u64,
    /// Whether the queue is clear.
    pub clear: bool,
}

/// Reports on the queue after everything up to `end` was replaced. The account's next free nonce
/// should then not be above `end + 1`: what is beyond was queued by someone else.
pub fn queue_report(end: u64, latest_after: u64, pending_after: u64) -> (report: QueueReport)
    ensures
        report.foreign == if pending_after > end + 1 {
            pending_after - (end + 1)
        } else {
            0
        },
        report.still_queued == spec_stuck_count(latest_after, pending_after),
        report.clear == (pending_after == latest_after),
{
    let foreign: u64 = if pending_after > end && pending_after - end > 1 {
        pending_after - end - 1
    } else {
        0
    };
    QueueReport {
        foreign,
        still_queued: stuck_count(latest_after, pending_after),
        clear: pending_after == latest_after,
    }
}

/// A plan replaces no nonce that was already mined, and is always in order.
pub proof fn law_a_plan_replaces_only_what_is_not_mined(latest: u64, pending: u64, args: ClearArgs)
    ensures
        spec_plan_replacements(latest, pending, args) matches Ok(Some(plan)) ==> {
            &&& latest <= plan.start <= plan.end
            &&& plan.wf()
        },
{
    if args.priority_fee_gwei <= args.max_fee_gwei {
        assert(args.priority_fee_gwei * WEI_PER_GWEI <= args.max_fee_gwei * WEI_PER_GWEI)
            by (nonlinear_arith)
            requires
                args.priority_fee_gwei <= args.max_fee_gwei,
                WEI_PER_GWEI >= 0,
        ;
    }
}

/// Without a choice of nonces, a plan replaces every stuck transaction.
pub proof fn law_by_default_everything_stuck_is_replaced(latest: u64, pending: u64, args: ClearArgs)
    requires
        args.start_nonce is None,
        args.end_nonce is None,
        pending > latest,
        args.priority_fee_gwei <= args.max_fee_gwei,
    ensures
        spec_plan_replacements(latest, pending, args) matches Ok(Some(plan)) && plan.start == latest
            && plan.end == pending - 1,
        spec_plan_replacements(latest, pending, args)->Ok_0->0.end - latest + 1 == spec_stuck_count(
            latest,
            pending,
        ),
{
}

/// A plan replaces the nonces that were asked for, or else those from the next mineable one to the
/// last pending one, and pays the fees that were asked for, of which each gwei is a thousand
/// million wei.
pub proof fn law_a_plan_is_what_was_asked_for(
    latest: u64,
    pending: u64,
    args: ClearArgs,
    plan: Result<Option<ClearPlan>, ClearError>,
)
    requires
        call_ensures(plan_replacements, (latest, pending, &args), plan),
    ensures
        plan == Ok::<_, ClearError>(None::<ClearPlan>) <==> pending <= latest,
        plan matches Ok(Some(p)) ==> {
            &&& args.start_nonce is Some ==> p.start == args.start_nonce->0
            &&& args.start_nonce is None ==> p.start == latest
            &&& args.end_nonce is Some ==> p.end == args.end_nonce->0
            &&& args.end_nonce is None ==> p.end == pending - 1
            &&& p.max_fee == args.max_fee_gwei * 1_000_000_000
            &&& p.priority_fee == args.priority_fee_gwei * 1_000_000_000
            &&& p.start <= p.end
            &&& p.start >= latest
            &&& args.priority_fee_gwei <= args.max_fee_gwei
        },
{
    assert(args.max_fee_gwei * 1_000_000_000 <= u128::MAX);
    assert(args.priority_fee_gwei * 1_000_000_000 <= u128::MAX);
}

/// Each refusal of a plan names what is wrong with it: nonces out of order first, then a nonce that
/// was already mined, then a priority fee above the fee cap.
pub proof fn law_a_refused_plan_says_what_is_wrong(
    latest: u64,
    pending: u64,
    args: ClearArgs,
    start: u64,
    end: u64,
    plan: Result<Option<ClearPlan>, ClearError>,
)
    requires
        pending > latest,
        start == if args.start_nonce is Some {
            args.start_nonce->0
        } else {
            latest
        },
        end == if args.end_nonce is Some {
            args.end_nonce->0 as int
        } else {
            pending - 1
        },
        call_ensures(plan_replacements, (latest, pending, &args), plan),
    ensures
        plan == Err::<Option<ClearPlan>, _>(ClearError::StartAboveEnd { start, end }) <==> start > end,
        plan == Err::<Option<ClearPlan>, _>(ClearError::StartAlreadyMined { start, latest }) <==> start
            <= end && start < latest,
        plan == Err::<Option<ClearPlan>, _>(ClearError::PriorityAboveMax) <==> start <= end && start
            >= latest && args.priority_fee_gwei > args.max_fee_gwei,
        plan is Ok <==> latest <= start <= end && args.priority_fee_gwei <= args.max_fee_gwei,
{
}

/// A replacement is a transfer of nothing from the account to itself at the nonce, for the gas that
/// such a transfer takes and the fees of the plan. The next nonce follows, up to the last.
pub proof fn law_a_replacement_sends_nothing_to_oneself(
    plan: ClearPlan,
    address: Address,
    nonce: u64,
    replacement: Replacement,
    following: Option<u64>,
    count: u128,
)
    requires
        plan.wf(),
        plan.start <= nonce <= plan.end,
        call_ensures(ClearPlan::replacement, (&plan, address, nonce), (replacement, following)),
        call_ensures(ClearPlan::count, (&plan,), count),
    ensures
        replacement.to@ == address@,
        replacement.value == 0,
        replacement.nonce == nonce,
        replacement.gas_limit == 21_000,
        replacement.max_fee_per_gas == plan.max_fee,
        replacement.max_priority_fee_per_gas == plan.priority_fee,
        following is None <==> nonce == plan.end,
        following is Some ==> following->0 == nonce + 1,
        count + plan.start == plan.end + 1,
{
}

/// What is still queued is what lies between the next mineable and the next free nonce, and what
/// others have queued is what lies behind the last replaced one. The queue is clear exactly if the
/// two nonces are the same.
pub proof fn law_the_report_counts_what_is_queued(
    end: u64,
    latest_after: u64,
    pending_after: u64,
    report: QueueReport,
    stuck: u64,
)
    requires
        call_ensures(queue_report, (end, latest_after, pending_after), report),
        call_ensures(stuck_count, (latest_after, pending_after), stuck),
    ensures
        pending_after >= latest_after ==> latest_after + report.still_queued == pending_after,
        pending_after < latest_after ==> report.still_queued == 0,
        stuck == report.still_queued,
        pending_after > end ==> end + 1 + report.foreign == pending_after,
        pending_after <= end ==> report.foreign == 0,
        report.clear <==> pending_after == latest_after,
{
}

} // verus!
