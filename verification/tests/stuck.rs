//! Clearing stuck transactions.
use op_succinct::stuck::{
    plan_replacements, queue_report, stuck_count, ClearArgs, ClearError, ClearPlan, Replacement,
};

fn args() -> ClearArgs {
    ClearArgs { start_nonce: None, end_nonce: None, max_fee_gwei: 15, priority_fee_gwei: 2 }
}

#[test]
fn by_default_every_stuck_transaction_is_replaced() {
    assert_eq!(
        plan_replacements(10, 13, &args()),
        Ok(Some(ClearPlan {
            start: 10,
            end: 12,
            max_fee: 15_000_000_000,
            priority_fee: 2_000_000_000
        }))
    );
    assert_eq!(plan_replacements(10, 10, &args()), Ok(None));
    assert_eq!(plan_replacements(11, 10, &args()), Ok(None));
    assert_eq!(stuck_count(10, 13), 3);
    assert_eq!(stuck_count(13, 10), 0);
}

#[test]
fn a_bad_choice_of_nonces_or_fees_is_refused() {
    let start = ClearArgs { start_nonce: Some(13), ..args() };
    assert_eq!(
        plan_replacements(10, 13, &start),
        Err(ClearError::StartAboveEnd { start: 13, end: 12 })
    );
    let mined = ClearArgs { start_nonce: Some(9), ..args() };
    assert_eq!(
        plan_replacements(10, 13, &mined),
        Err(ClearError::StartAlreadyMined { start: 9, latest: 10 })
    );
    let fees = ClearArgs { priority_fee_gwei: 16, ..args() };
    assert_eq!(plan_replacements(10, 13, &fees), Err(ClearError::PriorityAboveMax));
}

#[test]
fn replacements_send_nothing_to_the_account_itself() {
    let plan = plan_replacements(10, 12, &args()).unwrap().unwrap();
    assert_eq!(plan.count(), 2);
    let (first, next) = plan.replacement([7; 20], 10);
    assert_eq!(
        first,
        Replacement {
            to: [7; 20],
            value: 0,
            nonce: 10,
            gas_limit: 21_000,
            max_fee_per_gas: 15_000_000_000,
            max_priority_fee_per_gas: 2_000_000_000,
        }
    );
    assert_eq!(next, Some(11));
    assert_eq!(plan.replacement([7; 20], 11).1, None);
}

#[test]
fn transactions_of_another_sender_are_noticed() {
    let report = queue_report(12, 13, 13);
    assert_eq!((report.foreign, report.still_queued, report.clear), (0, 0, true));
    let report = queue_report(12, 11, 15);
    assert_eq!((report.foreign, report.still_queued, report.clear), (2, 4, false));
    let report = queue_report(u64::MAX, 1, u64::MAX);
    assert_eq!(report.foreign, 0);
}
