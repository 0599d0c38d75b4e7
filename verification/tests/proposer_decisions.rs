//! The proposer's decisions on rejections, checkpoints, ranges, send results and errors.
use alloy_json_rpc::{ErrorPayload, RpcError};
use alloy_primitives::Bytes;
use alloy_transport::TransportErrorKind;
use anyhow::Context;
use op_succinct::block::{BlockId, BlockNumberOrTag};
use op_succinct::proposer::aggregation::{
    checkpoint_plan, highest_contiguous_end, highest_proven_contiguous_block,
    select_checkpoint_block_number, CachedCheckpoint, CheckpointPlan, RangeError,
    RecheckpointReason,
};
use op_succinct::proposer::failure::{
    is_admission_shed_error, is_transient_transport_error, is_unsatisfiable_precondition_error,
    no_bisect_reason, no_bisect_reason_of, NoBisectReason,
};
use op_succinct::proposer::relay::{
    guard_gauge_value, rejection_action, replay_block, replay_verdict, send_outcome,
    verdict_of_revert_data, SendOutcome, TransactionReceipt,
};
use op_succinct::relay_rejection::{NoVerdictReason, RelayRejection};
use op_succinct::request::RequestStatus;

#[test]
fn only_an_unsatisfiable_guard_leaves_the_request_alone() {
    let rebuild = Some(RequestStatus::Failed);
    let park = None;

    let cases = [
        (RelayRejection::ProofRejected { selector: [0x09, 0xbd, 0xe3, 0x39], name: "x" }, &rebuild),
        (
            RelayRejection::CheckpointUnusable { selector: [0x22, 0xaa, 0x3a, 0x98], name: "x" },
            &rebuild,
        ),
        (RelayRejection::RebuildableGuard { message: "m".into() }, &rebuild),
        (RelayRejection::ContractPanic { code: 0x11 }, &rebuild),
        (RelayRejection::UnknownRevert { data: vec![0x1a] }, &rebuild),
        (RelayRejection::NoVerdict { reason: NoVerdictReason::ReplayTimedOut }, &rebuild),
        // The one exception.
        (RelayRejection::UnsatisfiableGuard { message: "m".into() }, &park),
    ];

    for (rejection, expected) in cases {
        assert_eq!(rejection_action(&rejection), *expected, "{}", rejection.kind());

        // The gauge an operator pages on must agree with what actually happened to the request.
        let expected_gauge = if expected.is_none() { 1.0 } else { 0.0 };
        assert_eq!(
            f64::from(guard_gauge_value(*expected)),
            expected_gauge,
            "gauge disagrees with the action for {}",
            rejection.kind()
        );
    }
}

#[test]
fn falls_back_to_safe_when_no_range_proof_records_an_l1_head() {
    assert_eq!(select_checkpoint_block_number(1000, None), 1000);
}

#[test]
fn uses_safe_when_it_already_covers_the_batch() {
    assert_eq!(select_checkpoint_block_number(1000, Some(900)), 1000);
    assert_eq!(select_checkpoint_block_number(1000, Some(1000)), 1000);
}

#[test]
fn floors_at_the_batch_max_when_a_range_head_is_newer_than_safe() {
    assert_eq!(select_checkpoint_block_number(1000, Some(1005)), 1005);
}

/// The values of an `eth_getTransactionReceipt` response (EIP-1559, no logs).
fn receipt(status: &str) -> TransactionReceipt {
    let mut transaction_hash = [0; 32];
    transaction_hash[31] = 0xaa;
    TransactionReceipt {
        status: status == "0x1",
        transaction_hash,
        block_number: Some(0x10f2c),
        gas_used: 0x7a120,
        effective_gas_price: 0x3b9aca00,
        from: [0x11; 20],
    }
}

fn rpc_error_carrying(data: &Bytes) -> anyhow::Error {
    anyhow::Error::new(RpcError::<TransportErrorKind>::ErrorResp(ErrorPayload {
        code: 3,
        message: "execution reverted".into(),
        data: Some(serde_json::value::to_raw_value(data).expect("serialisable")),
    }))
}

#[test]
fn a_successful_receipt_reports_the_hash_that_landed() {
    let out = send_outcome(Ok(receipt("0x1")));
    let SendOutcome::Landed(tx_hash) = out else { panic!("expected Landed, got {out:?}") };
    // Not just "some hash": a wrong hash sends an operator to the wrong transaction.
    assert_eq!(tx_hash, receipt("0x1").transaction_hash);
    assert_ne!(tx_hash, [0; 32]);
}

#[test]
fn a_reverted_receipt_carries_the_fields_the_out_of_gas_diagnosis_needs() {
    let out = send_outcome(Ok(receipt("0x0")));
    let SendOutcome::MinedReverted(receipt) = out else {
        panic!("expected MinedReverted, got {out:?}")
    };
    assert_eq!(receipt.block_number, Some(0x10f2c));
    assert_eq!(receipt.effective_gas_price, 0x3b9aca00);
    assert_eq!(receipt.gas_used, 0x7a120);
}

#[test]
fn a_reverted_receipt_is_not_treated_as_success() {
    assert!(matches!(send_outcome(Ok(receipt("0x0"))), SendOutcome::MinedReverted(_)));
}

#[test]
fn an_error_carrying_revert_data_is_classifiable_without_a_replay() {
    let data = Bytes::from(vec![0x09, 0xbd, 0xe3, 0x39]);
    let out = send_outcome(Err(rpc_error_carrying(&data)));
    let SendOutcome::RejectedBeforeBroadcast(got) = out else {
        panic!("expected RejectedBeforeBroadcast, got {out:?}")
    };
    assert_eq!(got, data.to_vec());
}

#[test]
fn an_error_without_revert_data_is_retried_rather_than_classified() {
    let out = send_outcome(Err(anyhow::Error::msg("nonce too low")));
    assert!(matches!(out, SendOutcome::Undelivered(_)), "got {out:?}");
}

#[test]
fn a_replay_that_reverts_is_classified_from_its_data() {
    let data = Bytes::from(vec![0x09, 0xbd, 0xe3, 0x39]);
    let err = RpcError::<TransportErrorKind>::ErrorResp(ErrorPayload {
        code: 3,
        message: "execution reverted".into(),
        data: Some(serde_json::value::to_raw_value(&data).expect("serialisable")),
    });
    assert_eq!(
        replay_verdict(Ok(Err(err))),
        RelayRejection::ProofRejected { selector: [0x09, 0xbd, 0xe3, 0x39], name: "InvalidProof" }
    );
}

#[test]
fn a_replay_that_fails_without_data_is_reported_as_unreachable() {
    let err = RpcError::<TransportErrorKind>::Transport(TransportErrorKind::BackendGone);
    assert_eq!(
        replay_verdict(Ok(Err(err))),
        RelayRejection::NoVerdict { reason: NoVerdictReason::ReplayUnreachable }
    );
}

#[test]
fn a_replay_that_succeeds_is_reported_as_such() {
    assert_eq!(
        replay_verdict(Ok(Ok(Vec::new()))),
        RelayRejection::NoVerdict { reason: NoVerdictReason::ReplayDidNotRevert }
    );
}

#[test]
fn a_replay_that_times_out_is_reported_as_such() {
    let runtime = tokio::runtime::Builder::new_current_thread().enable_time().build().unwrap();
    let elapsed = runtime
        .block_on(async {
            tokio::time::timeout(std::time::Duration::ZERO, std::future::pending::<()>()).await
        })
        .expect_err("a zero timeout elapses immediately");

    assert_eq!(
        replay_verdict(Err(elapsed)),
        RelayRejection::NoVerdict { reason: NoVerdictReason::ReplayTimedOut }
    );
}

#[test]
fn a_replay_is_read_by_its_revert_data() {
    assert_eq!(
        verdict_of_revert_data(Some(vec![0x84, 0xc0, 0x68, 0x64])),
        RelayRejection::CheckpointUnusable {
            selector: [0x84, 0xc0, 0x68, 0x64],
            name: "L1BlockHashNotAvailable"
        }
    );
    assert_eq!(
        verdict_of_revert_data(None),
        RelayRejection::NoVerdict { reason: NoVerdictReason::ReplayUnreachable }
    );
}

#[test]
fn a_replay_runs_at_the_block_of_its_transaction() {
    assert_eq!(
        replay_block(&receipt("0x0")),
        BlockId::Number(BlockNumberOrTag::Number(0x10f2c))
    );
    let unknown = TransactionReceipt { block_number: None, ..receipt("0x0") };
    assert_eq!(replay_block(&unknown), BlockId::Number(BlockNumberOrTag::Latest));
}

const HASH: [u8; 32] = [0xab; 32];
const OTHER: [u8; 32] = [0xcd; 32];
const ZERO: [u8; 32] = [0; 32];

fn cached(number: u64, onchain_hash: [u8; 32]) -> Option<CachedCheckpoint> {
    Some(CachedCheckpoint { hash: HASH, number, onchain_hash })
}

fn reason_of(plan: CheckpointPlan) -> RecheckpointReason {
    match plan {
        CheckpointPlan::Fresh { reason, .. } => reason,
        CheckpointPlan::Reuse { .. } => panic!("expected a fresh checkpoint, got {plan:?}"),
    }
}

#[test]
fn a_fresh_checkpoint_is_always_anchored_at_a_reorg_stable_block() {
    let plans = [
        checkpoint_plan(None, None),
        checkpoint_plan(cached(100, ZERO), None),
        checkpoint_plan(cached(100, OTHER), None),
        checkpoint_plan(cached(100, HASH), Some(200)),
    ];

    for plan in plans {
        let CheckpointPlan::Fresh { anchor, reason } = plan else {
            panic!("expected a fresh checkpoint, got {plan:?}");
        };
        assert_eq!(
            anchor,
            BlockId::Number(BlockNumberOrTag::Safe),
            "{reason:?} must anchor at `safe`; `latest` reorgs out from under the checkpoint"
        );
    }
}

#[test]
fn a_checkpoint_the_contract_never_recorded_is_not_reused() {
    assert_eq!(
        reason_of(checkpoint_plan(cached(100, ZERO), None)),
        RecheckpointReason::NotOnChain
    );
}

#[test]
fn a_checkpoint_the_contract_disagrees_with_is_not_reused() {
    assert_eq!(
        reason_of(checkpoint_plan(cached(100, OTHER), None)),
        RecheckpointReason::HashMismatch
    );
}

#[test]
fn a_valid_checkpoint_below_the_batch_max_l1_head_is_not_reused() {
    assert_eq!(
        reason_of(checkpoint_plan(cached(100, HASH), Some(101))),
        RecheckpointReason::BelowBatchMaxL1Head
    );
}

#[test]
fn a_valid_checkpoint_that_covers_the_batch_is_reused() {
    let reuse = CheckpointPlan::Reuse { hash: HASH, number: 100 };

    assert_eq!(checkpoint_plan(cached(100, HASH), Some(99)), reuse);
    assert_eq!(checkpoint_plan(cached(100, HASH), Some(100)), reuse);
    assert_eq!(checkpoint_plan(cached(100, HASH), None), reuse);
}

#[test]
fn no_prior_request_means_no_checkpoint_to_inherit() {
    assert_eq!(
        reason_of(checkpoint_plan(None, Some(100))),
        RecheckpointReason::NoCachedCheckpoint
    );
}

#[test]
fn empty_returns_none() {
    assert_eq!(highest_proven_contiguous_block(&[]), None);
}

#[test]
fn single_range_returns_its_end() {
    assert_eq!(highest_proven_contiguous_block(&[(100, 200)]), Some(200));
}

#[test]
fn fully_contiguous_chain_returns_last_end() {
    assert_eq!(
        highest_proven_contiguous_block(&[(100, 200), (200, 300), (300, 400)]),
        Some(400)
    );
}

#[test]
fn stops_at_first_gap() {
    // 300 != 400: the chain breaks after the second range, so the third is not counted.
    assert_eq!(
        highest_proven_contiguous_block(&[(100, 200), (200, 300), (400, 500)]),
        Some(300)
    );
}

#[test]
fn gap_immediately_after_first_range() {
    // Second range does not start at 200, so only the first range is contiguous.
    assert_eq!(highest_proven_contiguous_block(&[(100, 200), (300, 400)]), Some(200));
}

#[test]
fn overlap_is_treated_as_a_gap() {
    // Overlapping (not exactly adjacent) ranges break contiguity: 200 != 250.
    assert_eq!(highest_proven_contiguous_block(&[(100, 250), (200, 300)]), Some(250));
}

#[test]
fn a_strict_chain_names_what_is_wrong_with_it() {
    assert_eq!(highest_contiguous_end(&[]), Ok(None));
    assert_eq!(highest_contiguous_end(&[(100, 200), (200, 300)]), Ok(Some(300)));
    assert_eq!(highest_contiguous_end(&[(100, 200), (300, 400)]), Ok(Some(200)));
    assert_eq!(
        highest_contiguous_end(&[(100, 250), (200, 300)]),
        Err(RangeError::Overlapping)
    );
    assert_eq!(highest_contiguous_end(&[(100, 100)]), Err(RangeError::Empty));
    assert_eq!(highest_contiguous_end(&[(100, 200), (200, 150)]), Err(RangeError::Empty));
    // What lies behind a gap is not looked at.
    assert_eq!(highest_contiguous_end(&[(100, 200), (300, 300), (250, 260)]), Ok(Some(200)));
}

#[test]
fn detects_self_hosted_admission_shed_only() {
    // A self-hosted gateway shed carries the marker in the Status message +
    // metadata (which surface in the error's debug rendering).
    let shed = anyhow::Error::msg(
        "status: Unavailable, message: \"x-sp1-admission-shed: self-hosted range proof pool at capacity; retry shortly\"",
    );
    assert!(is_admission_shed_error(&shed));

    // The Succinct network never emits this marker — must NOT be treated as
    // a shed (its path stays unchanged: genuine failure handling).
    let succinct_unavailable = anyhow::Error::msg(
        "status: Unavailable, message: \"succinct network temporarily unavailable\"",
    );
    assert!(!is_admission_shed_error(&succinct_unavailable));

    // A genuine proof/range failure is not a shed either.
    let real_failure = anyhow::Error::msg("proof generation failed: execution unexecutable");
    assert!(!is_admission_shed_error(&real_failure));

    // The marker is detected even through anyhow context wrapping.
    let wrapped = shed.context("make_proof_request failed");
    assert!(is_admission_shed_error(&wrapped));
}

#[test]
fn typed_status_code_is_the_primary_transport_signal() {
    let unavailable: anyhow::Error = tonic::Status::unavailable("backend down").into();
    assert!(
        is_transient_transport_error(&unavailable),
        "a real UNAVAILABLE Status must be transient (no bisect)"
    );

    let cbs_open: anyhow::Error =
        tonic::Status::unavailable("all backends unavailable; both circuit breakers open").into();
    assert!(is_transient_transport_error(&cbs_open));

    let internal: anyhow::Error =
        tonic::Status::internal("proof failed: tcp connect error mentioned in message").into();
    assert!(
        !is_transient_transport_error(&internal),
        "a non-Unavailable Status must not be treated as transient"
    );

    // Typed detection survives anyhow context wrapping (downcast walks the chain).
    let wrapped = anyhow::Error::from(tonic::Status::unavailable("x"))
        .context("request_range_proof failed");
    assert!(is_transient_transport_error(&wrapped));

    // A deterministic, non-Status error (no downcastable Status, no tcp text)
    // is not transport-class → bisect.
    let deterministic = anyhow::Error::msg("execution unexecutable: range too large");
    assert!(!is_transient_transport_error(&deterministic));
}

#[test]
fn detects_transient_transport_errors() {
    let gateway_down =
        anyhow::Error::msg("status: Unavailable, message: \"tcp connect error\", details: []");
    assert!(is_transient_transport_error(&gateway_down));

    let succinct_unavailable = anyhow::Error::msg(
        "status: Unavailable, message: \"succinct network temporarily unavailable\"",
    );
    assert!(is_transient_transport_error(&succinct_unavailable));

    // Lower-level connect failures (before a gRPC status is formed).
    let connect_err =
        anyhow::Error::msg("error trying to connect: tcp connect error: Connection refused");
    assert!(is_transient_transport_error(&connect_err));

    // Detected through anyhow context wrapping too.
    let wrapped = gateway_down.context("make_proof_request failed");
    assert!(is_transient_transport_error(&wrapped));

    // A genuine deterministic proof failure is NOT transport-class — it must
    // still bisect the range.
    let unexecutable = anyhow::Error::msg("proof generation failed: execution unexecutable");
    assert!(!is_transient_transport_error(&unexecutable));

    // An admission shed carries UNAVAILABLE, so it is also transport-class.
    let shed = anyhow::Error::msg(
        "status: Unavailable, message: \"x-sp1-admission-shed: pool at capacity\"",
    );
    assert!(is_transient_transport_error(&shed));
}

#[test]
fn an_unregistered_program_does_not_bisect() {
    let refused: anyhow::Error =
        tonic::Status::failed_precondition("program not registered for vk_hash 0x12").into();
    assert!(is_unsatisfiable_precondition_error(&refused));
    assert!(!is_transient_transport_error(&refused));
    assert_eq!(no_bisect_reason(&refused), Some(NoBisectReason::UnsatisfiablePrecondition));

    let internal: anyhow::Error = tonic::Status::internal("FAILED_PRECONDITION").into();
    assert!(!is_unsatisfiable_precondition_error(&internal));
    assert_eq!(no_bisect_reason(&internal), None);
    assert!(!is_unsatisfiable_precondition_error(&anyhow::Error::msg("failed precondition")));
}

#[test]
fn the_reasons_not_to_bisect_are_told_apart() {
    let shed: anyhow::Error =
        tonic::Status::unavailable("x-sp1-admission-shed: pool at capacity").into();
    assert_eq!(no_bisect_reason(&shed), Some(NoBisectReason::AdmissionShed));
    let down: anyhow::Error = tonic::Status::unavailable("backend down").into();
    assert_eq!(no_bisect_reason(&down), Some(NoBisectReason::TransientTransport));
    assert_eq!(no_bisect_reason(&anyhow::Error::msg("too big")), None);

    assert_eq!(
        no_bisect_reason_of(Some(13), "x-sp1-admission-shed"),
        Some(NoBisectReason::AdmissionShed)
    );
    assert_eq!(no_bisect_reason_of(Some(13), "tcp connect error"), None);
    assert_eq!(
        no_bisect_reason_of(None, "tcp connect error"),
        Some(NoBisectReason::TransientTransport)
    );
    assert_eq!(
        no_bisect_reason_of(Some(9), ""),
        Some(NoBisectReason::UnsatisfiablePrecondition)
    );
    assert_eq!(
        NoBisectReason::AdmissionShed.describe(),
        "self-hosted admission shed (prover pool full)"
    );
}

#[test]
fn context_of_a_result_is_seen_through() {
    let wrapped = Err::<(), _>(tonic::Status::unavailable("x")).context("outer").unwrap_err();
    assert_eq!(no_bisect_reason(&wrapped), Some(NoBisectReason::TransientTransport));
}
