//! Classifying rejections from revert data, and reading that data out of errors.
use alloy_json_rpc::{ErrorPayload, RpcError};
use alloy_primitives::{Bytes, U256};
use alloy_sol_types::{SolError, SolValue};
use alloy_transport::TransportErrorKind;
use anyhow::Context;
use op_succinct::outside::ErrorResponse;
use op_succinct::relay_rejection::{
    classify_revert_data, revert_data_of_anyhow, revert_data_of_response, revert_data_of_rpc_error,
    NoVerdictReason, RelayRejection, UNSATISFIABLE_GUARDS,
};

/// The parts of the contract that a proposal goes through.
const L2OO_SOURCE: &str = r#"
contract OPSuccinctL2OutputOracle {
    modifier whenNotOptimistic() {
        require(!optimisticMode, "L2OutputOracle: optimistic mode is enabled");
        _;
    }

    modifier whenOptimistic() {
        require(optimisticMode, "L2OutputOracle: optimistic mode is not enabled");
        _;
    }

    function proposeL2Output(
        bytes32 _outputRoot,
        uint256 _l2BlockNumber,
        uint256 _l1BlockNumber,
        bytes memory _proof
    ) external whenNotOptimistic {
        require(
            approvedProposers[msg.sender] || approvedProposers[address(0)],
            "L2OutputOracle: only approved proposers can propose new outputs"
        );

        require(
            _l2BlockNumber >= nextBlockNumber(),
            "L2OutputOracle: block number must be greater than or equal to next expected block number"
        );

        require(
            computeL2Timestamp(_l2BlockNumber) < block.timestamp,
            "L2OutputOracle: cannot propose L2 output in the future"
        );

        require(_outputRoot != bytes32(0), "L2OutputOracle: L2 output proposal cannot be the zero hash");
    }

    function deleteL2Outputs(uint256 _l2OutputIndex) external {
        require(msg.sender == challenger, "L2OutputOracle: only the challenger address can delete outputs");
    }
}
"#;

/// The one guard on `proposeL2Output` that a rebuild clears.
const REBUILDABLE_GUARD: &str =
    "L2OutputOracle: block number must be greater than or equal to next expected block number";

/// ABI-encode a `require(false, msg)` revert exactly as a node would return it.
fn require_revert(message: &str) -> Vec<u8> {
    let mut data = alloy_sol_types::Revert::SELECTOR.to_vec();
    data.extend_from_slice(&message.to_string().abi_encode());
    data
}

fn selector_only(selector: [u8; 4]) -> Vec<u8> {
    selector.to_vec()
}

/// The body of `proposeL2Output`, from its signature to the next top-level `function`.
fn propose_l2_output_body() -> &'static str {
    let start = L2OO_SOURCE.find("function proposeL2Output").expect("proposeL2Output still exists");
    let rest = &L2OO_SOURCE[start..];
    let end = rest[1..].find("\n    function ").map_or(rest.len(), |i| i + 1);
    &rest[..end]
}

/// The body of the `whenNotOptimistic` modifier, from its signature to its closing brace.
fn when_not_optimistic_body() -> &'static str {
    let start = L2OO_SOURCE
        .find("modifier whenNotOptimistic")
        .expect("whenNotOptimistic modifier still exists");
    let rest = &L2OO_SOURCE[start..];
    let end = rest.find("\n    }").map_or(rest.len(), |i| i + 1);
    &rest[..end]
}

/// Every `L2OutputOracle: ...` literal reachable from the validity `proposeL2Output`.
fn guards_on_the_validity_path() -> Vec<&'static str> {
    let mut found: Vec<&str> = propose_l2_output_body()
        .split('"')
        .chain(when_not_optimistic_body().split('"'))
        .filter(|s| s.starts_with("L2OutputOracle: "))
        .collect();

    found.sort_unstable();
    found
}

fn error_resp(message: &'static str, data: Option<&Bytes>) -> RpcError<TransportErrorKind> {
    RpcError::<TransportErrorKind>::ErrorResp(ErrorPayload {
        code: 3,
        message: message.into(),
        data: data.map(|d| serde_json::value::to_raw_value(d).expect("serialisable")),
    })
}

#[test]
fn every_guard_on_the_validity_path_is_classified_exactly_once() {
    let mut expected: Vec<&str> =
        UNSATISFIABLE_GUARDS.iter().copied().chain([REBUILDABLE_GUARD]).collect();
    expected.sort_unstable();

    assert_eq!(
        guards_on_the_validity_path(),
        expected,
        "every require reachable from proposeL2Output must be classified exactly once"
    );

    assert!(
        propose_l2_output_body().contains("whenNotOptimistic"),
        "the optimistic-mode guard is no longer applied to proposeL2Output"
    );
}

#[test]
fn unsatisfiable_guards_do_not_rebuild() {
    for guard in UNSATISFIABLE_GUARDS {
        let r = classify_revert_data(&require_revert(guard));
        assert_eq!(
            r,
            RelayRejection::UnsatisfiableGuard { message: guard.to_string() },
            "misclassified: {guard}"
        );
        assert!(!r.should_rebuild(), "must not rebuild on: {guard}");
    }
}

#[test]
fn the_block_number_guard_rebuilds() {
    let r = classify_revert_data(&require_revert(REBUILDABLE_GUARD));
    assert_eq!(r, RelayRejection::RebuildableGuard { message: REBUILDABLE_GUARD.to_string() });
    assert!(r.should_rebuild());
}

#[test]
fn an_unlisted_require_rebuilds_rather_than_stalling() {
    let r = classify_revert_data(&require_revert("L2OutputOracle: some future guard"));
    assert!(matches!(r, RelayRejection::RebuildableGuard { .. }));
    assert!(r.should_rebuild());
}

#[test]
fn verifier_verdicts_on_the_proof_bytes_are_recognised_by_selector() {
    let cases: [([u8; 4], &str); 2] = [
        ([0x09, 0xbd, 0xe3, 0x39], "InvalidProof"),
        ([0x1f, 0xcf, 0x91, 0x77], "InvalidExitCode"),
    ];

    for (selector, name) in cases {
        let r = classify_revert_data(&selector_only(selector));
        assert_eq!(r, RelayRejection::ProofRejected { selector, name }, "selector {selector:?}");
        assert!(r.should_rebuild());
    }
}

#[test]
fn oracle_checkpoint_errors_are_not_proof_verdicts() {
    let cases: [([u8; 4], &str); 2] = [
        ([0x22, 0xaa, 0x3a, 0x98], "L1BlockHashNotCheckpointed"),
        ([0x84, 0xc0, 0x68, 0x64], "L1BlockHashNotAvailable"),
    ];

    for (selector, name) in cases {
        let r = classify_revert_data(&selector_only(selector));
        assert_eq!(
            r,
            RelayRejection::CheckpointUnusable { selector, name },
            "selector {selector:?}"
        );
        assert!(r.should_rebuild(), "rebuilding is what re-checkpoints");
    }
}

#[test]
fn an_unrecognised_selector_rebuilds_and_keeps_the_data() {
    let data = selector_only([0x1a, 0x2b, 0x3c, 0x4d]);
    let r = classify_revert_data(&data);
    assert_eq!(r, RelayRejection::UnknownRevert { data });
    assert!(r.should_rebuild());
}

#[test]
fn a_missing_verdict_rebuilds_whatever_the_reason() {
    for reason in [
        NoVerdictReason::ReplayDidNotRevert,
        NoVerdictReason::ReplayUnreachable,
        NoVerdictReason::ReplayTimedOut,
    ] {
        assert!(
            RelayRejection::NoVerdict { reason: reason.clone() }.should_rebuild(),
            "{reason:?} must rebuild"
        );
    }
}

#[test]
fn a_solidity_panic_is_distinguished_from_a_revert() {
    let mut data = alloy_sol_types::Panic::SELECTOR.to_vec();
    data.extend_from_slice(&U256::from(0x11).abi_encode());
    let r = classify_revert_data(&data);
    assert_eq!(r, RelayRejection::ContractPanic { code: 0x11 });
    assert!(r.should_rebuild());
}

#[test]
fn revert_data_is_read_without_consulting_the_message() {
    let invalid_exit_code = Bytes::from(vec![0x1f, 0xcf, 0x91, 0x77]);

    let geth = error_resp("execution reverted", Some(&invalid_exit_code));
    assert_eq!(revert_data_of_rpc_error(&geth), Some(invalid_exit_code.to_vec()));

    let nethermind = error_resp("VM execution error.", Some(&invalid_exit_code));
    assert_eq!(
        revert_data_of_rpc_error(&nethermind),
        Some(invalid_exit_code.to_vec()),
        "revert data must not depend on the client's message wording"
    );

    // A transport failure carries no error response at all.
    let transport: RpcError<TransportErrorKind> =
        TransportErrorKind::custom_str("tcp connect error");
    assert_eq!(revert_data_of_rpc_error(&transport), None);

    // An error response with no data (e.g. a plain server error) yields nothing.
    let no_data = RpcError::<TransportErrorKind>::ErrorResp(ErrorPayload {
        code: -32000,
        message: "nonce too low".into(),
        data: None,
    });
    assert_eq!(revert_data_of_rpc_error(&no_data), None);
}

#[test]
fn anyhow_context_layers_do_not_hide_the_revert_data() {
    let data = Bytes::from(vec![0x1f, 0xcf, 0x91, 0x77]);

    let one = Err::<(), _>(error_resp("execution reverted", Some(&data)))
        .context("Failed to send transaction")
        .unwrap_err();
    assert_eq!(revert_data_of_anyhow(&one), Some(data.to_vec()));

    let two = Err::<(), _>(error_resp("execution reverted", Some(&data)))
        .context("Failed to send transaction")
        .context("relaying aggregation proof")
        .unwrap_err();
    assert_eq!(revert_data_of_anyhow(&two), Some(data.to_vec()));

    assert_eq!(revert_data_of_anyhow(&anyhow::Error::msg("nonce too low")), None);
}

/// An error type that holds an RPC error and forwards its text.
#[derive(Debug)]
struct PendingTransactionError(RpcError<TransportErrorKind>);

impl std::fmt::Display for PendingTransactionError {
    fn fmt(&self, f: &mut std::fmt::Formatter<'_>) -> std::fmt::Result {
        std::fmt::Display::fmt(&self.0, f)
    }
}

impl std::error::Error for PendingTransactionError {
    fn source(&self) -> Option<&(dyn std::error::Error + 'static)> {
        std::error::Error::source(&self.0)
    }
}

#[test]
fn revert_data_is_invisible_through_a_concrete_error_wrapper() {
    let data = Bytes::from(vec![0x1f, 0xcf, 0x91, 0x77]);
    let inner = error_resp("execution reverted", Some(&data));

    let wrapped = anyhow::Error::new(PendingTransactionError(inner));
    assert_eq!(
        revert_data_of_anyhow(&wrapped),
        None,
        "known limitation: anyhow's downcast does not traverse Error::source()"
    );
}

#[test]
fn kind_labels_are_distinct() {
    let all = [
        RelayRejection::ProofRejected { selector: [0; 4], name: "x" }.kind(),
        RelayRejection::CheckpointUnusable { selector: [0; 4], name: "x" }.kind(),
        RelayRejection::UnsatisfiableGuard { message: String::new() }.kind(),
        RelayRejection::RebuildableGuard { message: String::new() }.kind(),
        RelayRejection::ContractPanic { code: 0 }.kind(),
        RelayRejection::UnknownRevert { data: Vec::new() }.kind(),
        RelayRejection::NoVerdict { reason: NoVerdictReason::ReplayTimedOut }.kind(),
    ];
    let unique: std::collections::HashSet<_> = all.iter().collect();
    assert_eq!(unique.len(), all.len());
}

#[test]
fn kind_labels_are_stable() {
    assert_eq!(
        RelayRejection::ProofRejected { selector: [0; 4], name: "x" }.kind(),
        "proof_rejected"
    );
    assert_eq!(RelayRejection::UnknownRevert { data: vec![1] }.kind(), "unknown_revert");
    assert_eq!(
        RelayRejection::NoVerdict { reason: NoVerdictReason::ReplayUnreachable }.kind(),
        "no_verdict"
    );
}

#[test]
fn a_panic_code_that_does_not_fit_saturates() {
    let mut data = alloy_sol_types::Panic::SELECTOR.to_vec();
    data.extend_from_slice(&U256::MAX.abi_encode());
    assert_eq!(classify_revert_data(&data), RelayRejection::ContractPanic { code: u64::MAX });

    let mut data = alloy_sol_types::Panic::SELECTOR.to_vec();
    data.extend_from_slice(&U256::from(u64::MAX).abi_encode());
    assert_eq!(classify_revert_data(&data), RelayRejection::ContractPanic { code: u64::MAX });

    let mut data = alloy_sol_types::Panic::SELECTOR.to_vec();
    let just_above: U256 = U256::from(u64::MAX) + U256::from(1u64);
    data.extend_from_slice(&just_above.abi_encode());
    assert_eq!(classify_revert_data(&data), RelayRejection::ContractPanic { code: u64::MAX });
}

#[test]
fn a_truncated_standard_error_is_unknown() {
    let mut data = alloy_sol_types::Panic::SELECTOR.to_vec();
    data.extend_from_slice(&[0; 31]);
    assert_eq!(classify_revert_data(&data), RelayRejection::UnknownRevert { data: data.clone() });

    let mut data = alloy_sol_types::Revert::SELECTOR.to_vec();
    data.extend_from_slice(&[0xff; 64]);
    assert_eq!(classify_revert_data(&data), RelayRejection::UnknownRevert { data: data.clone() });

    // Shorter than a selector.
    assert_eq!(classify_revert_data(&[]), RelayRejection::UnknownRevert { data: vec![] });
    assert_eq!(
        classify_revert_data(&[0x09, 0xbd, 0xe3]),
        RelayRejection::UnknownRevert { data: vec![0x09, 0xbd, 0xe3] }
    );
}

#[test]
fn bytes_behind_a_selector_do_not_matter() {
    let data = vec![0x1f, 0xcf, 0x91, 0x77, 1, 2, 3];
    assert_eq!(
        classify_revert_data(&data),
        RelayRejection::ProofRejected {
            selector: [0x1f, 0xcf, 0x91, 0x77],
            name: "InvalidExitCode"
        }
    );
}

#[test]
fn a_require_message_may_hold_any_character() {
    let r = classify_revert_data(&require_revert("gr\u{fc}n \u{1f7e2}"));
    assert_eq!(r, RelayRejection::RebuildableGuard { message: "gr\u{fc}n \u{1f7e2}".to_string() });
    let r = classify_revert_data(&require_revert(""));
    assert_eq!(r, RelayRejection::RebuildableGuard { message: String::new() });
}

#[test]
fn a_require_message_that_is_no_text_is_read_with_replacements() {
    let mut data = alloy_sol_types::Revert::SELECTOR.to_vec();
    data.extend_from_slice(&Bytes::from(vec![b'a', 0xff, b'b']).abi_encode());
    assert_eq!(
        classify_revert_data(&data),
        RelayRejection::RebuildableGuard { message: "a\u{fffd}b".to_string() }
    );
}

#[test]
fn a_response_is_read_by_its_data_alone() {
    let response = |code: i64, message: &str, data: Option<&str>| ErrorResponse {
        code,
        message: message.to_string(),
        data: data.map(|d| d.to_string()),
    };
    let expected = Some(vec![0x1f, 0xcf, 0x91, 0x77]);
    assert_eq!(revert_data_of_response(&response(3, "reverted", Some("\"0x1fcf9177\""))), expected);
    assert_eq!(revert_data_of_response(&response(-1, "", Some("\"0x1fcf9177\""))), expected);
    assert_eq!(revert_data_of_response(&response(3, "reverted", Some("\"0x\""))), Some(vec![]));
    assert_eq!(revert_data_of_response(&response(3, "reverted", Some("\"0x1fc\""))), None);
    assert_eq!(revert_data_of_response(&response(3, "reverted", Some("{}"))), None);
    assert_eq!(revert_data_of_response(&response(3, "reverted", None)), None);
}
