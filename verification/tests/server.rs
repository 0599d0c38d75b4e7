//! The proof server's answers.
use op_succinct::proposer::proof_status::{ProofEncoding, ProofKind};
use op_succinct::server::{
    get_proof_status, parse_l1_head, AppError, L1HeadError, SP1ProofStatus, StatusError,
    StatusQuery,
};

fn answered(
    status: Option<SP1ProofStatus>,
    unclaim_description: Option<i32>,
    proof: Option<ProofKind>,
) -> StatusQuery {
    StatusQuery::Answered { status, unclaim_description, proof }
}

#[test]
fn a_network_that_does_not_answer_is_a_server_error() {
    for query in [StatusQuery::Refused, StatusQuery::TimedOut] {
        let reply = get_proof_status(query).unwrap();
        assert_eq!(reply.code, 500);
        assert_eq!(reply.status, SP1ProofStatus::Unspecified);
        assert_eq!((reply.proof, reply.unclaim_description), (None, None));
    }
}

#[test]
fn a_fulfilled_proof_is_sent_along() {
    let fulfilled = Some(SP1ProofStatus::Fulfilled);
    for (kind, expected) in [
        (ProofKind::Compressed, Some(ProofEncoding::Serialized)),
        (ProofKind::Groth16, Some(ProofEncoding::OnChain)),
        (ProofKind::Plonk, Some(ProofEncoding::OnChain)),
        (ProofKind::Core, None),
    ] {
        let reply = get_proof_status(answered(fulfilled, Some(3), Some(kind))).unwrap();
        assert_eq!((reply.code, reply.status), (200, SP1ProofStatus::Fulfilled));
        assert_eq!((reply.proof, reply.unclaim_description), (expected, None));
    }
    assert_eq!(
        get_proof_status(answered(fulfilled, None, None)),
        Err(StatusError::FulfilledWithoutProof)
    );
}

#[test]
fn a_proof_that_was_given_back_is_explained() {
    let unclaimed = Some(SP1ProofStatus::Unclaimed);
    let reply = get_proof_status(answered(unclaimed, Some(3), None)).unwrap();
    assert_eq!((reply.code, reply.unclaim_description), (200, Some(3)));
    let reply = get_proof_status(answered(unclaimed, None, None)).unwrap();
    assert_eq!(reply.unclaim_description, Some(0));
}

#[test]
fn other_statuses_are_passed_on() {
    let reply =
        get_proof_status(answered(Some(SP1ProofStatus::Claimed), Some(3), None)).unwrap();
    assert_eq!((reply.code, reply.status), (200, SP1ProofStatus::Claimed));
    assert_eq!((reply.proof, reply.unclaim_description), (None, None));
    assert_eq!(get_proof_status(answered(None, None, None)), Err(StatusError::UnknownStatus));
}

#[test]
fn an_error_becomes_an_internal_server_error() {
    let (code, text) = AppError(anyhow::Error::msg("no key")).into_response();
    assert_eq!((code, text.as_str()), (500, "no key"));
}

#[test]
fn an_l1_head_is_hexadecimal() {
    assert_eq!(parse_l1_head(&format!("0x{}", "0f".repeat(32))), Ok([0x0f; 32]));
    assert_eq!(parse_l1_head(&format!("0x{}", "AB".repeat(32))), Ok([0xab; 32]));
    assert_eq!(parse_l1_head(&"0f".repeat(32)), Err(L1HeadError::NoPrefix));
    assert_eq!(parse_l1_head("0"), Err(L1HeadError::NoPrefix));
    assert_eq!(parse_l1_head("0X00"), Err(L1HeadError::NoPrefix));
    assert_eq!(parse_l1_head("0xzz"), Err(L1HeadError::InvalidHex));
    assert_eq!(parse_l1_head("0x0"), Err(L1HeadError::InvalidHex));
    assert_eq!(parse_l1_head("0x00"), Err(L1HeadError::WrongLength));
    assert_eq!(parse_l1_head("0x"), Err(L1HeadError::WrongLength));
}
