//! The proposer's passes, step by step.
use op_succinct::block::{BlockId, BlockNumberOrTag};
use op_succinct::proposer::aggregation::{RangeError, RecheckpointReason};
use op_succinct::proposer::cluster_status::{
    failed_poll, ClusterHandles, ClusterStatusEnd, ClusterStatusError, ClusterStatusEvent,
    ClusterStatusStep, PollFailure, MAX_CONSECUTIVE_POLL_FAILURES,
};
use op_succinct::proposer::create::{
    create_should_run, CreateEnd, CreateError, CreateEvent, CreateStep, ExistingCheckpoint, Span,
};
use op_succinct::proposer::cycle::{
    after_cluster_status, after_creation, after_proof_status, after_queue, after_ranges,
    after_submission, ConfigMatch, InitializeStep, IterationEvent, IterationStep, MetricGauge,
    MetricsError, MetricsEvent, MetricsStep, ProvingEvent, ProvingStep, RunStep,
};
use op_succinct::proposer::failure::NoBisectReason;
use op_succinct::proposer::proof_status::{
    decide_status, proof_encoding, FailureCause, FulfillmentStatus, NetworkMode, ProofEncoding,
    ProofKind, ProofStatus, ProofStatusEnd, ProofStatusError, ProofStatusEvent, ProofStatusStep,
    RequestDetails, StatusDecision,
};
use op_succinct::proposer::ranges::{sort_by_start, RangesEnd, RangesEvent, RangesStep};
use op_succinct::proposer::relay::{
    SubmitEnd, SubmitEvent, SubmitGauges, SubmitStep, TransactionReceipt,
};
use op_succinct::proposer::startup::{StartupError, StartupEvent, StartupStep};
use op_succinct::proposer::tasks::{
    failed_task, orphaned_tasks, task_action, task_gauge, OngoingEvent, OngoingStep, QueueEnd,
    QueueEvent, QueueRoom, QueueStep, RequestCounts, TaskAction, TaskMap, TaskOutcome,
};
use op_succinct::proposer::{DriverConfig, Proposer, RequesterConfig};
use op_succinct::relay_rejection::{NoVerdictReason, RelayRejection};
use op_succinct::request::{
    request_mode, ChainIds, CommitmentConfig, OPSuccinctRequest, RequestMode, RequestStatus,
    RequestType, ValidityGauge,
};

/// When the requests were sent to a prover, in microseconds since the epoch.
const REQUESTED_AT: i64 = 1_700_000_000_250_000;

/// The time so many seconds after the requests were sent.
fn clock(seconds: i64) -> ClusterStatusEvent {
    ClusterStatusEvent::Clock { now: REQUESTED_AT + seconds * 1_000_000 }
}

fn l1_header(number: u64) -> alloy_consensus::Header {
    alloy_consensus::Header { number, ..Default::default() }
}

fn requester_config() -> RequesterConfig {
    RequesterConfig {
        chains: ChainIds { l1_chain_id: 1, l2_chain_id: 5000 },
        l2oo_address: [7; 20],
        dgf_address: [0; 20],
        mock: false,
        evm_gas_limit: 0,
        range_proof_interval: 60,
        submission_interval: 100,
        max_concurrent_proof_requests: 10,
        max_concurrent_witness_gen: 3,
        auction_timeout: 60,
        proving_timeout: 3600,
        network_calls_timeout: 15,
        tx_confirmation_timeout: 120,
    }
}

fn proposer() -> Proposer {
    Proposer {
        driver_config: DriverConfig {
            has_network_prover: true,
            signer_address: [9; 20],
            loop_interval: 30,
        },
        commitments: CommitmentConfig {
            range_vkey_commitment: [1; 32],
            agg_vkey_hash: [2; 32],
            rollup_config_hash: [3; 32],
        },
        requester_config: requester_config(),
        cluster: false,
    }
}

fn request(id: i64, req_type: RequestType, start_block: i64, end_block: i64) -> OPSuccinctRequest {
    OPSuccinctRequest {
        id,
        status: RequestStatus::Prove,
        req_type,
        mode: RequestMode::Real,
        start_block,
        end_block,
        proof_request_id: Some(vec![5; 32]),
        proof_request_time: Some(REQUESTED_AT),
        has_cluster_proof_handle: true,
        checkpointed_l1_block_number: Some(77),
        proof: Some(vec![1, 2, 3]),
    }
}

fn status(fulfillment_status: FulfillmentStatus, proof: Option<ProofKind>) -> ProofStatus {
    ProofStatus { deadline: 500, execution_status: 2, fulfillment_status, proof }
}

// Following a request on the network.

#[test]
fn proofs_are_stored_by_their_kind() {
    assert_eq!(proof_encoding(ProofKind::Compressed), Some(ProofEncoding::Serialized));
    assert_eq!(proof_encoding(ProofKind::Groth16), Some(ProofEncoding::OnChain));
    assert_eq!(proof_encoding(ProofKind::Plonk), Some(ProofEncoding::OnChain));
    assert_eq!(proof_encoding(ProofKind::Core), None);
}

#[test]
fn a_status_is_decided_by_auction_then_deadline_then_fulfillment() {
    let settings = proposer().status_settings(NetworkMode::Mainnet);
    let requested = Some(RequestDetails {
        created_at: 400,
        fulfillment_status: FulfillmentStatus::Requested,
    });
    let fulfilled = status(FulfillmentStatus::Fulfilled, Some(ProofKind::Groth16));

    // The auction runs until 460.
    assert_eq!(decide_status(&fulfilled, &requested, &settings, 461), StatusDecision::Cancel);
    assert_eq!(
        decide_status(&fulfilled, &requested, &settings, 460),
        StatusDecision::Store { encoding: ProofEncoding::OnChain }
    );
    // Only the mainnet has auctions, and only a request that nobody took is cancelled.
    let reserved = proposer().status_settings(NetworkMode::Reserved);
    assert_eq!(
        decide_status(&fulfilled, &requested, &reserved, 461),
        StatusDecision::Store { encoding: ProofEncoding::OnChain }
    );
    let assigned = Some(RequestDetails {
        created_at: 400,
        fulfillment_status: FulfillmentStatus::Assigned,
    });
    assert_eq!(
        decide_status(&fulfilled, &assigned, &settings, 500),
        StatusDecision::Store { encoding: ProofEncoding::OnChain }
    );
    // Past the deadline a fulfilled proof no longer counts.
    assert_eq!(
        decide_status(&fulfilled, &None, &settings, 501),
        StatusDecision::Fail { cause: FailureCause::Deadline }
    );
    assert_eq!(
        decide_status(&status(FulfillmentStatus::Unfulfillable, None), &None, &settings, 0),
        StatusDecision::Fail { cause: FailureCause::Unfulfillable }
    );
    assert_eq!(
        decide_status(&status(FulfillmentStatus::Fulfilled, None), &None, &settings, 0),
        StatusDecision::Refuse { error: ProofStatusError::FulfilledWithoutProof }
    );
    assert_eq!(
        decide_status(
            &status(FulfillmentStatus::Fulfilled, Some(ProofKind::Core)),
            &None,
            &settings,
            0
        ),
        StatusDecision::Refuse { error: ProofStatusError::CoreProof }
    );
    assert_eq!(
        decide_status(&status(FulfillmentStatus::Assigned, None), &None, &settings, 500),
        StatusDecision::Wait
    );
    // A deadline that does not fit 64 bits never passes.
    let far = Some(RequestDetails {
        created_at: u64::MAX,
        fulfillment_status: FulfillmentStatus::Requested,
    });
    assert_eq!(
        decide_status(&status(FulfillmentStatus::Requested, None), &far, &settings, 500),
        StatusDecision::Wait
    );
}

#[test]
fn a_fulfilled_proof_is_stored_with_its_statistics() {
    let p = proposer();
    let settings = p.status_settings(NetworkMode::Mainnet);
    let mut step = p.process_proof_request_status(&request(1, RequestType::Range, 0, 60));
    assert_eq!(step, ProofStatusStep::FetchStatus { proof_request_id: [5; 32] });
    let events = [
        ProofStatusEvent::Status {
            status: status(FulfillmentStatus::Fulfilled, Some(ProofKind::Compressed)),
        },
        ProofStatusEvent::Details { details: None },
        ProofStatusEvent::Clock { now: 10 },
    ];
    for event in events {
        let (next, gauges) = step.next(event, &settings);
        assert!(gauges.is_empty());
        step = next;
    }
    assert_eq!(step, ProofStatusStep::StoreProof { encoding: ProofEncoding::Serialized });
    step = step.next(ProofStatusEvent::Succeeded, &settings).0;
    assert_eq!(step, ProofStatusStep::UpdateProveDuration);
    step = step.next(ProofStatusEvent::Succeeded, &settings).0;
    assert_eq!(step, ProofStatusStep::FetchStatistics);
    let done = ProofStatusStep::Done { end: ProofStatusEnd::Completed };
    assert_eq!(step.next(ProofStatusEvent::Statistics { present: false }, &settings).0, done);
    step = step.next(ProofStatusEvent::Statistics { present: true }, &settings).0;
    assert_eq!(step, ProofStatusStep::InsertStatistics);
    assert_eq!(step.next(ProofStatusEvent::Succeeded, &settings).0, done);
    assert_eq!(after_proof_status(&ProofStatusEnd::Completed), ProvingEvent::Processed);
}

#[test]
fn retries_and_timeouts_are_counted() {
    let settings = proposer().status_settings(NetworkMode::Mainnet);
    let both = vec![
        ValidityGauge::ProofRequestRetryCount,
        ValidityGauge::ProofRequestTimeoutErrorCount,
    ];
    let failed =
        ProofStatusStep::Done { end: ProofStatusEnd::Failed(ProofStatusError::CallFailed) };

    let step = ProofStatusStep::CancelRequest;
    assert_eq!(
        step.next(ProofStatusEvent::TimedOut, &settings),
        (failed, vec![ValidityGauge::NetworkCallTimeoutCount])
    );
    let step = step.next(ProofStatusEvent::Succeeded, &settings).0;
    assert_eq!(step, ProofStatusStep::MarkCancelled);
    assert_eq!(
        step.next(ProofStatusEvent::Succeeded, &settings),
        (ProofStatusStep::Done { end: ProofStatusEnd::AuctionExpired }, both.clone())
    );
    assert_eq!(
        step.next(ProofStatusEvent::Failed, &settings),
        (failed, vec![ValidityGauge::RetryErrorCount])
    );

    let step = ProofStatusStep::MarkFailed { execution_status: 2, cause: FailureCause::Deadline };
    assert_eq!(
        step.next(ProofStatusEvent::Succeeded, &settings),
        (ProofStatusStep::Done { end: ProofStatusEnd::TimedOut }, both)
    );
    assert_eq!(
        step.next(ProofStatusEvent::Failed, &settings),
        (failed, vec![ValidityGauge::RetryErrorCount])
    );

    let step =
        ProofStatusStep::MarkFailed { execution_status: 2, cause: FailureCause::Unfulfillable };
    assert_eq!(
        step.next(ProofStatusEvent::Succeeded, &settings),
        (
            ProofStatusStep::Done { end: ProofStatusEnd::Unfulfillable },
            vec![ValidityGauge::ProofRequestRetryCount]
        )
    );
    assert_eq!(step.next(ProofStatusEvent::Failed, &settings), (failed, vec![]));
}

#[test]
fn a_request_without_identifier_or_prover_is_not_followed() {
    let mut p = proposer();
    let mut r = request(1, RequestType::Range, 0, 60);
    r.proof_request_id = None;
    assert_eq!(
        p.process_proof_request_status(&r),
        ProofStatusStep::Done { end: ProofStatusEnd::NoProofRequestId }
    );
    p.driver_config.has_network_prover = false;
    assert_eq!(
        p.process_proof_request_status(&r),
        ProofStatusStep::Done {
            end: ProofStatusEnd::Failed(ProofStatusError::MissingNetworkProver)
        }
    );
    assert_eq!(
        after_proof_status(&ProofStatusEnd::Failed(ProofStatusError::MissingNetworkProver)),
        ProvingEvent::Failed
    );
}

// Following a request on the cluster.

#[test]
fn a_handle_is_given_up_at_the_third_failure_in_a_row() {
    assert_eq!(MAX_CONSECUTIVE_POLL_FAILURES, 3);
    let mut handles = ClusterHandles::new();
    handles.insert(4);
    assert_eq!(handles.note_failure(4), PollFailure::Transient);
    assert_eq!(handles.note_failure(4), PollFailure::Transient);
    handles.note_pending(4);
    assert_eq!(handles.note_failure(4), PollFailure::Transient);
    assert_eq!(handles.note_failure(4), PollFailure::Transient);
    assert_eq!(handles.note_failure(4), PollFailure::Permanent);
    assert!(!handles.contains(4));
    // Without a handle there is nothing to count.
    assert_eq!(handles.note_failure(5), PollFailure::Permanent);
    handles.note_pending(5);
    assert!(!handles.contains(5));
}

#[test]
fn a_request_is_recovered_from_its_row() {
    let p = proposer();
    let mut handles = ClusterHandles::new();
    let r = request(4, RequestType::Range, 0, 60);
    let timeout = p.requester_config.proving_timeout;
    let step = p.process_cluster_proof_status(true, &r, &handles);
    assert_eq!(step, ClusterStatusStep::ReadClock);
    let (step, gauges) = step.next(clock(3600), &r, timeout, &mut handles);
    assert_eq!((step, gauges), (ClusterStatusStep::ReadHandle, vec![]));
    let step = step.next(ClusterStatusEvent::Succeeded, &r, timeout, &mut handles).0;
    assert_eq!(step, ClusterStatusStep::ReadClockAgain);
    let step = step.next(clock(3000), &r, timeout, &mut handles).0;
    assert_eq!(step, ClusterStatusStep::Poll { remaining: Some(600) });
    assert!(handles.contains(4));

    // Once it is held, the handle is not read again.
    let step = p.process_cluster_proof_status(true, &r, &handles);
    let step = step.next(clock(-5), &r, timeout, &mut handles).0;
    assert_eq!(step, ClusterStatusStep::Poll { remaining: None });

    // The proof is stored, and the handle dropped.
    let step = step
        .next(ClusterStatusEvent::Proved { kind: ProofKind::Compressed }, &r, timeout, &mut handles)
        .0;
    assert_eq!(step, ClusterStatusStep::StoreProof { encoding: ProofEncoding::Serialized });
    let step = step.next(ClusterStatusEvent::Succeeded, &r, timeout, &mut handles).0;
    assert_eq!(step, ClusterStatusStep::UpdateProveDuration);
    let step = step.next(ClusterStatusEvent::Succeeded, &r, timeout, &mut handles).0;
    assert_eq!(step, ClusterStatusStep::Done { end: ClusterStatusEnd::Completed });
    assert!(!handles.contains(4));
}

#[test]
fn a_reconstructed_timeout_is_not_below_zero() {
    let r = request(4, RequestType::Range, 0, 60);
    let mut handles = ClusterHandles::new();
    let step = ClusterStatusStep::ReadClockAgain;
    let step = step.next(clock(4000), &r, 3600, &mut handles).0;
    assert_eq!(step, ClusterStatusStep::Poll { remaining: Some(0) });
}

#[test]
fn only_full_seconds_count_towards_a_timeout() {
    let r = request(4, RequestType::Range, 0, 60);
    let mut handles = ClusterHandles::new();
    let again = ClusterStatusStep::ReadClockAgain;
    let mut remaining = |now: i64| {
        again.next(ClusterStatusEvent::Clock { now }, &r, 3600, &mut handles).0
    };
    let poll = |seconds| ClusterStatusStep::Poll { remaining: Some(seconds) };
    assert_eq!(remaining(REQUESTED_AT + 999_999), poll(3600));
    assert_eq!(remaining(REQUESTED_AT + 1_000_000), poll(3599));
    assert_eq!(remaining(REQUESTED_AT - 1), poll(3600));
    assert_eq!(remaining(i64::MIN), poll(3600));
    assert_eq!(remaining(i64::MAX), poll(0));

    // A request is not failed before a full second is over.
    let mut handles = ClusterHandles::new();
    let first = ClusterStatusStep::ReadClock;
    let late = ClusterStatusEvent::Clock { now: REQUESTED_AT + 3_600_999_999 };
    assert_eq!(first.next(late, &r, 3600, &mut handles).0, ClusterStatusStep::ReadHandle);
}

#[test]
fn a_request_that_takes_too_long_is_failed() {
    let p = proposer();
    let mut handles = ClusterHandles::new();
    let r = request(4, RequestType::Aggregation, 0, 60);
    handles.insert(4);
    let step = p.process_cluster_proof_status(true, &r, &handles);
    let (step, gauges) = step.next(clock(3601), &r, 3600, &mut handles);
    assert_eq!(step, ClusterStatusStep::MarkFailed { timed_out: true });
    assert_eq!(gauges, vec![ValidityGauge::AggProofRequestErrorCount]);
    assert!(!handles.contains(4));
    assert_eq!(
        step.next(ClusterStatusEvent::Succeeded, &r, 3600, &mut handles),
        (
            ClusterStatusStep::Done { end: ClusterStatusEnd::TimedOut },
            vec![
                ValidityGauge::ProofRequestRetryCount,
                ValidityGauge::ProofRequestTimeoutErrorCount
            ]
        )
    );
    assert_eq!(
        step.next(ClusterStatusEvent::Failed, &r, 3600, &mut handles),
        (
            ClusterStatusStep::Done {
                end: ClusterStatusEnd::Failed(ClusterStatusError::CallFailed)
            },
            vec![ValidityGauge::RetryErrorCount]
        )
    );
}

#[test]
fn failed_polls_are_tried_again_until_they_are_given_up() {
    let mut handles = ClusterHandles::new();
    handles.insert(4);
    let r = request(4, RequestType::Range, 0, 60);
    let poll = ClusterStatusStep::Poll { remaining: None };
    let failed = ClusterStatusEvent::PollFailed { reason: None };
    let again = ClusterStatusStep::Done { end: ClusterStatusEnd::WillPollAgain };
    assert_eq!(poll.next(failed, &r, 3600, &mut handles), (again, vec![]));
    assert_eq!(poll.next(failed, &r, 3600, &mut handles), (again, vec![]));
    let (step, gauges) = poll.next(failed, &r, 3600, &mut handles);
    assert_eq!(step, ClusterStatusStep::MarkFailed { timed_out: false });
    assert_eq!(gauges, vec![ValidityGauge::RangeProofRequestErrorCount]);
    assert_eq!(
        step.next(ClusterStatusEvent::Succeeded, &r, 3600, &mut handles),
        (
            ClusterStatusStep::Done { end: ClusterStatusEnd::GivenUp },
            vec![ValidityGauge::ProofRequestRetryCount]
        )
    );
    assert_eq!(after_cluster_status(&ClusterStatusEnd::GivenUp), ProvingEvent::Processed);
}

#[test]
fn an_unreachable_cluster_does_not_bisect_the_range() {
    let mut handles = ClusterHandles::new();
    let r = request(4, RequestType::Range, 0, 60);
    let poll = ClusterStatusStep::Poll { remaining: None };
    let reason = NoBisectReason::TransientTransport;
    let (step, gauges) = poll.next(
        ClusterStatusEvent::PollFailed { reason: Some(reason) },
        &r,
        3600,
        &mut handles,
    );
    assert_eq!((step, gauges), (ClusterStatusStep::ResetForRetry { reason }, vec![]));
    assert_eq!(
        step.next(ClusterStatusEvent::Succeeded, &r, 3600, &mut handles).0,
        ClusterStatusStep::Done { end: ClusterStatusEnd::WillRequestAgain { reason } }
    );
}

#[test]
fn a_failed_poll_is_classified_by_its_error() {
    let refused: anyhow::Error = tonic::Status::unavailable("tcp connect error").into();
    assert_eq!(
        failed_poll(&refused),
        ClusterStatusEvent::PollFailed { reason: Some(NoBisectReason::TransientTransport) }
    );
    let full: anyhow::Error = tonic::Status::failed_precondition("insufficient funds").into();
    assert_eq!(
        failed_poll(&full),
        ClusterStatusEvent::PollFailed { reason: Some(NoBisectReason::UnsatisfiablePrecondition) }
    );
    let unexecutable = anyhow::Error::msg("proof generation failed: execution unexecutable");
    assert_eq!(failed_poll(&unexecutable), ClusterStatusEvent::PollFailed { reason: None });

    // The third failure in a row decides about the request.
    let r = request(4, RequestType::Range, 0, 60);
    let poll = ClusterStatusStep::Poll { remaining: None };
    let third = |e: &anyhow::Error| {
        let mut handles = ClusterHandles::new();
        handles.insert(4);
        poll.next(failed_poll(e), &r, 3600, &mut handles);
        poll.next(failed_poll(e), &r, 3600, &mut handles);
        poll.next(failed_poll(e), &r, 3600, &mut handles).0
    };
    let reason = NoBisectReason::TransientTransport;
    assert_eq!(third(&refused), ClusterStatusStep::ResetForRetry { reason });
    assert_eq!(third(&unexecutable), ClusterStatusStep::MarkFailed { timed_out: false });
}

#[test]
fn a_row_that_lacks_what_polling_takes_is_an_error() {
    let p = proposer();
    let mut handles = ClusterHandles::new();
    let mut r = request(4, RequestType::Range, 0, 60);
    let failed = |error| ClusterStatusStep::Done { end: ClusterStatusEnd::Failed(error) };

    assert_eq!(
        p.process_cluster_proof_status(false, &r, &handles),
        failed(ClusterStatusError::MissingClusterConfig)
    );
    r.proof_request_time = None;
    assert_eq!(p.process_cluster_proof_status(true, &r, &handles), ClusterStatusStep::ReadHandle);
    assert_eq!(
        ClusterStatusStep::ReadHandle
            .next(ClusterStatusEvent::Succeeded, &r, 3600, &mut handles)
            .0,
        failed(ClusterStatusError::MissingRequestTime)
    );
    r.has_cluster_proof_handle = false;
    assert_eq!(
        p.process_cluster_proof_status(true, &r, &handles),
        failed(ClusterStatusError::MissingProofHandle)
    );
    assert_eq!(
        ClusterStatusStep::Poll { remaining: None }
            .next(ClusterStatusEvent::Proved { kind: ProofKind::Core }, &r, 3600, &mut handles)
            .0,
        failed(ClusterStatusError::CoreProof)
    );
    assert_eq!(
        after_cluster_status(&ClusterStatusEnd::Failed(ClusterStatusError::CoreProof)),
        ProvingEvent::Failed
    );
}

// Creating aggregations.

fn span() -> Span {
    Span { start_block: 100, end_block: 300 }
}

#[test]
fn creation_waits_for_a_head_that_holds_what_was_relayed() {
    assert!(create_should_run(300, None));
    assert!(create_should_run(300, Some(300)));
    assert!(create_should_run(301, Some(300)));
    assert!(!create_should_run(299, Some(300)));

    let p = proposer();
    let step = p.create_aggregation_proofs(Some(300));
    assert_eq!(
        step.next(CreateEvent::Head { number: 299 }, &p),
        CreateStep::Done { end: CreateEnd::HeadBehindRelay }
    );
    assert_eq!(
        step.next(CreateEvent::Head { number: 300 }, &p),
        CreateStep::CountActive { latest_proposed: 300 }
    );
}

#[test]
fn an_aggregation_is_created_over_a_long_enough_chain() {
    let p = proposer();
    let step = p.create_aggregation_proofs(None).next(CreateEvent::Head { number: 100 }, &p);
    assert_eq!(
        step.next(CreateEvent::ActiveCount { count: 1 }, &p),
        CreateStep::Done { end: CreateEnd::AlreadyActive }
    );
    let step = step.next(CreateEvent::ActiveCount { count: 0 }, &p);
    assert_eq!(step, CreateStep::FetchCompleted { latest_proposed: 100 });
    assert_eq!(
        step.next(CreateEvent::Completed { ranges: vec![] }, &p),
        CreateStep::Done { end: CreateEnd::NothingProven }
    );
    assert_eq!(
        step.next(CreateEvent::Completed { ranges: vec![(100, 250), (200, 300)] }, &p),
        CreateStep::Done {
            end: CreateEnd::Failed(CreateError::BadRanges { error: RangeError::Overlapping })
        }
    );
    let step = step.next(
        CreateEvent::Completed { ranges: vec![(100, 200), (200, 300), (400, 500)] },
        &p,
    );
    assert_eq!(step, CreateStep::ReadSubmissionInterval { span: span() });
    // The larger of the two intervals counts.
    assert_eq!(
        step.next(CreateEvent::SubmissionInterval { blocks: 201 }, &p),
        CreateStep::Done { end: CreateEnd::TooShort }
    );
    assert_eq!(
        step.next(CreateEvent::SubmissionInterval { blocks: 200 }, &p),
        CreateStep::FetchExisting { span: span() }
    );
    let mut demanding = proposer();
    demanding.requester_config.submission_interval = 201;
    assert_eq!(
        step.next(CreateEvent::SubmissionInterval { blocks: 0 }, &demanding),
        CreateStep::Done { end: CreateEnd::TooShort }
    );
}

#[test]
fn nothing_is_aggregated_over_a_gap() {
    let p = proposer();
    let step = CreateStep::FetchCompleted { latest_proposed: 100 };
    let nothing = CreateStep::Done { end: CreateEnd::NothingProven };
    // The chain is long enough, but no range proof covers the blocks from 100 to 150.
    for ranges in [vec![(150, 500)], vec![(101, 300), (300, 900)]] {
        assert_eq!(step.next(CreateEvent::Completed { ranges }, &p), nothing);
    }
    // Ranges that start below the head are not contiguous to it either.
    assert_eq!(step.next(CreateEvent::Completed { ranges: vec![(50, 500)] }, &p), nothing);
    assert_eq!(after_creation(&CreateEnd::NothingProven), IterationEvent::Succeeded);
}

#[test]
fn a_checkpoint_that_the_contract_holds_is_reused() {
    let p = proposer();
    let existing = Some(ExistingCheckpoint { hash: [8; 32], number: 70 });
    let step = CreateStep::FetchExisting { span: span() }
        .next(CreateEvent::Existing { existing }, &p)
        .next(CreateEvent::MaxL1Head { number: Some(70) }, &p);
    assert_eq!(
        step,
        CreateStep::ReadHistoricHash {
            span: span(),
            hash: [8; 32],
            number: 70,
            batch_max_l1_head: Some(70)
        }
    );
    let step = step.next(CreateEvent::HistoricHash { hash: [8; 32] }, &p);
    let CreateStep::Insert { request, .. } = step else { panic!("got {step:?}") };
    assert_eq!(request.checkpointed_l1_block_number, 70);
    assert_eq!(request.checkpointed_l1_block_hash, [8; 32]);
    assert_eq!((request.start_block, request.end_block), (100, 300));
    assert_eq!(request.mode, RequestMode::Real);
    assert_eq!(request.commitments, p.commitments);
    assert_eq!(request.prover_address, [9; 20]);
    assert_eq!(
        step.next(CreateEvent::Inserted, &p),
        CreateStep::Done { end: CreateEnd::Created }
    );
    assert_eq!(after_creation(&CreateEnd::Created), IterationEvent::Succeeded);
}

#[test]
fn a_fresh_checkpoint_is_floored_at_the_batch() {
    let p = proposer();
    let step = CreateStep::FetchMaxL1Head { span: span(), existing: None }
        .next(CreateEvent::MaxL1Head { number: Some(90) }, &p);
    assert_eq!(
        step,
        CreateStep::ReadAnchor {
            span: span(),
            anchor: BlockId::Number(BlockNumberOrTag::Safe),
            reason: RecheckpointReason::NoCachedCheckpoint,
            batch_max_l1_head: Some(90)
        }
    );
    // `safe` is behind the batch, so the batch's head is checkpointed.
    let step = step.next(CreateEvent::Header { header: l1_header(80) }, &p);
    assert_eq!(
        step,
        CreateStep::ReadCheckpointHeader {
            span: span(),
            number: 90,
            batch_max_l1_head: Some(90)
        }
    );
    let step = step.next(CreateEvent::Header { header: l1_header(90) }, &p);
    let CreateStep::SendCheckpoint { number, hash, .. } = step else { panic!("got {step:?}") };
    assert_eq!(number, 90);
    assert_eq!(hash, l1_header(90).hash_slow().0);
    assert_eq!(
        step.next(CreateEvent::Receipt { success: false }, &p),
        CreateStep::Done { end: CreateEnd::Failed(CreateError::CheckpointReverted) }
    );
    let step = step.next(CreateEvent::Receipt { success: true }, &p);
    let CreateStep::Insert { request, .. } = step else { panic!("got {step:?}") };
    assert_eq!(request.checkpointed_l1_block_number, 90);
    assert_eq!(request.checkpointed_l1_block_hash, hash);
}

#[test]
fn a_safe_head_above_the_batch_is_checkpointed_itself() {
    let p = proposer();
    let step = CreateStep::ReadAnchor {
        span: span(),
        anchor: BlockId::Number(BlockNumberOrTag::Safe),
        reason: RecheckpointReason::HashMismatch,
        batch_max_l1_head: Some(90),
    }
    .next(CreateEvent::Header { header: l1_header(95) }, &p);
    assert!(matches!(step, CreateStep::SendCheckpoint { number: 95, .. }));
}

/// The encoding of the header of a block with the number 1700.
fn encoded_header() -> Vec<u8> {
    let text = [
        "f90212a00d84d79f59fc384a1f6402609a5b7253b4bfe7a4ae12608ed107273e5422b6dda01dcc4de8dec75d7aab85b5",
        "67b6ccd41ad312451b948a7413f0a142fd40d493479471562b71999873db5b286df957af199ec94617f7a0f496f3d199",
        "c51a1aaee67dac95f24d92ac13c60d25181e1eecd6eca5ddf32ac0a056e81f171bcc55a6ff8345e692c0f86e5b48e01b",
        "996cadc001622fb5e363b421a056e81f171bcc55a6ff8345e692c0f86e5b48e01b996cadc001622fb5e363b421b90100",
        "000000000000000000000000000000000000000000000000000000000000000000000000000000000000000000000000",
        "000000000000000000000000000000000000000000000000000000000000000000000000000000000000000000000000",
        "000000000000000000000000000000000000000000000000000000000000000000000000000000000000000000000000",
        "000000000000000000000000000000000000000000000000000000000000000000000000000000000000000000000000",
        "000000000000000000000000000000000000000000000000000000000000000000000000000000000000000000000000",
        "00000000000000000000000000000000808206a4840365908a808468e975f09ad983011003846765746888676f312e32",
        "352e308664617277696ea06f485a167165ec12e0ab3e6ab59a7b88560b90306ac98a26eb294abf95a8c59b8800000000",
        "0000000007",
    ]
    .concat();
    alloy_primitives::hex::decode(text).unwrap()
}

#[test]
fn a_checkpoint_has_the_number_and_the_hash_of_its_header() {
    let p = proposer();
    let bytes = encoded_header();
    let header = <alloy_consensus::Header as alloy_rlp::Decodable>::decode(&mut bytes.as_slice());
    let step = CreateStep::ReadAnchor {
        span: span(),
        anchor: BlockId::Number(BlockNumberOrTag::Safe),
        reason: RecheckpointReason::HashMismatch,
        batch_max_l1_head: None,
    }
    .next(CreateEvent::Header { header: header.unwrap() }, &p);
    let CreateStep::SendCheckpoint { number, hash, .. } = step else { panic!("got {step:?}") };
    assert_eq!(number, 1700);
    assert_eq!(
        alloy_primitives::hex::encode(hash),
        "4f05e4392969fc82e41f6d6a8cea379323b0b2d3ddf7def1a33eec03883e3a33"
    );
}

#[test]
fn negative_numbers_in_the_database_are_errors() {
    let p = proposer();
    let step = CreateStep::FetchMaxL1Head {
        span: span(),
        existing: Some(ExistingCheckpoint { hash: [8; 32], number: -1 }),
    };
    assert_eq!(
        step.next(CreateEvent::MaxL1Head { number: Some(-1) }, &p),
        CreateStep::Done { end: CreateEnd::Failed(CreateError::NegativeL1Head) }
    );
    assert_eq!(
        step.next(CreateEvent::MaxL1Head { number: None }, &p),
        CreateStep::Done { end: CreateEnd::Failed(CreateError::NegativeCheckpoint) }
    );
    assert_eq!(
        step.next(CreateEvent::Failed, &p),
        CreateStep::Done { end: CreateEnd::Failed(CreateError::CallFailed) }
    );
    assert_eq!(
        after_creation(&CreateEnd::Failed(CreateError::NegativeL1Head)),
        IterationEvent::Failed
    );
}

#[test]
fn an_aggregation_request_is_validated_by_its_range_proofs() {
    let p = proposer();
    let agg = request(9, RequestType::Aggregation, 100, 300);
    let range = |start, end| request(1, RequestType::Range, start, end);
    assert!(p.validate_aggregation_request(&[range(100, 200), range(200, 300)], &agg));
    assert!(p.validate_aggregation_request(&[range(100, 300)], &agg));
    assert!(!p.validate_aggregation_request(&[], &agg));
    assert!(!p.validate_aggregation_request(&[range(101, 300)], &agg));
    assert!(!p.validate_aggregation_request(&[range(100, 299)], &agg));
    assert!(!p.validate_aggregation_request(&[range(100, 200), range(201, 300)], &agg));
    assert!(!p.validate_aggregation_request(&[range(100, 200), range(199, 300)], &agg));
}

// Adding ranges.

#[test]
fn ranges_are_sorted_stably() {
    assert_eq!(
        sort_by_start(&[(3, 4), (1, 9), (3, 1), (2, 2), (1, 2)]),
        vec![(1, 9), (1, 2), (2, 2), (3, 4), (3, 1)]
    );
    assert_eq!(sort_by_start(&[]), vec![]);
}

#[test]
fn ranges_are_split_by_blocks_without_a_gas_limit() {
    let p = proposer();
    let step = p.add_new_ranges();
    let step = step.next(RangesEvent::LatestProposed { number: 100 }, &p);
    assert_eq!(
        step.clone().next(RangesEvent::Finalized { number: None }, &p),
        RangesStep::Done { end: RangesEnd::NothingFinalized }
    );
    let step = step.next(RangesEvent::Finalized { number: Some(400) }, &p);
    assert_eq!(step, RangesStep::FetchRanges { latest_proposed: 100, finalized: 400 });
    let step = step.next(RangesEvent::Ranges { ranges: vec![(200, 300), (100, 150)] }, &p);
    assert_eq!(
        step,
        RangesStep::FindGaps { start: 100, end: 400, ranges: vec![(100, 150), (200, 300)] }
    );
    let step = step.next(RangesEvent::Ranges { ranges: vec![(150, 200), (300, 400)] }, &p);
    assert_eq!(
        step,
        RangesStep::SplitByBlocks { gaps: vec![(150, 200), (300, 400)], interval: 60 }
    );
    assert_eq!(
        step.clone().next(RangesEvent::Ranges { ranges: vec![] }, &p),
        RangesStep::Done { end: RangesEnd::NothingToProve }
    );
    let step = step.next(RangesEvent::Ranges { ranges: vec![(150, 200), (300, 360)] }, &p);
    let RangesStep::Insert { requests } = step.clone() else { panic!("got {step:?}") };
    assert_eq!(requests.len(), 2);
    assert_eq!((requests[1].start_block, requests[1].end_block), (300, 360));
    assert_eq!(requests[1].mode, RequestMode::Real);
    assert_eq!(requests[1].range_vkey_commitment, [1; 32]);
    assert_eq!(requests[1].rollup_config_hash, [3; 32]);
    assert_eq!(
        step.next(RangesEvent::Succeeded, &p),
        RangesStep::Done { end: RangesEnd::Inserted }
    );
    assert_eq!(after_ranges(&RangesEnd::Inserted), IterationEvent::Succeeded);
    assert_eq!(after_ranges(&RangesEnd::Failed), IterationEvent::Failed);
}

#[test]
fn ranges_are_split_by_gas_with_the_data_of_their_blocks() {
    let mut p = proposer();
    p.requester_config.evm_gas_limit = 1_000;
    let gaps = vec![(5, 5), (10, 20), (30, 30), (40, 50)];
    let step = RangesStep::FindGaps { start: 0, end: 60, ranges: vec![] }
        .next(RangesEvent::Ranges { ranges: gaps.clone() }, &p);
    assert_eq!(step, RangesStep::FetchBlockData { gaps: gaps.clone(), at: 1 });
    let step = step.next(RangesEvent::Succeeded, &p);
    assert_eq!(step, RangesStep::FetchBlockData { gaps: gaps.clone(), at: 3 });
    assert_eq!(
        step.clone().next(RangesEvent::Failed, &p),
        RangesStep::Done { end: RangesEnd::Failed }
    );
    let step = step.next(RangesEvent::Succeeded, &p);
    assert_eq!(step, RangesStep::SplitByGas { gaps, evm_gas_limit: 1_000, interval: 60 });
    assert_eq!(
        p.active_statuses(),
        vec![
            RequestStatus::Unrequested,
            RequestStatus::WitnessGeneration,
            RequestStatus::Execution,
            RequestStatus::Prove,
            RequestStatus::Complete,
        ]
    );
    assert_eq!(request_mode(true), RequestMode::Mock);
}

// Tasks.

#[test]
fn finished_tasks_are_handled_one_by_one() {
    let mut tasks = TaskMap::new();
    for id in [1, 2, 3, 4] {
        tasks.insert(id);
    }
    let p = proposer();
    let step = p.handle_ongoing_tasks(&mut tasks, &[(1, true), (2, false), (3, true), (4, true)]);
    assert_eq!(step, OngoingStep::Join { finished: vec![1, 3, 4], at: 0 });
    assert!(!tasks.contains(1) && tasks.contains(2) && !tasks.contains(3) && !tasks.contains(4));

    let (step, gauge) =
        step.next(OngoingEvent::Ended { outcome: TaskOutcome::Failed { reason: None } });
    assert_eq!(step, OngoingStep::MarkFailed { finished: vec![1, 3, 4], at: 0 });
    assert_eq!(gauge, None);
    let (step, gauge) = step.next(OngoingEvent::Failed);
    assert_eq!(step, OngoingStep::Join { finished: vec![1, 3, 4], at: 1 });
    assert_eq!(gauge, Some(ValidityGauge::RetryErrorCount));

    let reason = NoBisectReason::AdmissionShed;
    let (step, _) =
        step.next(OngoingEvent::Ended { outcome: TaskOutcome::Failed { reason: Some(reason) } });
    assert_eq!(
        step,
        OngoingStep::ResetToUnrequested { finished: vec![1, 3, 4], at: 1, reason }
    );
    let (step, gauge) = step.next(OngoingEvent::Failed);
    assert_eq!(step, OngoingStep::Join { finished: vec![1, 3, 4], at: 2 });
    assert_eq!(gauge, None);

    let (step, _) = step.next(OngoingEvent::Ended { outcome: TaskOutcome::Panicked });
    assert_eq!(step, OngoingStep::MarkFailed { finished: vec![1, 3, 4], at: 2 });
    let (step, gauge) = step.next(OngoingEvent::Succeeded);
    assert_eq!(step, OngoingStep::Done);
    assert_eq!(gauge, Some(ValidityGauge::ProofRequestRetryCount));

    assert_eq!(p.handle_ongoing_tasks(&mut tasks, &[(2, false)]), OngoingStep::Done);
}

#[test]
fn the_outcome_of_a_task_decides_about_its_request() {
    assert_eq!(task_action(TaskOutcome::Succeeded), TaskAction::Nothing);
    assert_eq!(task_action(TaskOutcome::Panicked), TaskAction::MarkFailed);
    assert_eq!(task_gauge(TaskAction::Nothing, true), None);
}

#[test]
fn a_failed_task_is_classified_by_its_error() {
    let decided = |e: &anyhow::Error| task_action(failed_task(e));
    let refused: anyhow::Error = tonic::Status::unavailable("tcp connect error").into();
    assert_eq!(
        decided(&refused),
        TaskAction::ResetToUnrequested { reason: NoBisectReason::TransientTransport }
    );
    let full: anyhow::Error = tonic::Status::failed_precondition("insufficient funds").into();
    assert_eq!(
        decided(&full),
        TaskAction::ResetToUnrequested { reason: NoBisectReason::UnsatisfiablePrecondition }
    );
    let unexecutable = anyhow::Error::msg("proof generation failed: execution unexecutable");
    assert_eq!(decided(&unexecutable), TaskAction::MarkFailed);
}

#[test]
fn requests_without_a_task_are_orphaned() {
    let mut tasks = TaskMap::new();
    tasks.insert(2);
    tasks.insert(5);
    assert_eq!(orphaned_tasks(&[1, 2, 3], &[5, 6], &tasks), vec![1, 3, 6]);
    tasks.remove(2);
    assert_eq!(orphaned_tasks(&[1, 2], &[], &tasks), vec![1, 2]);
}

#[test]
fn the_queue_keeps_its_limits() {
    let p = proposer();
    let counts = |witness_generation, execution, prove| RequestCounts {
        witness_generation,
        execution,
        prove,
    };
    assert_eq!(p.queue_room(&counts(1, 1, 7)), QueueRoom::Room);
    assert_eq!(p.queue_room(&counts(1, 1, 8)), QueueRoom::TooManyRequests);
    assert_eq!(p.queue_room(&counts(3, 0, 0)), QueueRoom::TooManyWitnessGenerations);
    // A request that is executed holds its place in the second limit too.
    assert_eq!(p.queue_room(&counts(2, 1, 0)), QueueRoom::TooManyWitnessGenerations);
    assert_eq!(p.queue_room(&counts(0, 3, 0)), QueueRoom::TooManyWitnessGenerations);
    assert_eq!(
        p.queue_room(&counts(i64::MAX, i64::MAX, i64::MAX)),
        QueueRoom::TooManyRequests
    );
}

#[test]
fn one_execution_fills_a_limit_of_one() {
    let mut p = proposer();
    p.requester_config.max_concurrent_witness_gen = 1;
    let counts =
        |execution| RequestCounts { witness_generation: 0, execution, prove: 0 };
    assert_eq!(p.queue_room(&counts(0)), QueueRoom::Room);
    assert_eq!(p.queue_room(&counts(1)), QueueRoom::TooManyWitnessGenerations);
}

fn to_the_head(p: &Proposer, tasks: &mut TaskMap) -> QueueStep {
    let mut step = p.request_queued_proofs();
    for count in [0, 1, 2] {
        step = step.next(QueueEvent::Count { count }, p, tasks).0;
    }
    step
}

#[test]
fn a_covered_aggregation_comes_before_ranges() {
    let p = proposer();
    let mut tasks = TaskMap::new();
    let agg = request(9, RequestType::Aggregation, 100, 300);
    let step = to_the_head(&p, &mut tasks);
    assert_eq!(step, QueueStep::ReadHead);
    let step = step.next(QueueEvent::Head { number: 100 }, &p, &mut tasks).0;
    assert_eq!(step, QueueStep::FetchAggregation { latest_proposed: 100 });
    let step =
        step.next(QueueEvent::Request { request: Some(agg.clone()) }, &p, &mut tasks).0;
    assert_eq!(
        step,
        QueueStep::FetchRangeProofs { latest_proposed: 100, request: agg.clone() }
    );
    let covering = vec![request(1, RequestType::Range, 100, 300)];
    let (spawn, gauge) = step.clone().next(
        QueueEvent::RangeProofs { range_proofs: covering.clone() },
        &p,
        &mut tasks,
    );
    assert_eq!(spawn, QueueStep::Spawn { request: agg });
    assert_eq!(gauge, None);
    assert!(tasks.contains(9));
    assert_eq!(
        spawn.next(QueueEvent::Spawned, &p, &mut tasks).0,
        QueueStep::Done { end: QueueEnd::Requested }
    );

    // A task is working on it now.
    assert_eq!(
        step.clone().next(QueueEvent::RangeProofs { range_proofs: covering }, &p, &mut tasks).0,
        QueueStep::Done { end: QueueEnd::TaskStillThere }
    );

    // Without coverage, a range comes first.
    let (next, gauge) = step.next(
        QueueEvent::RangeProofs { range_proofs: vec![request(1, RequestType::Range, 100, 200)] },
        &p,
        &mut tasks,
    );
    assert_eq!(next, QueueStep::FetchRange { latest_proposed: 100 });
    assert_eq!(gauge, Some(ValidityGauge::AggProofValidationErrorCount));
    let range = request(2, RequestType::Range, 100, 160);
    assert_eq!(
        next.clone()
            .next(QueueEvent::Request { request: Some(range.clone()) }, &p, &mut tasks)
            .0,
        QueueStep::Spawn { request: range }
    );
    assert_eq!(
        next.next(QueueEvent::Request { request: None }, &p, &mut tasks).0,
        QueueStep::Done { end: QueueEnd::Empty }
    );
}

#[test]
fn a_full_queue_ends_the_pass() {
    let p = proposer();
    let mut tasks = TaskMap::new();
    let step = QueueStep::CountProve { witness_generation: 3, execution: 0 };
    assert_eq!(
        step.clone().next(QueueEvent::Count { count: 0 }, &p, &mut tasks).0,
        QueueStep::Done {
            end: QueueEnd::NoRoom { room: QueueRoom::TooManyWitnessGenerations }
        }
    );
    assert_eq!(
        step.next(QueueEvent::Failed, &p, &mut tasks).0,
        QueueStep::Done { end: QueueEnd::Failed }
    );
    assert_eq!(after_queue(&QueueEnd::Failed), IterationEvent::Failed);
    assert_eq!(after_queue(&QueueEnd::Empty), IterationEvent::Succeeded);
}

// Relaying.

fn quiet() -> SubmitGauges {
    SubmitGauges { counted: vec![], blocked_by_guard: None }
}

fn receipt(success: bool) -> TransactionReceipt {
    TransactionReceipt {
        status: success,
        transaction_hash: [0xaa; 32],
        block_number: Some(42),
        gas_used: 1,
        effective_gas_price: 2,
        from: [0x11; 20],
    }
}

fn sent(p: &Proposer) -> SubmitStep {
    let (step, gauges) = p.submit_agg_proofs();
    assert_eq!(gauges, SubmitGauges { counted: vec![], blocked_by_guard: Some(0) });
    let (step, gauges) = step.next(SubmitEvent::Head { number: 100 }, p);
    assert_eq!((&step, gauges), (&SubmitStep::FetchCompleted { latest_proposed: 100 }, quiet()));
    let agg = request(9, RequestType::Aggregation, 100, 300);
    let (step, _) = step.next(SubmitEvent::Completed { request: Some(agg) }, p);
    assert!(matches!(step, SubmitStep::ReadOutput { block_number: 300, .. }));
    step.next(SubmitEvent::Output { output_root: [4; 32] }, p).0
}

#[test]
fn a_landed_aggregation_is_marked_as_relayed() {
    let p = proposer();
    let step = sent(&p);
    let SubmitStep::Send { proposal, .. } = &step else { panic!("got {step:?}") };
    assert_eq!(proposal.output_root, [4; 32]);
    assert_eq!((proposal.l2_block_number, proposal.l1_block_number), (300, 77));
    assert_eq!(proposal.proof, vec![1, 2, 3]);
    let (step, gauges) = step.next(SubmitEvent::Sent { result: Ok(receipt(true)) }, &p);
    assert!(
        matches!(&step, SubmitStep::MarkRelayed { transaction_hash, .. } if *transaction_hash == [0xaa; 32])
    );
    assert_eq!(gauges, quiet());
    let (step, _) = step.next(SubmitEvent::Succeeded, &p);
    let SubmitStep::Done { end } = step else { panic!("got {step:?}") };
    assert_eq!(end, SubmitEnd::Relayed { end_block: 300 });
    assert_eq!(
        after_submission(&end),
        IterationEvent::Submitted { relayed_end: Some(300) }
    );
}

#[test]
fn a_reverted_aggregation_is_replayed_and_rebuilt() {
    let p = proposer();
    let (step, _) = sent(&p).next(SubmitEvent::Sent { result: Ok(receipt(false)) }, &p);
    let SubmitStep::Replay { from, block, timeout, .. } = &step else { panic!("got {step:?}") };
    assert_eq!(*from, [0x11; 20]);
    assert_eq!(*block, BlockId::Number(BlockNumberOrTag::Number(42)));
    assert_eq!(*timeout, 15);
    let (step, gauges) = step.next(SubmitEvent::Replayed { replay: Ok(Ok(vec![])) }, &p);
    let rejection = RelayRejection::NoVerdict { reason: NoVerdictReason::ReplayDidNotRevert };
    assert_eq!(step, SubmitStep::MarkFailed { id: 9, rejection: rejection.clone() });
    assert_eq!(
        gauges,
        SubmitGauges {
            counted: vec![ValidityGauge::RelayAggProofErrorCount],
            blocked_by_guard: Some(0)
        }
    );
    // The rebuild is counted only once it was written, and the pass goes on either way.
    let end = SubmitEnd::Rejected { rejection };
    let (done, gauges) = step.clone().next(SubmitEvent::Succeeded, &p);
    assert_eq!(done, SubmitStep::Done { end: end.clone() });
    assert_eq!(gauges.counted, vec![ValidityGauge::AggProofRebuiltAfterRejection]);
    let (done, gauges) = step.next(SubmitEvent::Failed, &p);
    assert_eq!(done, SubmitStep::Done { end: end.clone() });
    assert_eq!(gauges, quiet());
    assert_eq!(after_submission(&end), IterationEvent::Submitted { relayed_end: None });
}

fn rejected_before_broadcast(data: Vec<u8>) -> SubmitEvent {
    let data = alloy_primitives::Bytes::from(data);
    SubmitEvent::Sent {
        result: Err(anyhow::Error::new(
            alloy_json_rpc::RpcError::<alloy_transport::TransportErrorKind>::ErrorResp(
                alloy_json_rpc::ErrorPayload {
                    code: 3,
                    message: "execution reverted".into(),
                    data: Some(serde_json::value::to_raw_value(&data).unwrap()),
                },
            ),
        )),
    }
}

#[test]
fn a_guard_that_no_proof_satisfies_leaves_the_request_alone() {
    let p = proposer();
    let message = "L2OutputOracle: optimistic mode is enabled".to_string();
    let mut data = vec![0x08, 0xc3, 0x79, 0xa0];
    data.extend_from_slice(&alloy_sol_types::SolValue::abi_encode(&message));
    let (step, gauges) = sent(&p).next(rejected_before_broadcast(data), &p);
    assert_eq!(
        step,
        SubmitStep::Done {
            end: SubmitEnd::Rejected { rejection: RelayRejection::UnsatisfiableGuard { message } }
        }
    );
    assert_eq!(gauges.blocked_by_guard, Some(1));
}

#[test]
fn a_rejection_before_broadcast_is_classified_at_once() {
    let p = proposer();
    let (step, gauges) =
        sent(&p).next(rejected_before_broadcast(vec![0x09, 0xbd, 0xe3, 0x39]), &p);
    assert_eq!(
        step,
        SubmitStep::MarkFailed {
            id: 9,
            rejection: RelayRejection::ProofRejected {
                selector: [0x09, 0xbd, 0xe3, 0x39],
                name: "InvalidProof"
            }
        }
    );
    assert_eq!(gauges.blocked_by_guard, Some(0));
}

#[test]
fn an_undelivered_aggregation_is_sent_again_later() {
    let p = proposer();
    let (step, gauges) =
        sent(&p).next(SubmitEvent::Sent { result: Err(anyhow::Error::msg("nonce too low")) }, &p);
    assert_eq!(step, SubmitStep::Done { end: SubmitEnd::Failed });
    assert_eq!(gauges.counted, vec![ValidityGauge::RelayAggProofErrorCount]);
    assert_eq!(gauges.blocked_by_guard, None);
    assert_eq!(after_submission(&SubmitEnd::Failed), IterationEvent::Failed);
}

#[test]
fn a_dispute_game_factory_is_refused() {
    let mut p = proposer();
    p.requester_config.dgf_address[19] = 1;
    assert!(p.dispute_game_configured());
    let step = sent(&p);
    assert_eq!(step, SubmitStep::Done { end: SubmitEnd::DisputeGameConfigured });
    assert_eq!(after_submission(&SubmitEnd::DisputeGameConfigured), IterationEvent::Failed);
    assert!(!proposer().dispute_game_configured());
}

#[test]
fn nothing_completed_means_nothing_to_relay() {
    let p = proposer();
    let step = SubmitStep::FetchCompleted { latest_proposed: 1 };
    let (step, _) = step.next(SubmitEvent::Completed { request: None }, &p);
    assert_eq!(step, SubmitStep::Done { end: SubmitEnd::NothingToRelay });
    assert_eq!(
        after_submission(&SubmitEnd::NothingToRelay),
        IterationEvent::Submitted { relayed_end: None }
    );
}

// Starting.

#[test]
fn a_locked_chain_stops_the_start() {
    let step = Proposer::start_up();
    assert_eq!(
        step.next(StartupEvent::ChainLock { locked: true }, false),
        StartupStep::Failed { error: StartupError::ChainLocked }
    );
    let step = step.next(StartupEvent::ChainLock { locked: false }, false);
    assert_eq!(step, StartupStep::AddChainLock);
    assert_eq!(
        step.next(StartupEvent::Failed, false),
        StartupStep::Failed { error: StartupError::CallFailed }
    );
    let mut network = step;
    for expected in [
        StartupStep::GetNetworkSigner,
        StartupStep::DetermineNetworkMode,
        StartupStep::BuildNetworkProver,
        StartupStep::SetUpRangeKeys,
        StartupStep::SetUpAggregationKeys,
        StartupStep::Ready,
    ] {
        network = network.next(StartupEvent::Succeeded, false);
        assert_eq!(network, expected);
    }
    let mut cluster = step;
    for expected in
        [StartupStep::ReadClusterConfig, StartupStep::SetUpClusterKeys, StartupStep::Ready]
    {
        cluster = cluster.next(StartupEvent::Succeeded, true);
        assert_eq!(cluster, expected);
    }
}

#[test]
fn a_proposer_takes_its_commitments_from_the_keys() {
    let vkey = [0x01020304, 0, 0, 0, 0, 0, 0, 0xfffefdfc];
    let agg = format!("0x{}", "ab".repeat(32));
    let new = |agg: &str, rollup| {
        Proposer::new(requester_config(), [9; 20], 30, true, vkey, agg, rollup)
    };
    let p = new(&agg, Some([3; 32])).unwrap();
    let mut expected = [0; 32];
    expected[..4].copy_from_slice(&[1, 2, 3, 4]);
    expected[28..].copy_from_slice(&[0xff, 0xfe, 0xfd, 0xfc]);
    assert_eq!(p.commitments.range_vkey_commitment, expected);
    assert_eq!(p.commitments.agg_vkey_hash, [0xab; 32]);
    assert_eq!(p.commitments.rollup_config_hash, [3; 32]);
    assert!(p.cluster && !p.driver_config.has_network_prover);
    assert_eq!(p.driver_config.loop_interval, 30);

    assert_eq!(new("0x12", Some([3; 32])), Err(StartupError::BadAggregationVkey));
    assert_eq!(new("zz", None), Err(StartupError::BadAggregationVkey));
    assert_eq!(new(&agg, None), Err(StartupError::MissingRollupConfig));
}

#[test]
fn the_contract_must_hold_the_same_commitments() {
    let p = proposer();
    assert_eq!(p.validate_contract_config(&p.commitments), Ok(()));
    let other = CommitmentConfig { agg_vkey_hash: [0; 32], ..p.commitments };
    assert_eq!(
        p.validate_contract_config(&other),
        Err(ConfigMatch {
            rollup_config_hash: true,
            agg_vkey_hash: false,
            range_vkey_commitment: true
        })
    );
}

#[test]
fn a_restart_cleans_the_database_up() {
    let step = proposer().initialize_proposer();
    assert_eq!(step.clone().next(false), InitializeStep::Done { succeeded: false });
    let step = step.next(true);
    assert_eq!(
        step,
        InitializeStep::DeleteRequests {
            statuses: vec![
                RequestStatus::Unrequested,
                RequestStatus::Execution,
                RequestStatus::WitnessGeneration
            ]
        }
    );
    let step = step.next(true);
    assert_eq!(step, InitializeStep::CancelMismatched);
    assert_eq!(step.clone().next(false), InitializeStep::Done { succeeded: false });
    let step = step.next(true);
    assert_eq!(step, InitializeStep::AddNewRanges);
    assert_eq!(step.clone().next(false), InitializeStep::Done { succeeded: false });
    assert_eq!(step.next(true), InitializeStep::Done { succeeded: true });
}

// The loop.

#[test]
fn metrics_show_the_progress() {
    let p = proposer();
    let (step, _) = p.log_proposer_metrics().next(MetricsEvent::Number { number: 100 }, &p);
    assert_eq!(step, MetricsStep::FetchCompleted { latest_proposed: 100 });
    assert_eq!(
        step.next(MetricsEvent::Completed { ranges: vec![(100, 100)] }, &p).0,
        MetricsStep::Done { error: Some(MetricsError::BadRanges { error: RangeError::Empty }) }
    );
    let (mut step, _) = step.next(MetricsEvent::Completed { ranges: vec![(100, 160)] }, &p);
    let mut readings = vec![];
    for count in [1, 2, 3, 4] {
        let (next, set) = step.next(MetricsEvent::Count { count }, &p);
        step = next;
        readings.extend(set);
    }
    for number in [900, 800, 250] {
        let (next, set) = step.next(MetricsEvent::Number { number }, &p);
        step = next;
        readings.extend(set);
    }
    assert_eq!(step, MetricsStep::Done { error: None });
    assert_eq!(
        readings,
        vec![
            (MetricGauge::CurrentUnrequestedProofs, 1),
            (MetricGauge::CurrentProvingProofs, 2),
            (MetricGauge::CurrentWitnessgenProofs, 4),
            (MetricGauge::CurrentExecuteProofs, 3),
            (MetricGauge::HighestProvenContiguousBlock, 160),
            (MetricGauge::LatestContractL2Block, 100),
            (MetricGauge::L2UnsafeHeadBlock, 900),
            (MetricGauge::L2FinalizedBlock, 800),
            (MetricGauge::MinBlockToProveToAgg, 350),
        ]
    );
    assert_eq!(
        MetricsStep::ReadHead.next(MetricsEvent::Failed, &p).0,
        MetricsStep::Done { error: Some(MetricsError::CallFailed) }
    );
}

#[test]
fn without_completed_ranges_the_head_is_the_highest_block() {
    let p = proposer();
    let (step, _) = MetricsStep::FetchCompleted { latest_proposed: 100 }
        .next(MetricsEvent::Completed { ranges: vec![] }, &p);
    let MetricsStep::CountUnrequested { progress } = step else { panic!("got {step:?}") };
    assert_eq!(progress.highest_proven, 100);
}

#[test]
fn a_cluster_request_does_not_hinder_the_others() {
    let p = proposer();
    assert_eq!(p.handle_proving_requests(true), ProvingStep::Done { succeeded: true });
    let step = p.handle_proving_requests(false);
    assert_eq!(
        step.next(ProvingEvent::Fetched { count: 0 }, false),
        ProvingStep::Done { succeeded: true }
    );
    let step = step.next(ProvingEvent::Fetched { count: 2 }, false);
    assert_eq!(
        step.next(ProvingEvent::Failed, false),
        ProvingStep::Done { succeeded: false }
    );
    assert_eq!(
        step.next(ProvingEvent::Failed, true),
        ProvingStep::Process { at: 1, count: 2 }
    );
    assert_eq!(
        ProvingStep::Process { at: 1, count: 2 }.next(ProvingEvent::Processed, false),
        ProvingStep::Done { succeeded: true }
    );
    assert_eq!(
        ProvingStep::FetchRequests.next(ProvingEvent::Failed, true),
        ProvingStep::Done { succeeded: false }
    );
}

#[test]
fn a_pass_goes_through_its_steps_in_order() {
    let mut step = proposer().run_loop_iteration();
    for expected in [
        IterationStep::LogMetrics,
        IterationStep::HandleOngoingTasks,
        IterationStep::SetOrphanedTasksToFailed,
        IterationStep::HandleProvingRequests,
        IterationStep::ReconcileCanonicality,
    ] {
        step = step.next(IterationEvent::Succeeded).0;
        assert_eq!(step, expected);
    }
    step = step.next(IterationEvent::Reconciled { canonical: true }).0;
    assert_eq!(step, IterationStep::AddNewRanges);
    step = step.next(IterationEvent::Succeeded).0;
    assert_eq!(step, IterationStep::SubmitAggregations);
    step = step.next(IterationEvent::Submitted { relayed_end: Some(5) }).0;
    assert_eq!(step, IterationStep::CreateAggregations { relayed_end: Some(5) });
    step = step.next(IterationEvent::Succeeded).0;
    assert_eq!(step, IterationStep::RequestQueuedProofs);
    step = step.next(IterationEvent::Succeeded).0;
    assert_eq!(step, IterationStep::UpdateChainLock);
    assert_eq!(
        step.next(IterationEvent::Succeeded).0,
        IterationStep::Done { succeeded: true }
    );
    assert_eq!(step.next(IterationEvent::Failed).0, IterationStep::Done { succeeded: false });
}

#[test]
fn a_pass_with_unverified_ranges_only_renews_the_lock() {
    let (step, gauge) = IterationStep::ReconcileCanonicality
        .next(IterationEvent::Reconciled { canonical: false });
    assert_eq!((step, gauge), (IterationStep::UpdateChainLock, None));
}

#[test]
fn a_pass_survives_metrics_and_transactions_that_fail() {
    assert_eq!(
        IterationStep::LogMetrics.next(IterationEvent::Failed),
        (IterationStep::HandleOngoingTasks, None)
    );
    assert_eq!(
        IterationStep::SubmitAggregations.next(IterationEvent::Failed),
        (
            IterationStep::CreateAggregations { relayed_end: None },
            Some(ValidityGauge::TotalErrorCount)
        )
    );
    assert_eq!(
        IterationStep::CreateAggregations { relayed_end: None }.next(IterationEvent::Failed),
        (IterationStep::RequestQueuedProofs, Some(ValidityGauge::TotalErrorCount))
    );
    for step in [
        IterationStep::ValidateContractConfig,
        IterationStep::HandleOngoingTasks,
        IterationStep::SetOrphanedTasksToFailed,
        IterationStep::HandleProvingRequests,
        IterationStep::ReconcileCanonicality,
        IterationStep::AddNewRanges,
        IterationStep::RequestQueuedProofs,
    ] {
        assert_eq!(
            step.next(IterationEvent::Failed),
            (IterationStep::Done { succeeded: false }, None)
        );
    }
}

#[test]
fn the_loop_pauses_by_what_came_of_a_pass() {
    let p = proposer();
    let step = p.run();
    assert_eq!(step.next(false, &p).0, RunStep::Stop);
    let step = step.next(true, &p).0.next(true, &p).0;
    assert_eq!(step, RunStep::Iterate);
    assert_eq!(step.next(true, &p), (RunStep::Sleep { seconds: 30 }, None));
    assert_eq!(
        step.next(false, &p),
        (RunStep::Sleep { seconds: 10 }, Some(ValidityGauge::TotalErrorCount))
    );
    assert_eq!(RunStep::Sleep { seconds: 10 }.next(true, &p).0, RunStep::Iterate);
}

#[test]
fn the_handles_of_other_requests_are_left_alone() {
    let mut handles = ClusterHandles::new();
    handles.insert(4);
    handles.insert(5);
    assert_eq!(handles.note_failure(5), PollFailure::Transient);
    assert_eq!(handles.note_failure(5), PollFailure::Transient);
    assert_eq!(handles.note_failure(4), PollFailure::Transient);
    handles.remove(4);
    assert!(!handles.contains(4) && handles.contains(5));
    assert_eq!(handles.note_failure(5), PollFailure::Permanent);
}
