//! The host: inputs of the programs, and the race between witness generation and server.
use std::future::{poll_fn, Future};
use std::pin::Pin;
use std::task::Poll;
use std::time::{Duration, Instant};

use alloy_primitives::{Address, B256};
use op_succinct::host::{
    abort_message, agg_proof_stdin, convert_header, encode_block, get_agg_proof_stdin,
    get_mantle_proof_stdin, get_proof_stdin, mock_rollup_config, run_outcome, AggStdinError,
    BlockTransactions, BootInfoWithBytesConfig, HostArgs, MantleStdinEvent, MantleStdinStep,
    ProgramType, RaceOutcome, RollupConfigFile, RpcHeader, RunError, ServerExit, StdinError,
    StdinItem,
};
use op_succinct::proposer::proof_status::ProofKind;
use op_succinct::types::{AggregationInputs, BootInfoStruct};
use tokio::task::JoinHandle;
use tokio::time::sleep;

fn header() -> alloy_consensus::Header {
    alloy_consensus::Header {
        parent_hash: B256::from([1; 32]),
        ommers_hash: B256::from([2; 32]),
        beneficiary: Address::from([3; 20]),
        state_root: B256::from([4; 32]),
        transactions_root: B256::from([5; 32]),
        receipts_root: B256::from([6; 32]),
        number: 9,
        gas_limit: 10,
        gas_used: 11,
        timestamp: 12,
        mix_hash: B256::from([14; 32]),
        base_fee_per_gas: Some(16),
        withdrawals_root: Some(B256::from([17; 32])),
        blob_gas_used: Some(18),
        ..Default::default()
    }
}

/// The JSON text of [`plain_header`].
fn plain_header_json() -> String {
    let zeros = "0".repeat(512);
    let hash = "0".repeat(64);
    let address = "0".repeat(40);
    let empty = "56e81f171bcc55a6ff8345e692c0f86e5b48e01b996cadc001622fb5e363b421";
    let ommers = "1dcc4de8dec75d7aab85b567b6ccd41ad312451b948a7413f0a142fd40d49347";
    [
        format!("{{\"parentHash\":\"0x{hash}\",\"sha3Uncles\":\"0x{ommers}\","),
        format!("\"miner\":\"0x{address}\",\"stateRoot\":\"0x{empty}\","),
        format!("\"transactionsRoot\":\"0x{empty}\",\"receiptsRoot\":\"0x{empty}\","),
        format!("\"logsBloom\":\"0x{zeros}\",\"difficulty\":\"0x0\",\"number\":\"0x0\","),
        "\"gasLimit\":\"0x0\",\"gasUsed\":\"0x0\",\"timestamp\":\"0x0\",".to_string(),
        format!("\"extraData\":\"0x\",\"mixHash\":\"0x{hash}\","),
        "\"nonce\":\"0x0000000000000000\",\"baseFeePerGas\":\"0x1\",".to_string(),
        format!("\"withdrawalsRoot\":\"0x{empty}\"}}"),
    ]
    .concat()
}

fn plain_header() -> alloy_consensus::Header {
    alloy_consensus::Header {
        base_fee_per_gas: Some(1),
        withdrawals_root: Some(alloy_consensus::EMPTY_ROOT_HASH),
        ..Default::default()
    }
}

fn rpc_header() -> RpcHeader {
    RpcHeader { hash: [99; 32], inner: header(), total_difficulty: None, size: None }
}

/// Runs a server and a witness generation side by side, as a host does. The first to end decides.
async fn race(
    mut server: JoinHandle<Result<(), String>>,
    witness: impl Future<Output = anyhow::Result<String>>,
) -> anyhow::Result<String> {
    let mut witness = Box::pin(witness);
    let outcome = poll_fn(|cx| {
        if let Poll::Ready(result) = witness.as_mut().poll(cx) {
            return Poll::Ready(RaceOutcome::Witness(result));
        }
        Pin::new(&mut server).poll(cx).map(|ended| {
            RaceOutcome::Server(match ended {
                Ok(Ok(())) => ServerExit::Early,
                Ok(Err(message)) => ServerExit::Error { message },
                Err(e) => ServerExit::Panic { message: e.to_string() },
            })
        })
    })
    .await;
    if matches!(outcome, RaceOutcome::Witness(_)) {
        server.abort();
    }
    run_outcome(outcome).map_err(|e| match e {
        RunError::Witness(e) => e,
        RunError::Server(message) => anyhow::Error::msg(message),
    })
}

/// Runs a future to its end.
fn block_on<T>(future: impl Future<Output = T>) -> T {
    tokio::runtime::Builder::new_current_thread().enable_time().build().unwrap().block_on(future)
}

/// A server that ends like this after some milliseconds.
async fn server_ending(after_ms: u64, result: Result<(), String>) -> Result<(), String> {
    sleep(Duration::from_millis(after_ms)).await;
    result
}

async fn server_crashing() -> Result<(), String> {
    sleep(Duration::from_millis(50)).await;
    panic!("server crashed")
}

/// A witness generation that ends like this after some milliseconds.
async fn witness_ending(after_ms: u64, result: anyhow::Result<String>) -> anyhow::Result<String> {
    sleep(Duration::from_millis(after_ms)).await;
    result
}

/// A witness generation that asks a closed channel again and again.
async fn witness_looping() -> anyhow::Result<String> {
    loop {
        sleep(Duration::from_millis(10)).await;
    }
}

#[test]
fn test_server_exits_with_error_aborts_witness() {
    block_on(async {
        let timeout = Err("Preimage oracle error: Timeout".to_string());
        let server = tokio::spawn(server_ending(50, timeout));

        let start = Instant::now();
        let result = race(server, witness_looping()).await;
        let elapsed = start.elapsed();

        assert!(result.is_err());
        assert!(elapsed < Duration::from_millis(200));
        let err_msg = result.unwrap_err().to_string();
        assert!(err_msg.contains("Server exited with error"), "Unexpected error: {err_msg}");
        assert!(err_msg.contains("Timeout"));
    });
}

#[test]
fn test_server_exits_ok_aborts_witness() {
    block_on(async {
        let server = tokio::spawn(server_ending(50, Ok(())));
        let witness = witness_ending(10_000, Ok("witness data".to_string()));
        let result = race(server, witness).await;
        assert!(result.is_err());
        assert!(result.unwrap_err().to_string().contains("Server exited unexpectedly"));
    });
}

#[test]
fn test_witness_completes_before_server() {
    block_on(async {
        let server = tokio::spawn(server_ending(60_000, Ok(())));
        let witness = witness_ending(50, Ok("witness data".to_string()));
        let result = race(server, witness).await;
        assert!(result.is_ok());
        assert_eq!(result.unwrap(), "witness data");
    });
}

#[test]
fn test_witness_error_propagated() {
    block_on(async {
        let server = tokio::spawn(server_ending(60_000, Ok(())));
        let witness = witness_ending(50, Err(anyhow::Error::msg("witness generation failed")));
        let result = race(server, witness).await;
        assert!(result.is_err());
        assert!(result.unwrap_err().to_string().contains("witness generation failed"));
    });
}

#[test]
fn test_server_panic_aborts_witness() {
    block_on(async {
        let server = tokio::spawn(server_crashing());
        let witness = witness_ending(10_000, Ok("should not reach".to_string()));
        let result = race(server, witness).await;
        assert!(result.is_err());
        assert!(result.unwrap_err().to_string().contains("Server task panicked"));
    });
}

#[test]
fn an_abort_is_told_in_full() {
    assert_eq!(
        abort_message(ServerExit::Error { message: "x".to_string() }),
        "Server exited with error: x. Witness generation aborted \u{2014} will retry with a fresh channel."
    );
    assert_eq!(
        abort_message(ServerExit::Early),
        "Server exited unexpectedly before witness generation completed. Witness generation aborted \u{2014} will retry with a fresh channel."
    );
}

#[test]
fn a_reported_header_keeps_its_fields() {
    assert_eq!(convert_header(rpc_header()), header());
}

#[test]
fn the_input_of_a_range_starts_with_what_the_host_was_told() {
    let args = HostArgs {
        l1_head: [1; 32],
        agreed_l2_output_root: [2; 32],
        claimed_l2_output_root: [3; 32],
        claimed_l2_block_number: 4,
    };
    let boot_info = BootInfoWithBytesConfig {
        l1_head: [1; 32],
        l2_output_root: [2; 32],
        l2_claim: [3; 32],
        l2_claim_block: 4,
        chain_id: 5000,
        rollup_config_bytes: b"{}".to_vec(),
    };
    let config = RollupConfigFile { bytes: b"{}".to_vec(), l2_chain_id: 5000 };
    // The preimages follow it.
    assert_eq!(
        get_proof_stdin(&args, config, vec![8, 9]),
        vec![StdinItem::BootInfo { boot_info }, StdinItem::Preimages { bytes: vec![8, 9] }]
    );
}

#[test]
fn only_compressed_proofs_are_aggregated() {
    let boot_infos = vec![BootInfoStruct {
        l1_head: [1; 32],
        l2_pre_root: [2; 32],
        l2_post_root: [3; 32],
        l2_block_number: 4,
        rollup_config_hash: [5; 32],
    }];
    let l1_header = || alloy_consensus::Header { number: 8, ..Default::default() };
    let stdin = get_agg_proof_stdin(
        &[ProofKind::Compressed, ProofKind::Compressed],
        boot_infos.clone(),
        vec![l1_header()],
        [6; 8],
        [7; 32],
    );
    let inputs = AggregationInputs {
        boot_infos: boot_infos.clone(),
        latest_l1_checkpoint_head: [7; 32],
        multi_block_vkey: [6; 8],
    };
    // The proofs come first, and the headers last.
    let mut stdin = stdin.unwrap();
    let Some(StdinItem::Headers { cbor }) = stdin.pop() else { panic!("no headers") };
    assert_eq!(
        stdin,
        vec![
            StdinItem::Proof { index: 0 },
            StdinItem::Proof { index: 1 },
            StdinItem::AggregationInputs { inputs },
        ]
    );
    // An array of one header, which is a map.
    assert_eq!((cbor[0], cbor[1] >> 5), (0x81, 5));
    let read: Vec<alloy_consensus::Header> = serde_cbor::from_slice(&cbor).unwrap();
    assert_eq!(read, vec![l1_header()]);
    assert_eq!(
        get_agg_proof_stdin(
            &[ProofKind::Compressed, ProofKind::Groth16],
            boot_infos,
            vec![l1_header()],
            [6; 8],
            [7; 32]
        ),
        Err(AggStdinError::NotCompressed)
    );
}

#[test]
fn an_aggregation_takes_the_encoding_of_its_headers() {
    let inputs = || AggregationInputs {
        boot_infos: vec![],
        latest_l1_checkpoint_head: [7; 32],
        multi_block_vkey: [6; 8],
    };
    assert_eq!(
        agg_proof_stdin(&[ProofKind::Compressed], inputs(), Some(vec![0x80])),
        Ok(vec![
            StdinItem::Proof { index: 0 },
            StdinItem::AggregationInputs { inputs: inputs() },
            StdinItem::Headers { cbor: vec![0x80] },
        ])
    );
    assert_eq!(
        agg_proof_stdin(&[ProofKind::Compressed], inputs(), None),
        Err(AggStdinError::HeadersNotEncoded)
    );
    assert_eq!(
        agg_proof_stdin(&[ProofKind::Core], inputs(), None),
        Err(AggStdinError::NotCompressed)
    );
}

/// The encoding of transactions.
fn encoded(txs: &[Vec<u8>]) -> Vec<u8> {
    let step = encode_block(1, Some("{}".to_string()), txs);
    let MantleStdinStep::ReadCache { txs_cbor, .. } = step else { panic!("got {step:?}") };
    txs_cbor
}

#[test]
fn transactions_are_an_array_of_byte_strings() {
    assert_eq!(encoded(&[]), vec![0x80]);
    assert_eq!(encoded(&[vec![1], vec![2, 2]]), vec![0x82, 0x41, 1, 0x42, 2, 2]);
    // A length takes as few bytes as it can.
    let heads: [(usize, &[u8]); 7] = [
        (0, &[0x40]),
        (23, &[0x57]),
        (24, &[0x58, 24]),
        (255, &[0x58, 255]),
        (256, &[0x59, 1, 0]),
        (65535, &[0x59, 255, 255]),
        (65536, &[0x5a, 0, 1, 0, 0]),
    ];
    for (len, head) in heads {
        let expected = [&[0x81], head, vec![7; len].as_slice()].concat();
        assert_eq!(encoded(&[vec![7; len]]), expected);
    }
    assert_eq!(encoded(&vec![vec![]; 24])[..3], [0x98, 24, 0x40]);
    assert_eq!(
        encode_block(1, None, &[]),
        MantleStdinStep::Failed { error: StdinError::HeaderNotEncoded }
    );
}

#[test]
fn the_input_of_a_block_holds_its_transactions_in_order() {
    let step = get_mantle_proof_stdin(10);
    assert_eq!(step, MantleStdinStep::FetchPreviousHeader { number: 9, block_number: 10 });
    let step = step.next(MantleStdinEvent::Header { header: rpc_header() });
    assert_eq!(
        step,
        MantleStdinStep::FetchTransactions { block_number: 10, header: header() }
    );
    let mut step = step.next(MantleStdinEvent::Transactions {
        transactions: BlockTransactions::Hashes(vec![[1; 32], [2; 32]]),
    });
    for bytes in [vec![1], vec![2, 2]] {
        assert!(matches!(step, MantleStdinStep::FetchRawTransaction { .. }));
        step = step.next(MantleStdinEvent::RawTransaction { bytes });
    }
    let MantleStdinStep::ReadCache { block_number, header_json, txs_cbor } = &step else {
        panic!("got {step:?}")
    };
    assert_eq!(*block_number, 10);
    let read: alloy_consensus::Header = serde_json::from_str(header_json).unwrap();
    assert_eq!(read, header());
    assert_eq!(*txs_cbor, vec![0x82, 0x41, 1, 0x42, 2, 2]);
    let json = header_json.clone();
    assert_eq!(
        step.next(MantleStdinEvent::Cache { bytes: vec![7, 7] }),
        MantleStdinStep::Done {
            stdin: vec![
                StdinItem::PreviousHeader { json },
                StdinItem::Transactions { cbor: vec![0x82, 0x41, 1, 0x42, 2, 2] },
                StdinItem::Cache { bytes: vec![7, 7] },
            ]
        }
    );
}

#[test]
fn the_input_of_a_block_can_fail() {
    let failed = |error| MantleStdinStep::Failed { error };
    assert_eq!(
        get_mantle_proof_stdin(1).next(MantleStdinEvent::Failed),
        failed(StdinError::BlockNotFound)
    );
    let step = || MantleStdinStep::FetchTransactions { block_number: 10, header: plain_header() };
    assert_eq!(
        step().next(MantleStdinEvent::Transactions { transactions: BlockTransactions::Other }),
        failed(StdinError::NotHashes)
    );
    assert_eq!(
        step().next(MantleStdinEvent::Transactions {
            transactions: BlockTransactions::Hashes(vec![])
        }),
        MantleStdinStep::ReadCache {
            block_number: 10,
            header_json: plain_header_json(),
            txs_cbor: vec![0x80]
        }
    );
    let step = step().next(MantleStdinEvent::Transactions {
        transactions: BlockTransactions::Hashes(vec![[1; 32]]),
    });
    assert_eq!(step.next(MantleStdinEvent::Failed), failed(StdinError::TransactionNotFetched));
}

#[test]
fn blocks_are_executed_under_a_fixed_config() {
    let config = mock_rollup_config();
    assert_eq!(config.l2_chain_id, 5000);
    assert_eq!(config.regolith_time, Some(0));
    assert_eq!(config.shanghai_time, Some(0));
    assert_ne!(ProgramType::Single, ProgramType::Multi);
}
