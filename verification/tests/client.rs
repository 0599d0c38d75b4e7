//! The client program: blobs, oracle requests, derivation and validation.
use std::sync::Arc;

use op_succinct::client::blobs::{BlobData, BlobDataError, BlobProviderError, BlobStore};
use op_succinct::client::driver::{
    BlockInfo, BlockNumHash, L2BlockInfo, MultiBlockDerivationDriver, SealedHeader,
};
use op_succinct::client::program::{
    advance_to_target, run_opsuccinct_client, safe_head_hash, AdvanceEvent, AdvanceStep, BootInfo,
    ClientError, ClientEvent, ClientStep, DriverError, Tip,
};
use op_succinct::client::provider::{
    read_decoded, starting_output_request, HintType, OracleL2ChainProvider, ProviderError,
};
use op_succinct::types::{
    mantle_outputs, prepare_payload, u32_to_u8, BlockHeader, MantleInputs,
    SEQUENCER_FEE_VAULT_ADDRESS,
};

fn header(number: u64) -> BlockHeader {
    BlockHeader {
        parent_hash: [1; 32],
        ommers_hash: [2; 32],
        beneficiary: [3; 20],
        state_root: [4; 32],
        transactions_root: [5; 32],
        receipts_root: [6; 32],
        logs_bloom: [7; 256],
        difficulty: [0; 32],
        number,
        gas_limit: 30_000_000,
        gas_used: 21_000,
        timestamp: 1_700_000_000,
        extra_data: vec![8, 9],
        mix_hash: [10; 32],
        nonce: [0; 8],
        base_fee_per_gas: Some(7),
        withdrawals_root: None,
        blob_gas_used: None,
        excess_blob_gas: None,
        parent_beacon_block_root: Some([11; 32]),
        requests_hash: None,
    }
}

#[test]
fn a_payload_takes_its_values_from_the_header() {
    let txs = vec![vec![1], vec![2, 3]];
    let attributes = prepare_payload(header(5), txs.clone());
    assert_eq!(attributes.payload_attributes.timestamp, 1_700_000_000);
    assert_eq!(attributes.payload_attributes.prev_randao, [10; 32]);
    assert_eq!(
        attributes.payload_attributes.suggested_fee_recipient,
        SEQUENCER_FEE_VAULT_ADDRESS
    );
    assert_eq!(attributes.payload_attributes.withdrawals, Some(vec![]));
    assert_eq!(attributes.payload_attributes.parent_beacon_block_root, None);
    assert_eq!(attributes.transactions, Some(txs));
    assert_eq!(attributes.no_tx_pool, Some(true));
    assert_eq!(attributes.gas_limit, Some(30_000_000));
    assert_eq!(attributes.base_fee, None);
    assert_eq!(
        alloy_primitives::hex::encode(SEQUENCER_FEE_VAULT_ADDRESS),
        "4200000000000000000000000000000000000011"
    );
}

#[test]
fn the_block_program_commits_to_the_next_number() {
    let inputs = MantleInputs { prev_block_header: header(5), txs: vec![] };
    assert_eq!(mantle_outputs(&inputs).l2_block_number, 6);
}

#[test]
fn words_become_big_endian_bytes() {
    let mut expected = [0; 32];
    expected[..8].copy_from_slice(&[0xde, 0xad, 0xbe, 0xef, 0, 0, 1, 2]);
    expected[31] = 0xff;
    assert_eq!(u32_to_u8([0xdead_beef, 0x102, 0, 0, 0, 0, 0, 0xff]), expected);
}

/// The commitment to a blob of zeros, and the proof for it: the point at infinity.
fn infinity() -> [u8; 48] {
    let mut point = [0; 48];
    point[0] = 0xc0;
    point
}

/// The generator of the group that commitments and proofs are in.
fn generator() -> [u8; 48] {
    let hex = "97f1d3a73197d7942695638c4fa9ac0fc3688c4f9774b905a14e3a3f171bac586c55e83ff97a1aeffb3af00adb22c6bb";
    alloy_primitives::hex::decode(hex).unwrap().try_into().unwrap()
}

/// The versioned hash of the commitment to a blob of zeros.
fn zero_blob_hash() -> [u8; 32] {
    let hex = "010657f37554c781402a22917dee2f75def7ab966d7b770905398eba3c444014";
    alloy_primitives::hex::decode(hex).unwrap().try_into().unwrap()
}

fn zero_blobs(count: usize) -> BlobData {
    BlobData {
        blobs: vec![vec![0; 131072]; count],
        commitments: vec![infinity(); count],
        proofs: vec![infinity(); count],
    }
}

#[test]
fn blobs_are_handed_out_under_their_versioned_hashes() {
    let mut store = BlobStore::from_blob_data(zero_blobs(1)).unwrap();
    assert_eq!(store.get_and_validate_blobs(&[]), Ok(vec![]));
    assert_eq!(
        store.get_and_validate_blobs(&[zero_blob_hash()]),
        Ok(vec![vec![0; 131072]])
    );
    assert_eq!(
        store.get_and_validate_blobs(&[zero_blob_hash()]),
        Err(BlobProviderError::Insufficient { requested: 1, available: 0 })
    );
}

#[test]
fn a_request_for_blobs_can_be_cut() {
    let hash = zero_blob_hash();
    let mut whole = BlobStore::from_blob_data(zero_blobs(2)).unwrap();
    let both = whole.get_and_validate_blobs(&[hash, hash]).unwrap();
    let mut store = BlobStore::from_blob_data(zero_blobs(2)).unwrap();
    let mut parts = store.get_and_validate_blobs(&[hash]).unwrap();
    parts.extend(store.get_and_validate_blobs(&[hash]).unwrap());
    assert_eq!(parts, both);
    assert_eq!(store, whole);
}

#[test]
fn a_wrong_hash_is_named_with_its_place() {
    let mut store = BlobStore::from_blob_data(zero_blobs(2)).unwrap();
    assert_eq!(
        store.get_and_validate_blobs(&[zero_blob_hash(), [9; 32]]),
        Err(BlobProviderError::HashMismatch {
            index: 1,
            expected: [9; 32],
            got: zero_blob_hash()
        })
    );
    // What was looked at is gone.
    assert_eq!(
        store.get_and_validate_blobs(&[zero_blob_hash()]),
        Err(BlobProviderError::Insufficient { requested: 1, available: 0 })
    );
}

#[test]
fn a_request_for_more_blobs_than_there_are_is_refused() {
    let mut store = BlobStore::from_blob_data(zero_blobs(1)).unwrap();
    assert_eq!(
        store.get_and_validate_blobs(&[zero_blob_hash(), zero_blob_hash()]),
        Err(BlobProviderError::Insufficient { requested: 2, available: 1 })
    );
    let mut empty = BlobStore::default();
    assert_eq!(empty.get_and_validate_blobs(&[]), Ok(vec![]));
}

#[test]
fn invalid_blob_proofs_are_refused() {
    // Well-formed, but not a proof for this blob.
    let mut data = zero_blobs(1);
    data.proofs[0] = generator();
    assert_eq!(BlobStore::from_blob_data(data), Err(BlobDataError::InvalidProofs));

    // Not a point at all.
    let mut data = zero_blobs(1);
    data.commitments[0] = [0xff; 48];
    assert_eq!(BlobStore::from_blob_data(data), Err(BlobDataError::Unverifiable));

    // A proof is missing.
    let mut data = zero_blobs(1);
    data.proofs.clear();
    assert_eq!(BlobStore::from_blob_data(data), Err(BlobDataError::Unverifiable));

    let mut data = zero_blobs(1);
    data.blobs[0].pop();
    assert_eq!(BlobStore::from_blob_data(data), Err(BlobDataError::InvalidBlobLength));

    // An empty batch holds.
    assert!(BlobStore::from_blob_data(zero_blobs(0)).is_ok());
}

#[test]
fn preimages_are_asked_for_by_key_and_hint() {
    let provider = OracleL2ChainProvider::new(Arc::new(()));
    let hash = [0xab; 32];
    let mut key = hash;
    key[0] = 2;

    let request = provider.trie_node_preimage(&hash);
    assert_eq!((request.key, request.hint), (key, None));

    for (request, hint_type) in [
        (provider.bytecode_by_hash(&hash), HintType::L2Code),
        (provider.header_by_hash(&hash), HintType::L2BlockHeader),
        (starting_output_request(&hash), HintType::StartingL2Output),
    ] {
        assert_eq!(request.key, key);
        let hint = request.hint.unwrap();
        assert_eq!((hint.hint_type, hint.data), (hint_type, hash.to_vec()));
    }
}

#[test]
fn hints_hold_block_address_and_slot() {
    let provider = OracleL2ChainProvider::new(Arc::new(()));
    let hint = provider.hint_trie_node(&[1; 32]);
    assert_eq!((hint.hint_type, hint.data), (HintType::L2StateNode, vec![1; 32]));

    let hint = provider.hint_account_proof(&[2; 20], 0x0102_0304_0506_0708);
    let mut expected = vec![1, 2, 3, 4, 5, 6, 7, 8];
    expected.extend_from_slice(&[2; 20]);
    assert_eq!((hint.hint_type, &hint.data), (HintType::L2AccountProof, &expected));

    let hint = provider.hint_storage_proof(&[2; 20], &[3; 32], 0x0102_0304_0506_0708);
    expected.extend_from_slice(&[3; 32]);
    assert_eq!((hint.hint_type, hint.data), (HintType::L2AccountStorageProof, expected));
}

#[test]
fn a_header_is_read_from_its_preimage() {
    let provider = OracleL2ChainProvider::new(Arc::new(()));
    let header = alloy_consensus::Header { number: 17, gas_limit: 5, ..Default::default() };
    let rlp = alloy_rlp::encode(&header);
    assert_eq!(provider.read_header(&rlp), Ok(header.clone()));
    assert_eq!(provider.read_header(&[0x01]), Err(ProviderError::BadHeader));
    assert_eq!(provider.read_header(&[]), Err(ProviderError::BadHeader));
    assert_eq!(read_decoded(Some(header.clone())), Ok(header));
    assert_eq!(read_decoded(None), Err(ProviderError::BadHeader));
}

#[test]
fn a_driver_moves_its_safe_head() {
    let info = |number| L2BlockInfo {
        block_info: BlockInfo {
            hash: [1; 32],
            number,
            parent_hash: [2; 32],
            timestamp: 3,
        },
        l1_origin: BlockNumHash { number: 4, hash: [5; 32] },
        seq_num: 6,
    };
    let sealed = |number| SealedHeader { header: header(number), hash: [7; 32] };
    let mut driver = MultiBlockDerivationDriver {
        l2_safe_head: info(1),
        l2_safe_head_header: sealed(1),
        l2_claim_block: 9,
    };
    assert_eq!(driver.clone_l2_safe_head_header(), sealed(1));
    driver.update_safe_head(info(2), sealed(2));
    assert_eq!(driver.l2_safe_head, info(2));
    assert_eq!(driver.clone_l2_safe_head_header(), sealed(2));
    assert_eq!(driver.l2_claim_block, 9);
}

fn tip(number: u64) -> Tip {
    Tip { number, output_root: [number as u8; 32] }
}

#[test]
fn the_derivation_stops_at_its_target() {
    let step = advance_to_target(Some(10));
    assert_eq!(
        step.next(AdvanceEvent::Tip { tip: tip(10) }),
        AdvanceStep::Done { result: Ok(tip(10)) }
    );
    let mut step = step.next(AdvanceEvent::Tip { tip: tip(9) });
    assert_eq!(step, AdvanceStep::ProducePayload { target: Some(10), tip: tip(9) });
    for expected in [
        AdvanceStep::Execute { target: Some(10) },
        AdvanceStep::BuildBlock { target: Some(10) },
        AdvanceStep::ReadOrigin { target: Some(10) },
        AdvanceStep::ReadBlockInfo { target: Some(10) },
        AdvanceStep::ComputeOutputRoot { target: Some(10) },
        AdvanceStep::AdvanceCursor { target: Some(10) },
        AdvanceStep::ReadTip { target: Some(10) },
    ] {
        step = step.next(AdvanceEvent::Succeeded);
        assert_eq!(step, expected);
    }
}

#[test]
fn exhausted_data_moves_the_target_to_the_safe_head() {
    let step = AdvanceStep::ProducePayload { target: Some(10), tip: tip(7) };
    let step = step.next(AdvanceEvent::EndOfSource);
    assert_eq!(step, AdvanceStep::ReadTip { target: Some(7) });
    assert_eq!(
        step.next(AdvanceEvent::Tip { tip: tip(7) }),
        AdvanceStep::Done { result: Ok(tip(7)) }
    );
    // Without a target there is none to move.
    let step = AdvanceStep::ProducePayload { target: None, tip: tip(7) };
    assert_eq!(step.next(AdvanceEvent::EndOfSource), AdvanceStep::ReadTip { target: None });
}

#[test]
fn a_derivation_that_fails_says_where() {
    let failed = |step: AdvanceStep| step.next(AdvanceEvent::Failed);
    let done = |error| AdvanceStep::Done { result: Err(error) };
    let target = Some(10);
    assert_eq!(
        failed(AdvanceStep::ProducePayload { target, tip: tip(7) }),
        done(DriverError::Pipeline)
    );
    // A block that could not be executed is skipped.
    assert_eq!(failed(AdvanceStep::Execute { target }), AdvanceStep::ReadTip { target });
    assert_eq!(failed(AdvanceStep::BuildBlock { target }), done(DriverError::Rlp));
    assert_eq!(failed(AdvanceStep::ReadOrigin { target }), done(DriverError::MissingOrigin));
    assert_eq!(failed(AdvanceStep::ReadBlockInfo { target }), done(DriverError::BlockInfo));
    assert_eq!(failed(AdvanceStep::ComputeOutputRoot { target }), done(DriverError::Executor));
}

fn boot() -> BootInfo {
    BootInfo {
        l1_head: [1; 32],
        agreed_l2_output_root: [2; 32],
        claimed_l2_output_root: [10; 32],
        claimed_l2_block_number: 10,
        chain_id: 5000,
    }
}

#[test]
fn the_safe_head_hash_is_at_the_end_of_the_output() {
    let mut preimage = [0; 128];
    for (i, byte) in preimage.iter_mut().enumerate() {
        *byte = i as u8;
    }
    let hash = safe_head_hash(&preimage);
    assert_eq!(hash[0], 96);
    assert_eq!(hash[31], 127);
}

#[test]
fn a_claim_is_validated_against_the_derived_output_root() {
    let step = run_opsuccinct_client().next(ClientEvent::Boot { boot: boot() });
    assert_eq!(step, ClientStep::FetchOutputPreimage { boot: boot() });
    let step = step.next(ClientEvent::OutputPreimage { preimage: [3; 128] });
    assert_eq!(step, ClientStep::FetchSafeHead { boot: boot(), hash: [3; 32] });
    let step = step.next(ClientEvent::SafeHead { number: 5 });
    assert_eq!(step, ClientStep::SetUpPipeline { boot: boot() });
    let step = step.next(ClientEvent::PipelineReady);
    assert_eq!(step, ClientStep::Advance { boot: boot(), target: 10 });
    assert_eq!(
        step.next(ClientEvent::Advanced { result: Ok(tip(10)) }),
        ClientStep::Done { result: Ok(boot()) }
    );
    assert_eq!(
        step.next(ClientEvent::Advanced { result: Ok(tip(9)) }),
        ClientStep::Done {
            result: Err(ClientError::WrongOutputRoot {
                number: 9,
                claimed: [10; 32],
                got: [9; 32]
            })
        }
    );
    assert_eq!(
        step.next(ClientEvent::Advanced { result: Err(DriverError::Rlp) }),
        ClientStep::Done { result: Err(ClientError::Driver { error: DriverError::Rlp }) }
    );
}

#[test]
fn a_claim_below_the_safe_head_is_invalid() {
    let step = ClientStep::FetchSafeHead { boot: boot(), hash: [3; 32] };
    assert_eq!(
        step.next(ClientEvent::SafeHead { number: 11 }),
        ClientStep::Done {
            result: Err(ClientError::ClaimBelowSafeHead { claimed: 10, safe: 11 })
        }
    );
    assert_eq!(
        step.next(ClientEvent::SafeHead { number: 10 }),
        ClientStep::SetUpPipeline { boot: boot() }
    );
}

#[test]
fn an_agreed_claim_needs_no_derivation() {
    let boot = BootInfo { claimed_l2_output_root: [2; 32], ..boot() };
    let step = ClientStep::FetchSafeHead { boot, hash: [3; 32] };
    assert_eq!(
        step.next(ClientEvent::SafeHead { number: 10 }),
        ClientStep::Done { result: Ok(boot) }
    );
}

#[test]
fn a_client_that_cannot_read_says_what() {
    assert_eq!(
        run_opsuccinct_client().next(ClientEvent::Failed),
        ClientStep::Done { result: Err(ClientError::BootInfo) }
    );
    assert_eq!(
        ClientStep::FetchOutputPreimage { boot: boot() }.next(ClientEvent::Failed),
        ClientStep::Done { result: Err(ClientError::Oracle) }
    );
}

#[test]
fn a_request_for_blobs_can_be_cut_in_two() {
    let mut whole = BlobStore::from_blob_data(zero_blobs(2)).unwrap();
    let mut cut = BlobStore::from_blob_data(zero_blobs(2)).unwrap();
    let hash = zero_blob_hash();
    let together = whole.get_and_validate_blobs(&[hash, hash]).unwrap();
    let mut one_by_one = cut.get_and_validate_blobs(&[hash]).unwrap();
    one_by_one.extend(cut.get_and_validate_blobs(&[hash]).unwrap());
    assert_eq!(together, one_by_one);
    assert_eq!(whole, cut);
}

#[test]
fn hints_for_other_blocks_or_accounts_differ() {
    let provider = OracleL2ChainProvider::new(Arc::new(()));
    let hint = provider.hint_account_proof(&[2; 20], 1);
    assert_ne!(hint.data, provider.hint_account_proof(&[2; 20], 2).data);
    assert_ne!(hint.data, provider.hint_account_proof(&[3; 20], 1).data);
}

#[test]
fn different_vkeys_have_different_bytes() {
    assert_ne!(u32_to_u8([1, 0, 0, 0, 0, 0, 0, 0]), u32_to_u8([0, 1, 0, 0, 0, 0, 0, 0]));
}

#[test]
fn a_provider_asks_the_oracle_it_was_given() {
    let oracle = Arc::new("an oracle");
    let provider = OracleL2ChainProvider::new(oracle.clone());
    assert!(Arc::ptr_eq(&provider.oracle, &oracle));
    assert!(Arc::ptr_eq(&provider.clone().oracle, &oracle));
}
