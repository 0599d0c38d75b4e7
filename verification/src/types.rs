//! The values that the client programs take in and give out.
use vstd::prelude::*;

use crate::bytes::{be_bytes, be_nat, lemma_be_bytes_len};
use crate::request::{Address, B256};

verus! {

/// The account that the fees of a block go to.
pub const SEQUENCER_FEE_VAULT_ADDRESS: Address = [
    0x42, 0x00, 0x00, 0x00, 0x00, 0x00, 0x00, 0x00, 0x00, 0x00, 0x00, 0x00, 0x00, 0x00, 0x00, 0x00,
    0x00, 0x00, 0x00, 0x11,
];

/// A block header.
#[derive(Debug, Clone, PartialEq, Eq)]
pub struct BlockHeader {
    pub parent_hash: B256,
    pub ommers_hash: B256,
    pub beneficiary: Address,
    pub state_root: B256,
    pub transactions_root: B256,
    pub receipts_root: B256,
    pub logs_bloom: [u8; 256],
    /// A big-endian number.
    pub difficulty: B256,
    pub number: u64,
    pub gas_limit: u64,
    pub gas_used: u64,
    pub timestamp: u64,
    pub extra_data: Vec<u8>,
    pub mix_hash: B256,
    pub nonce: [u8; 8],
    pub base_fee_per_gas: Option<u64>,
    pub withdrawals_root: Option<B256>,
    pub blob_gas_used: Option<u64>,
    pub excess_blob_gas: Option<u64>,
    pub parent_beacon_block_root: Option<B256>,
    pub requests_hash: Option<B256>,
}

/// What one execution range is about.
#[derive(Debug, Clone, Copy, PartialEq, Eq)]
pub struct BootInfoStruct {
    pub l1_head: B256,
    pub l2_pre_root: B256,
    pub l2_post_root: B256,
    pub l2_block_number: u64,
    pub rollup_config_hash: B256,
}

/// What the aggregation program takes in.
#[derive(Debug, Clone, PartialEq, Eq)]
pub struct AggregationInputs {
    pub boot_infos: Vec<BootInfoStruct>,
    pub latest_l1_checkpoint_head: B256,
    pub multi_block_vkey: [u32; 8],
}

/// What the block program takes in.
#[derive(Debug, Clone, PartialEq, Eq)]
pub struct MantleInputs {
    pub prev_block_header: BlockHeader,
    pub txs: Vec<Vec<u8>>,
}

/// What the aggregation program commits to.
#[derive(Debug, Clone, Copy, PartialEq, Eq)]
pub struct AggregationOutputs {
    pub l1_head: B256,
    pub l2_pre_root: B256,
    pub l2_post_root: B256,
    pub l2_block_number: u64,
    pub rollup_config_hash: B256,
    pub multi_block_vkey: B256,
}

/// What the block program commits to.
#[derive(Debug, Clone, Copy, PartialEq, Eq, Structural)]
pub struct MantleOutputs {
    pub l2_block_number: u64,
}

/// A withdrawal from the beacon chain.
#[derive(Debug, Clone, Copy, PartialEq, Eq)]
pub struct Withdrawal {
    pub index: u64,
    pub validator_index: u64,
    pub address: Address,
    pub amount: u64,
}

/// The part of the payload attributes that every chain has.
#[derive(Debug, Clone, PartialEq, Eq)]
pub struct PayloadAttributes {
    pub timestamp: u64,
    pub prev_randao: B256,
    pub suggested_fee_recipient: Address,
    pub withdrawals: Option<Vec<Withdrawal>>,
    pub parent_beacon_block_root: Option<B256>,
}

/// What the next block is to be made of.
#[derive(Debug, Clone, PartialEq, Eq)]
pub struct OpPayloadAttributes {
    pub payload_attributes: PayloadAttributes,
    pub transactions: Option<Vec<Vec<u8>>>,
    pub no_tx_pool: Option<bool>,
    pub gas_limit: Option<u64>,
    pub base_fee: Option<u64>,
}

/// The attributes of a block with exactly these transactions, whose time, randomness and gas limit
/// are taken from a header.
pub fn prepare_payload(header: BlockHeader, txs: Vec<Vec<u8>>) -> (attributes: OpPayloadAttributes)
    ensures
        attributes.payload_attributes.timestamp == header.timestamp,
        attributes.payload_attributes.prev_randao == header.mix_hash,
        attributes.payload_attributes.suggested_fee_recipient == SEQUENCER_FEE_VAULT_ADDRESS,
        attributes.payload_attributes.parent_beacon_block_root is None,
        attributes.payload_attributes.withdrawals is Some,
        attributes.payload_attributes.withdrawals->0@.len() == 0,
        attributes.transactions == Some(txs),
        attributes.no_tx_pool == Some(true),
        attributes.gas_limit == Some(header.gas_limit),
        attributes.base_fee is None,
{
    OpPayloadAttributes {
        payload_attributes: PayloadAttributes {
            timestamp: header.timestamp,
            prev_randao: header.mix_hash,
            suggested_fee_recipient: SEQUENCER_FEE_VAULT_ADDRESS,
            parent_beacon_block_root: None,
            withdrawals: Some(Vec::new()),
        },
        transactions: Some(txs),
        no_tx_pool: Some(true),
        gas_limit: Some(header.gas_limit),
        base_fee: None,
    }
}

/// What the block program commits to: the number of the block that follows its input.
pub fn mantle_outputs(inputs: &MantleInputs) -> (outputs: MantleOutputs)
    requires
        inputs.prev_block_header.number < u64::MAX,
    ensures
        outputs.l2_block_number == inputs.prev_block_header.number + 1,
{
    MantleOutputs { l2_block_number: inputs.prev_block_header.number + 1 }
}

/// Words, one after the other, each as four big-endian bytes.
pub open spec fn words_to_bytes(words: Seq<u32>) -> Seq<u8>
    decreases words.len(),
{
    if words.len() == 0 {
        Seq::empty()
    } else {
        words_to_bytes(words.drop_last()) + be_bytes(words.last() as nat, 4)
    }
}

/// Words take four bytes each.
proof fn lemma_words_to_bytes_len(words: Seq<u32>)
    ensures
        words_to_bytes(words).len() == 4 * words.len(),
    decreases words.len(),
{
    if words.len() > 0 {
        lemma_words_to_bytes_len(words.drop_last());
        lemma_be_bytes_len(words.last() as nat, 4);
    }
}

/// Convert a u32 array to a u8 array. Useful for converting the range vkey to a hash.
pub fn u32_to_u8(input: [u32; 8]) -> (output: [u8; 32])
    ensures
        output@ == words_to_bytes(input@),
{
    let mut output: [u8; 32] = [0; 32];
    let mut i: usize = 0;
    assert(input@.take(0) =~= Seq::<u32>::empty());
    while i < 8
        invariant
            i <= 8,
            input@.len() == 8,
            output@.len() == 32,
            words_to_bytes(input@.take(i as int)).len() == 4 * i,
            output@.take(4 * i) == words_to_bytes(input@.take(i as int)),
        decreases 8 - i,
    {
        let ghost before = output@;
        let value: u32 = input[i];
        output[4 * i] = (value / 0x100_0000) as u8;
        output[4 * i + 1] = (value / 0x1_0000 % 0x100) as u8;
        output[4 * i + 2] = (value / 0x100 % 0x100) as u8;
        output[4 * i + 3] = (value % 0x100) as u8;
        proof {
            let next = input@.take(i + 1);
            assert(next.drop_last() =~= input@.take(i as int));
            assert(next.last() == value);
            lemma_words_to_bytes_len(next);
            reveal_with_fuel(be_bytes, 5);
            assert((value as nat / 256) / 256 == value as nat / 0x1_0000) by (nonlinear_arith);
            assert((value as nat / 0x1_0000) / 256 == value as nat / 0x100_0000) by (nonlinear_arith);
            assert(value as nat / 0x100_0000 < 256) by (nonlinear_arith)
                requires
                    value as nat <= 0xffff_ffff,
            ;
            let bytes = be_bytes(value as nat, 4);
            assert(bytes.len() == 4);
            assert(bytes[0] == (value / 0x100_0000) as u8);
            assert(bytes[1] == (value / 0x1_0000 % 0x100) as u8);
            assert(bytes[2] == (value / 0x100 % 0x100) as u8);
            assert(bytes[3] == (value % 0x100) as u8);
            assert(output@.take(4 * i) =~= before.take(4 * i));
            assert(output@.take(4 * (i + 1)) =~= output@.take(4 * i) + bytes);
        }
        i += 1;
    }
    assert(input@.take(8) =~= input@);
    assert(output@.take(32) =~= output@);
    output
}

/// Different vkeys have different bytes.
pub proof fn law_vkey_bytes_are_injective(a: Seq<u32>, b: Seq<u32>)
    requires
        a.len() == b.len(),
        words_to_bytes(a) == words_to_bytes(b),
    ensures
        a == b,
    decreases a.len(),
{
    if a.len() > 0 {
        lemma_words_to_bytes_len(a.drop_last());
        lemma_words_to_bytes_len(b.drop_last());
        lemma_be_bytes_len(a.last() as nat, 4);
        lemma_be_bytes_len(b.last() as nat, 4);
        let n = 4 * (a.len() - 1);
        let bytes = words_to_bytes(a);
        assert(bytes.take(n) =~= words_to_bytes(a.drop_last()));
        assert(bytes.take(n) =~= words_to_bytes(b.drop_last()));
        assert(bytes.skip(n) =~= be_bytes(a.last() as nat, 4));
        assert(bytes.skip(n) =~= be_bytes(b.last() as nat, 4));
        law_vkey_bytes_are_injective(a.drop_last(), b.drop_last());
        reveal_with_fuel(crate::bytes::pow256, 5);
        crate::bytes::lemma_be_round_trip(a.last() as nat, 4);
        crate::bytes::lemma_be_round_trip(b.last() as nat, 4);
        assert(a =~= a.drop_last().push(a.last()));
        assert(b =~= b.drop_last().push(b.last()));
    } else {
        assert(a =~= b);
    }
}

/// A key's bytes are its words, one after the other, each as the four big-endian bytes that write
/// it.
pub proof fn law_vkey_bytes_write_the_words(input: [u32; 8], output: [u8; 32], i: int)
    requires
        0 <= i < 8,
        call_ensures(u32_to_u8, (input,), output),
    ensures
        be_nat(output@.subrange(4 * i, 4 * i + 4)) == input@[i],
{
    lemma_word_in_bytes(input@, i);
}

/// Each word stands in its place among the bytes.
pub(crate) proof fn lemma_word_in_bytes(words: Seq<u32>, i: int)
    requires
        0 <= i < words.len(),
    ensures
        words_to_bytes(words).len() == 4 * words.len(),
        be_nat(words_to_bytes(words).subrange(4 * i, 4 * i + 4)) == words[i],
    decreases words.len(),
{
    let front = words.drop_last();
    let bytes = words_to_bytes(words);
    lemma_words_to_bytes_len(words);
    lemma_words_to_bytes_len(front);
    lemma_be_bytes_len(words.last() as nat, 4);
    if i < front.len() {
        lemma_word_in_bytes(front, i);
        assert(bytes.subrange(4 * i, 4 * i + 4) =~= words_to_bytes(front).subrange(4 * i, 4 * i + 4));
        assert(front[i] == words[i]);
    } else {
        assert(bytes.subrange(4 * i, 4 * i + 4) =~= be_bytes(words.last() as nat, 4));
        reveal_with_fuel(crate::bytes::pow256, 5);
        crate::bytes::lemma_be_round_trip(words.last() as nat, 4);
    }
}

/// The next block is made of exactly the given transactions, none from the pool, at the time, with
/// the randomness and under the gas limit of the header. Its fees go to the sequencer's vault, and
/// it holds no withdrawal.
pub proof fn law_a_payload_is_made_of_its_header_and_transactions(
    header: BlockHeader,
    txs: Vec<Vec<u8>>,
    attributes: OpPayloadAttributes,
    i: int,
)
    requires
        call_ensures(prepare_payload, (header, txs), attributes),
    ensures
        attributes.transactions is Some,
        attributes.transactions->0@.len() == txs@.len(),
        0 <= i < txs@.len() ==> attributes.transactions->0@[i]@ == txs@[i]@,
        attributes.no_tx_pool == Some(true),
        attributes.gas_limit == Some(header.gas_limit),
        attributes.base_fee is None,
        attributes.payload_attributes.timestamp == header.timestamp,
        attributes.payload_attributes.prev_randao@ == header.mix_hash@,
        attributes.payload_attributes.parent_beacon_block_root is None,
        attributes.payload_attributes.withdrawals matches Some(withdrawals) && withdrawals@.len() == 0,
        0 < i < 19 ==> attributes.payload_attributes.suggested_fee_recipient@[i] == 0,
        attributes.payload_attributes.suggested_fee_recipient@[0] == 0x42,
        attributes.payload_attributes.suggested_fee_recipient@[19] == 0x11,
{
}

/// The block program is about the block right after the one it is given.
pub proof fn law_the_output_is_about_the_next_block(inputs: MantleInputs, outputs: MantleOutputs)
    requires
        inputs.prev_block_header.number < u64::MAX,
        call_ensures(mantle_outputs, (&inputs,), outputs),
    ensures
        outputs.l2_block_number > inputs.prev_block_header.number,
        outputs.l2_block_number - inputs.prev_block_header.number == 1,
{
}

} // verus!
