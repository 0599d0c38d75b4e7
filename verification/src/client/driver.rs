//! The state of the derivation: the safe head and the block that is claimed.
use vstd::prelude::*;

use crate::bytes::cut;
use crate::request::B256;
use crate::types::BlockHeader;

verus! {

/// A block of either chain.
#[derive(Debug, Clone, Copy, PartialEq, Eq)]
pub struct BlockInfo {
    pub hash: B256,
    pub number: u64,
    pub parent_hash: B256,
    pub timestamp: u64,
}

/// The number and the hash of a block.
#[derive(Debug, Clone, Copy, PartialEq, Eq)]
pub struct BlockNumHash {
    pub number: u64,
    pub hash: B256,
}

/// An L2 block, with the L1 block that it was derived from.
#[derive(Debug, Clone, Copy, PartialEq, Eq)]
pub struct L2BlockInfo {
    pub block_info: BlockInfo,
    pub l1_origin: BlockNumHash,
    pub seq_num: u64,
}

/// A header and its hash.
#[derive(Debug, Clone, PartialEq, Eq)]
pub struct SealedHeader {
    pub header: BlockHeader,
    pub hash: B256,
}

/// Two headers are the same.
pub open spec fn same_header(a: BlockHeader, b: BlockHeader) -> bool {
    &&& a.extra_data@ == b.extra_data@
    &&& a == (BlockHeader { extra_data: a.extra_data, ..b })
}

/// The derivation of a range of L2 blocks.
#[derive(Debug, PartialEq, Eq)]
pub struct MultiBlockDerivationDriver {
    /// The current L2 safe head.
    pub l2_safe_head: L2BlockInfo,
    /// The header of the L2 safe head.
    pub l2_safe_head_header: SealedHeader,
    /// The block number of the final L2 block being claimed.
    pub l2_claim_block: u64,
}

/// A copy of a header.
fn copy_header(header: &BlockHeader) -> (copy: BlockHeader)
    ensures
        same_header(copy, *header),
{
    let extra_data: Vec<u8> = cut(header.extra_data.as_slice(), 0, header.extra_data.len());
    assert(extra_data@ =~= header.extra_data@);
    BlockHeader {
        parent_hash: header.parent_hash,
        ommers_hash: header.ommers_hash,
        beneficiary: header.beneficiary,
        state_root: header.state_root,
        transactions_root: header.transactions_root,
        receipts_root: header.receipts_root,
        logs_bloom: header.logs_bloom,
        difficulty: header.difficulty,
        number: header.number,
        gas_limit: header.gas_limit,
        gas_used: header.gas_used,
        timestamp: header.timestamp,
        extra_data,
        mix_hash: header.mix_hash,
        nonce: header.nonce,
        base_fee_per_gas: header.base_fee_per_gas,
        withdrawals_root: header.withdrawals_root,
        blob_gas_used: header.blob_gas_used,
        excess_blob_gas: header.excess_blob_gas,
        parent_beacon_block_root: header.parent_beacon_block_root,
        requests_hash: header.requests_hash,
    }
}

impl MultiBlockDerivationDriver {
    /// A copy of the header of the current L2 safe head.
    pub fn clone_l2_safe_head_header(&self) -> (copy: SealedHeader)
        ensures
            copy.hash == self.l2_safe_head_header.hash,
            same_header(copy.header, self.l2_safe_head_header.header),
    {
        SealedHeader {
            header: copy_header(&self.l2_safe_head_header.header),
            hash: self.l2_safe_head_header.hash,
        }
    }

    /// Moves on to a new safe head. The claimed block stays.
    pub fn update_safe_head(
        &mut self,
        new_safe_head: L2BlockInfo,
        new_safe_head_header: SealedHeader,
    )
        ensures
            *final(self) == (MultiBlockDerivationDriver {
                l2_safe_head: new_safe_head,
                l2_safe_head_header: new_safe_head_header,
                l2_claim_block: old(self).l2_claim_block,
            }),
    {
        self.l2_safe_head = new_safe_head;
        self.l2_safe_head_header = new_safe_head_header;
    }
}

/// The driver moves on to exactly the safe head and the header that it is given, and keeps the
/// block that is claimed.
pub proof fn law_moving_on_keeps_the_claimed_block(
    driver: &mut MultiBlockDerivationDriver,
    head: L2BlockInfo,
    header: SealedHeader,
)
    requires
        call_ensures(MultiBlockDerivationDriver::update_safe_head, (driver, head, header), ()),
    ensures
        final(driver).l2_safe_head == head,
        final(driver).l2_safe_head_header == header,
        final(driver).l2_claim_block == old(driver).l2_claim_block,
{
}

/// The copy of the safe head's header is that header under its hash, field by field.
pub proof fn law_the_copied_header_is_the_safe_heads(
    driver: MultiBlockDerivationDriver,
    copy: SealedHeader,
)
    requires
        call_ensures(MultiBlockDerivationDriver::clone_l2_safe_head_header, (&driver,), copy),
    ensures
        copy.hash@ == driver.l2_safe_head_header.hash@,
        ({
            let a = copy.header;
            let b = driver.l2_safe_head_header.header;
            &&& a.parent_hash == b.parent_hash
            &&& a.ommers_hash == b.ommers_hash
            &&& a.beneficiary == b.beneficiary
            &&& a.state_root == b.state_root
            &&& a.transactions_root == b.transactions_root
            &&& a.receipts_root == b.receipts_root
            &&& a.logs_bloom == b.logs_bloom
            &&& a.difficulty == b.difficulty
            &&& a.number == b.number
            &&& a.gas_limit == b.gas_limit
            &&& a.gas_used == b.gas_used
            &&& a.timestamp == b.timestamp
            &&& a.extra_data@ == b.extra_data@
            &&& a.mix_hash == b.mix_hash
            &&& a.nonce == b.nonce
            &&& a.base_fee_per_gas == b.base_fee_per_gas
            &&& a.withdrawals_root == b.withdrawals_root
            &&& a.blob_gas_used == b.blob_gas_used
            &&& a.excess_blob_gas == b.excess_blob_gas
            &&& a.parent_beacon_block_root == b.parent_beacon_block_root
            &&& a.requests_hash == b.requests_hash
        }),
{
}

} // verus!
