//! What the client program asks the preimage oracle for, and how it reads the answers.
use std::sync::Arc;
use vstd::prelude::*;

use crate::bytes::{be_bytes, be_nat, cut, push_be_u64};
use crate::outside::{decode_header, header_in, keccak_preimage_key};
use crate::request::{Address, B256};

verus! {

/// What a hint is about.
#[derive(Debug, Clone, Copy, PartialEq, Eq, Structural)]
pub enum HintType {
    L2Code,
    L2BlockHeader,
    L2StateNode,
    L2AccountProof,
    L2AccountStorageProof,
    StartingL2Output,
}

/// A hint: it tells the host which preimages will be asked for.
#[derive(Debug, Clone, PartialEq, Eq)]
pub struct Hint {
    pub hint_type: HintType,
    pub data: Vec<u8>,
}

/// A preimage to ask for, and the hint to send before.
#[derive(Debug, Clone, PartialEq, Eq)]
pub struct OracleRequest {
    pub hint: Option<Hint>,
    pub key: [u8; 32],
}

/// The key of the preimage of a Keccak-256 digest.
pub open spec fn keccak_key(digest: Seq<u8>) -> Seq<u8> {
    digest.update(0, 2)
}

/// A request asks for the preimage of a digest, after a hint of this type about it.
pub open spec fn asks_with_hint(request: OracleRequest, hint_type: HintType, digest: Seq<u8>) -> bool {
    &&& request.key@ == keccak_key(digest)
    &&& request.hint is Some
    &&& request.hint->0.hint_type == hint_type
    &&& request.hint->0.data@ == digest
}

/// Why an answer of the oracle could not be used.
#[derive(Debug, Clone, Copy, PartialEq, Eq, Structural)]
pub enum ProviderError {
    /// The preimage of a header hash is not an RLP-encoded header.
    BadHeader,
}

/// The oracle-backed L2 chain provider for the client program.
#[derive(Debug, Clone)]
pub struct OracleL2ChainProvider<T> {
    /// The preimage oracle that the requests are for.
    pub oracle: Arc<T>,
}

/// A copy of a hash as a byte string.
fn hash_data(hash: &B256) -> (data: Vec<u8>)
    ensures
        data@ == hash@,
{
    let data: Vec<u8> = cut(hash.as_slice(), 0, 32);
    assert(data@ =~= hash@);
    data
}

/// Appends bytes.
fn append(data: &mut Vec<u8>, more: &[u8])
    ensures
        final(data)@ == old(data)@ + more@,
{
    let mut i: usize = 0;
    assert(data@ =~= old(data)@ + more@.take(0));
    while i < more.len()
        invariant
            i <= more@.len(),
            data@ == old(data)@ + more@.take(i as int),
        decreases more@.len() - i,
    {
        data.push(more[i]);
        i += 1;
        assert(data@ =~= old(data)@ + more@.take(i as int));
    }
    assert(more@.take(more@.len() as int) =~= more@);
}

impl<T> OracleL2ChainProvider<T> {
    /// The provider that is backed by an oracle.
    pub fn new(oracle: Arc<T>) -> (provider: OracleL2ChainProvider<T>)
        ensures
            provider.oracle == oracle,
    {
        OracleL2ChainProvider { oracle }
    }

    /// The request for a trie node. Trie nodes are stored as Keccak preimages; a hint for them has
    /// been sent before.
    pub fn trie_node_preimage(&self, key: &B256) -> (request: OracleRequest)
        ensures
            request.key@ == keccak_key(key@),
            request.hint is None,
    {
        OracleRequest { hint: None, key: keccak_preimage_key(key) }
    }

    /// The request for the code with a hash.
    pub fn bytecode_by_hash(&self, hash: &B256) -> (request: OracleRequest)
        ensures
            asks_with_hint(request, HintType::L2Code, hash@),
    {
        OracleRequest {
            hint: Some(Hint { hint_type: HintType::L2Code, data: hash_data(hash) }),
            key: keccak_preimage_key(hash),
        }
    }

    /// The request for the header of the block with a hash.
    pub fn header_by_hash(&self, hash: &B256) -> (request: OracleRequest)
        ensures
            asks_with_hint(request, HintType::L2BlockHeader, hash@),
    {
        OracleRequest {
            hint: Some(Hint { hint_type: HintType::L2BlockHeader, data: hash_data(hash) }),
            key: keccak_preimage_key(hash),
        }
    }

    /// The header in the oracle's answer to the request for one.
    pub fn read_header(&self, preimage: &[u8]) -> (header: Result<
        alloy_consensus::Header,
        ProviderError,
    >)
        ensures
            match header_in(preimage@) {
                Some(found) => header == Ok::<_, ProviderError>(found),
                None => header == Err::<alloy_consensus::Header, _>(ProviderError::BadHeader),
            },
    {
        read_decoded(decode_header(preimage))
    }

    /// The hint for the trie node with a hash.
    pub fn hint_trie_node(&self, hash: &B256) -> (hint: Hint)
        ensures
            hint.hint_type == HintType::L2StateNode,
            hint.data@ == hash@,
    {
        Hint { hint_type: HintType::L2StateNode, data: hash_data(hash) }
    }

    /// The hint for the proof of an account at a block: the block number, big-endian, and the
    /// address.
    pub fn hint_account_proof(&self, address: &Address, block_number: u64) -> (hint: Hint)
        ensures
            hint.hint_type == HintType::L2AccountProof,
            hint.data@ == be_bytes(block_number as nat, 8) + address@,
    {
        let mut data: Vec<u8> = Vec::new();
        push_be_u64(&mut data, block_number);
        append(&mut data, address.as_slice());
        assert(data@ =~= be_bytes(block_number as nat, 8) + address@);
        Hint { hint_type: HintType::L2AccountProof, data }
    }

    /// The hint for the proof of a storage slot at a block: the block number, big-endian, the
    /// address and the slot.
    pub fn hint_storage_proof(&self, address: &Address, slot: &B256, block_number: u64) -> (hint:
        Hint)
        ensures
            hint.hint_type == HintType::L2AccountStorageProof,
            hint.data@ == be_bytes(block_number as nat, 8) + address@ + slot@,
    {
        let mut data: Vec<u8> = Vec::new();
        push_be_u64(&mut data, block_number);
        append(&mut data, address.as_slice());
        append(&mut data, slot.as_slice());
        assert(data@ =~= be_bytes(block_number as nat, 8) + address@ + slot@);
        Hint { hint_type: HintType::L2AccountStorageProof, data }
    }
}

/// The header that a preimage was decoded to, or the error where it was not.
pub fn read_decoded(decoded: Option<alloy_consensus::Header>) -> (header: Result<
    alloy_consensus::Header,
    ProviderError,
>)
    ensures
        match decoded {
            Some(found) => header == Ok::<_, ProviderError>(found),
            None => header == Err::<alloy_consensus::Header, _>(ProviderError::BadHeader),
        },
{
    match decoded {
        Some(header) => Ok(header),
        None => Err(ProviderError::BadHeader),
    }
}

/// The request for the output that the client program starts from.
pub fn starting_output_request(agreed_l2_output_root: &B256) -> (request: OracleRequest)
    ensures
        asks_with_hint(request, HintType::StartingL2Output, agreed_l2_output_root@),
{
    OracleRequest {
        hint: Some(
            Hint { hint_type: HintType::StartingL2Output, data: hash_data(agreed_l2_output_root) },
        ),
        key: keccak_preimage_key(agreed_l2_output_root),
    }
}

/// The hints for the same account at different blocks, and for different accounts at the same
/// block, differ.
pub proof fn law_account_hints_are_distinct(a: Seq<u8>, n: u64, b: Seq<u8>, m: u64)
    requires
        a.len() == 20,
        b.len() == 20,
        be_bytes(n as nat, 8) + a == be_bytes(m as nat, 8) + b,
    ensures
        n == m,
        a == b,
{
    reveal_with_fuel(crate::bytes::pow256, 9);
    crate::bytes::lemma_be_round_trip(n as nat, 8);
    crate::bytes::lemma_be_round_trip(m as nat, 8);
    let data = be_bytes(n as nat, 8) + a;
    assert(data.take(8) =~= be_bytes(n as nat, 8));
    assert(data.take(8) =~= be_bytes(m as nat, 8));
    assert(data.skip(8) =~= a);
    assert(data.skip(8) =~= b);
}

/// A preimage is asked for under the hash it is of, byte for byte but for the first, which says
/// that it is the preimage of a Keccak digest. The hint that goes before names the hash, and says
/// whether it is that of code, of a block header, or of the output that the program starts from.
/// For a trie node there is none.
pub proof fn law_preimages_are_asked_for_by_their_hash<T>(
    provider: OracleL2ChainProvider<T>,
    hash: B256,
    node: OracleRequest,
    code: OracleRequest,
    header: OracleRequest,
    output: OracleRequest,
    k: int,
)
    requires
        call_ensures(OracleL2ChainProvider::<T>::trie_node_preimage, (&provider, &hash), node),
        call_ensures(OracleL2ChainProvider::<T>::bytecode_by_hash, (&provider, &hash), code),
        call_ensures(OracleL2ChainProvider::<T>::header_by_hash, (&provider, &hash), header),
        call_ensures(starting_output_request, (&hash,), output),
    ensures
        node.key@[0] == 2 && code.key@[0] == 2 && header.key@[0] == 2 && output.key@[0] == 2,
        0 < k < 32 ==> {
            &&& node.key@[k] == hash@[k]
            &&& code.key@[k] == hash@[k]
            &&& header.key@[k] == hash@[k]
            &&& output.key@[k] == hash@[k]
        },
        node.hint is None,
        code.hint matches Some(hint) && hint.hint_type == HintType::L2Code && hint.data@ == hash@,
        header.hint matches Some(hint) && hint.hint_type == HintType::L2BlockHeader && hint.data@
            == hash@,
        output.hint matches Some(hint) && hint.hint_type == HintType::StartingL2Output && hint.data@
            == hash@,
{
}

/// The hint for a trie node names its hash. The hint for an account's proof writes the block number
/// in its first eight bytes and the address in the next twenty; the hint for a slot's proof writes
/// the slot behind these.
pub proof fn law_hints_name_what_they_are_about<T>(
    provider: OracleL2ChainProvider<T>,
    address: Address,
    slot: B256,
    block_number: u64,
    node: Hint,
    account: Hint,
    storage: Hint,
    k: int,
)
    requires
        call_ensures(OracleL2ChainProvider::<T>::hint_trie_node, (&provider, &slot), node),
        call_ensures(
            OracleL2ChainProvider::<T>::hint_account_proof,
            (&provider, &address, block_number),
            account,
        ),
        call_ensures(
            OracleL2ChainProvider::<T>::hint_storage_proof,
            (&provider, &address, &slot, block_number),
            storage,
        ),
    ensures
        node.hint_type == HintType::L2StateNode,
        node.data@ == slot@,
        account.hint_type == HintType::L2AccountProof,
        account.data@.len() == 28,
        be_nat(account.data@.take(8)) == block_number,
        0 <= k < 20 ==> account.data@[8 + k] == address@[k],
        storage.hint_type == HintType::L2AccountStorageProof,
        storage.data@.len() == 60,
        storage.data@.take(28) == account.data@,
        0 <= k < 32 ==> storage.data@[28 + k] == slot@[k],
{
    reveal_with_fuel(crate::bytes::pow256, 9);
    crate::bytes::lemma_be_round_trip(block_number as nat, 8);
    assert(account.data@.take(8) =~= be_bytes(block_number as nat, 8));
    assert(storage.data@.take(28) =~= account.data@);
}

/// The provider asks the oracle that it was given. A header is read exactly if the preimage starts
/// with one, and is then that one.
pub proof fn law_a_header_is_read_where_there_is_one<T>(
    oracle: Arc<T>,
    provider: OracleL2ChainProvider<T>,
    preimage: &[u8],
    header: Result<alloy_consensus::Header, ProviderError>,
    decoded: Option<alloy_consensus::Header>,
    read: Result<alloy_consensus::Header, ProviderError>,
)
    requires
        call_ensures(OracleL2ChainProvider::<T>::new, (oracle,), provider),
        call_ensures(OracleL2ChainProvider::<T>::read_header, (&provider, preimage), header),
        call_ensures(read_decoded, (decoded,), read),
    ensures
        provider.oracle == oracle,
        header is Ok <==> header_in(preimage@) is Some,
        header matches Ok(found) ==> header_in(preimage@) == Some(found),
        read is Ok <==> decoded is Some,
        read matches Ok(found) ==> decoded == Some(found),
{
}

} // verus!
