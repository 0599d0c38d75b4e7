//! The calls into other crates that the library makes, each behind a contract that is taken on
//! trust.
use alloy_json_rpc::RpcError;
use alloy_primitives::Bytes;
use alloy_sol_types::{ContractError, GenericContractError, SolInterface};
use alloy_transport::TransportErrorKind;
use vstd::prelude::*;
use vstd::utf8::{decode_utf8, valid_utf8};

use crate::bytes::{be_bytes, be_nat};
use crate::hex::{json_hex, spec_decode_hex, spec_parse_b256};

verus! {

/// `anyhow::Error`, carried through as it is.
#[verifier::external_type_specification]
#[verifier::external_body]
pub struct ExAnyhowError(anyhow::Error);

/// `alloy_transport::TransportErrorKind`, which an RPC error may hold.
#[verifier::external_type_specification]
#[verifier::external_body]
pub struct ExTransportErrorKind(TransportErrorKind);

/// `serde_json::value::RawValue`, the data of an error response that an RPC error may hold.
#[verifier::external_type_specification]
#[verifier::external_body]
pub struct ExRawValue(serde_json::value::RawValue);

/// `alloy_json_rpc::RpcError`, carried through as it is.
#[verifier::external_type_specification]
#[verifier::external_body]
#[verifier::reject_recursive_types(E)]
#[verifier::reject_recursive_types(ErrResp)]
pub struct ExRpcError<E, ErrResp>(RpcError<E, ErrResp>);

/// `tokio::time::error::Elapsed`, which says that a call took too long.
#[verifier::external_type_specification]
#[verifier::external_body]
pub struct ExElapsed(tokio::time::error::Elapsed);

/// `alloy_consensus::Header`, carried through as it is.
#[verifier::external_type_specification]
#[verifier::external_body]
pub struct ExHeader(alloy_consensus::Header);

/// The selector of `Error(string)`, which `require` reverts with.
pub const REVERT_SELECTOR: [u8; 4] = [0x08, 0xc3, 0x79, 0xa0];

/// The selector of `Panic(uint256)`, which `assert` and checked arithmetic revert with.
pub const PANIC_SELECTOR: [u8; 4] = [0x4e, 0x48, 0x7b, 0x71];

/// One of the two errors that every Solidity contract can revert with.
pub enum StandardError {
    /// `Error(string)`, with its reason.
    Revert { reason: String },
    /// `Panic(uint256)`, with its code as 32 big-endian bytes.
    Panic { code: [u8; 32] },
}

/// The mathematical content of a [`StandardError`].
pub enum StandardErrorView {
    Revert { reason: Seq<char> },
    Panic { code: nat },
}

impl View for StandardError {
    type V = StandardErrorView;

    open spec fn view(&self) -> StandardErrorView {
        match *self {
            StandardError::Revert { reason } => StandardErrorView::Revert { reason: reason@ },
            StandardError::Panic { code } => StandardErrorView::Panic { code: be_nat(code@) },
        }
    }
}

/// The content of an optional value.
pub open spec fn option_view<T: View>(value: Option<T>) -> Option<T::V> {
    match value {
        Some(v) => Some(v@),
        None => None,
    }
}

/// The bytes of the string that `body`, the arguments of `Error(string)`, encodes: the first word
/// is the offset of the string, the word there its length, and its bytes follow.
pub open spec fn abi_string_bytes(body: Seq<u8>) -> Option<Seq<u8>> {
    if body.len() < 32 || be_nat(body.take(32)) > body.len() {
        None
    } else {
        let string = body.skip(be_nat(body.take(32)) as int);
        if string.len() < 32 || be_nat(string.take(32)) > string.len() - 32 {
            None
        } else {
            Some(string.subrange(32, 32 + be_nat(string.take(32)) as int))
        }
    }
}

/// What `String::from_utf8_lossy` makes of bytes that are not UTF-8.
pub uninterp spec fn utf8_lossy(bytes: Seq<u8>) -> Seq<char>;

/// The bytes of the reason in revert data that holds an `Error(string)`.
pub open spec fn reason_bytes(data: Seq<u8>) -> Seq<u8> {
    match abi_string_bytes(data.skip(4)) {
        Some(bytes) => bytes,
        None => Seq::empty(),
    }
}

/// The standard error that revert data encodes.
pub open spec fn standard_error(data: Seq<u8>) -> Option<StandardErrorView> {
    decoded_error(data, utf8_lossy(reason_bytes(data)))
}

/// The standard error that revert data encodes, where `lossy` is what is made of a reason that is
/// not UTF-8.
pub open spec fn decoded_error(data: Seq<u8>, lossy: Seq<char>) -> Option<StandardErrorView> {
    if data.len() < 36 {
        None
    } else if data.take(4) == REVERT_SELECTOR@ {
        match abi_string_bytes(data.skip(4)) {
            Some(bytes) => Some(
                StandardErrorView::Revert {
                    reason: if valid_utf8(bytes) {
                        decode_utf8(bytes)
                    } else {
                        lossy
                    },
                },
            ),
            None => None,
        }
    } else if data.take(4) == PANIC_SELECTOR@ {
        Some(StandardErrorView::Panic { code: be_nat(data.subrange(4, 36)) })
    } else {
        None
    }
}

/// Calls `alloy_sol_types::GenericContractError::abi_decode`.
///
/// Claims that it reads `Error(string)` and `Panic(uint256)` by their selectors and the ABI's
/// layout, tolerating bytes behind what it reads, and refuses everything else. A reason that is not
/// UTF-8 is read as `String::from_utf8_lossy` reads it; what that is, is not stated.
#[verifier::external_body]
pub(crate) fn decode_standard_error(data: &[u8]) -> (error: Option<StandardError>)
    ensures
        option_view(error) == decoded_error(data@, utf8_lossy(reason_bytes(data@))),
{
    match GenericContractError::abi_decode(data) {
        Ok(ContractError::Revert(revert)) => Some(StandardError::Revert { reason: revert.reason }),
        Ok(ContractError::Panic(panic)) => Some(
            StandardError::Panic { code: panic.code.to_be_bytes::<32>() },
        ),
        _ => None,
    }
}

/// The answer of a JSON-RPC server that refused a request.
#[derive(Debug, Clone, PartialEq, Eq)]
pub struct ErrorResponse {
    pub code: i64,
    pub message: String,
    /// The JSON text of the `data` field.
    pub data: Option<String>,
}

/// The mathematical content of an [`ErrorResponse`].
pub struct ErrorResponseView {
    pub code: int,
    pub message: Seq<char>,
    pub data: Option<Seq<char>>,
}

impl View for ErrorResponse {
    type V = ErrorResponseView;

    open spec fn view(&self) -> ErrorResponseView {
        ErrorResponseView {
            code: self.code as int,
            message: self.message@,
            data: option_view(self.data),
        }
    }
}

/// The server's answer that an RPC error carries.
pub uninterp spec fn error_response_in(err: RpcError<TransportErrorKind>) -> Option<
    ErrorResponseView,
>;

/// Calls `alloy_json_rpc::RpcError::as_error_resp`, and copies code, message and data out of the
/// `ErrorPayload`.
///
/// Claims that the answer is a function of the error.
#[verifier::external_body]
pub(crate) fn error_response(err: &RpcError<TransportErrorKind>) -> (response: Option<ErrorResponse>)
    ensures
        option_view(response) == error_response_in(*err),
{
    match err.as_error_resp() {
        Some(payload) => Some(
            ErrorResponse {
                code: payload.code,
                message: payload.message.to_string(),
                data: payload.data.as_ref().map(|raw| raw.get().to_string()),
            },
        ),
        None => None,
    }
}

/// The bytes that a JSON text holds, where it holds bytes.
pub uninterp spec fn json_bytes(text: Seq<char>) -> Option<Seq<u8>>;

/// Calls `serde_json::from_str` for an `alloy_primitives::Bytes`.
///
/// Claims that the result is a function of the text, and that a string of hexadecimal digits behind
/// `0x` is read as the bytes it writes. What the other accepted forms give is not stated.
#[verifier::external_body]
pub(crate) fn parse_json_bytes(text: &str) -> (bytes: Option<Vec<u8>>)
    ensures
        option_view(bytes) == json_bytes(text@),
        forall|b: Seq<u8>| text@ == #[trigger] json_hex(b) ==> option_view(bytes) == Some(b),
{
    match serde_json::from_str::<Bytes>(text) {
        Ok(bytes) => Some(bytes.to_vec()),
        Err(_) => None,
    }
}

/// The RPC error that an error wraps, directly or behind layers of context.
pub uninterp spec fn rpc_error_in(err: anyhow::Error) -> Option<RpcError<TransportErrorKind>>;

/// Calls `anyhow::Error::downcast_ref` for an `RpcError<TransportErrorKind>`.
///
/// Claims that the result is a function of the error.
#[verifier::external_body]
pub(crate) fn downcast_rpc_error(err: &anyhow::Error) -> (inner: Option<
    &RpcError<TransportErrorKind>,
>)
    ensures
        inner is Some <==> rpc_error_in(*err) is Some,
        inner is Some ==> *inner->0 == rpc_error_in(*err)->0,
{
    err.downcast_ref::<RpcError<TransportErrorKind>>()
}

/// A text is one that an error can be rendered as for debugging.
///
/// An error does not fix that text: a captured backtrace is resolved when it is printed, and the
/// text of an operating system error comes from the operating system.
pub uninterp spec fn renders_as(err: anyhow::Error, text: Seq<char>) -> bool;

/// Formats an `anyhow::Error` with `{:?}`.
///
/// Claims only that the result is one of the texts that the error can be rendered as. What they
/// hold is not stated.
#[verifier::external_body]
pub(crate) fn debug_rendering(err: &anyhow::Error) -> (text: String)
    ensures
        renders_as(*err, text@),
{
    format!("{err:?}")
}

/// A text is one that an error can be shown to a user as.
pub uninterp spec fn displays_as(err: anyhow::Error, text: Seq<char>) -> bool;

/// Formats an `anyhow::Error` with `{}`.
///
/// Claims only that the result is one of the texts that the error can be shown as. What they hold is
/// not stated: the text of an operating system error comes from the operating system.
#[verifier::external_body]
pub(crate) fn display_rendering(err: &anyhow::Error) -> (text: String)
    ensures
        displays_as(*err, text@),
{
    format!("{err}")
}

/// The number of the gRPC code of the `tonic::Status` that an error wraps, directly or behind
/// layers of context.
pub uninterp spec fn grpc_code_in(err: anyhow::Error) -> Option<i32>;

/// Calls `anyhow::Error::downcast_ref` for a `tonic::Status`, and takes the number of its code.
///
/// Claims that the result is a function of the error.
#[verifier::external_body]
pub(crate) fn downcast_grpc_code(err: &anyhow::Error) -> (code: Option<i32>)
    ensures
        code == grpc_code_in(*err),
{
    match err.downcast_ref::<tonic::Status>() {
        Some(status) => Some(i32::from(status.code())),
        None => None,
    }
}

/// The number in a header.
pub uninterp spec fn header_number_of(header: alloy_consensus::Header) -> u64;

/// Takes the field `number` of an `alloy_consensus::Header`.
///
/// Claims that the number is a function of the header.
#[verifier::external_body]
pub(crate) fn header_number(header: &alloy_consensus::Header) -> (number: u64)
    ensures
        number == header_number_of(*header),
{
    header.number
}

/// The hash of a header, which names its block.
pub uninterp spec fn header_hash_of(header: alloy_consensus::Header) -> Seq<u8>;

/// Calls `alloy_consensus::Header::hash_slow`.
///
/// Claims that the hash is a function of the header.
#[verifier::external_body]
pub(crate) fn header_hash(header: &alloy_consensus::Header) -> (hash: [u8; 32])
    ensures
        hash@ == header_hash_of(*header),
{
    header.hash_slow().0
}

/// The JSON text of a header, where it has one.
pub uninterp spec fn header_json_of(header: alloy_consensus::Header) -> Option<Seq<char>>;

/// Calls `serde_json::to_string` for an `alloy_consensus::Header`.
///
/// Claims that the text is a function of the header. What it holds is not stated.
#[verifier::external_body]
pub(crate) fn header_json(header: &alloy_consensus::Header) -> (text: Option<String>)
    ensures
        option_view(text) == header_json_of(*header),
{
    serde_json::to_string(header).ok()
}

/// The CBOR encoding of headers, where they have one.
pub uninterp spec fn headers_cbor_of(headers: Seq<alloy_consensus::Header>) -> Option<Seq<u8>>;

/// Calls `serde_cbor::to_vec` for a list of `alloy_consensus::Header`s.
///
/// Claims that the bytes are a function of the headers. What they are is not stated.
#[verifier::external_body]
pub(crate) fn headers_cbor(headers: &Vec<alloy_consensus::Header>) -> (bytes: Option<Vec<u8>>)
    ensures
        option_view(bytes) == headers_cbor_of(headers@),
{
    serde_cbor::to_vec(headers).ok()
}

/// The head of a CBOR item: its major type, and its argument in as few bytes as the format allows.
pub open spec fn cbor_head(major: nat, argument: nat) -> Seq<u8> {
    let initial = |info: nat| seq![(32 * major + info) as u8];
    if argument < 24 {
        initial(argument)
    } else if argument < 0x100 {
        initial(24) + be_bytes(argument, 1)
    } else if argument < 0x1_0000 {
        initial(25) + be_bytes(argument, 2)
    } else if argument < 0x1_0000_0000 {
        initial(26) + be_bytes(argument, 4)
    } else {
        initial(27) + be_bytes(argument, 8)
    }
}

/// Byte strings in CBOR, one after the other.
pub open spec fn cbor_byte_strings(items: Seq<Seq<u8>>) -> Seq<u8>
    decreases items.len(),
{
    if items.len() == 0 {
        Seq::empty()
    } else {
        cbor_byte_strings(items.drop_last()) + cbor_head(2, items.last().len()) + items.last()
    }
}

/// A CBOR array of byte strings.
pub open spec fn cbor_array(items: Seq<Seq<u8>>) -> Seq<u8> {
    cbor_head(4, items.len()) + cbor_byte_strings(items)
}

/// Calls `serde_cbor::to_vec` for a list of `alloy_primitives::Bytes`, which does not fail.
///
/// Claims that it writes an array of byte strings, each with the shortest head that holds its length.
#[verifier::external_body]
pub(crate) fn byte_strings_cbor(items: &[Vec<u8>]) -> (bytes: Vec<u8>)
    ensures
        bytes@ == cbor_array(contents(items@)),
{
    let items: Vec<Bytes> = items.iter().map(|item| Bytes::copy_from_slice(item)).collect();
    serde_cbor::to_vec(&items).unwrap()
}

/// Calls `alloy_primitives::hex::decode`.
///
/// Claims that it reads pairs of hexadecimal digits of either case, behind an optional `0x`, and
/// refuses everything else.
#[verifier::external_body]
pub(crate) fn decode_hex(text: &str) -> (bytes: Option<Vec<u8>>)
    ensures
        option_view(bytes) == spec_decode_hex(text@),
{
    match alloy_primitives::hex::decode(text) {
        Ok(bytes) => Some(bytes),
        Err(_) => None,
    }
}

/// Calls `alloy_primitives::B256::from_str`.
///
/// Claims that it reads what `hex::decode` reads, if that is 32 bytes long, and refuses everything
/// else.
#[verifier::external_body]
pub(crate) fn parse_b256(text: &str) -> (hash: Option<[u8; 32]>)
    ensures
        option_view(hash) == spec_parse_b256(text@),
{
    match text.parse::<alloy_primitives::B256>() {
        Ok(hash) => Some(hash.0),
        Err(_) => None,
    }
}

/// The number of bytes in a blob.
pub const BYTES_PER_BLOB: usize = 131072;

/// The versioned hash of a KZG commitment.
pub uninterp spec fn versioned_hash_of(commitment: Seq<u8>) -> Seq<u8>;

/// Calls `alloy_eips::eip4844::kzg_to_versioned_hash`.
///
/// Claims that the hash is a function of the commitment, and that its first byte is the version of
/// KZG commitments.
#[verifier::external_body]
pub(crate) fn kzg_to_versioned_hash(commitment: &[u8; 48]) -> (hash: [u8; 32])
    ensures
        hash@ == versioned_hash_of(commitment@),
        hash@[0] == 1,
{
    alloy_eips::eip4844::kzg_to_versioned_hash(commitment).0
}

/// The contents of byte strings.
pub open spec fn contents(items: Seq<Vec<u8>>) -> Seq<Seq<u8>> {
    items.map_values(|item: Vec<u8>| item@)
}

/// The bytes of commitments or proofs.
pub open spec fn points(points: Seq<[u8; 48]>) -> Seq<Seq<u8>> {
    points.map_values(|point: [u8; 48]| point@)
}

/// Whether the proofs show that the commitments are those of the blobs, or `None` where that could
/// not be checked.
pub uninterp spec fn blob_proofs_hold(
    blobs: Seq<Seq<u8>>,
    commitments: Seq<Seq<u8>>,
    proofs: Seq<Seq<u8>>,
) -> Option<bool>;

/// Calls `kzg_rs::KzgProof::verify_blob_kzg_proof_batch` with the settings of
/// `kzg_rs::get_kzg_settings`. A blob has [`BYTES_PER_BLOB`] bytes; `kzg_rs::Blob::from_slice` takes
/// no others.
///
/// Claims that the answer is a function of the arguments, that a batch is checked only where there
/// are as many commitments and proofs as blobs, and that an empty batch holds.
#[verifier::external_body]
pub(crate) fn verify_blob_kzg_proof_batch(
    blobs: &[Vec<u8>],
    commitments: &[[u8; 48]],
    proofs: &[[u8; 48]],
) -> (holds: Option<bool>)
    requires
        forall|i: int| 0 <= i < blobs@.len() ==> (#[trigger] blobs@[i])@.len() == BYTES_PER_BLOB,
    ensures
        holds == blob_proofs_hold(contents(blobs@), points(commitments@), points(proofs@)),
        holds is Some ==> blobs@.len() == commitments@.len() && blobs@.len() == proofs@.len(),
        blobs@.len() == 0 && commitments@.len() == 0 && proofs@.len() == 0 ==> holds == Some(true),
{
    kzg_rs::KzgProof::verify_blob_kzg_proof_batch(
        blobs.iter().map(|b| kzg_rs::Blob::from_slice(b).unwrap()).collect(),
        commitments.iter().map(|c| kzg_rs::Bytes48(*c)).collect(),
        proofs.iter().map(|p| kzg_rs::Bytes48(*p)).collect(),
        &kzg_rs::get_kzg_settings(),
    ).ok()
}

/// Calls `kona_preimage::PreimageKey::new_keccak256`, and takes the key's 32 bytes.
///
/// Claims that the key is the digest with its first byte replaced by the type of such keys, which
/// is 2.
#[verifier::external_body]
pub(crate) fn keccak_preimage_key(digest: &[u8; 32]) -> (key: [u8; 32])
    ensures
        key@ == digest@.update(0, 2),
{
    <[u8; 32]>::from(kona_preimage::PreimageKey::new_keccak256(*digest))
}

/// The header that an RLP encoding starts with, where it starts with one.
pub uninterp spec fn header_in(rlp: Seq<u8>) -> Option<alloy_consensus::Header>;

/// Calls `alloy_rlp::Decodable::decode` for an `alloy_consensus::Header`.
///
/// Claims that the result is a function of the bytes.
#[verifier::external_body]
pub(crate) fn decode_header(rlp: &[u8]) -> (header: Option<alloy_consensus::Header>)
    ensures
        header == header_in(rlp@),
{
    let mut rest = rlp;
    match <alloy_consensus::Header as alloy_rlp::Decodable>::decode(&mut rest) {
        Ok(header) => Some(header),
        Err(_) => None,
    }
}

} // verus!
