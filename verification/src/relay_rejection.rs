//! Classifying a rejected `proposeL2Output` from typed revert data.
//!
//! The rendered text of an error depends on which L1 client answered, on the versions of the
//! libraries in between and on how many context layers wrap the error. The revert data carries the
//! same information exactly: `require(cond, "...")` is ABI-encoded as `Error(string)` and decodes
//! back to the same string, and every other revert surface is a 4-byte selector. So this module
//! decodes rather than matches.
//!
//! Only [`RelayRejection::UnsatisfiableGuard`] keeps an aggregation out of a rebuild. Everything
//! else rebuilds, revert data that cannot be attributed included: a proof rebuilt without need costs
//! one aggregation proof, whereas a rejected aggregation that stays `Complete` blocks its own
//! replacement and freezes the contract head.
use alloy_json_rpc::RpcError;
use alloy_transport::TransportErrorKind;
use vstd::prelude::*;
use vstd::utf8::{encode_utf8, encode_utf8_decode_utf8, encode_utf8_valid_utf8};

use crate::bytes::{
    be_bytes, be_nat, cut, lemma_be_round_trip, pow256, same_bytes, word_to_u64_saturating,
};
use crate::hex::json_hex;
use crate::outside::{
    abi_string_bytes, decode_standard_error, downcast_rpc_error, error_response, error_response_in,
    json_bytes, option_view, parse_json_bytes, rpc_error_in, standard_error,
    ErrorResponse, ErrorResponseView, StandardError, StandardErrorView, PANIC_SELECTOR, REVERT_SELECTOR,
};
use crate::text::same_text;

verus! {

/// The selector of the oracle's `L1BlockHashNotCheckpointed()`.
pub const L1_BLOCK_HASH_NOT_CHECKPOINTED_SELECTOR: [u8; 4] = [0x22, 0xaa, 0x3a, 0x98];

/// The selector of the oracle's `L1BlockHashNotAvailable()`.
pub const L1_BLOCK_HASH_NOT_AVAILABLE_SELECTOR: [u8; 4] = [0x84, 0xc0, 0x68, 0x64];

/// The selector of the verifier's `InvalidProof()`.
pub const INVALID_PROOF_SELECTOR: [u8; 4] = [0x09, 0xbd, 0xe3, 0x39];

/// The selector of the verifier's `InvalidExitCode()`.
pub const INVALID_EXIT_CODE_SELECTOR: [u8; 4] = [0x1f, 0xcf, 0x91, 0x77];

/// The `require` messages on `proposeL2Output` that no proof can satisfy, verbatim from the
/// contract.
///
/// Two need an operator to change contract state (optimistic mode, proposer approval); the other
/// two resolve on their own. None of the four is affected by the proof bytes, so resubmitting is
/// correct and rebuilding is pure waste. A `require` that is not listed here falls through to
/// [`RelayRejection::RebuildableGuard`], which wastes a proof rather than stalling the head.
pub const UNSATISFIABLE_GUARDS: [&'static str; 4] = [
    "L2OutputOracle: optimistic mode is enabled",
    "L2OutputOracle: only approved proposers can propose new outputs",
    "L2OutputOracle: cannot propose L2 output in the future",
    "L2OutputOracle: L2 output proposal cannot be the zero hash",
];

/// Why no verdict on the proof could be obtained.
#[derive(Debug, Clone, Copy, PartialEq, Eq, Structural)]
pub enum NoVerdictReason {
    /// Replaying the call as `eth_call` did not revert. The failure was therefore not
    /// deterministic, or state moved between the two calls.
    ReplayDidNotRevert,
    /// The replay could not reach the node.
    ReplayUnreachable,
    /// The replay did not return in time.
    ReplayTimedOut,
}

/// What the chain said when it refused `proposeL2Output`.
#[derive(Debug, Clone, PartialEq, Eq)]
pub enum RelayRejection {
    /// A verdict from the SP1 verifier on the proof bytes: the same bytes will be refused on every
    /// resubmission.
    ProofRejected {
        /// The 4-byte error selector.
        selector: [u8; 4],
        /// Solidity name of the error.
        name: &'static str,
    },
    /// The checkpointed L1 head this aggregation was built against is unusable. The proof bytes are
    /// not at fault; rebuilding is what re-checkpoints.
    CheckpointUnusable {
        /// The 4-byte error selector.
        selector: [u8; 4],
        /// Solidity name of the error.
        name: &'static str,
    },
    /// A guard that is unrelated to the proof bytes, and that rebuilding cannot clear.
    UnsatisfiableGuard { message: String },
    /// A contract guard that a rebuild can clear, and the fallback for any `require` message not
    /// in [`UNSATISFIABLE_GUARDS`].
    RebuildableGuard { message: String },
    /// The contract hit a Solidity `assert` or arithmetic panic.
    ContractPanic { code: u64 },
    /// Revert data that decoded to none of the known surfaces.
    UnknownRevert { data: Vec<u8> },
    /// No revert data was recoverable at all.
    NoVerdict { reason: NoVerdictReason },
}

/// The mathematical content of a [`RelayRejection`].
pub enum RejectionView {
    ProofRejected { selector: Seq<u8>, name: Seq<char> },
    CheckpointUnusable { selector: Seq<u8>, name: Seq<char> },
    UnsatisfiableGuard { message: Seq<char> },
    RebuildableGuard { message: Seq<char> },
    ContractPanic { code: nat },
    UnknownRevert { data: Seq<u8> },
    NoVerdict { reason: NoVerdictReason },
}

impl View for RelayRejection {
    type V = RejectionView;

    open spec fn view(&self) -> RejectionView {
        match *self {
            RelayRejection::ProofRejected { selector, name } => RejectionView::ProofRejected {
                selector: selector@,
                name: name@,
            },
            RelayRejection::CheckpointUnusable { selector, name } => RejectionView::CheckpointUnusable {
                selector: selector@,
                name: name@,
            },
            RelayRejection::UnsatisfiableGuard { message } => RejectionView::UnsatisfiableGuard {
                message: message@,
            },
            RelayRejection::RebuildableGuard { message } => RejectionView::RebuildableGuard {
                message: message@,
            },
            RelayRejection::ContractPanic { code } => RejectionView::ContractPanic {
                code: code as nat,
            },
            RelayRejection::UnknownRevert { data } => RejectionView::UnknownRevert { data: data@ },
            RelayRejection::NoVerdict { reason } => RejectionView::NoVerdict { reason },
        }
    }
}

/// Whether an aggregation refused in this way is to be built again over the same range.
pub open spec fn rebuilds(rejection: RejectionView) -> bool {
    !(rejection is UnsatisfiableGuard)
}

/// The label of a rejection in logs and metrics.
pub open spec fn label(rejection: RejectionView) -> Seq<char> {
    match rejection {
        RejectionView::ProofRejected { .. } => "proof_rejected"@,
        RejectionView::CheckpointUnusable { .. } => "checkpoint_unusable"@,
        RejectionView::UnsatisfiableGuard { .. } => "unsatisfiable_guard"@,
        RejectionView::RebuildableGuard { .. } => "rebuildable_guard"@,
        RejectionView::ContractPanic { .. } => "contract_panic"@,
        RejectionView::UnknownRevert { .. } => "unknown_revert"@,
        RejectionView::NoVerdict { .. } => "no_verdict"@,
    }
}

/// Two rejections are of the same variant.
pub open spec fn same_variant(a: RejectionView, b: RejectionView) -> bool {
    match a {
        RejectionView::ProofRejected { .. } => b is ProofRejected,
        RejectionView::CheckpointUnusable { .. } => b is CheckpointUnusable,
        RejectionView::UnsatisfiableGuard { .. } => b is UnsatisfiableGuard,
        RejectionView::RebuildableGuard { .. } => b is RebuildableGuard,
        RejectionView::ContractPanic { .. } => b is ContractPanic,
        RejectionView::UnknownRevert { .. } => b is UnknownRevert,
        RejectionView::NoVerdict { .. } => b is NoVerdict,
    }
}

impl RelayRejection {
    /// Whether the aggregation should be failed so that a fresh one is built over the same range.
    pub fn should_rebuild(&self) -> (rebuild: bool)
        ensures
            rebuild == rebuilds(self@),
    {
        match self {
            RelayRejection::UnsatisfiableGuard { .. } => false,
            _ => true,
        }
    }

    /// A short, stable label for logs and metrics.
    pub fn kind(&self) -> (kind: &'static str)
        ensures
            kind@ == label(self@),
    {
        match self {
            RelayRejection::ProofRejected { .. } => "proof_rejected",
            RelayRejection::CheckpointUnusable { .. } => "checkpoint_unusable",
            RelayRejection::UnsatisfiableGuard { .. } => "unsatisfiable_guard",
            RelayRejection::RebuildableGuard { .. } => "rebuildable_guard",
            RelayRejection::ContractPanic { .. } => "contract_panic",
            RelayRejection::UnknownRevert { .. } => "unknown_revert",
            RelayRejection::NoVerdict { .. } => "no_verdict",
        }
    }
}

/// The oracle's custom errors. Both mean that the checkpointed L1 head is unusable.
#[derive(Debug, Clone, Copy, PartialEq, Eq, Structural)]
pub enum OracleError {
    /// The contract holds no hash at the checkpointed block number.
    L1BlockHashNotCheckpointed,
    /// The block is outside the window in which the contract can read a block hash.
    L1BlockHashNotAvailable,
}

/// The SP1 verifier's errors: verdicts on the proof bytes.
#[derive(Debug, Clone, Copy, PartialEq, Eq, Structural)]
pub enum VerifierError {
    InvalidProof,
    InvalidExitCode,
}

impl OracleError {
    pub open spec fn spec_selector(self) -> Seq<u8> {
        match self {
            OracleError::L1BlockHashNotCheckpointed => L1_BLOCK_HASH_NOT_CHECKPOINTED_SELECTOR@,
            OracleError::L1BlockHashNotAvailable => L1_BLOCK_HASH_NOT_AVAILABLE_SELECTOR@,
        }
    }

    pub open spec fn spec_name(self) -> Seq<char> {
        match self {
            OracleError::L1BlockHashNotCheckpointed => "L1BlockHashNotCheckpointed"@,
            OracleError::L1BlockHashNotAvailable => "L1BlockHashNotAvailable"@,
        }
    }

    /// The first four bytes of this error's revert data.
    pub fn selector(&self) -> (selector: [u8; 4])
        ensures
            selector@ == self.spec_selector(),
    {
        match self {
            OracleError::L1BlockHashNotCheckpointed => L1_BLOCK_HASH_NOT_CHECKPOINTED_SELECTOR,
            OracleError::L1BlockHashNotAvailable => L1_BLOCK_HASH_NOT_AVAILABLE_SELECTOR,
        }
    }
}

impl VerifierError {
    pub open spec fn spec_selector(self) -> Seq<u8> {
        match self {
            VerifierError::InvalidProof => INVALID_PROOF_SELECTOR@,
            VerifierError::InvalidExitCode => INVALID_EXIT_CODE_SELECTOR@,
        }
    }

    pub open spec fn spec_name(self) -> Seq<char> {
        match self {
            VerifierError::InvalidProof => "InvalidProof"@,
            VerifierError::InvalidExitCode => "InvalidExitCode"@,
        }
    }

    /// The first four bytes of this error's revert data.
    pub fn selector(&self) -> (selector: [u8; 4])
        ensures
            selector@ == self.spec_selector(),
    {
        match self {
            VerifierError::InvalidProof => INVALID_PROOF_SELECTOR,
            VerifierError::InvalidExitCode => INVALID_EXIT_CODE_SELECTOR,
        }
    }
}

/// The Solidity name of an oracle error.
pub fn oracle_error_name(err: &OracleError) -> (name: &'static str)
    ensures
        name@ == err.spec_name(),
{
    match err {
        OracleError::L1BlockHashNotCheckpointed => "L1BlockHashNotCheckpointed",
        OracleError::L1BlockHashNotAvailable => "L1BlockHashNotAvailable",
    }
}

/// The Solidity name of a verifier error.
pub fn verifier_error_name(err: &VerifierError) -> (name: &'static str)
    ensures
        name@ == err.spec_name(),
{
    match err {
        VerifierError::InvalidProof => "InvalidProof",
        VerifierError::InvalidExitCode => "InvalidExitCode",
    }
}

/// Revert data starts with a selector.
pub open spec fn has_selector(data: Seq<u8>, selector: Seq<u8>) -> bool {
    data.len() >= 4 && data.take(4) == selector
}

/// A `require` message is one that no proof can satisfy.
pub open spec fn is_unsatisfiable(message: Seq<char>) -> bool {
    exists|i: int| 0 <= i < 4 && message == (#[trigger] UNSATISFIABLE_GUARDS[i])@
}

/// How a `require` message is classified.
pub open spec fn require_classification(message: Seq<char>) -> RejectionView {
    if is_unsatisfiable(message) {
        RejectionView::UnsatisfiableGuard { message }
    } else {
        RejectionView::RebuildableGuard { message }
    }
}

/// How revert data that encodes none of the standard errors is classified: by its selector.
pub open spec fn selector_classification(data: Seq<u8>) -> RejectionView {
    if has_selector(data, OracleError::L1BlockHashNotCheckpointed.spec_selector()) {
        RejectionView::CheckpointUnusable {
            selector: OracleError::L1BlockHashNotCheckpointed.spec_selector(),
            name: OracleError::L1BlockHashNotCheckpointed.spec_name(),
        }
    } else if has_selector(data, OracleError::L1BlockHashNotAvailable.spec_selector()) {
        RejectionView::CheckpointUnusable {
            selector: OracleError::L1BlockHashNotAvailable.spec_selector(),
            name: OracleError::L1BlockHashNotAvailable.spec_name(),
        }
    } else if has_selector(data, VerifierError::InvalidProof.spec_selector()) {
        RejectionView::ProofRejected {
            selector: VerifierError::InvalidProof.spec_selector(),
            name: VerifierError::InvalidProof.spec_name(),
        }
    } else if has_selector(data, VerifierError::InvalidExitCode.spec_selector()) {
        RejectionView::ProofRejected {
            selector: VerifierError::InvalidExitCode.spec_selector(),
            name: VerifierError::InvalidExitCode.spec_name(),
        }
    } else {
        RejectionView::UnknownRevert { data }
    }
}

/// How revert data is classified, given the standard error that it encodes.
pub open spec fn decoded_classification(
    standard: Option<StandardErrorView>,
    data: Seq<u8>,
) -> RejectionView {
    match standard {
        Some(StandardErrorView::Revert { reason }) => require_classification(reason),
        Some(StandardErrorView::Panic { code }) => RejectionView::ContractPanic {
            code: if code > u64::MAX { u64::MAX as nat } else { code },
        },
        None => selector_classification(data),
    }
}

/// How revert data is classified.
pub open spec fn classification(data: Seq<u8>) -> RejectionView {
    decoded_classification(standard_error(data), data)
}

/// Whether revert data starts with a selector.
pub fn starts_with_selector(data: &[u8], selector: &[u8; 4]) -> (starts: bool)
    ensures
        starts == has_selector(data@, selector@),
{
    if data.len() < 4 {
        return false;
    }
    let head: Vec<u8> = cut(data, 0, 4);
    same_bytes(head.as_slice(), selector.as_slice())
}

/// The oracle error that revert data encodes. What stands behind the selector is ignored: both
/// errors have no arguments.
pub fn decode_oracle_error(data: &[u8]) -> (err: Option<OracleError>)
    ensures
        err == (if has_selector(data@, OracleError::L1BlockHashNotCheckpointed.spec_selector()) {
            Some(OracleError::L1BlockHashNotCheckpointed)
        } else if has_selector(data@, OracleError::L1BlockHashNotAvailable.spec_selector()) {
            Some(OracleError::L1BlockHashNotAvailable)
        } else {
            None
        }),
{
    if starts_with_selector(data, &L1_BLOCK_HASH_NOT_CHECKPOINTED_SELECTOR) {
        Some(OracleError::L1BlockHashNotCheckpointed)
    } else if starts_with_selector(data, &L1_BLOCK_HASH_NOT_AVAILABLE_SELECTOR) {
        Some(OracleError::L1BlockHashNotAvailable)
    } else {
        None
    }
}

/// The verifier error that revert data encodes. What stands behind the selector is ignored: both
/// errors have no arguments.
pub fn decode_verifier_error(data: &[u8]) -> (err: Option<VerifierError>)
    ensures
        err == (if has_selector(data@, VerifierError::InvalidProof.spec_selector()) {
            Some(VerifierError::InvalidProof)
        } else if has_selector(data@, VerifierError::InvalidExitCode.spec_selector()) {
            Some(VerifierError::InvalidExitCode)
        } else {
            None
        }),
{
    if starts_with_selector(data, &INVALID_PROOF_SELECTOR) {
        Some(VerifierError::InvalidProof)
    } else if starts_with_selector(data, &INVALID_EXIT_CODE_SELECTOR) {
        Some(VerifierError::InvalidExitCode)
    } else {
        None
    }
}

/// Splits a decoded `require` message into "no proof can fix this" and "a rebuild can".
pub fn classify_require_message(message: String) -> (rejection: RelayRejection)
    ensures
        rejection@ == require_classification(message@),
{
    let mut i: usize = 0;
    while i < 4
        invariant
            i <= 4,
            forall|j: int| 0 <= j < i ==> message@ != (#[trigger] UNSATISFIABLE_GUARDS[j])@,
        decreases 4 - i,
    {
        if same_text(message.as_str(), UNSATISFIABLE_GUARDS[i]) {
            assert(message@ == UNSATISFIABLE_GUARDS[i as int]@);
            return RelayRejection::UnsatisfiableGuard { message };
        }
        i += 1;
    }
    RelayRejection::RebuildableGuard { message }
}

/// Classifies revert data of which it is known whether it encodes a standard error.
pub fn classify_decoded(standard: Option<StandardError>, data: &[u8]) -> (rejection: RelayRejection)
    ensures
        rejection@ == decoded_classification(option_view(standard), data@),
{
    match standard {
        Some(StandardError::Revert { reason }) => classify_require_message(reason),
        Some(StandardError::Panic { code }) => RelayRejection::ContractPanic {
            code: word_to_u64_saturating(&code),
        },
        None => {
            if let Some(err) = decode_oracle_error(data) {
                return RelayRejection::CheckpointUnusable {
                    selector: err.selector(),
                    name: oracle_error_name(&err),
                };
            }
            if let Some(err) = decode_verifier_error(data) {
                return RelayRejection::ProofRejected {
                    selector: err.selector(),
                    name: verifier_error_name(&err),
                };
            }
            let copy: Vec<u8> = cut(data, 0, data.len());
            assert(copy@ =~= data@);
            RelayRejection::UnknownRevert { data: copy }
        },
    }
}

/// Classifies revert data that is known to be present.
pub fn classify_revert_data(data: &[u8]) -> (rejection: RelayRejection)
    ensures
        rejection@ == classification(data@),
{
    classify_decoded(decode_standard_error(data), data)
}

/// The revert data in a server's answer: the bytes in its `data` field.
pub open spec fn response_revert_data(response: ErrorResponseView) -> Option<Seq<u8>> {
    match response.data {
        Some(text) => json_bytes(text),
        None => None,
    }
}

/// The revert data in an RPC error: none, unless the server answered.
pub open spec fn rpc_revert_data(response: Option<ErrorResponseView>) -> Option<Seq<u8>> {
    match response {
        Some(r) => response_revert_data(r),
        None => None,
    }
}

/// The revert data in a server's answer.
///
/// It is read from the `data` field alone. A client that returns the data without the word "revert"
/// in its message is understood like any other.
pub fn revert_data_of_response(response: &ErrorResponse) -> (data: Option<Vec<u8>>)
    ensures
        option_view(data) == response_revert_data(response@),
        response.data is None ==> data is None,
        forall|b: Seq<u8>|
            response@.data == Some(#[trigger] json_hex(b)) ==> option_view(data) == Some(b),
{
    match &response.data {
        Some(text) => parse_json_bytes(text.as_str()),
        None => None,
    }
}

/// Pulls the contract's revert data out of a failed JSON-RPC call.
pub fn revert_data_of_rpc_error(err: &RpcError<TransportErrorKind>) -> (data: Option<Vec<u8>>)
    ensures
        option_view(data) == rpc_revert_data(error_response_in(*err)),
{
    match error_response(err) {
        Some(response) => revert_data_of_response(&response),
        None => None,
    }
}

/// The revert data in an error that may wrap an RPC error.
pub open spec fn anyhow_revert_data(err: anyhow::Error) -> Option<Seq<u8>> {
    match rpc_error_in(err) {
        Some(rpc) => rpc_revert_data(error_response_in(rpc)),
        None => None,
    }
}

/// Same as [`revert_data_of_rpc_error`], for an error already wrapped by `anyhow`.
///
/// Context layers keep the wrapped error reachable, which matters because most deterministic
/// reverts never reach a receipt: gas estimation runs first, so the node rejects the call up front
/// and the transaction is never broadcast.
pub fn revert_data_of_anyhow(err: &anyhow::Error) -> (data: Option<Vec<u8>>)
    ensures
        option_view(data) == anyhow_revert_data(*err),
{
    match downcast_rpc_error(err) {
        Some(rpc) => revert_data_of_rpc_error(rpc),
        None => None,
    }
}

/// The revert data of `require(false, message)`: the selector of `Error(string)`, the offset and
/// the length of the string, its bytes, and zeros up to the next full word.
pub open spec fn require_revert(message: Seq<char>) -> Seq<u8> {
    let text = encode_utf8(message);
    let padding = Seq::new(((32 - text.len() % 32) % 32) as nat, |i: int| 0u8);
    REVERT_SELECTOR@ + be_bytes(32, 32) + be_bytes(text.len(), 32) + text + padding
}

/// A `require` message survives the trip through revert data: what the contract reverts with is
/// what is classified.
pub proof fn law_require_message_is_read_back(message: Seq<char>)
    requires
        encode_utf8(message).len() <= u64::MAX,
    ensures
        standard_error(require_revert(message)) == Some(
            StandardErrorView::Revert { reason: message },
        ),
        classification(require_revert(message)) == require_classification(message),
{
    let text = encode_utf8(message);
    let data = require_revert(message);
    let body = data.skip(4);
    lemma_word_fits();
    lemma_be_round_trip(32, 32);
    lemma_be_round_trip(text.len(), 32);
    assert(data.take(4) =~= REVERT_SELECTOR@);
    assert(body.take(32) =~= be_bytes(32, 32));
    let string = body.skip(32);
    assert(string.take(32) =~= be_bytes(text.len(), 32));
    assert(string.subrange(32, 32 + text.len() as int) =~= text);
    assert(abi_string_bytes(body) == Some(text));
    encode_utf8_valid_utf8(message);
    encode_utf8_decode_utf8(message);
}

/// A 32-byte word holds every `u64`.
proof fn lemma_word_fits()
    ensures
        pow256(32) > u64::MAX,
{
    reveal_with_fuel(pow256, 33);
}

/// The only revert data that does not lead to a rebuild is that of a `require` whose message is
/// listed as unsatisfiable.
pub proof fn law_only_listed_guards_are_left_alone(data: Seq<u8>)
    ensures
        rebuilds(classification(data)) <==> !(standard_error(data) matches Some(
            StandardErrorView::Revert { reason },
        ) && is_unsatisfiable(reason)),
{
}

/// Each listed guard, as the contract reverts with it, is left alone.
pub proof fn law_listed_guards_are_left_alone(i: int)
    requires
        0 <= i < 4,
    ensures
        classification(require_revert(UNSATISFIABLE_GUARDS[i]@))
            == (RejectionView::UnsatisfiableGuard { message: UNSATISFIABLE_GUARDS[i]@ }),
        !rebuilds(classification(require_revert(UNSATISFIABLE_GUARDS[i]@))),
{
    let message = UNSATISFIABLE_GUARDS[i]@;
    reveal_strlit("L2OutputOracle: optimistic mode is enabled");
    reveal_strlit("L2OutputOracle: only approved proposers can propose new outputs");
    reveal_strlit("L2OutputOracle: cannot propose L2 output in the future");
    reveal_strlit("L2OutputOracle: L2 output proposal cannot be the zero hash");
    assert(message.len() <= 100);
    lemma_utf8_length(message);
    law_require_message_is_read_back(message);
    assert(is_unsatisfiable(message));
}

/// Text takes at most four bytes a character.
proof fn lemma_utf8_length(text: Seq<char>)
    ensures
        encode_utf8(text).len() <= 4 * text.len(),
    decreases text.len(),
{
    if text.len() > 0 {
        lemma_utf8_length(text.drop_first());
    }
}

/// An error of the oracle is a verdict on the checkpoint, whatever follows its selector, and leads
/// to a rebuild.
pub proof fn law_oracle_errors_are_not_proof_verdicts(err: OracleError, rest: Seq<u8>)
    ensures
        classification(err.spec_selector() + rest) == (RejectionView::CheckpointUnusable {
            selector: err.spec_selector(),
            name: err.spec_name(),
        }),
        rebuilds(classification(err.spec_selector() + rest)),
{
    let data = err.spec_selector() + rest;
    lemma_selectors_distinct();
    assert(data.take(4) =~= err.spec_selector());
}

/// An error of the verifier is a verdict on the proof bytes, whatever follows its selector, and
/// leads to a rebuild.
pub proof fn law_verifier_errors_are_proof_verdicts(err: VerifierError, rest: Seq<u8>)
    ensures
        classification(err.spec_selector() + rest) == (RejectionView::ProofRejected {
            selector: err.spec_selector(),
            name: err.spec_name(),
        }),
        rebuilds(classification(err.spec_selector() + rest)),
{
    let data = err.spec_selector() + rest;
    lemma_selectors_distinct();
    assert(data.take(4) =~= err.spec_selector());
}

/// The six known selectors differ in their first byte.
proof fn lemma_selectors_distinct()
    ensures
        REVERT_SELECTOR@.len() == 4 && REVERT_SELECTOR@[0] == 0x08,
        PANIC_SELECTOR@.len() == 4 && PANIC_SELECTOR@[0] == 0x4e,
        L1_BLOCK_HASH_NOT_CHECKPOINTED_SELECTOR@.len() == 4
            && L1_BLOCK_HASH_NOT_CHECKPOINTED_SELECTOR@[0] == 0x22,
        L1_BLOCK_HASH_NOT_AVAILABLE_SELECTOR@.len() == 4
            && L1_BLOCK_HASH_NOT_AVAILABLE_SELECTOR@[0] == 0x84,
        INVALID_PROOF_SELECTOR@.len() == 4 && INVALID_PROOF_SELECTOR@[0] == 0x09,
        INVALID_EXIT_CODE_SELECTOR@.len() == 4 && INVALID_EXIT_CODE_SELECTOR@[0] == 0x1f,
{
}

/// Rejections have the same label exactly if they are of the same variant.
pub proof fn law_labels_are_distinct(a: RejectionView, b: RejectionView)
    ensures
        label(a) == label(b) <==> same_variant(a, b),
{
    reveal_strlit("proof_rejected");
    reveal_strlit("checkpoint_unusable");
    reveal_strlit("unsatisfiable_guard");
    reveal_strlit("rebuildable_guard");
    reveal_strlit("contract_panic");
    reveal_strlit("unknown_revert");
    reveal_strlit("no_verdict");
    if label(a) == label(b) {
        assert(label(a).len() == label(b).len() && label(a)[0] == label(b)[0]);
        assert("proof_rejected"@[0] == 'p' && "contract_panic"@[0] == 'c');
        assert("unknown_revert"@[0] == 'u' && "unsatisfiable_guard"@[0] == 'u');
        assert("checkpoint_unusable"@[0] == 'c');
    }
}

/// Revert data is read without consulting the code or the message of the answer.
pub proof fn law_revert_data_ignores_the_message(a: ErrorResponseView, b: ErrorResponseView)
    requires
        a.data == b.data,
    ensures
        response_revert_data(a) == response_revert_data(b),
{
}

/// A rejection leads to a rebuild unless it is by a guard that no proof can satisfy, and each kind
/// of rejection has its own label.
pub proof fn law_each_kind_of_rejection_has_its_label(
    rejection: RelayRejection,
    rebuild: bool,
    kind: &'static str,
)
    requires
        call_ensures(RelayRejection::should_rebuild, (&rejection,), rebuild),
        call_ensures(RelayRejection::kind, (&rejection,), kind),
    ensures
        rebuild <==> !(rejection is UnsatisfiableGuard),
        kind@ == "proof_rejected"@ <==> rejection is ProofRejected,
        kind@ == "checkpoint_unusable"@ <==> rejection is CheckpointUnusable,
        kind@ == "unsatisfiable_guard"@ <==> rejection is UnsatisfiableGuard,
        kind@ == "rebuildable_guard"@ <==> rejection is RebuildableGuard,
        kind@ == "contract_panic"@ <==> rejection is ContractPanic,
        kind@ == "unknown_revert"@ <==> rejection is UnknownRevert,
        kind@ == "no_verdict"@ <==> rejection is NoVerdict,
{
    let empty = Seq::<u8>::empty();
    let none = Seq::<char>::empty();
    let r = rejection@;
    law_labels_are_distinct(r, RejectionView::ProofRejected { selector: empty, name: none });
    law_labels_are_distinct(r, RejectionView::CheckpointUnusable { selector: empty, name: none });
    law_labels_are_distinct(r, RejectionView::UnsatisfiableGuard { message: none });
    law_labels_are_distinct(r, RejectionView::RebuildableGuard { message: none });
    law_labels_are_distinct(r, RejectionView::ContractPanic { code: 0 });
    law_labels_are_distinct(r, RejectionView::UnknownRevert { data: empty });
    law_labels_are_distinct(
        r,
        RejectionView::NoVerdict { reason: NoVerdictReason::ReplayTimedOut },
    );
}

/// Revert data encodes an error of the oracle or the verifier exactly if it starts with the four
/// bytes of that error's selector, whatever follows them; data that is shorter encodes none.
pub proof fn law_errors_are_told_by_their_first_four_bytes(
    data: &[u8],
    oracle: Option<OracleError>,
    verifier: Option<VerifierError>,
)
    requires
        call_ensures(decode_oracle_error, (data,), oracle),
        call_ensures(decode_verifier_error, (data,), verifier),
    ensures
        data@.len() < 4 ==> oracle is None && verifier is None,
        data@.len() >= 4 ==> {
            let starts = |a: u8, b: u8, c: u8, d: u8|
                data@[0] == a && data@[1] == b && data@[2] == c && data@[3] == d;
            &&& oracle == Some(OracleError::L1BlockHashNotCheckpointed) <==> starts(
                0x22,
                0xaa,
                0x3a,
                0x98,
            )
            &&& oracle == Some(OracleError::L1BlockHashNotAvailable) <==> starts(
                0x84,
                0xc0,
                0x68,
                0x64,
            )
            &&& verifier == Some(VerifierError::InvalidProof) <==> starts(0x09, 0xbd, 0xe3, 0x39)
            &&& verifier == Some(VerifierError::InvalidExitCode) <==> starts(0x1f, 0xcf, 0x91, 0x77)
        },
{
    if data@.len() >= 4 {
        lemma_selector_in_place(data@, [0x22, 0xaa, 0x3a, 0x98]);
        lemma_selector_in_place(data@, [0x84, 0xc0, 0x68, 0x64]);
        lemma_selector_in_place(data@, [0x09, 0xbd, 0xe3, 0x39]);
        lemma_selector_in_place(data@, [0x1f, 0xcf, 0x91, 0x77]);
    }
}

/// Data starts with a selector exactly if its first four bytes are the selector's.
proof fn lemma_selector_in_place(data: Seq<u8>, selector: [u8; 4])
    requires
        data.len() >= 4,
    ensures
        has_selector(data, selector@) <==> {
            &&& data[0] == selector@[0]
            &&& data[1] == selector@[1]
            &&& data[2] == selector@[2]
            &&& data[3] == selector@[3]
        },
{
    let head = data.take(4);
    assert(head[0] == data[0] && head[1] == data[1] && head[2] == data[2] && head[3] == data[3]);
    if data[0] == selector@[0] && data[1] == selector@[1] && data[2] == selector@[2] && data[3]
        == selector@[3] {
        assert(head =~= selector@);
    }
}

/// The selectors and the names of the errors are those of the contracts.
pub proof fn law_errors_have_their_selectors_and_names(
    oracle: OracleError,
    oracle_selector: [u8; 4],
    oracle_name: &'static str,
    verifier: VerifierError,
    verifier_selector: [u8; 4],
    verifier_name: &'static str,
)
    requires
        call_ensures(OracleError::selector, (&oracle,), oracle_selector),
        call_ensures(oracle_error_name, (&oracle,), oracle_name),
        call_ensures(VerifierError::selector, (&verifier,), verifier_selector),
        call_ensures(verifier_error_name, (&verifier,), verifier_name),
    ensures
        oracle is L1BlockHashNotCheckpointed ==> oracle_selector@ == seq![0x22u8, 0xaa, 0x3a, 0x98]
            && oracle_name@ == "L1BlockHashNotCheckpointed"@,
        oracle is L1BlockHashNotAvailable ==> oracle_selector@ == seq![0x84u8, 0xc0, 0x68, 0x64]
            && oracle_name@ == "L1BlockHashNotAvailable"@,
        verifier is InvalidProof ==> verifier_selector@ == seq![0x09u8, 0xbd, 0xe3, 0x39]
            && verifier_name@ == "InvalidProof"@,
        verifier is InvalidExitCode ==> verifier_selector@ == seq![0x1fu8, 0xcf, 0x91, 0x77]
            && verifier_name@ == "InvalidExitCode"@,
{
    assert(oracle_selector@.len() == 4 && verifier_selector@.len() == 4);
}

/// A `require` message is kept as it is, and is one that no proof can satisfy exactly if it is one
/// of the four that say so.
pub proof fn law_four_messages_are_unsatisfiable(message: String, rejection: RelayRejection)
    requires
        call_ensures(classify_require_message, (message,), rejection),
    ensures
        rejection is UnsatisfiableGuard <==> {
            ||| message@ == "L2OutputOracle: optimistic mode is enabled"@
            ||| message@ == "L2OutputOracle: only approved proposers can propose new outputs"@
            ||| message@ == "L2OutputOracle: cannot propose L2 output in the future"@
            ||| message@ == "L2OutputOracle: L2 output proposal cannot be the zero hash"@
        },
        rejection is RebuildableGuard <==> !(rejection is UnsatisfiableGuard),
        rejection matches RelayRejection::UnsatisfiableGuard { message: kept } ==> kept@ == message@,
        rejection matches RelayRejection::RebuildableGuard { message: kept } ==> kept@ == message@,
{
    assert(UNSATISFIABLE_GUARDS[0]@ == "L2OutputOracle: optimistic mode is enabled"@);
    assert(UNSATISFIABLE_GUARDS[1]@
        == "L2OutputOracle: only approved proposers can propose new outputs"@);
    assert(UNSATISFIABLE_GUARDS[2]@ == "L2OutputOracle: cannot propose L2 output in the future"@);
    assert(UNSATISFIABLE_GUARDS[3]@
        == "L2OutputOracle: L2 output proposal cannot be the zero hash"@);
}

/// The four bytes of a selector decide about revert data, whatever follows them: the oracle's two
/// are verdicts on the checkpoint, the verifier's two on the proof, each with its selector and
/// name.
pub proof fn law_selectors_decide_about_revert_data(
    data: &[u8],
    rest: Seq<u8>,
    rejection: RelayRejection,
)
    requires
        call_ensures(classify_revert_data, (data,), rejection),
    ensures
        data@ == seq![0x22u8, 0xaa, 0x3a, 0x98] + rest ==> {
            &&& rejection matches RelayRejection::CheckpointUnusable { selector, name }
            &&& selector@ == data@.take(4)
            &&& name@ == "L1BlockHashNotCheckpointed"@
        },
        data@ == seq![0x84u8, 0xc0, 0x68, 0x64] + rest ==> {
            &&& rejection matches RelayRejection::CheckpointUnusable { selector, name }
            &&& selector@ == data@.take(4)
            &&& name@ == "L1BlockHashNotAvailable"@
        },
        data@ == seq![0x09u8, 0xbd, 0xe3, 0x39] + rest ==> {
            &&& rejection matches RelayRejection::ProofRejected { selector, name }
            &&& selector@ == data@.take(4)
            &&& name@ == "InvalidProof"@
        },
        data@ == seq![0x1fu8, 0xcf, 0x91, 0x77] + rest ==> {
            &&& rejection matches RelayRejection::ProofRejected { selector, name }
            &&& selector@ == data@.take(4)
            &&& name@ == "InvalidExitCode"@
        },
{
    let d = data@;
    assert(seq![0x22u8, 0xaa, 0x3a, 0x98] =~= L1_BLOCK_HASH_NOT_CHECKPOINTED_SELECTOR@);
    assert(seq![0x84u8, 0xc0, 0x68, 0x64] =~= L1_BLOCK_HASH_NOT_AVAILABLE_SELECTOR@);
    assert(seq![0x09u8, 0xbd, 0xe3, 0x39] =~= INVALID_PROOF_SELECTOR@);
    assert(seq![0x1fu8, 0xcf, 0x91, 0x77] =~= INVALID_EXIT_CODE_SELECTOR@);
    law_oracle_errors_are_not_proof_verdicts(OracleError::L1BlockHashNotCheckpointed, rest);
    law_oracle_errors_are_not_proof_verdicts(OracleError::L1BlockHashNotAvailable, rest);
    law_verifier_errors_are_proof_verdicts(VerifierError::InvalidProof, rest);
    law_verifier_errors_are_proof_verdicts(VerifierError::InvalidExitCode, rest);
    assert((L1_BLOCK_HASH_NOT_CHECKPOINTED_SELECTOR@ + rest).take(4)
        =~= L1_BLOCK_HASH_NOT_CHECKPOINTED_SELECTOR@);
    assert((L1_BLOCK_HASH_NOT_AVAILABLE_SELECTOR@ + rest).take(4)
        =~= L1_BLOCK_HASH_NOT_AVAILABLE_SELECTOR@);
    assert((INVALID_PROOF_SELECTOR@ + rest).take(4) =~= INVALID_PROOF_SELECTOR@);
    assert((INVALID_EXIT_CODE_SELECTOR@ + rest).take(4) =~= INVALID_EXIT_CODE_SELECTOR@);
}

/// A panic of the contract is reported with its code, which is brought down to the largest number
/// where it does not fit. What stands behind the code is ignored.
pub proof fn law_a_panic_is_reported_with_its_code(
    data: &[u8],
    code: nat,
    rest: Seq<u8>,
    rejection: RelayRejection,
)
    requires
        code < pow256(32),
        data@ == seq![0x4eu8, 0x48, 0x7b, 0x71] + be_bytes(code, 32) + rest,
        call_ensures(classify_revert_data, (data,), rejection),
    ensures
        rejection matches RelayRejection::ContractPanic { code: reported } && (code <= u64::MAX
            ==> reported == code) && (code > u64::MAX ==> reported == u64::MAX),
{
    lemma_be_round_trip(code, 32);
    lemma_selectors_distinct();
    assert(data@.take(4) =~= PANIC_SELECTOR@);
    assert(data@.subrange(4, 36) =~= be_bytes(code, 32));
}

/// Revert data that starts with none of the known selectors is reported as a whole, and leads to a
/// rebuild.
pub proof fn law_unknown_revert_data_is_reported_as_a_whole(data: &[u8], rejection: RelayRejection)
    requires
        call_ensures(classify_revert_data, (data,), rejection),
        data@.len() < 4 || !{
            let starts = |a: u8, b: u8, c: u8, d: u8|
                data@[0] == a && data@[1] == b && data@[2] == c && data@[3] == d;
            ||| starts(0x08, 0xc3, 0x79, 0xa0)
            ||| starts(0x4e, 0x48, 0x7b, 0x71)
            ||| starts(0x22, 0xaa, 0x3a, 0x98)
            ||| starts(0x84, 0xc0, 0x68, 0x64)
            ||| starts(0x09, 0xbd, 0xe3, 0x39)
            ||| starts(0x1f, 0xcf, 0x91, 0x77)
        },
    ensures
        rejection matches RelayRejection::UnknownRevert { data: kept } && kept@ == data@,
{
    if data@.len() >= 4 {
        lemma_selector_in_place(data@, [0x08, 0xc3, 0x79, 0xa0]);
        lemma_selector_in_place(data@, [0x4e, 0x48, 0x7b, 0x71]);
        lemma_selector_in_place(data@, [0x22, 0xaa, 0x3a, 0x98]);
        lemma_selector_in_place(data@, [0x84, 0xc0, 0x68, 0x64]);
        lemma_selector_in_place(data@, [0x09, 0xbd, 0xe3, 0x39]);
        lemma_selector_in_place(data@, [0x1f, 0xcf, 0x91, 0x77]);
    }
}

/// What the contract reverts with by `require(false, message)` is classified by that message.
pub proof fn law_a_require_is_classified_by_its_message(
    message: Seq<char>,
    data: &[u8],
    rejection: RelayRejection,
)
    requires
        encode_utf8(message).len() <= u64::MAX,
        data@ == require_revert(message),
        call_ensures(classify_revert_data, (data,), rejection),
    ensures
        rejection is UnsatisfiableGuard <==> {
            ||| message == "L2OutputOracle: optimistic mode is enabled"@
            ||| message == "L2OutputOracle: only approved proposers can propose new outputs"@
            ||| message == "L2OutputOracle: cannot propose L2 output in the future"@
            ||| message == "L2OutputOracle: L2 output proposal cannot be the zero hash"@
        },
        rejection matches RelayRejection::UnsatisfiableGuard { message: kept } ==> kept@ == message,
        rejection matches RelayRejection::RebuildableGuard { message: kept } ==> kept@ == message,
        rejection is UnsatisfiableGuard || rejection is RebuildableGuard,
{
    law_require_message_is_read_back(message);
    assert(UNSATISFIABLE_GUARDS[0]@ == "L2OutputOracle: optimistic mode is enabled"@);
    assert(UNSATISFIABLE_GUARDS[1]@
        == "L2OutputOracle: only approved proposers can propose new outputs"@);
    assert(UNSATISFIABLE_GUARDS[2]@ == "L2OutputOracle: cannot propose L2 output in the future"@);
    assert(UNSATISFIABLE_GUARDS[3]@
        == "L2OutputOracle: L2 output proposal cannot be the zero hash"@);
}

/// Revert data is what the server's answer holds in its `data` field, wherever in an error that
/// answer is; an error without an answer, and an answer without that field, hold none.
pub proof fn law_revert_data_comes_from_the_answers_data_field(
    response: ErrorResponse,
    data: Option<Vec<u8>>,
    bytes: Seq<u8>,
    rpc: RpcError<TransportErrorKind>,
    rpc_data: Option<Vec<u8>>,
    err: anyhow::Error,
    wrapped_data: Option<Vec<u8>>,
)
    requires
        call_ensures(revert_data_of_response, (&response,), data),
        call_ensures(revert_data_of_rpc_error, (&rpc,), rpc_data),
        call_ensures(revert_data_of_anyhow, (&err,), wrapped_data),
    ensures
        response.data is None ==> data is None,
        response.data is Some && response.data->0@ == json_hex(bytes) ==> data is Some && data->0@
            == bytes,
        error_response_in(rpc) is None ==> rpc_data is None,
        error_response_in(rpc) == Some(response@) ==> option_view(rpc_data) == option_view(data),
        rpc_error_in(err) is None ==> wrapped_data is None,
        rpc_error_in(err) == Some(rpc) ==> option_view(wrapped_data) == option_view(rpc_data),
{
    if response.data is Some && response.data->0@ == json_hex(bytes) {
        assert(response@.data == Some(json_hex(bytes)));
    }
}

/// A standard error decides about revert data that encodes one: a `require` by its message, a panic
/// by its code, brought down to the largest number where it does not fit. Any other data is decided
/// about by the selector that it starts with.
pub proof fn law_a_standard_error_comes_before_the_selector(
    standard: Option<StandardError>,
    data: &[u8],
    rejection: RelayRejection,
    selector: [u8; 4],
    starts: bool,
)
    requires
        call_ensures(classify_decoded, (standard, data), rejection),
        call_ensures(starts_with_selector, (data, &selector), starts),
    ensures
        starts <==> data@.len() >= 4 && data@[0] == selector@[0] && data@[1] == selector@[1] && data@[2]
            == selector@[2] && data@[3] == selector@[3],
        standard matches Some(StandardError::Revert { reason }) ==> {
            ||| rejection matches RelayRejection::UnsatisfiableGuard { message } && message@ == reason@
            ||| rejection matches RelayRejection::RebuildableGuard { message } && message@ == reason@
        },
        standard matches Some(StandardError::Panic { code }) ==> {
            &&& rejection matches RelayRejection::ContractPanic { code: reported }
            &&& be_nat(code@) <= u64::MAX ==> reported == be_nat(code@)
            &&& be_nat(code@) > u64::MAX ==> reported == u64::MAX
        },
        standard is None ==> rejection is CheckpointUnusable || rejection is ProofRejected || rejection
            is UnknownRevert,
        standard is None && starts && selector@ == seq![0x22u8, 0xaa, 0x3a, 0x98] ==> rejection
            is CheckpointUnusable,
        standard is None && starts && selector@ == seq![0x84u8, 0xc0, 0x68, 0x64] ==> rejection
            is CheckpointUnusable,
        standard is None && starts && selector@ == seq![0x09u8, 0xbd, 0xe3, 0x39] ==> rejection
            is ProofRejected,
        standard is None && starts && selector@ == seq![0x1fu8, 0xcf, 0x91, 0x77] ==> rejection
            is ProofRejected,
{
    if data@.len() >= 4 {
        lemma_selector_in_place(data@, selector);
    }
    lemma_selectors_distinct();
    assert(seq![0x22u8, 0xaa, 0x3a, 0x98] =~= L1_BLOCK_HASH_NOT_CHECKPOINTED_SELECTOR@);
    assert(seq![0x84u8, 0xc0, 0x68, 0x64] =~= L1_BLOCK_HASH_NOT_AVAILABLE_SELECTOR@);
    assert(seq![0x09u8, 0xbd, 0xe3, 0x39] =~= INVALID_PROOF_SELECTOR@);
    assert(seq![0x1fu8, 0xcf, 0x91, 0x77] =~= INVALID_EXIT_CODE_SELECTOR@);
}

} // verus!
