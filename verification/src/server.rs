//! The proof server's answers.
use vstd::prelude::*;
use vstd::string::StrSliceExecFns;

use crate::bytes::word_at;
use crate::hex::spec_decode_hex;
use crate::outside::{decode_hex, display_rendering, displays_as};
use crate::proposer::proof_status::{
    proof_encoding, spec_proof_encoding, ProofEncoding, ProofKind,
};
use crate::request::B256;

verus! {

/// HTTP's code for an answered request.
pub const STATUS_OK: u16 = 200;

/// HTTP's code for a request that the server failed to answer.
pub const STATUS_INTERNAL_SERVER_ERROR: u16 = 500;

/// An error that ends a request.
#[derive(Debug)]
pub struct AppError(pub anyhow::Error);

impl AppError {
    /// The answer to a request that ended with an error: its code, and the error's text.
    pub fn into_response(self) -> (response: (u16, String))
        ensures
            response.0 == STATUS_INTERNAL_SERVER_ERROR,
            displays_as(self.0, response.1@),
    {
        (STATUS_INTERNAL_SERVER_ERROR, display_rendering(&self.0))
    }
}

/// Where the network stands with a proof.
#[derive(Debug, Clone, Copy, PartialEq, Eq, Structural)]
pub enum SP1ProofStatus {
    Unspecified,
    Preparing,
    Requested,
    Claimed,
    Unclaimed,
    Fulfilled,
}

/// What came of asking the network for the status of a proof.
#[derive(Debug, Clone, Copy, PartialEq, Eq, Structural)]
pub enum StatusQuery {
    Answered {
        /// The status, if it is a known one.
        status: Option<SP1ProofStatus>,
        /// The number of the reason why a proof was given back.
        unclaim_description: Option<i32>,
        /// The proof that came along, by its kind.
        proof: Option<ProofKind>,
    },
    /// The network refused to answer.
    Refused,
    /// The network did not answer in time.
    TimedOut,
}

/// The server's answer to a request for the status of a proof.
#[derive(Debug, Clone, Copy, PartialEq, Eq, Structural)]
pub struct ProofStatusReply {
    pub code: u16,
    pub status: SP1ProofStatus,
    /// The bytes of the proof to send along, if any.
    pub proof: Option<ProofEncoding>,
    pub unclaim_description: Option<i32>,
}

/// Why there is no answer.
#[derive(Debug, Clone, Copy, PartialEq, Eq, Structural)]
pub enum StatusError {
    /// The network reported a status that is not known.
    UnknownStatus,
    /// The network reported a proof as fulfilled and returned none.
    FulfilledWithoutProof,
}

/// How many seconds the network may take to answer.
pub const STATUS_TIMEOUT: u64 = 10;

/// The answer without a proof and without a reason.
pub open spec fn bare_reply(code: u16, status: SP1ProofStatus) -> ProofStatusReply {
    ProofStatusReply { code, status, proof: None, unclaim_description: None }
}

/// The server's answer to a request for the status of a proof.
///
/// A fulfilled proof is sent along as it is stored, a core proof not at all. The reason why a proof
/// was given back is sent along only with that status; a missing one is number 0.
pub open spec fn spec_proof_status_reply(query: StatusQuery) -> Result<
    ProofStatusReply,
    StatusError,
> {
    match query {
        StatusQuery::Refused | StatusQuery::TimedOut => Ok(
            bare_reply(STATUS_INTERNAL_SERVER_ERROR, SP1ProofStatus::Unspecified),
        ),
        StatusQuery::Answered { status: None, .. } => Err(StatusError::UnknownStatus),
        StatusQuery::Answered {
            status: Some(SP1ProofStatus::Fulfilled),
            proof: attached,
            ..
        } => match attached {
            None => Err(StatusError::FulfilledWithoutProof),
            Some(kind) => Ok(
                ProofStatusReply {
                    proof: spec_proof_encoding(kind),
                    ..bare_reply(STATUS_OK, SP1ProofStatus::Fulfilled)
                },
            ),
        },
        StatusQuery::Answered {
            status: Some(SP1ProofStatus::Unclaimed),
            unclaim_description,
            ..
        } => Ok(
            ProofStatusReply {
                unclaim_description: Some(
                    match unclaim_description {
                        Some(number) => number,
                        None => 0i32,
                    },
                ),
                ..bare_reply(STATUS_OK, SP1ProofStatus::Unclaimed)
            },
        ),
        StatusQuery::Answered { status: Some(status), .. } => Ok(bare_reply(STATUS_OK, status)),
    }
}

/// Answers a request for the status of a proof.
pub fn get_proof_status(query: StatusQuery) -> (reply: Result<ProofStatusReply, StatusError>)
    ensures
        reply == spec_proof_status_reply(query),
{
    match query {
        StatusQuery::Refused | StatusQuery::TimedOut => Ok(
            ProofStatusReply {
                code: STATUS_INTERNAL_SERVER_ERROR,
                status: SP1ProofStatus::Unspecified,
                proof: None,
                unclaim_description: None,
            },
        ),
        StatusQuery::Answered { status, unclaim_description, proof: attached } => {
            let status = match status {
                Some(status) => status,
                None => {
                    return Err(StatusError::UnknownStatus);
                },
            };
            let mut reply = ProofStatusReply {
                code: STATUS_OK,
                status,
                proof: None,
                unclaim_description: None,
            };
            match status {
                SP1ProofStatus::Fulfilled => match attached {
                    Some(kind) => {
                        reply.proof = proof_encoding(kind);
                    },
                    None => {
                        return Err(StatusError::FulfilledWithoutProof);
                    },
                },
                SP1ProofStatus::Unclaimed => {
                    reply.unclaim_description = match unclaim_description {
                        Some(number) => Some(number),
                        None => Some(0),
                    };
                },
                _ => {},
            }
            Ok(reply)
        },
    }
}

/// Why an L1 head could not be read.
#[derive(Debug, Clone, Copy, PartialEq, Eq, Structural)]
pub enum L1HeadError {
    /// It does not start with `0x`.
    NoPrefix,
    /// What follows is not made of hexadecimal digits.
    InvalidHex,
    /// It is not 32 bytes long.
    WrongLength,
}

/// The L1 head that a text stands for: what follows `0x`, read as hexadecimal digits.
pub open spec fn spec_parse_l1_head(text: Seq<char>) -> Result<Seq<u8>, L1HeadError> {
    if text.len() < 2 || text[0] != '0' || text[1] != 'x' {
        Err(L1HeadError::NoPrefix)
    } else {
        match spec_decode_hex(text.skip(2)) {
            None => Err(L1HeadError::InvalidHex),
            Some(bytes) => if bytes.len() == 32 {
                Ok(bytes)
            } else {
                Err(L1HeadError::WrongLength)
            },
        }
    }
}

/// Reads the L1 head of a request for an aggregation proof.
pub fn parse_l1_head(head: &str) -> (parsed: Result<B256, L1HeadError>)
    ensures
        match spec_parse_l1_head(head@) {
            Ok(bytes) => parsed is Ok && parsed->Ok_0@ == bytes,
            Err(e) => parsed == Err::<B256, _>(e),
        },
{
    let length: usize = head.unicode_len();
    if length < 2 || head.get_char(0) != '0' || head.get_char(1) != 'x' {
        return Err(L1HeadError::NoPrefix);
    }
    let digits: &str = head.substring_char(2, length);
    assert(digits@ =~= head@.skip(2));
    match decode_hex(digits) {
        None => Err(L1HeadError::InvalidHex),
        Some(bytes) => {
            if bytes.len() != 32 {
                return Err(L1HeadError::WrongLength);
            }
            let word: B256 = word_at(bytes.as_slice(), 0);
            assert(word@ =~= bytes@);
            Ok(word)
        },
    }
}

/// A head that was written as hexadecimal digits behind `0x` is read back.
pub proof fn law_an_l1_head_is_read_back(head: Seq<u8>)
    requires
        head.len() == 32,
    ensures
        spec_parse_l1_head(seq!['0', 'x'] + crate::hex::hex_text(head)) == Ok::<_, L1HeadError>(head),
{
    crate::hex::law_hex_is_read_back(head);
    let text = seq!['0', 'x'] + crate::hex::hex_text(head);
    assert(text.skip(2) =~= crate::hex::hex_text(head));
}

/// Proof bytes are sent along only with a fulfilled proof, and a reason only with one that was
/// given back.
pub proof fn law_replies_carry_what_their_status_allows(query: StatusQuery)
    ensures
        spec_proof_status_reply(query) matches Ok(reply) ==> {
            &&& reply.proof is Some ==> reply.status == SP1ProofStatus::Fulfilled
            &&& reply.unclaim_description is Some <==> reply.status == SP1ProofStatus::Unclaimed
        },
{
}

/// The answer to a request for the status of a proof has HTTP's code 200 and the network's own
/// status exactly if the network has answered, and the code 500 without a status exactly if it has
/// not. There is no answer for a status that is not known, nor for a fulfilled proof that did not
/// come along.
pub proof fn law_the_networks_status_is_passed_on(
    query: StatusQuery,
    reply: Result<ProofStatusReply, StatusError>,
)
    requires
        call_ensures(get_proof_status, (query,), reply),
    ensures
        query is Refused || query is TimedOut ==> {
            &&& reply matches Ok(answer)
            &&& answer.code == 500
            &&& answer.status == SP1ProofStatus::Unspecified
            &&& answer.proof is None
            &&& answer.unclaim_description is None
        },
        query matches StatusQuery::Answered { status, unclaim_description, proof: attached } ==> {
            &&& reply == Err::<ProofStatusReply, _>(StatusError::UnknownStatus) <==> status is None
            &&& reply == Err::<ProofStatusReply, _>(StatusError::FulfilledWithoutProof) <==> status
                == Some(SP1ProofStatus::Fulfilled) && attached is None
            &&& reply matches Ok(answer) ==> {
                &&& answer.code == 200
                &&& Some(answer.status) == status
                &&& answer.proof == Some(ProofEncoding::Serialized) <==> status == Some(
                    SP1ProofStatus::Fulfilled,
                ) && attached == Some(ProofKind::Compressed)
                &&& answer.proof == Some(ProofEncoding::OnChain) <==> status == Some(
                    SP1ProofStatus::Fulfilled,
                ) && (attached == Some(ProofKind::Groth16) || attached == Some(ProofKind::Plonk))
                &&& answer.unclaim_description is Some <==> status == Some(SP1ProofStatus::Unclaimed)
                &&& status == Some(SP1ProofStatus::Unclaimed) && unclaim_description is Some
                    ==> answer.unclaim_description == unclaim_description
                &&& status == Some(SP1ProofStatus::Unclaimed) && unclaim_description is None
                    ==> answer.unclaim_description == Some(0i32)
            }
        },
{
}

/// A request that ended with an error is answered with HTTP's code 500 and a text of that error.
pub proof fn law_errors_are_answered_as_server_errors(error: AppError, response: (u16, String))
    requires
        call_ensures(AppError::into_response, (error,), response),
    ensures
        response.0 == 500,
        displays_as(error.0, response.1@),
{
}

/// An L1 head is read only behind a lower-case `0x`, and what is read is what the digits behind it
/// write, if that is 32 bytes long. Each error says which of these fails.
pub proof fn law_an_l1_head_is_32_bytes_behind_its_prefix(
    head: &str,
    parsed: Result<B256, L1HeadError>,
)
    requires
        call_ensures(parse_l1_head, (head,), parsed),
    ensures
        ({
            let prefixed = head@.len() >= 2 && head@[0] == '0' && head@[1] == 'x';
            let bytes = spec_decode_hex(head@.skip(2));
            &&& parsed == Err::<B256, _>(L1HeadError::NoPrefix) <==> !prefixed
            &&& parsed == Err::<B256, _>(L1HeadError::InvalidHex) <==> prefixed && bytes is None
            &&& parsed == Err::<B256, _>(L1HeadError::WrongLength) <==> prefixed && bytes is Some
                && bytes->0.len() != 32
            &&& parsed matches Ok(word) ==> bytes == Some(word@)
        }),
{
}

} // verus!
