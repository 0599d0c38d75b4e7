//! What the host hands to the programs, and how it runs the witness generation.
use vstd::prelude::*;
use vstd::string::StringExecFns;

use crate::outside::{
    byte_strings_cbor, cbor_array, contents, header_json, header_json_of, headers_cbor,
    headers_cbor_of, option_view,
};
use crate::proposer::proof_status::ProofKind;
use crate::request::B256;
use crate::types::{AggregationInputs, BootInfoStruct};

verus! {

/// Whether a program proves one block or a range of them.
#[derive(Debug, Clone, Copy, PartialEq, Eq, Structural)]
pub enum ProgramType {
    Single,
    Multi,
}

/// A header as a node reports it.
#[derive(Debug, PartialEq, Eq)]
pub struct RpcHeader {
    pub hash: B256,
    pub inner: alloy_consensus::Header,
    pub total_difficulty: Option<B256>,
    pub size: Option<B256>,
}

/// The consensus header in what a node reports.
pub fn convert_header(header: RpcHeader) -> (converted: alloy_consensus::Header)
    ensures
        converted == header.inner,
{
    header.inner
}

/// What the host was told about a range.
#[derive(Debug, Clone, Copy, PartialEq, Eq)]
pub struct HostArgs {
    pub l1_head: B256,
    pub agreed_l2_output_root: B256,
    pub claimed_l2_output_root: B256,
    pub claimed_l2_block_number: u64,
}

/// What the range program is started with.
#[derive(Debug, Clone, PartialEq, Eq)]
pub struct BootInfoWithBytesConfig {
    pub l1_head: B256,
    pub l2_output_root: B256,
    pub l2_claim: B256,
    pub l2_claim_block: u64,
    pub chain_id: u64,
    pub rollup_config_bytes: Vec<u8>,
}

/// One thing that is written to the input of a program. A program reads what was written in the
/// order in which it was written.
#[derive(Debug, PartialEq, Eq)]
pub enum StdinItem {
    /// What the range program is started with.
    BootInfo { boot_info: BootInfoWithBytesConfig },
    /// The preimages of a range, serialized.
    Preimages { bytes: Vec<u8> },
    /// The proof at a place in the list of those to aggregate.
    Proof { index: usize },
    /// What the aggregation program takes in besides the proofs and the headers.
    AggregationInputs { inputs: AggregationInputs },
    /// L1 headers, in CBOR.
    Headers { cbor: Vec<u8> },
    /// The header before a block, as a JSON text.
    PreviousHeader { json: String },
    /// The raw transactions of a block, in CBOR.
    Transactions { cbor: Vec<u8> },
    /// The state that a block is executed on, as it was cached.
    Cache { bytes: Vec<u8> },
}

/// A rollup config as it was read from a file, and the chain that it says it is for.
#[derive(Debug, Clone, PartialEq, Eq)]
pub struct RollupConfigFile {
    pub bytes: Vec<u8>,
    pub l2_chain_id: u64,
}

/// The input of the range program: the boot information (what the host was told, and the rollup
/// config with its chain), and after it the preimages, serialized.
pub fn get_proof_stdin(
    args: &HostArgs,
    rollup_config: RollupConfigFile,
    preimages: Vec<u8>,
) -> (stdin: Vec<StdinItem>)
    ensures
        stdin@ == seq![
            StdinItem::BootInfo {
                boot_info: BootInfoWithBytesConfig {
                    l1_head: args.l1_head,
                    l2_output_root: args.agreed_l2_output_root,
                    l2_claim: args.claimed_l2_output_root,
                    l2_claim_block: args.claimed_l2_block_number,
                    chain_id: rollup_config.l2_chain_id,
                    rollup_config_bytes: rollup_config.bytes,
                },
            },
            StdinItem::Preimages { bytes: preimages },
        ],
{
    let boot_info = BootInfoWithBytesConfig {
        l1_head: args.l1_head,
        l2_output_root: args.agreed_l2_output_root,
        l2_claim: args.claimed_l2_output_root,
        l2_claim_block: args.claimed_l2_block_number,
        chain_id: rollup_config.l2_chain_id,
        rollup_config_bytes: rollup_config.bytes,
    };
    let mut stdin: Vec<StdinItem> = Vec::new();
    stdin.push(StdinItem::BootInfo { boot_info });
    stdin.push(StdinItem::Preimages { bytes: preimages });
    stdin
}

/// Every proof is a compressed one.
pub open spec fn all_compressed(proofs: Seq<ProofKind>) -> bool {
    forall|i: int| 0 <= i < proofs.len() ==> #[trigger] proofs[i] == ProofKind::Compressed
}

/// The first `count` proofs, in their order.
pub open spec fn proof_items(count: nat) -> Seq<StdinItem> {
    Seq::new(count, |i: int| StdinItem::Proof { index: i as usize })
}

/// Why the input of an aggregation could not be put together.
#[derive(Debug, Clone, Copy, PartialEq, Eq, Structural)]
pub enum AggStdinError {
    /// One of the proofs is not a compressed one.
    NotCompressed,
    /// The headers could not be encoded.
    HeadersNotEncoded,
}

/// The input of the aggregation program: the proofs in their order, what they are aggregated under,
/// and the encoding of the L1 headers.
pub open spec fn is_agg_stdin(
    items: Seq<StdinItem>,
    count: nat,
    inputs: AggregationInputs,
    headers: Seq<u8>,
) -> bool {
    &&& items.len() == count + 2
    &&& items.take(count as int) == proof_items(count)
    &&& items[count as int] == (StdinItem::AggregationInputs { inputs })
    &&& items[count as int + 1] matches StdinItem::Headers { cbor }
    &&& cbor@ == headers
}

/// The input of an aggregation, or why there is none, where `headers` is the encoding of its
/// headers.
pub open spec fn agg_stdin_of(
    result: Result<Vec<StdinItem>, AggStdinError>,
    proofs: Seq<ProofKind>,
    inputs: AggregationInputs,
    headers: Option<Seq<u8>>,
) -> bool {
    if !all_compressed(proofs) {
        result == Err::<Vec<StdinItem>, _>(AggStdinError::NotCompressed)
    } else {
        match headers {
            Some(bytes) => result is Ok && is_agg_stdin(
                result->Ok_0@,
                proofs.len(),
                inputs,
                bytes,
            ),
            None => result == Err::<Vec<StdinItem>, _>(AggStdinError::HeadersNotEncoded),
        }
    }
}

/// Puts the input of the aggregation program together from the encoding of the L1 headers.
pub fn agg_proof_stdin(
    proofs: &[ProofKind],
    inputs: AggregationInputs,
    headers: Option<Vec<u8>>,
) -> (stdin: Result<Vec<StdinItem>, AggStdinError>)
    ensures
        agg_stdin_of(stdin, proofs@, inputs, option_view(headers)),
{
    let mut stdin: Vec<StdinItem> = Vec::new();
    let mut i: usize = 0;
    while i < proofs.len()
        invariant
            i <= proofs@.len(),
            forall|j: int| 0 <= j < i ==> #[trigger] proofs@[j] == ProofKind::Compressed,
            stdin@ == proof_items(i as nat),
        decreases proofs@.len() - i,
    {
        match proofs[i] {
            ProofKind::Compressed => {},
            _ => {
                assert(proofs@[i as int] != ProofKind::Compressed);
                return Err(AggStdinError::NotCompressed);
            },
        }
        stdin.push(StdinItem::Proof { index: i });
        i += 1;
    }
    match headers {
        Some(cbor) => {
            stdin.push(StdinItem::AggregationInputs { inputs });
            stdin.push(StdinItem::Headers { cbor });
            assert(stdin@.take(proofs@.len() as int) =~= proof_items(proofs@.len()));
            Ok(stdin)
        },
        None => Err(AggStdinError::HeadersNotEncoded),
    }
}

/// The input of the aggregation program: the proofs in their order, what they are aggregated under,
/// and the L1 headers.
pub fn get_agg_proof_stdin(
    proofs: &[ProofKind],
    boot_infos: Vec<BootInfoStruct>,
    headers: Vec<alloy_consensus::Header>,
    multi_block_vkey: [u32; 8],
    latest_checkpoint_head: B256,
) -> (stdin: Result<Vec<StdinItem>, AggStdinError>)
    ensures
        agg_stdin_of(
            stdin,
            proofs@,
            AggregationInputs {
                boot_infos,
                latest_l1_checkpoint_head: latest_checkpoint_head,
                multi_block_vkey,
            },
            headers_cbor_of(headers@),
        ),
{
    let inputs = AggregationInputs {
        boot_infos,
        latest_l1_checkpoint_head: latest_checkpoint_head,
        multi_block_vkey,
    };
    agg_proof_stdin(proofs, inputs, headers_cbor(&headers))
}

/// The transactions of a block, as a node reports them.
#[derive(Debug, Clone, PartialEq, Eq)]
pub enum BlockTransactions {
    /// By their hashes.
    Hashes(Vec<B256>),
    /// In full, or not at all.
    Other,
}

/// Why the input of a block could not be put together.
#[derive(Debug, Clone, Copy, PartialEq, Eq, Structural)]
pub enum StdinError {
    /// The node does not know the block, or could not be asked.
    BlockNotFound,
    /// The node did not report the transactions by their hashes.
    NotHashes,
    /// A transaction could not be fetched.
    TransactionNotFetched,
    /// The header could not be encoded.
    HeaderNotEncoded,
}

/// What to do next for the input of a block.
#[derive(Debug, PartialEq, Eq)]
pub enum MantleStdinStep {
    /// Fetch the header of the block before it.
    FetchPreviousHeader { number: u64, block_number: u64 },
    /// Fetch the block's transactions.
    FetchTransactions { block_number: u64, header: alloy_consensus::Header },
    /// Fetch the raw transaction at `raw.len()` of the block.
    FetchRawTransaction {
        block_number: u64,
        header: alloy_consensus::Header,
        hashes: Vec<B256>,
        raw: Vec<Vec<u8>>,
    },
    /// Read the state that was cached for the block.
    ReadCache { block_number: u64, header_json: String, txs_cbor: Vec<u8> },
    /// The input is there.
    Done { stdin: Vec<StdinItem> },
    Failed { error: StdinError },
}

/// What came of a step.
#[derive(Debug, PartialEq, Eq)]
pub enum MantleStdinEvent {
    Header { header: RpcHeader },
    Transactions { transactions: BlockTransactions },
    RawTransaction { bytes: Vec<u8> },
    Cache { bytes: Vec<u8> },
    Failed,
}

/// Once everything was fetched, header and transactions are encoded, and the cached state is read.
/// `json` is the text of the header.
pub open spec fn encodes(
    step: MantleStdinStep,
    number: u64,
    json: Option<Seq<char>>,
    txs: Seq<Seq<u8>>,
) -> bool {
    match json {
        Some(text) => {
            &&& step matches MantleStdinStep::ReadCache { block_number, header_json, txs_cbor }
            &&& block_number == number
            &&& header_json@ == text
            &&& txs_cbor@ == cbor_array(txs)
        },
        None => step == (MantleStdinStep::Failed { error: StdinError::HeaderNotEncoded }),
    }
}

/// Raw transactions are fetched for the hashes that are left, in their order.
pub open spec fn fetches(
    step: MantleStdinStep,
    number: u64,
    header: alloy_consensus::Header,
    hashes: Seq<B256>,
    raw: Seq<Vec<u8>>,
) -> bool {
    if raw.len() < hashes.len() {
        &&& step matches MantleStdinStep::FetchRawTransaction {
            block_number,
            header: kept,
            hashes: of,
            raw: so_far,
        }
        &&& block_number == number
        &&& kept == header
        &&& of@ == hashes
        &&& so_far@ == raw
    } else {
        encodes(step, number, header_json_of(header), contents(raw))
    }
}

/// The input of the block program: the header before the block, its transactions, and the state
/// that was cached for it.
pub open spec fn block_items(json: String, txs: Vec<u8>, cache: Vec<u8>) -> Seq<StdinItem> {
    seq![
        StdinItem::PreviousHeader { json },
        StdinItem::Transactions { cbor: txs },
        StdinItem::Cache { bytes: cache },
    ]
}

/// The input of the block program.
fn block_stdin(json: String, txs: Vec<u8>, cache: Vec<u8>) -> (stdin: Vec<StdinItem>)
    ensures
        stdin@ == block_items(json, txs, cache),
{
    let mut stdin: Vec<StdinItem> = Vec::new();
    stdin.push(StdinItem::PreviousHeader { json });
    stdin.push(StdinItem::Transactions { cbor: txs });
    stdin.push(StdinItem::Cache { bytes: cache });
    stdin
}

/// Encodes the transactions of a block whose header has this text, and goes on to the cached state.
pub fn encode_block(block_number: u64, header_json: Option<String>, txs: &[Vec<u8>]) -> (step:
    MantleStdinStep)
    ensures
        encodes(step, block_number, option_view(header_json), contents(txs@)),
        step.wf(),
{
    match header_json {
        Some(header_json) => MantleStdinStep::ReadCache {
            block_number,
            header_json,
            txs_cbor: byte_strings_cbor(txs),
        },
        None => MantleStdinStep::Failed { error: StdinError::HeaderNotEncoded },
    }
}

impl MantleStdinStep {
    /// A step that fetches a raw transaction has one left to fetch.
    pub open spec fn wf(self) -> bool {
        self matches MantleStdinStep::FetchRawTransaction { hashes, raw, .. } ==> raw@.len()
            < hashes@.len()
    }

    /// The events that can come of a step.
    pub open spec fn admits(self, event: MantleStdinEvent) -> bool {
        match event {
            MantleStdinEvent::Header { .. } => self is FetchPreviousHeader,
            MantleStdinEvent::Transactions { .. } => self is FetchTransactions,
            MantleStdinEvent::RawTransaction { .. } => self is FetchRawTransaction,
            MantleStdinEvent::Cache { .. } => self is ReadCache,
            MantleStdinEvent::Failed => !(self is ReadCache || self is Done || self is Failed),
        }
    }

    /// `next` is what follows a step, by what came of it.
    pub open spec fn leads_to(self, event: MantleStdinEvent, next: MantleStdinStep) -> bool {
        match (self, event) {
            (
                MantleStdinStep::FetchRawTransaction { .. },
                MantleStdinEvent::Failed,
            ) => next == (MantleStdinStep::Failed { error: StdinError::TransactionNotFetched }),
            (_, MantleStdinEvent::Failed) => next == (MantleStdinStep::Failed {
                error: StdinError::BlockNotFound,
            }),
            (
                MantleStdinStep::FetchPreviousHeader { block_number, .. },
                MantleStdinEvent::Header { header },
            ) => next == (MantleStdinStep::FetchTransactions {
                block_number,
                header: header.inner,
            }),
            (
                MantleStdinStep::FetchTransactions { block_number, header },
                MantleStdinEvent::Transactions { transactions },
            ) => match transactions {
                BlockTransactions::Hashes(hashes) => fetches(
                    next,
                    block_number,
                    header,
                    hashes@,
                    Seq::empty(),
                ),
                BlockTransactions::Other => next == (MantleStdinStep::Failed {
                    error: StdinError::NotHashes,
                }),
            },
            (
                MantleStdinStep::FetchRawTransaction { block_number, header, hashes, raw },
                MantleStdinEvent::RawTransaction { bytes },
            ) => fetches(next, block_number, header, hashes@, raw@.push(bytes)),
            (
                MantleStdinStep::ReadCache { header_json, txs_cbor, .. },
                MantleStdinEvent::Cache { bytes },
            ) => next matches MantleStdinStep::Done { stdin } && stdin@ == block_items(
                header_json,
                txs_cbor,
                bytes,
            ),
            _ => false,
        }
    }

    /// Goes on from a step, by what came of it.
    pub fn next(self, event: MantleStdinEvent) -> (next: MantleStdinStep)
        requires
            self.wf(),
            self.admits(event),
        ensures
            next.wf(),
            self.leads_to(event, next),
    {
        match (self, event) {
            (
                MantleStdinStep::FetchRawTransaction { .. },
                MantleStdinEvent::Failed,
            ) => MantleStdinStep::Failed { error: StdinError::TransactionNotFetched },
            (_, MantleStdinEvent::Failed) => MantleStdinStep::Failed {
                error: StdinError::BlockNotFound,
            },
            (
                MantleStdinStep::FetchPreviousHeader { block_number, .. },
                MantleStdinEvent::Header { header },
            ) => MantleStdinStep::FetchTransactions {
                block_number,
                header: convert_header(header),
            },
            (
                MantleStdinStep::FetchTransactions { block_number, header },
                MantleStdinEvent::Transactions { transactions },
            ) => match transactions {
                BlockTransactions::Hashes(hashes) => fetch_rest(
                    block_number,
                    header,
                    hashes,
                    Vec::new(),
                ),
                BlockTransactions::Other => MantleStdinStep::Failed { error: StdinError::NotHashes },
            },
            (
                MantleStdinStep::FetchRawTransaction { block_number, header, hashes, raw },
                MantleStdinEvent::RawTransaction { bytes },
            ) => {
                let mut raw = raw;
                raw.push(bytes);
                fetch_rest(block_number, header, hashes, raw)
            },
            (
                MantleStdinStep::ReadCache { header_json, txs_cbor, .. },
                MantleStdinEvent::Cache { bytes },
            ) => MantleStdinStep::Done { stdin: block_stdin(header_json, txs_cbor, bytes) },
            _ => MantleStdinStep::Failed { error: StdinError::BlockNotFound },
        }
    }
}

/// The step that fetches the next raw transaction, or what follows where there is none left.
fn fetch_rest(
    block_number: u64,
    header: alloy_consensus::Header,
    hashes: Vec<B256>,
    raw: Vec<Vec<u8>>,
) -> (step: MantleStdinStep)
    ensures
        step.wf(),
        fetches(step, block_number, header, hashes@, raw@),
{
    if raw.len() < hashes.len() {
        MantleStdinStep::FetchRawTransaction { block_number, header, hashes, raw }
    } else {
        encode_block(block_number, header_json(&header), raw.as_slice())
    }
}

/// Starts to put the input of a block together. There is a block before it.
pub fn get_mantle_proof_stdin(block_number: u64) -> (step: MantleStdinStep)
    requires
        block_number > 0,
    ensures
        step == (MantleStdinStep::FetchPreviousHeader {
            number: (block_number - 1) as u64,
            block_number,
        }),
        step.wf(),
{
    MantleStdinStep::FetchPreviousHeader { number: block_number - 1, block_number }
}

/// The fetching for the input of a block ends only once every one of its transactions was fetched,
/// and what is written holds them all, in the order of their hashes.
pub proof fn law_every_transaction_is_fetched(
    step: MantleStdinStep,
    event: MantleStdinEvent,
    next: MantleStdinStep,
)
    requires
        step.wf(),
        step.admits(event),
        step.leads_to(event, next),
        next is ReadCache,
    ensures
        match (step, event) {
            (
                MantleStdinStep::FetchTransactions { .. },
                MantleStdinEvent::Transactions { transactions: BlockTransactions::Hashes(hashes) },
            ) => hashes@.len() == 0 && next->txs_cbor@ == cbor_array(Seq::empty()),
            (
                MantleStdinStep::FetchRawTransaction { hashes, raw, .. },
                MantleStdinEvent::RawTransaction { bytes },
            ) => raw@.len() + 1 == hashes@.len() && next->txs_cbor@ == cbor_array(
                contents(raw@.push(bytes)),
            ),
            _ => false,
        },
{
    assert(contents(Seq::empty()) =~= Seq::empty());
}

/// How the server of the preimages ended.
#[derive(Debug, Clone, PartialEq, Eq)]
pub enum ServerExit {
    /// Without an error, though too early.
    Early,
    Error { message: String },
    Panic { message: String },
}

/// What an operator is told about a server that ended before the witness generation.
pub open spec fn exit_message(exit: ServerExit) -> Seq<char> {
    let cause = match exit {
        ServerExit::Early => "Server exited unexpectedly before witness generation completed"@,
        ServerExit::Error { message } => "Server exited with error: "@ + message@,
        ServerExit::Panic { message } => "Server task panicked: "@ + message@,
    };
    cause + ". Witness generation aborted \u{2014} will retry with a fresh channel."@
}

/// The first of the two to end: the witness generation, or the server it depends on.
pub enum RaceOutcome<W, E> {
    Witness(Result<W, E>),
    Server(ServerExit),
}

/// Why there is no witness.
pub enum RunError<E> {
    /// The witness generation failed.
    Witness(E),
    /// The server ended first. The witness generation would wait on it forever; it is aborted, so
    /// that the caller can try again.
    Server(String),
}

/// The message for a server that ended before the witness generation.
pub fn abort_message(exit: ServerExit) -> (message: String)
    ensures
        message@ == exit_message(exit),
{
    let text: String = match exit {
        ServerExit::Early => "Server exited unexpectedly before witness generation completed".to_owned(),
        ServerExit::Error { message } => "Server exited with error: ".to_owned().concat(
            message.as_str(),
        ),
        ServerExit::Panic { message } => "Server task panicked: ".to_owned().concat(
            message.as_str(),
        ),
    };
    text.concat(". Witness generation aborted \u{2014} will retry with a fresh channel.")
}

/// What becomes of a run: the witness, if its generation ended first and succeeded.
pub fn run_outcome<W, E>(outcome: RaceOutcome<W, E>) -> (result: Result<W, RunError<E>>)
    ensures
        match outcome {
            RaceOutcome::Witness(Ok(witness)) => result == Ok::<W, RunError<E>>(witness),
            RaceOutcome::Witness(Err(e)) => result == Err::<W, RunError<E>>(RunError::Witness(e)),
            RaceOutcome::Server(exit) => result matches Err(RunError::Server(message)) && message@
                == exit_message(exit),
        },
{
    match outcome {
        RaceOutcome::Witness(Ok(witness)) => Ok(witness),
        RaceOutcome::Witness(Err(e)) => Err(RunError::Witness(e)),
        RaceOutcome::Server(exit) => Err(RunError::Server(abort_message(exit))),
    }
}

/// The part of a rollup config that is not left at its default.
#[derive(Debug, Clone, Copy, PartialEq, Eq, Structural)]
pub struct RollupConfig {
    pub l2_chain_id: u64,
    pub regolith_time: Option<u64>,
    pub shanghai_time: Option<u64>,
}

/// The rollup config that blocks are executed under.
pub fn mock_rollup_config() -> (config: RollupConfig)
    ensures
        config == (RollupConfig {
            l2_chain_id: 5000,
            regolith_time: Some(0u64),
            shanghai_time: Some(0u64),
        }),
{
    RollupConfig { l2_chain_id: 5000, regolith_time: Some(0), shanghai_time: Some(0) }
}

/// The consensus header is taken out of what a node reports as it is.
pub proof fn law_the_consensus_header_is_taken_as_it_is(
    header: RpcHeader,
    converted: alloy_consensus::Header,
)
    requires
        call_ensures(convert_header, (header,), converted),
    ensures
        converted == header.inner,
{
}

/// The range program reads what the host was told and the rollup config with its chain, each in its
/// own field, and then the preimages.
pub proof fn law_the_range_program_reads_what_the_host_was_told(
    args: HostArgs,
    rollup_config: RollupConfigFile,
    preimages: Vec<u8>,
    stdin: Vec<StdinItem>,
)
    requires
        call_ensures(get_proof_stdin, (&args, rollup_config, preimages), stdin),
    ensures
        stdin@.len() == 2,
        stdin@[0] matches StdinItem::BootInfo { boot_info } && {
            &&& boot_info.l1_head@ == args.l1_head@
            &&& boot_info.l2_output_root@ == args.agreed_l2_output_root@
            &&& boot_info.l2_claim@ == args.claimed_l2_output_root@
            &&& boot_info.l2_claim_block == args.claimed_l2_block_number
            &&& boot_info.chain_id == rollup_config.l2_chain_id
            &&& boot_info.rollup_config_bytes@ == rollup_config.bytes@
        },
        stdin@[1] matches StdinItem::Preimages { bytes } && bytes@ == preimages@,
{
}

/// The aggregation program reads every proof in its place, then what they are aggregated under, and
/// then the headers, if all proofs are compressed ones and the headers can be encoded; which of the
/// two fails is what the error says, the proofs first.
pub proof fn law_the_aggregation_program_reads_every_proof(
    proofs: &[ProofKind],
    inputs: AggregationInputs,
    headers: Option<Vec<u8>>,
    stdin: Result<Vec<StdinItem>, AggStdinError>,
    i: int,
)
    requires
        call_ensures(agg_proof_stdin, (proofs, inputs, headers), stdin),
        proofs@.len() <= usize::MAX,
    ensures
        ({
            let compressed = forall|k: int|
                0 <= k < proofs@.len() ==> #[trigger] proofs@[k] == ProofKind::Compressed;
            &&& stdin is Ok <==> compressed && headers is Some
            &&& stdin == Err::<Vec<StdinItem>, _>(AggStdinError::NotCompressed) <==> !compressed
            &&& stdin == Err::<Vec<StdinItem>, _>(AggStdinError::HeadersNotEncoded) <==> compressed
                && headers is None
        }),
        stdin matches Ok(items) ==> {
            let n = proofs@.len() as int;
            &&& items@.len() == n + 2
            &&& 0 <= i < n ==> items@[i] is Proof && items@[i]->index == i
            &&& items@[n] matches StdinItem::AggregationInputs { inputs: written } && written == inputs
            &&& items@[n + 1] matches StdinItem::Headers { cbor } && cbor@ == headers->0@
        },
{
    if let Ok(items) = stdin {
        let n = proofs@.len() as int;
        if 0 <= i < n {
            assert(items@.take(n)[i] == items@[i]);
            assert(proof_items(n as nat)[i] == (StdinItem::Proof { index: i as usize }));
        }
    }
}

/// What the proofs are aggregated under is what was given: the boot information of each range, the
/// key of the range program, and the L1 block that was checkpointed.
pub proof fn law_an_aggregation_is_about_what_was_given(
    proofs: &[ProofKind],
    boot_infos: Vec<BootInfoStruct>,
    headers: Vec<alloy_consensus::Header>,
    multi_block_vkey: [u32; 8],
    latest_checkpoint_head: B256,
    stdin: Result<Vec<StdinItem>, AggStdinError>,
)
    requires
        call_ensures(
            get_agg_proof_stdin,
            (proofs, boot_infos, headers, multi_block_vkey, latest_checkpoint_head),
            stdin,
        ),
    ensures
        stdin matches Ok(items) ==> {
            let n = proofs@.len() as int;
            &&& items@.len() == n + 2
            &&& items@[n] matches StdinItem::AggregationInputs { inputs } && {
                &&& inputs.boot_infos@ == boot_infos@
                &&& inputs.multi_block_vkey@ == multi_block_vkey@
                &&& inputs.latest_l1_checkpoint_head@ == latest_checkpoint_head@
            }
            &&& items@[n + 1] matches StdinItem::Headers { cbor } && headers_cbor_of(headers@) == Some(
                cbor@,
            )
        },
        stdin is Ok <==> headers_cbor_of(headers@) is Some && forall|k: int|
            0 <= k < proofs@.len() ==> #[trigger] proofs@[k] == ProofKind::Compressed,
{
}

/// These are the steps of putting the input of a block together from their start on, with what came
/// of each of them but the last.
pub open spec fn is_assembly(
    steps: Seq<MantleStdinStep>,
    events: Seq<MantleStdinEvent>,
    block_number: u64,
) -> bool {
    &&& steps.len() == events.len() + 1
    &&& steps[0] is FetchPreviousHeader
    &&& steps[0]->FetchPreviousHeader_number == block_number - 1
    &&& steps[0]->FetchPreviousHeader_block_number == block_number
    &&& forall|i: int| #![trigger events[i]]
        0 <= i < events.len() ==> steps[i].wf() && steps[i].admits(events[i]) && steps[i].leads_to(
            events[i],
            steps[i + 1],
        )
}

/// Putting the input of a block together starts with the header of the block before it.
pub proof fn law_an_assembly_starts_with_the_block_before(block_number: u64, step: MantleStdinStep)
    requires
        block_number > 0,
        call_ensures(get_mantle_proof_stdin, (block_number,), step),
    ensures
        is_assembly(seq![step], Seq::empty(), block_number),
{
}

/// The raw transactions that came of the steps of an assembly, from the third on.
pub open spec fn raw_transactions(events: Seq<MantleStdinEvent>, count: nat) -> Seq<Seq<u8>> {
    Seq::new(count, |k: int| events[2 + k]->RawTransaction_bytes@)
}

/// The input of a block, as a whole: once the cached state is read, the header that is written is
/// the one that was fetched for the block before, and the transactions are those that were fetched,
/// one for each hash of the block and in the order of the hashes; and the state is the one of the
/// block itself.
pub proof fn law_a_block_is_put_together_from_what_was_fetched(
    steps: Seq<MantleStdinStep>,
    events: Seq<MantleStdinEvent>,
    block_number: u64,
    n: int,
)
    requires
        is_assembly(steps, events, block_number),
        0 <= n <= events.len(),
        steps[n] is ReadCache,
    ensures
        steps[n]->ReadCache_block_number == block_number,
        n >= 2,
        events[0] matches MantleStdinEvent::Header { header } && header_json_of(header.inner) == Some(
            steps[n]->header_json@,
        ),
        events[1] matches MantleStdinEvent::Transactions {
            transactions: BlockTransactions::Hashes(hashes),
        } && n == 2 + hashes@.len() && steps[n]->txs_cbor@ == cbor_array(
            raw_transactions(events, hashes@.len()),
        ),
        forall|k: int| 2 <= k < n ==> (#[trigger] events[k]) is RawTransaction,
{
    lemma_assembly_keeps_what_it_fetched(steps, events, block_number, n);
}

/// An assembly keeps what it has fetched.
proof fn lemma_assembly_keeps_what_it_fetched(
    steps: Seq<MantleStdinStep>,
    events: Seq<MantleStdinEvent>,
    block_number: u64,
    n: int,
)
    requires
        is_assembly(steps, events, block_number),
        0 <= n <= events.len(),
    ensures
        steps[n] matches MantleStdinStep::FetchPreviousHeader { block_number: b, .. } ==> n == 0 && b
            == block_number,
        steps[n] matches MantleStdinStep::FetchTransactions { block_number: b, header } ==> {
            &&& n == 1
            &&& b == block_number
            &&& events[0] is Header
            &&& events[0]->header.inner == header
        },
        steps[n] matches MantleStdinStep::FetchRawTransaction { block_number: b, header, hashes, raw }
            ==> {
            &&& n == 2 + raw@.len()
            &&& b == block_number
            &&& events[0] is Header
            &&& events[0]->header.inner == header
            &&& events[1] matches MantleStdinEvent::Transactions {
                transactions: BlockTransactions::Hashes(of),
            }
            &&& of@ == hashes@
            &&& contents(raw@) == raw_transactions(events, raw@.len())
            &&& forall|k: int| 2 <= k < n ==> (#[trigger] events[k]) is RawTransaction
        },
        steps[n] matches MantleStdinStep::ReadCache { block_number: b, header_json, txs_cbor } ==> {
            &&& n >= 2
            &&& b == block_number
            &&& events[0] is Header
            &&& header_json_of(events[0]->header.inner) == Some(header_json@)
            &&& events[1] matches MantleStdinEvent::Transactions {
                transactions: BlockTransactions::Hashes(of),
            }
            &&& n == 2 + of@.len()
            &&& txs_cbor@ == cbor_array(raw_transactions(events, of@.len()))
            &&& forall|k: int| 2 <= k < n ==> (#[trigger] events[k]) is RawTransaction
        },
    decreases n,
{
    if n > 0 {
        lemma_assembly_keeps_what_it_fetched(steps, events, block_number, n - 1);
        let event = events[n - 1];
        let step = steps[n - 1];
        assert(step.wf() && step.admits(event) && step.leads_to(event, steps[n]));
        if let MantleStdinStep::FetchTransactions { .. } = step {
            assert(contents(Seq::empty()) =~= raw_transactions(events, 0));
        }
        if let MantleStdinStep::FetchRawTransaction { raw, .. } = step {
            if let MantleStdinEvent::RawTransaction { bytes } = event {
                assert(contents(raw@.push(bytes)) =~= raw_transactions(events, raw@.len() + 1)) by {
                    assert forall|k: int| 0 <= k < raw@.len() + 1 implies contents(
                        raw@.push(bytes),
                    )[k] == raw_transactions(events, raw@.len() + 1)[k] by {
                        if k < raw@.len() {
                            assert(contents(raw@)[k] == raw_transactions(events, raw@.len())[k]);
                        }
                    }
                }
            }
        }
    }
}

/// The block program reads the header before the block, the block's transactions, and the state
/// that was cached for it, in this order.
pub proof fn law_the_block_program_reads_header_transactions_and_state(
    block_number: u64,
    header_json: String,
    txs_cbor: Vec<u8>,
    bytes: Vec<u8>,
    next: MantleStdinStep,
)
    requires
        call_ensures(
            MantleStdinStep::next,
            (
                MantleStdinStep::ReadCache { block_number, header_json, txs_cbor },
                MantleStdinEvent::Cache { bytes },
            ),
            next,
        ),
    ensures
        next matches MantleStdinStep::Done { stdin } && {
            &&& stdin@.len() == 3
            &&& stdin@[0] matches StdinItem::PreviousHeader { json } && json@ == header_json@
            &&& stdin@[1] matches StdinItem::Transactions { cbor } && cbor@ == txs_cbor@
            &&& stdin@[2] matches StdinItem::Cache { bytes: cached } && cached@ == bytes@
        },
{
}

/// Each error of an assembly says what was missing: the block, its transactions as hashes, one of
/// these transactions, or the text of the header.
pub proof fn law_an_assembly_says_what_was_missing(
    step: MantleStdinStep,
    event: MantleStdinEvent,
    next: MantleStdinStep,
)
    requires
        step.wf(),
        step.admits(event),
        call_ensures(MantleStdinStep::next, (step, event), next),
    ensures
        next == (MantleStdinStep::Failed { error: StdinError::BlockNotFound }) <==> event is Failed
            && !(step is FetchRawTransaction),
        next == (MantleStdinStep::Failed { error: StdinError::TransactionNotFetched }) <==> event
            is Failed && step is FetchRawTransaction,
        next == (MantleStdinStep::Failed { error: StdinError::NotHashes }) <==> event
            == (MantleStdinEvent::Transactions { transactions: BlockTransactions::Other }),
        next == (MantleStdinStep::Failed { error: StdinError::HeaderNotEncoded }) ==> (step
            matches MantleStdinStep::FetchTransactions { header, .. } && header_json_of(header) is None)
            || (step matches MantleStdinStep::FetchRawTransaction { header, .. } && header_json_of(
            header,
        ) is None),
        next is Done <==> event is Cache,
{
}

/// A witness is handed on as it is, and so is the error of its generation. Where the server ended
/// first, what is told holds the server's own error, and that the generation will be tried again.
pub proof fn law_an_aborted_run_tells_the_servers_error<W, E>(
    outcome: RaceOutcome<W, E>,
    result: Result<W, RunError<E>>,
)
    requires
        call_ensures(run_outcome, (outcome,), result),
    ensures
        outcome matches RaceOutcome::Witness(Ok(witness)) ==> result == Ok::<W, RunError<E>>(witness),
        outcome matches RaceOutcome::Witness(Err(e)) ==> result == Err::<W, RunError<E>>(
            RunError::Witness(e),
        ),
        result matches Err(RunError::Server(text)) ==> outcome is Server && exists|cause: Seq<char>|
            text@ == #[trigger] (cause
                + ". Witness generation aborted \u{2014} will retry with a fresh channel."@),
        outcome matches RaceOutcome::Server(ServerExit::Error { message }) ==> {
            &&& result matches Err(RunError::Server(text))
            &&& text@ == "Server exited with error: "@ + message@
                + ". Witness generation aborted \u{2014} will retry with a fresh channel."@
        },
        outcome matches RaceOutcome::Server(ServerExit::Panic { message }) ==> {
            &&& result matches Err(RunError::Server(text))
            &&& text@ == "Server task panicked: "@ + message@
                + ". Witness generation aborted \u{2014} will retry with a fresh channel."@
        },
        outcome matches RaceOutcome::Server(ServerExit::Early) ==> {
            &&& result matches Err(RunError::Server(text))
            &&& text@ == "Server exited unexpectedly before witness generation completed"@
                + ". Witness generation aborted \u{2014} will retry with a fresh channel."@
        },
{
}

/// Blocks are executed for the chain 5000, from its start on under both upgrades.
pub proof fn law_blocks_are_executed_under_both_upgrades(config: RollupConfig)
    requires
        call_ensures(mock_rollup_config, (), config),
    ensures
        config.l2_chain_id == 5000,
        config.regolith_time == Some(0u64),
        config.shanghai_time == Some(0u64),
{
}

/// An assembly goes on as long as it is answered: from the header to the transactions, and then
/// through their hashes one by one, keeping what it has; once none is left, header and transactions
/// are encoded, if the header has a text.
pub proof fn law_an_assembly_fetches_what_is_left(
    step: MantleStdinStep,
    event: MantleStdinEvent,
    next: MantleStdinStep,
)
    requires
        step.wf(),
        step.admits(event),
        call_ensures(MantleStdinStep::next, (step, event), next),
    ensures
        event matches MantleStdinEvent::Header { header } ==> next
            == (MantleStdinStep::FetchTransactions {
            block_number: step->FetchPreviousHeader_block_number,
            header: header.inner,
        }),
        next matches MantleStdinStep::FetchRawTransaction { block_number, header, hashes, raw } ==> {
            ||| {
                &&& step == (MantleStdinStep::FetchTransactions { block_number, header })
                &&& event matches MantleStdinEvent::Transactions {
                    transactions: BlockTransactions::Hashes(given),
                }
                &&& hashes@ == given@
                &&& hashes@.len() > 0
                &&& raw@.len() == 0
            }
            ||| {
                &&& step is FetchRawTransaction
                &&& event is RawTransaction
                &&& block_number == step->FetchRawTransaction_block_number
                &&& header == step->FetchRawTransaction_header
                &&& hashes@ == step->hashes@
                &&& raw@.len() < hashes@.len()
                &&& raw@.len() == step->raw@.len() + 1
                &&& raw@.last() == event->RawTransaction_bytes
                &&& raw@.drop_last() == step->raw@
            }
        },
        (event is Transactions && event->transactions is Hashes) || event is RawTransaction ==> next
            is FetchRawTransaction || next is ReadCache || next == (MantleStdinStep::Failed {
            error: StdinError::HeaderNotEncoded,
        }),
        event is Transactions && event->transactions is Hashes ==> (next is FetchRawTransaction
            <==> event->transactions->Hashes_0@.len() > 0),
        event is RawTransaction ==> (next is FetchRawTransaction <==> step->raw@.len() + 1
            < step->hashes@.len()),
        step is FetchTransactions && next is ReadCache ==> header_json_of(
            step->FetchTransactions_header,
        ) is Some,
        step is FetchRawTransaction && next is ReadCache ==> header_json_of(
            step->FetchRawTransaction_header,
        ) is Some,
{
    if let MantleStdinStep::FetchRawTransaction { raw, .. } = next {
        if step is FetchRawTransaction {
            assert(raw@.drop_last() =~= step->raw@);
        }
    }
}

/// An aggregation is refused for a proof that is not compressed first, and for headers that cannot
/// be encoded else.
pub proof fn law_a_refused_aggregation_says_why(
    proofs: &[ProofKind],
    boot_infos: Vec<BootInfoStruct>,
    headers: Vec<alloy_consensus::Header>,
    multi_block_vkey: [u32; 8],
    latest_checkpoint_head: B256,
    stdin: Result<Vec<StdinItem>, AggStdinError>,
)
    requires
        call_ensures(
            get_agg_proof_stdin,
            (proofs, boot_infos, headers, multi_block_vkey, latest_checkpoint_head),
            stdin,
        ),
    ensures
        stdin == Err::<Vec<StdinItem>, _>(AggStdinError::NotCompressed) <==> exists|k: int|
            0 <= k < proofs@.len() && #[trigger] proofs@[k] != ProofKind::Compressed,
        stdin == Err::<Vec<StdinItem>, _>(AggStdinError::HeadersNotEncoded) ==> headers_cbor_of(
            headers@,
        ) is None,
{
}

/// A block whose header has a text goes on to its cached state, with that text and all of its
/// transactions; one whose header has none is refused. What an operator is told about the end of a
/// server starts with how it ended and holds its error.
pub proof fn law_a_block_is_encoded_with_all_its_transactions(
    block_number: u64,
    json: Option<String>,
    txs: &[Vec<u8>],
    step: MantleStdinStep,
    message: String,
    on_error: String,
    on_panic: String,
)
    requires
        call_ensures(encode_block, (block_number, json, txs), step),
        call_ensures(abort_message, (ServerExit::Error { message },), on_error),
        call_ensures(abort_message, (ServerExit::Panic { message },), on_panic),
    ensures
        json is None ==> step == (MantleStdinStep::Failed { error: StdinError::HeaderNotEncoded }),
        json is Some ==> {
            &&& step matches MantleStdinStep::ReadCache { block_number: number, header_json, txs_cbor }
            &&& number == block_number
            &&& header_json@ == json->0@
            &&& txs_cbor@ == cbor_array(Seq::new(txs@.len(), |i: int| txs@[i]@))
        },
        on_error@ == "Server exited with error: "@ + message@
            + ". Witness generation aborted \u{2014} will retry with a fresh channel."@,
        on_panic@ == "Server task panicked: "@ + message@
            + ". Witness generation aborted \u{2014} will retry with a fresh channel."@,
{
    assert(contents(txs@) =~= Seq::new(txs@.len(), |i: int| txs@[i]@));
}

} // verus!
