//! The client program: it derives and executes the blocks up to a claimed one, and validates the
//! claim.
//!
//! Both the program and the derivation are chains of steps: each step names the one thing to do
//! next, and its `next` goes on from what came of it.
use vstd::prelude::*;

use crate::bytes::{same_hash, word_at};
use crate::request::B256;

verus! {

/// What the program was started with.
#[derive(Debug, Clone, Copy, PartialEq, Eq)]
pub struct BootInfo {
    pub l1_head: B256,
    pub agreed_l2_output_root: B256,
    pub claimed_l2_output_root: B256,
    pub claimed_l2_block_number: u64,
    pub chain_id: u64,
}

/// The safe head's hash in the preimage of an output root: its last 32 bytes.
pub fn safe_head_hash(output_preimage: &[u8; 128]) -> (hash: B256)
    ensures
        hash@ == output_preimage@.subrange(96, 128),
{
    word_at(output_preimage.as_slice(), 96)
}

/// Where the derivation stands: the number of the safe head, and the output root there.
#[derive(Debug, Clone, Copy, PartialEq, Eq)]
pub struct Tip {
    pub number: u64,
    pub output_root: B256,
}

/// Why the derivation failed.
#[derive(Debug, Clone, Copy, PartialEq, Eq, Structural)]
pub enum DriverError {
    /// The pipeline failed to produce a payload.
    Pipeline,
    /// A transaction of an executed block could not be decoded.
    Rlp,
    /// The pipeline has no L1 origin.
    MissingOrigin,
    /// The executed block has no valid L1 information.
    BlockInfo,
    /// The output root could not be computed.
    Executor,
}

/// What the derivation does next.
#[derive(Debug, Clone, Copy, PartialEq, Eq)]
pub enum AdvanceStep {
    /// Read the tip of the derivation.
    ReadTip { target: Option<u64> },
    /// Produce the payload of the block behind the tip.
    ProducePayload { target: Option<u64>, tip: Tip },
    /// Move the executor to the tip, and execute the payload.
    Execute { target: Option<u64> },
    /// Put the block together from the executed header and the payload's transactions.
    BuildBlock { target: Option<u64> },
    /// Read the pipeline's L1 origin.
    ReadOrigin { target: Option<u64> },
    /// Read the L1 information of the block.
    ReadBlockInfo { target: Option<u64> },
    /// Compute the output root of the block.
    ComputeOutputRoot { target: Option<u64> },
    /// Move the tip to the block.
    AdvanceCursor { target: Option<u64> },
    Done { result: Result<Tip, DriverError> },
}

/// What came of a step.
#[derive(Debug, Clone, Copy, PartialEq, Eq)]
pub enum AdvanceEvent {
    Tip { tip: Tip },
    /// There is no more data to derive from.
    EndOfSource,
    Succeeded,
    Failed,
}

/// The derivation has reached its target.
pub open spec fn reached(target: Option<u64>, tip: Tip) -> bool {
    target is Some && tip.number >= target->0
}

impl AdvanceStep {
    /// The events that can come of a step.
    pub open spec fn admits(self, event: AdvanceEvent) -> bool {
        match event {
            AdvanceEvent::Tip { .. } => self is ReadTip,
            AdvanceEvent::EndOfSource => self is ProducePayload,
            AdvanceEvent::Succeeded => !(self is ReadTip || self is Done),
            AdvanceEvent::Failed => !(self is ReadTip || self is AdvanceCursor || self is Done),
        }
    }

    /// What follows a step, by what came of it.
    ///
    /// Where the data is exhausted, the target is moved to the current safe head. A block that could
    /// not be executed is skipped.
    pub open spec fn spec_next(self, event: AdvanceEvent) -> AdvanceStep {
        match (self, event) {
            (AdvanceStep::ReadTip { target }, AdvanceEvent::Tip { tip }) => if reached(target, tip) {
                AdvanceStep::Done { result: Ok(tip) }
            } else {
                AdvanceStep::ProducePayload { target, tip }
            },
            (
                AdvanceStep::ProducePayload { target, tip },
                AdvanceEvent::EndOfSource,
            ) => AdvanceStep::ReadTip {
                target: if target is Some {
                    Some(tip.number)
                } else {
                    None
                },
            },
            (AdvanceStep::ProducePayload { target, .. }, AdvanceEvent::Succeeded) => {
                AdvanceStep::Execute { target }
            },
            (AdvanceStep::ProducePayload { .. }, _) => AdvanceStep::Done {
                result: Err(DriverError::Pipeline),
            },
            (AdvanceStep::Execute { target }, AdvanceEvent::Succeeded) => AdvanceStep::BuildBlock {
                target,
            },
            (AdvanceStep::Execute { target }, _) => AdvanceStep::ReadTip { target },
            (AdvanceStep::BuildBlock { target }, AdvanceEvent::Succeeded) => {
                AdvanceStep::ReadOrigin { target }
            },
            (AdvanceStep::BuildBlock { .. }, _) => AdvanceStep::Done {
                result: Err(DriverError::Rlp),
            },
            (AdvanceStep::ReadOrigin { target }, AdvanceEvent::Succeeded) => {
                AdvanceStep::ReadBlockInfo { target }
            },
            (AdvanceStep::ReadOrigin { .. }, _) => AdvanceStep::Done {
                result: Err(DriverError::MissingOrigin),
            },
            (AdvanceStep::ReadBlockInfo { target }, AdvanceEvent::Succeeded) => {
                AdvanceStep::ComputeOutputRoot { target }
            },
            (AdvanceStep::ReadBlockInfo { .. }, _) => AdvanceStep::Done {
                result: Err(DriverError::BlockInfo),
            },
            (AdvanceStep::ComputeOutputRoot { target }, AdvanceEvent::Succeeded) => {
                AdvanceStep::AdvanceCursor { target }
            },
            (AdvanceStep::ComputeOutputRoot { .. }, _) => AdvanceStep::Done {
                result: Err(DriverError::Executor),
            },
            (AdvanceStep::AdvanceCursor { target }, _) => AdvanceStep::ReadTip { target },
            _ => self,
        }
    }

    /// Goes on from a step, by what came of it.
    pub fn next(self, event: AdvanceEvent) -> (next: AdvanceStep)
        requires
            self.admits(event),
        ensures
            next == self.spec_next(event),
    {
        let succeeded: bool = match event {
            AdvanceEvent::Succeeded => true,
            _ => false,
        };
        match self {
            AdvanceStep::ReadTip { target } => match event {
                AdvanceEvent::Tip { tip } => {
                    if let Some(number) = target {
                        if tip.number >= number {
                            return AdvanceStep::Done { result: Ok(tip) };
                        }
                    }
                    AdvanceStep::ProducePayload { target, tip }
                },
                _ => self,
            },
            AdvanceStep::ProducePayload { target, tip } => match event {
                AdvanceEvent::Succeeded => AdvanceStep::Execute { target },
                AdvanceEvent::EndOfSource => {
                    let target: Option<u64> = match target {
                        Some(_) => Some(tip.number),
                        None => None,
                    };
                    AdvanceStep::ReadTip { target }
                },
                _ => AdvanceStep::Done { result: Err(DriverError::Pipeline) },
            },
            AdvanceStep::Execute { target } => {
                if succeeded {
                    AdvanceStep::BuildBlock { target }
                } else {
                    AdvanceStep::ReadTip { target }
                }
            },
            AdvanceStep::BuildBlock { target } => {
                if succeeded {
                    AdvanceStep::ReadOrigin { target }
                } else {
                    AdvanceStep::Done { result: Err(DriverError::Rlp) }
                }
            },
            AdvanceStep::ReadOrigin { target } => {
                if succeeded {
                    AdvanceStep::ReadBlockInfo { target }
                } else {
                    AdvanceStep::Done { result: Err(DriverError::MissingOrigin) }
                }
            },
            AdvanceStep::ReadBlockInfo { target } => {
                if succeeded {
                    AdvanceStep::ComputeOutputRoot { target }
                } else {
                    AdvanceStep::Done { result: Err(DriverError::BlockInfo) }
                }
            },
            AdvanceStep::ComputeOutputRoot { target } => {
                if succeeded {
                    AdvanceStep::AdvanceCursor { target }
                } else {
                    AdvanceStep::Done { result: Err(DriverError::Executor) }
                }
            },
            AdvanceStep::AdvanceCursor { target } => AdvanceStep::ReadTip { target },
            AdvanceStep::Done { .. } => self,
        }
    }
}

/// Starts to advance the derivation to a target block.
pub fn advance_to_target(target: Option<u64>) -> (step: AdvanceStep)
    ensures
        step == (AdvanceStep::ReadTip { target }),
{
    AdvanceStep::ReadTip { target }
}

/// The target of a step.
pub open spec fn target_of(step: AdvanceStep) -> Option<u64> {
    match step {
        AdvanceStep::ReadTip { target } => target,
        AdvanceStep::ProducePayload { target, .. } => target,
        AdvanceStep::Execute { target } => target,
        AdvanceStep::BuildBlock { target } => target,
        AdvanceStep::ReadOrigin { target } => target,
        AdvanceStep::ReadBlockInfo { target } => target,
        AdvanceStep::ComputeOutputRoot { target } => target,
        AdvanceStep::AdvanceCursor { target } => target,
        AdvanceStep::Done { .. } => None,
    }
}

/// The derivation succeeds only at a tip that has reached the target, and with that tip's output
/// root.
pub proof fn law_the_derivation_ends_at_its_target(step: AdvanceStep, event: AdvanceEvent)
    requires
        step.admits(event),
    ensures
        step.spec_next(event) matches AdvanceStep::Done { result: Ok(tip) } ==> {
            &&& reached(target_of(step), tip)
            &&& event == (AdvanceEvent::Tip { tip })
        },
{
}

/// The target moves only where the data is exhausted, and then to the current safe head, which is
/// below it.
pub proof fn law_the_target_moves_only_at_the_end_of_the_data(step: AdvanceStep, event: AdvanceEvent)
    requires
        step.admits(event),
        step matches AdvanceStep::ProducePayload { target, tip } ==> !reached(target, tip),
    ensures
        !(step.spec_next(event) is Done) ==> {
            ||| target_of(step.spec_next(event)) == target_of(step)
            ||| event is EndOfSource && target_of(step) is Some && target_of(step.spec_next(event))
                == Some(step->tip.number) && step->tip.number < target_of(step)->0
        },
        step.spec_next(event) matches AdvanceStep::ProducePayload { target, tip } ==> !reached(
            target,
            tip,
        ),
{
}

/// Once the data is exhausted, the derivation with a target ends at the next look at the tip.
pub proof fn law_exhausted_data_ends_the_derivation(target: u64, tip: Tip)
    ensures
        (AdvanceStep::ProducePayload { target: Some(target), tip }).spec_next(
            AdvanceEvent::EndOfSource,
        ).spec_next(AdvanceEvent::Tip { tip }) == (AdvanceStep::Done { result: Ok(tip) }),
{
}

/// These are the steps of a derivation from its start on, with what came of each of them but the
/// last.
pub open spec fn is_derivation(
    steps: Seq<AdvanceStep>,
    events: Seq<AdvanceEvent>,
    target: Option<u64>,
) -> bool {
    &&& steps.len() == events.len() + 1
    &&& steps[0] == (AdvanceStep::ReadTip { target })
    &&& forall|i: int| #![trigger events[i]]
        0 <= i < events.len() ==> steps[i].admits(events[i]) && steps[i + 1]
            == steps[i].spec_next(events[i])
}

/// A derivation, as a whole: it succeeds only at a block that has reached the target it was started
/// with, unless the data ran out on the way.
pub proof fn law_a_derivation_reaches_its_target(
    steps: Seq<AdvanceStep>,
    events: Seq<AdvanceEvent>,
    target: Option<u64>,
    tip: Tip,
)
    requires
        is_derivation(steps, events, target),
        forall|i: int| 0 <= i < events.len() ==> !(#[trigger] events[i] is EndOfSource),
        steps.last() == (AdvanceStep::Done { result: Ok(tip) }),
    ensures
        reached(target, tip),
{
    let n = events.len() as int;
    assert(n > 0);
    lemma_target_is_kept(steps, events, target, n - 1);
    let event = events[n - 1];
    law_the_derivation_ends_at_its_target(steps[n - 1], event);
}

/// While there is data, a derivation keeps its target.
proof fn lemma_target_is_kept(
    steps: Seq<AdvanceStep>,
    events: Seq<AdvanceEvent>,
    target: Option<u64>,
    n: int,
)
    requires
        is_derivation(steps, events, target),
        forall|i: int| 0 <= i < events.len() ==> !(#[trigger] events[i] is EndOfSource),
        0 <= n <= events.len(),
    ensures
        !(steps[n] is Done) ==> target_of(steps[n]) == target,
    decreases n,
{
    if n > 0 {
        lemma_target_is_kept(steps, events, target, n - 1);
        let event = events[n - 1];
        assert(!(event is EndOfSource));
        assert(steps[n - 1].admits(event));
    }
}

/// Why the program failed.
#[derive(Debug, Clone, Copy, PartialEq, Eq)]
pub enum ClientError {
    /// The boot information could not be loaded.
    BootInfo,
    /// The claimed block is below the safe head.
    ClaimBelowSafeHead { claimed: u64, safe: u64 },
    /// The derivation failed.
    Driver { error: DriverError },
    /// The output root of the derived block is not the claimed one.
    WrongOutputRoot { number: u64, claimed: B256, got: B256 },
    /// A preimage could not be fetched, or was not what it should be.
    Oracle,
}

/// What the program does next.
#[derive(Debug, Clone, Copy, PartialEq, Eq)]
pub enum ClientStep {
    LoadBootInfo,
    /// Fetch the preimage of the agreed output root.
    FetchOutputPreimage { boot: BootInfo },
    /// Fetch the header of the safe head.
    FetchSafeHead { boot: BootInfo, hash: B256 },
    /// Set the derivation pipeline up at the safe head.
    SetUpPipeline { boot: BootInfo },
    /// Advance the derivation to the claimed block.
    Advance { boot: BootInfo, target: u64 },
    Done { result: Result<BootInfo, ClientError> },
}

/// What came of a step.
#[derive(Debug, Clone, Copy, PartialEq, Eq)]
pub enum ClientEvent {
    Boot { boot: BootInfo },
    OutputPreimage { preimage: [u8; 128] },
    SafeHead { number: u64 },
    PipelineReady,
    Advanced { result: Result<Tip, DriverError> },
    Failed,
}

impl ClientStep {
    /// The events that can come of a step.
    pub open spec fn admits(self, event: ClientEvent) -> bool {
        match event {
            ClientEvent::Boot { .. } => self is LoadBootInfo,
            ClientEvent::OutputPreimage { .. } => self is FetchOutputPreimage,
            ClientEvent::SafeHead { .. } => self is FetchSafeHead,
            ClientEvent::PipelineReady => self is SetUpPipeline,
            ClientEvent::Advanced { .. } => self is Advance,
            ClientEvent::Failed => !(self is Advance || self is Done),
        }
    }

    /// `next` is what follows a step, by what came of it.
    pub open spec fn leads_to(self, event: ClientEvent, next: ClientStep) -> bool {
        match (self, event) {
            (ClientStep::LoadBootInfo, ClientEvent::Failed) => next == (ClientStep::Done {
                result: Err(ClientError::BootInfo),
            }),
            (_, ClientEvent::Failed) => next == (ClientStep::Done {
                result: Err(ClientError::Oracle),
            }),
            (_, ClientEvent::Boot { boot }) => next == (ClientStep::FetchOutputPreimage { boot }),
            (
                ClientStep::FetchOutputPreimage { boot },
                ClientEvent::OutputPreimage { preimage },
            ) => {
                &&& next matches ClientStep::FetchSafeHead { boot: kept, hash }
                &&& kept == boot
                &&& hash@ == preimage@.subrange(96, 128)
            },
            (ClientStep::FetchSafeHead { boot, .. }, ClientEvent::SafeHead { number }) => next == (
            if boot.claimed_l2_block_number < number {
                ClientStep::Done {
                    result: Err(
                        ClientError::ClaimBelowSafeHead {
                            claimed: boot.claimed_l2_block_number,
                            safe: number,
                        },
                    ),
                }
            } else if boot.agreed_l2_output_root@ == boot.claimed_l2_output_root@ {
                ClientStep::Done { result: Ok(boot) }
            } else {
                ClientStep::SetUpPipeline { boot }
            }),
            (ClientStep::SetUpPipeline { boot }, ClientEvent::PipelineReady) => next == (
            ClientStep::Advance { boot, target: boot.claimed_l2_block_number }),
            (ClientStep::Advance { boot, .. }, ClientEvent::Advanced { result }) => next == (
            ClientStep::Done {
                result: match result {
                    Err(error) => Err(ClientError::Driver { error }),
                    Ok(tip) => if tip.output_root@ == boot.claimed_l2_output_root@ {
                        Ok(boot)
                    } else {
                        Err(
                            ClientError::WrongOutputRoot {
                                number: tip.number,
                                claimed: boot.claimed_l2_output_root,
                                got: tip.output_root,
                            },
                        )
                    },
                },
            }),
            _ => false,
        }
    }

    /// Goes on from a step, by what came of it.
    pub fn next(self, event: ClientEvent) -> (next: ClientStep)
        requires
            self.admits(event),
        ensures
            self.leads_to(event, next),
    {
        match (self, event) {
            (ClientStep::LoadBootInfo, ClientEvent::Failed) => ClientStep::Done {
                result: Err(ClientError::BootInfo),
            },
            (_, ClientEvent::Failed) => ClientStep::Done { result: Err(ClientError::Oracle) },
            (_, ClientEvent::Boot { boot }) => ClientStep::FetchOutputPreimage { boot },
            (
                ClientStep::FetchOutputPreimage { boot },
                ClientEvent::OutputPreimage { preimage },
            ) => ClientStep::FetchSafeHead { boot, hash: safe_head_hash(&preimage) },
            (ClientStep::FetchSafeHead { boot, .. }, ClientEvent::SafeHead { number }) => {
                if boot.claimed_l2_block_number < number {
                    ClientStep::Done {
                        result: Err(
                            ClientError::ClaimBelowSafeHead {
                                claimed: boot.claimed_l2_block_number,
                                safe: number,
                            },
                        ),
                    }
                } else if same_hash(&boot.agreed_l2_output_root, &boot.claimed_l2_output_root) {
                    ClientStep::Done { result: Ok(boot) }
                } else {
                    ClientStep::SetUpPipeline { boot }
                }
            },
            (ClientStep::SetUpPipeline { boot }, ClientEvent::PipelineReady) => ClientStep::Advance {
                boot,
                target: boot.claimed_l2_block_number,
            },
            (ClientStep::Advance { boot, .. }, ClientEvent::Advanced { result }) => match result {
                Err(error) => ClientStep::Done { result: Err(ClientError::Driver { error }) },
                Ok(tip) => {
                    if same_hash(&tip.output_root, &boot.claimed_l2_output_root) {
                        ClientStep::Done { result: Ok(boot) }
                    } else {
                        ClientStep::Done {
                            result: Err(
                                ClientError::WrongOutputRoot {
                                    number: tip.number,
                                    claimed: boot.claimed_l2_output_root,
                                    got: tip.output_root,
                                },
                            ),
                        }
                    }
                },
            },
            _ => ClientStep::Done { result: Err(ClientError::Oracle) },
        }
    }
}

/// Starts the program.
pub fn run_opsuccinct_client() -> (step: ClientStep)
    ensures
        step == ClientStep::LoadBootInfo,
{
    ClientStep::LoadBootInfo
}

/// The boot information that a step carries.
pub open spec fn boot_of(step: ClientStep) -> Option<BootInfo> {
    match step {
        ClientStep::FetchOutputPreimage { boot } => Some(boot),
        ClientStep::FetchSafeHead { boot, .. } => Some(boot),
        ClientStep::SetUpPipeline { boot } => Some(boot),
        ClientStep::Advance { boot, .. } => Some(boot),
        ClientStep::Done { result: Ok(boot) } => Some(boot),
        _ => None,
    }
}

/// The program succeeds only with the boot information it was started with, and only if the claim
/// was already agreed upon for a block that is not below the safe head, or if the derived output
/// root is the claimed one.
pub proof fn law_only_a_validated_claim_succeeds(
    step: ClientStep,
    event: ClientEvent,
    next: ClientStep,
)
    requires
        step.admits(event),
        step.leads_to(event, next),
    ensures
        next matches ClientStep::Done { result: Ok(boot) } ==> {
            &&& boot_of(step) == Some(boot)
            &&& {
                ||| event matches ClientEvent::SafeHead { number } && number
                    <= boot.claimed_l2_block_number && boot.agreed_l2_output_root@
                    == boot.claimed_l2_output_root@
                ||| event matches ClientEvent::Advanced { result: Ok(tip) } && tip.output_root@
                    == boot.claimed_l2_output_root@
            }
        },
{
}

/// The boot information is carried through the program unchanged.
pub proof fn law_the_boot_information_is_kept(
    step: ClientStep,
    event: ClientEvent,
    next: ClientStep,
)
    requires
        step.admits(event),
        step.leads_to(event, next),
        boot_of(step) is Some,
        boot_of(next) is Some,
    ensures
        boot_of(next) == boot_of(step),
{
}

/// These are the steps of a run of the program from its start on, with what came of each of them
/// but the last.
pub open spec fn is_run(steps: Seq<ClientStep>, events: Seq<ClientEvent>) -> bool {
    &&& steps.len() == events.len() + 1
    &&& steps[0] is LoadBootInfo
    &&& forall|i: int| #![trigger events[i]]
        0 <= i < events.len() ==> steps[i].admits(events[i]) && steps[i].leads_to(
            events[i],
            steps[i + 1],
        )
}

/// A run of the program, as a whole: it succeeds only with the boot information that it loaded, and
/// only if that information's claim is validated by the last answer.
pub proof fn law_a_run_succeeds_only_with_a_valid_claim(
    steps: Seq<ClientStep>,
    events: Seq<ClientEvent>,
    boot: BootInfo,
)
    requires
        is_run(steps, events),
        steps.last() == (ClientStep::Done { result: Ok(boot) }),
    ensures
        events.len() > 0,
        events[0] == (ClientEvent::Boot { boot }),
        (events.last() matches ClientEvent::SafeHead { number } && number
            <= boot.claimed_l2_block_number && boot.agreed_l2_output_root@
            == boot.claimed_l2_output_root@) || (events.last() matches ClientEvent::Advanced {
            result: Ok(tip),
        } && tip.output_root@ == boot.claimed_l2_output_root@),
{
    let n = events.len() as int;
    assert(n > 0);
    lemma_boot_is_kept(steps, events, n);
    let event = events[n - 1];
    law_only_a_validated_claim_succeeds(steps[n - 1], event, steps[n]);
}

/// A run keeps the boot information that it loaded.
proof fn lemma_boot_is_kept(steps: Seq<ClientStep>, events: Seq<ClientEvent>, n: int)
    requires
        is_run(steps, events),
        0 <= n <= events.len(),
    ensures
        boot_of(steps[n]) is Some ==> n > 0 && events[0] == (ClientEvent::Boot {
            boot: boot_of(steps[n])->0,
        }),
        steps[n] is LoadBootInfo ==> n == 0,
    decreases n,
{
    if n > 0 {
        lemma_boot_is_kept(steps, events, n - 1);
        let event = events[n - 1];
        assert(steps[n - 1].admits(event) && steps[n - 1].leads_to(event, steps[n]));
    }
}

/// The agreed output is four words of 32 bytes: its version, the state root, the root of the
/// message passer's storage and the hash of the block it is about. The safe head's hash is the last
/// of them.
pub proof fn law_the_safe_head_is_the_block_of_the_agreed_output(
    version: Seq<u8>,
    state_root: Seq<u8>,
    storage_root: Seq<u8>,
    block_hash: Seq<u8>,
    output_preimage: [u8; 128],
    hash: B256,
)
    requires
        version.len() == 32,
        state_root.len() == 32,
        storage_root.len() == 32,
        block_hash.len() == 32,
        output_preimage@ == version + state_root + storage_root + block_hash,
        call_ensures(safe_head_hash, (&output_preimage,), hash),
    ensures
        hash@ == block_hash,
{
    assert(output_preimage@.skip(96) =~= block_hash);
    assert(hash@ =~= output_preimage@.skip(96));
}

/// The program goes on from the agreed output to the header of the very block that the output is
/// about.
pub proof fn law_the_program_starts_at_the_agreed_block(
    boot: BootInfo,
    version: Seq<u8>,
    state_root: Seq<u8>,
    storage_root: Seq<u8>,
    block_hash: Seq<u8>,
    preimage: [u8; 128],
    next: ClientStep,
)
    requires
        version.len() == 32,
        state_root.len() == 32,
        storage_root.len() == 32,
        block_hash.len() == 32,
        preimage@ == version + state_root + storage_root + block_hash,
        call_ensures(
            ClientStep::next,
            (
                ClientStep::FetchOutputPreimage { boot },
                ClientEvent::OutputPreimage { preimage },
            ),
            next,
        ),
    ensures
        next matches ClientStep::FetchSafeHead { boot: kept, hash } && kept == boot && hash@
            == block_hash,
{
    assert(preimage@.skip(96) =~= block_hash);
    assert(next->hash@ =~= preimage@.skip(96));
}

/// A run of the program, as a whole: the header that it fetches is that of the block whose hash
/// ends the preimage of the agreed output, byte for byte.
pub proof fn law_a_run_fetches_the_agreed_block(
    steps: Seq<ClientStep>,
    events: Seq<ClientEvent>,
    n: int,
)
    requires
        is_run(steps, events),
        0 <= n <= events.len(),
        steps[n] is FetchSafeHead,
    ensures
        n == 2,
        events[0] == (ClientEvent::Boot { boot: steps[n]->FetchSafeHead_boot }),
        events[1] matches ClientEvent::OutputPreimage { preimage } && forall|k: int|
            0 <= k < 32 ==> #[trigger] steps[n]->hash@[k] == preimage@[96 + k],
{
    lemma_run_is_in_order(steps, events, n);
    let boot_loaded = events[0];
    let preimage_fetched = events[1];
    assert(steps[1].leads_to(preimage_fetched, steps[2]));
    assert forall|k: int| 0 <= k < 32 implies #[trigger] steps[n]->hash@[k]
        == preimage_fetched->preimage@[96 + k] by {}
}

/// The steps of a run come in one order.
proof fn lemma_run_is_in_order(steps: Seq<ClientStep>, events: Seq<ClientEvent>, n: int)
    requires
        is_run(steps, events),
        0 <= n <= events.len(),
    ensures
        steps[n] is LoadBootInfo ==> n == 0,
        steps[n] is FetchOutputPreimage ==> n == 1,
        steps[n] is FetchSafeHead ==> n == 2,
        steps[n] is SetUpPipeline ==> n == 3,
        steps[n] is Advance ==> n == 4,
        boot_of(steps[n]) is Some ==> n > 0 && events[0] == (ClientEvent::Boot {
            boot: boot_of(steps[n])->0,
        }),
    decreases n,
{
    if n > 0 {
        lemma_run_is_in_order(steps, events, n - 1);
        let event = events[n - 1];
        assert(steps[n - 1].admits(event) && steps[n - 1].leads_to(event, steps[n]));
    }
}

/// The derivation is run up to the claimed block, from the safe head that the program has checked
/// against the claim.
pub proof fn law_a_run_derives_up_to_the_claimed_block(
    steps: Seq<ClientStep>,
    events: Seq<ClientEvent>,
    n: int,
)
    requires
        is_run(steps, events),
        0 <= n <= events.len(),
        steps[n] is Advance,
    ensures
        n == 4,
        events[0] matches ClientEvent::Boot { boot } && steps[n] == (ClientStep::Advance {
            boot,
            target: boot.claimed_l2_block_number,
        }) && boot.agreed_l2_output_root@ != boot.claimed_l2_output_root@,
        events[2] matches ClientEvent::SafeHead { number } && number
            <= steps[n]->Advance_boot.claimed_l2_block_number,
        events[3] is PipelineReady,
{
    lemma_run_is_in_order(steps, events, n);
    let e0 = events[0];
    let e1 = events[1];
    let e2 = events[2];
    let e3 = events[3];
    assert(steps[0].leads_to(e0, steps[1]));
    assert(steps[1].leads_to(e1, steps[2]));
    assert(steps[2].leads_to(e2, steps[3]));
    assert(steps[3].leads_to(e3, steps[4]));
}

/// Once the safe head is known, a claim about a block below it is refused with both numbers, a
/// claim that is what was agreed upon is accepted as it is, and any other is derived.
pub proof fn law_a_claim_is_held_against_the_safe_head(
    boot: BootInfo,
    hash: B256,
    number: u64,
    next: ClientStep,
)
    requires
        call_ensures(
            ClientStep::next,
            (ClientStep::FetchSafeHead { boot, hash }, ClientEvent::SafeHead { number }),
            next,
        ),
    ensures
        next matches ClientStep::Done { result: Err(e) } <==> boot.claimed_l2_block_number < number,
        next matches ClientStep::Done { result: Err(e) } ==> e == (ClientError::ClaimBelowSafeHead {
            claimed: boot.claimed_l2_block_number,
            safe: number,
        }),
        next == (ClientStep::Done { result: Ok(boot) }) <==> boot.claimed_l2_block_number >= number
            && boot.agreed_l2_output_root@ == boot.claimed_l2_output_root@,
        next == (ClientStep::SetUpPipeline { boot }) <==> boot.claimed_l2_block_number >= number
            && boot.agreed_l2_output_root@ != boot.claimed_l2_output_root@,
{
}

/// A derived output root decides about the claim: the program succeeds with the boot information
/// exactly if it is the claimed one, and otherwise names the block, what was claimed and what was
/// found. Where the derivation failed, its error is handed on.
pub proof fn law_the_derived_output_decides_about_the_claim(
    boot: BootInfo,
    target: u64,
    result: Result<Tip, DriverError>,
    next: ClientStep,
)
    requires
        call_ensures(
            ClientStep::next,
            (ClientStep::Advance { boot, target }, ClientEvent::Advanced { result }),
            next,
        ),
    ensures
        next is Done,
        next == (ClientStep::Done { result: Ok(boot) }) <==> result is Ok
            && result->Ok_0.output_root@ == boot.claimed_l2_output_root@,
        next matches ClientStep::Done { result: Ok(kept) } ==> kept == boot,
        next matches ClientStep::Done {
            result: Err(ClientError::WrongOutputRoot { number, claimed, got }),
        } ==> result is Ok && number == result->Ok_0.number && claimed
            == boot.claimed_l2_output_root && got == result->Ok_0.output_root && claimed@ != got@,
        result matches Err(error) ==> next == (ClientStep::Done {
            result: Err(ClientError::Driver { error }),
        }),
        next matches ClientStep::Done { result: Err(e) } ==> e is WrongOutputRoot || e is Driver,
        result is Ok ==> !(next matches ClientStep::Done { result: Err(e) } && e is Driver),
{
}

/// A call that failed ends the program: without boot information if it was what could not be
/// loaded, with an error of the oracle otherwise.
pub proof fn law_a_failed_call_ends_the_program(step: ClientStep, next: ClientStep)
    requires
        step.admits(ClientEvent::Failed),
        call_ensures(ClientStep::next, (step, ClientEvent::Failed), next),
    ensures
        next == (ClientStep::Done { result: Err(ClientError::BootInfo) }) <==> step is LoadBootInfo,
        next == (ClientStep::Done { result: Err(ClientError::Oracle) }) <==> !(step is LoadBootInfo),
{
}

/// The program starts a run by loading its boot information, and a derivation starts at its target
/// by reading the tip.
pub proof fn law_runs_and_derivations_start_at_the_beginning(
    step: ClientStep,
    target: Option<u64>,
    advance: AdvanceStep,
)
    requires
        call_ensures(run_opsuccinct_client, (), step),
        call_ensures(advance_to_target, (target,), advance),
    ensures
        is_run(seq![step], Seq::empty()),
        is_derivation(seq![advance], Seq::empty(), target),
{
}

/// A block is derived in one order, and each step is taken only once the one before it has
/// succeeded: the payload is produced, executed, put together with its transactions, the L1 origin
/// and information are read, the output root is computed, and only then the tip moves.
pub proof fn law_a_block_is_derived_in_order(step: AdvanceStep, event: AdvanceEvent, next: AdvanceStep)
    requires
        step.admits(event),
        call_ensures(AdvanceStep::next, (step, event), next),
    ensures
        next is Execute <==> step is ProducePayload && event is Succeeded,
        next is BuildBlock <==> step is Execute && event is Succeeded,
        next is ReadOrigin <==> step is BuildBlock && event is Succeeded,
        next is ReadBlockInfo <==> step is ReadOrigin && event is Succeeded,
        next is ComputeOutputRoot <==> step is ReadBlockInfo && event is Succeeded,
        next is AdvanceCursor <==> step is ComputeOutputRoot && event is Succeeded,
        !(next is Done) && !(event is EndOfSource) ==> target_of(next) == target_of(step),
{
}

/// The tip is read again once a block was added, once one could not be executed, and once the data
/// is exhausted, and at no other time. A payload is produced exactly for a tip that has not reached
/// the target, on top of that tip.
pub proof fn law_the_tip_is_read_before_each_block(
    step: AdvanceStep,
    event: AdvanceEvent,
    next: AdvanceStep,
)
    requires
        step.admits(event),
        call_ensures(AdvanceStep::next, (step, event), next),
    ensures
        next is ReadTip <==> step is AdvanceCursor || (step is Execute && event is Failed)
            || event is EndOfSource,
        next is ProducePayload <==> event is Tip && (target_of(step) is None
            || event->tip.number < target_of(step)->0),
        next matches AdvanceStep::ProducePayload { target, tip } ==> target == target_of(step)
            && event == (AdvanceEvent::Tip { tip }),
        event is EndOfSource ==> target_of(next) is Some == target_of(step) is Some && (target_of(
            next,
        ) is Some ==> target_of(next)->0 == step->ProducePayload_tip.number),
{
}

/// A derivation succeeds exactly at a tip that is not below its target, with that tip, and each of
/// its errors tells which step failed.
pub proof fn law_a_derivation_ends_with_its_tip_or_what_failed(
    step: AdvanceStep,
    event: AdvanceEvent,
    next: AdvanceStep,
)
    requires
        step.admits(event),
        call_ensures(AdvanceStep::next, (step, event), next),
    ensures
        next matches AdvanceStep::Done { result: Ok(tip) } <==> event is Tip && target_of(
            step,
        ) is Some && event->tip.number >= target_of(step)->0,
        next matches AdvanceStep::Done { result: Ok(tip) } ==> event == (AdvanceEvent::Tip { tip }),
        next == (AdvanceStep::Done { result: Err(DriverError::Pipeline) }) <==> step is ProducePayload
            && event is Failed,
        next == (AdvanceStep::Done { result: Err(DriverError::Rlp) }) <==> step is BuildBlock
            && event is Failed,
        next == (AdvanceStep::Done { result: Err(DriverError::MissingOrigin) }) <==> step is ReadOrigin
            && event is Failed,
        next == (AdvanceStep::Done { result: Err(DriverError::BlockInfo) }) <==> step is ReadBlockInfo
            && event is Failed,
        next == (AdvanceStep::Done { result: Err(DriverError::Executor) }) <==> step
            is ComputeOutputRoot && event is Failed,
{
}

/// The program goes on as long as it is answered: from its boot information to the agreed output
/// that this names, and from the pipeline to the derivation of the claimed block.
pub proof fn law_the_program_goes_on_with_its_boot_information(
    boot: BootInfo,
    loaded: ClientStep,
    set_up: ClientStep,
)
    requires
        call_ensures(
            ClientStep::next,
            (ClientStep::LoadBootInfo, ClientEvent::Boot { boot }),
            loaded,
        ),
        call_ensures(
            ClientStep::next,
            (ClientStep::SetUpPipeline { boot }, ClientEvent::PipelineReady),
            set_up,
        ),
    ensures
        loaded == (ClientStep::FetchOutputPreimage { boot }),
        set_up is Advance,
        set_up->Advance_boot == boot,
        set_up->Advance_target == boot.claimed_l2_block_number,
{
}

} // verus!
