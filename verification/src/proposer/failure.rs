//! Telling failures that say nothing about a range from failures of the proof itself.
//!
//! A failed range is bisected. That is right where the proof fails deterministically, and harmful
//! where no proof was ever produced: each split doubles the requests aimed at a backend that refuses
//! all of them, and the pieces are not put together again once the condition clears.
use vstd::prelude::*;

use crate::outside::{debug_rendering, downcast_grpc_code, grpc_code_in, renders_as};
use crate::text::{contains_text, occurs_in};

verus! {

/// Marker that the self-hosted proof router attaches to an admission-shed gRPC `Status` when its
/// concurrency pool is full. The public proving network never returns it.
pub const ADMISSION_SHED_MARKER: &'static str = "x-sp1-admission-shed";

/// The number of gRPC's code `UNAVAILABLE`.
pub const GRPC_UNAVAILABLE: i32 = 14;

/// The number of gRPC's code `FAILED_PRECONDITION`.
pub const GRPC_FAILED_PRECONDITION: i32 = 9;

/// Why a failure must not bisect the range that it is about.
#[derive(Debug, Clone, Copy, PartialEq, Eq, Structural)]
pub enum NoBisectReason {
    /// The self-hosted prover pool was momentarily full.
    AdmissionShed,
    /// The prover backend was unreachable.
    TransientTransport,
    /// The backend cannot serve the request as it is set up, for example because the program was
    /// never registered with it.
    UnsatisfiablePrecondition,
}

impl NoBisectReason {
    /// The reason in words, for logs.
    pub fn describe(&self) -> (text: &'static str)
        ensures
            text@ == match *self {
                NoBisectReason::AdmissionShed => "self-hosted admission shed (prover pool full)"@,
                NoBisectReason::TransientTransport => {
                    "transient transport failure (backend unreachable)"@
                },
                NoBisectReason::UnsatisfiablePrecondition => {
                    "unsatisfiable precondition (program not registered)"@
                },
            },
    {
        match self {
            NoBisectReason::AdmissionShed => "self-hosted admission shed (prover pool full)",
            NoBisectReason::TransientTransport => {
                "transient transport failure (backend unreachable)"
            },
            NoBisectReason::UnsatisfiablePrecondition => {
                "unsatisfiable precondition (program not registered)"
            },
        }
    }
}

/// A rendered error tells of an admission shed.
pub open spec fn sheds(rendered: Seq<char>) -> bool {
    occurs_in(ADMISSION_SHED_MARKER@, rendered)
}

/// A rendered error tells of a backend that could not be reached.
pub open spec fn tells_of_transport_fault(rendered: Seq<char>) -> bool {
    ||| occurs_in("status: Unavailable"@, rendered)
    ||| occurs_in("tcp connect error"@, rendered)
    ||| occurs_in("error trying to connect"@, rendered)
}

/// A failure is a transient transport fault: by its gRPC code where it has one, and by its text
/// only where it has none.
pub open spec fn is_transport_fault(code: Option<i32>, rendered: Seq<char>) -> bool {
    match code {
        Some(number) => number == GRPC_UNAVAILABLE,
        None => tells_of_transport_fault(rendered),
    }
}

/// Why a failure must not bisect its range, if it must not.
pub open spec fn spec_no_bisect_reason(code: Option<i32>, rendered: Seq<char>) -> Option<
    NoBisectReason,
> {
    if sheds(rendered) {
        Some(NoBisectReason::AdmissionShed)
    } else if is_transport_fault(code, rendered) {
        Some(NoBisectReason::TransientTransport)
    } else if code == Some(GRPC_FAILED_PRECONDITION) {
        Some(NoBisectReason::UnsatisfiablePrecondition)
    } else {
        None
    }
}

/// Whether a rendered error tells of an admission shed.
pub fn is_admission_shed_text(rendered: &str) -> (shed: bool)
    ensures
        shed == sheds(rendered@),
{
    contains_text(rendered, ADMISSION_SHED_MARKER)
}

/// Whether a failure, given by the code of its gRPC status and its text, is a transient transport
/// fault.
pub fn is_transport_fault_of(code: Option<i32>, rendered: &str) -> (transient: bool)
    ensures
        transient == is_transport_fault(code, rendered@),
{
    match code {
        Some(number) => number == GRPC_UNAVAILABLE,
        None => contains_text(rendered, "status: Unavailable") || contains_text(
            rendered,
            "tcp connect error",
        ) || contains_text(rendered, "error trying to connect"),
    }
}

/// Why a failure, given by the code of its gRPC status and its text, must not bisect its range.
pub fn no_bisect_reason_of(code: Option<i32>, rendered: &str) -> (reason: Option<NoBisectReason>)
    ensures
        reason == spec_no_bisect_reason(code, rendered@),
{
    if is_admission_shed_text(rendered) {
        return Some(NoBisectReason::AdmissionShed);
    }
    if is_transport_fault_of(code, rendered) {
        return Some(NoBisectReason::TransientTransport);
    }
    match code {
        Some(number) if number == GRPC_FAILED_PRECONDITION => Some(
            NoBisectReason::UnsatisfiablePrecondition,
        ),
        _ => None,
    }
}

/// Whether a failed proof-request task was a self-hosted admission shed rather than a genuine
/// failure of the proof or the range.
///
/// The marker travels in the `Status` message and metadata, so it appears in the error's rendering
/// however the error is wrapped.
pub fn is_admission_shed_error(e: &anyhow::Error) -> (shed: bool)
    ensures
        exists|rendered: Seq<char>| #[trigger] renders_as(*e, rendered) && shed == sheds(rendered),
{
    let rendered: String = debug_rendering(e);
    is_admission_shed_text(rendered.as_str())
}

/// Whether a failed proof-request task failed because the prover backend was unreachable or
/// transiently unavailable rather than because the proof itself failed.
///
/// The primary signal is the typed gRPC code. The text is consulted only where the error wraps no
/// `Status`, so a plain "tcp connect error" never bisects either.
pub fn is_transient_transport_error(e: &anyhow::Error) -> (transient: bool)
    ensures
        match grpc_code_in(*e) {
            Some(number) => transient == (number == GRPC_UNAVAILABLE),
            None => exists|rendered: Seq<char>| #[trigger]
                renders_as(*e, rendered) && transient == tells_of_transport_fault(rendered),
        },
{
    match downcast_grpc_code(e) {
        Some(number) => number == GRPC_UNAVAILABLE,
        None => {
            let rendered: String = debug_rendering(e);
            is_transport_fault_of(None, rendered.as_str())
        },
    }
}

/// Whether a failed proof-request task was refused because the backend cannot serve the request as
/// it is set up.
pub fn is_unsatisfiable_precondition_error(e: &anyhow::Error) -> (unsatisfiable: bool)
    ensures
        unsatisfiable == (grpc_code_in(*e) == Some(GRPC_FAILED_PRECONDITION)),
{
    match downcast_grpc_code(e) {
        Some(number) => number == GRPC_FAILED_PRECONDITION,
        None => false,
    }
}

/// Why a failure must not bisect the range that it is about, or `None` where it may.
pub fn no_bisect_reason(e: &anyhow::Error) -> (reason: Option<NoBisectReason>)
    ensures
        exists|rendered: Seq<char>| #[trigger]
            renders_as(*e, rendered) && reason == spec_no_bisect_reason(grpc_code_in(*e), rendered),
{
    let rendered: String = debug_rendering(e);
    no_bisect_reason_of(downcast_grpc_code(e), rendered.as_str())
}

/// A typed code decides alone: an error that wraps a `Status` with another code is no transport
/// fault, whatever its text mentions.
pub proof fn law_the_typed_code_decides(number: i32, rendered: Seq<char>)
    ensures
        is_transport_fault(Some(number), rendered) <==> number == GRPC_UNAVAILABLE,
{
}

/// An admission shed is recognised whatever the code of the status that carries it.
pub proof fn law_a_shed_is_recognised_under_any_code(code: Option<i32>, rendered: Seq<char>)
    requires
        sheds(rendered),
    ensures
        spec_no_bisect_reason(code, rendered) == Some(NoBisectReason::AdmissionShed),
{
}

/// A failure bisects its range exactly if it is of none of the three classes that say nothing about
/// the range.
pub proof fn law_only_other_failures_bisect(code: Option<i32>, rendered: Seq<char>)
    ensures
        spec_no_bisect_reason(code, rendered) is None <==> {
            &&& !sheds(rendered)
            &&& !is_transport_fault(code, rendered)
            &&& code != Some(GRPC_FAILED_PRECONDITION)
        },
{
}

/// Context around an error does not hide what its text tells: a longer text that holds a rendered
/// error tells of the same shed and the same transport fault.
pub proof fn law_context_keeps_what_the_text_tells(before: Seq<char>, rendered: Seq<char>, after: Seq<char>)
    ensures
        sheds(rendered) ==> sheds(before + rendered + after),
        tells_of_transport_fault(rendered) ==> tells_of_transport_fault(before + rendered + after),
{
    lemma_occurs_in_longer(ADMISSION_SHED_MARKER@, before, rendered, after);
    lemma_occurs_in_longer("status: Unavailable"@, before, rendered, after);
    lemma_occurs_in_longer("tcp connect error"@, before, rendered, after);
    lemma_occurs_in_longer("error trying to connect"@, before, rendered, after);
}

/// What occurs in a text occurs in every text that holds it.
proof fn lemma_occurs_in_longer(
    pattern: Seq<char>,
    before: Seq<char>,
    text: Seq<char>,
    after: Seq<char>,
)
    ensures
        occurs_in(pattern, text) ==> occurs_in(pattern, before + text + after),
{
    if occurs_in(pattern, text) {
        let at = choose|at: int| crate::text::occurs_at(pattern, text, at);
        let longer = before + text + after;
        let there = before.len() + at;
        assert(longer.subrange(there, there + pattern.len()) =~= text.subrange(
            at,
            at + pattern.len(),
        ));
        assert(crate::text::occurs_at(pattern, longer, there));
    }
}

/// Why a failure must not bisect its range, by its gRPC code and its text: the router's marker
/// tells of an admission shed, whatever the code. Else the code 14, or without any code one of
/// three messages, tells of an unreachable backend, and the code 9 of a request that cannot be
/// served. Any other failure may bisect.
pub proof fn law_code_and_text_tell_why_a_failure_must_not_bisect(
    code: Option<i32>,
    rendered: &str,
    reason: Option<NoBisectReason>,
)
    requires
        call_ensures(no_bisect_reason_of, (code, rendered), reason),
    ensures
        ({
            let shed = occurs_in("x-sp1-admission-shed"@, rendered@);
            let unreachable = code == Some(14i32) || code is None && (occurs_in(
                "status: Unavailable"@,
                rendered@,
            ) || occurs_in("tcp connect error"@, rendered@) || occurs_in(
                "error trying to connect"@,
                rendered@,
            ));
            &&& reason == Some(NoBisectReason::AdmissionShed) <==> shed
            &&& reason == Some(NoBisectReason::TransientTransport) <==> !shed && unreachable
            &&& reason == Some(NoBisectReason::UnsatisfiablePrecondition) <==> !shed && code == Some(
                9i32,
            )
            &&& reason is None <==> !shed && !unreachable && code != Some(9i32)
        }),
{
}

/// What an error is told to be agrees with its code: one that wraps a status is a transport fault
/// exactly if its code is 14, and an unsatisfiable precondition exactly if its code is 9. It is
/// left to bisect only if it is neither.
pub proof fn law_the_tests_of_an_error_agree(
    e: anyhow::Error,
    number: i32,
    transient: bool,
    unsatisfiable: bool,
    reason: Option<NoBisectReason>,
)
    requires
        grpc_code_in(e) == Some(number),
        call_ensures(is_transient_transport_error, (&e,), transient),
        call_ensures(is_unsatisfiable_precondition_error, (&e,), unsatisfiable),
        call_ensures(no_bisect_reason, (&e,), reason),
    ensures
        transient <==> number == 14,
        unsatisfiable <==> number == 9,
        reason is None ==> number != 14 && number != 9,
        reason == Some(NoBisectReason::TransientTransport) ==> number == 14,
        reason == Some(NoBisectReason::UnsatisfiablePrecondition) ==> number == 9,
        number == 14 ==> reason == Some(NoBisectReason::TransientTransport) || reason == Some(
            NoBisectReason::AdmissionShed,
        ),
        number == 9 ==> reason == Some(NoBisectReason::UnsatisfiablePrecondition) || reason == Some(
            NoBisectReason::AdmissionShed,
        ),
{
}

/// An error whose every rendering holds the router's marker is an admission shed, and one of which
/// none does is not.
pub proof fn law_the_marker_tells_of_an_admission_shed(e: anyhow::Error, shed: bool)
    requires
        call_ensures(is_admission_shed_error, (&e,), shed),
    ensures
        (forall|rendered: Seq<char>| #[trigger]
            renders_as(e, rendered) ==> occurs_in("x-sp1-admission-shed"@, rendered)) ==> shed,
        (forall|rendered: Seq<char>| #[trigger]
            renders_as(e, rendered) ==> !occurs_in("x-sp1-admission-shed"@, rendered)) ==> !shed,
{
}

/// Each reason has words of its own.
pub proof fn law_reasons_are_told_apart_in_words(
    a: NoBisectReason,
    b: NoBisectReason,
    a_text: &'static str,
    b_text: &'static str,
)
    requires
        call_ensures(NoBisectReason::describe, (&a,), a_text),
        call_ensures(NoBisectReason::describe, (&b,), b_text),
        a_text@ == b_text@,
    ensures
        a == b,
{
    reveal_strlit("self-hosted admission shed (prover pool full)");
    reveal_strlit("transient transport failure (backend unreachable)");
    reveal_strlit("unsatisfiable precondition (program not registered)");
    assert("self-hosted admission shed (prover pool full)"@[0] == 's');
    assert("transient transport failure (backend unreachable)"@[0] == 't');
    assert("unsatisfiable precondition (program not registered)"@[0] == 'u');
}

/// A text tells of an admission shed exactly if it holds the router's marker. A failure is a
/// transport fault exactly if its code is 14, or if it has none and its text holds one of three
/// messages.
pub proof fn law_sheds_and_transport_faults_are_told_by_text_and_code(
    code: Option<i32>,
    rendered: &str,
    shed: bool,
    transient: bool,
)
    requires
        call_ensures(is_admission_shed_text, (rendered,), shed),
        call_ensures(is_transport_fault_of, (code, rendered), transient),
    ensures
        shed <==> occurs_in("x-sp1-admission-shed"@, rendered@),
        code is Some ==> (transient <==> code->0 == 14),
        code is None ==> (transient <==> occurs_in("status: Unavailable"@, rendered@) || occurs_in(
            "tcp connect error"@,
            rendered@,
        ) || occurs_in("error trying to connect"@, rendered@)),
{
}

} // verus!
