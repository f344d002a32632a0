//! The per-request pipeline: a state machine from collaborator answers to
//! an outcome.
//!
//! Decoding the parent head and electing the slot's author are this
//! crate's own work; everything else a request needs — the status check,
//! the relay-header lookup, the authority set, the inherent data, the
//! build, the announcement — is an answer from a collaborator. The machine
//! starts with [`begin_request`], and [`on_event`] folds one answer at a
//! time: the host performs the call the current state names, hands the
//! answer back, and either gets the next state or the request's outcome.
//! [`process_request`] runs the whole pipeline over answers gathered as
//! one value.

use vstd::prelude::*;
use crate::claim::{claim_slot, spec_claim_slot, ClaimResultView, SlotClaim, SlotClaimView};
use crate::header::{decode_header, spec_decode_header, Header, HeaderView};
use crate::keys::{keys_view, KeyCustody, PublicKey};
use crate::request::{
    BuildFault, BuiltBlock, BuiltBlockView, CollationRequest, CollationResult,
    CollationResultView, DispatchError, OutcomeView, RelayHeader, RequestOutcome, RequestView,
    SkipReason, SlotInfo, StageResponses, StageResponsesView,
};

verus! {

/// The size ceiling handed to the block builder: half of the request's
/// `max_pov_size`, leaving headroom for the proof-of-validity overhead.
pub fn pov_size_limit(max_pov_size: u32) -> (r: u32)
    ensures
        r == max_pov_size / 2,
{
    max_pov_size / 2
}

/// Where a request stands: each state names the collaborator call whose
/// answer the machine waits for.
#[derive(Debug)]
pub enum PipelineState {
    /// Waiting for the parent block's build-eligibility verdict.
    AwaitStatus { header: Header },
    /// Waiting for the relay-parent header lookup.
    AwaitRelayHeader { header: Header },
    /// Waiting for the authority set; carries the relay header the lookup
    /// found, which the oracle's call takes.
    AwaitAuthorities { header: Header, relay_header: RelayHeader },
    /// Waiting for the inherent-data providers; their slot feeds the claimer.
    AwaitInherent { header: Header, authorities: Vec<PublicKey> },
    /// Waiting for the parachain-specific inherent data, built via the claim.
    AwaitParachainInherent { header: Header, claim: SlotClaim },
    /// Waiting for the block builder.
    AwaitBuild { header: Header, claim: SlotClaim },
    /// Waiting for the announcer's result-channel handle.
    AwaitAnnounce { built: BuiltBlock },
}

/// The mathematical value of a [`PipelineState`].
pub ghost enum StateView {
    AwaitStatus { header: HeaderView },
    AwaitRelayHeader { header: HeaderView },
    AwaitAuthorities { header: HeaderView, relay_header: Seq<u8> },
    AwaitInherent { header: HeaderView, authorities: Seq<Seq<u8>> },
    AwaitParachainInherent { header: HeaderView, claim: SlotClaimView },
    AwaitBuild { header: HeaderView, claim: SlotClaimView },
    AwaitAnnounce { built: BuiltBlockView },
}

impl View for PipelineState {
    type V = StateView;

    open spec fn view(&self) -> StateView {
        match self {
            PipelineState::AwaitStatus { header } => StateView::AwaitStatus { header: header@ },
            PipelineState::AwaitRelayHeader { header } => StateView::AwaitRelayHeader {
                header: header@,
            },
            PipelineState::AwaitAuthorities { header, relay_header } =>
                StateView::AwaitAuthorities { header: header@, relay_header: relay_header@ },
            PipelineState::AwaitInherent { header, authorities } => StateView::AwaitInherent {
                header: header@,
                authorities: keys_view(authorities@),
            },
            PipelineState::AwaitParachainInherent { header, claim } =>
                StateView::AwaitParachainInherent { header: header@, claim: claim@ },
            PipelineState::AwaitBuild { header, claim } => StateView::AwaitBuild {
                header: header@,
                claim: claim@,
            },
            PipelineState::AwaitAnnounce { built } => StateView::AwaitAnnounce { built: built@ },
        }
    }
}

/// One collaborator's answer. `u64` payloads are the collaborator's fault
/// codes, carried through for diagnostics.
#[derive(Debug)]
pub enum StageEvent {
    StatusChecked(bool),
    RelayHeaderFetched(Result<Option<RelayHeader>, u64>),
    AuthoritiesRetrieved(Result<Vec<PublicKey>, u64>),
    InherentCreated(Result<SlotInfo, u64>),
    ParachainInherentBuilt(Result<(), u64>),
    BlockBuilt(Result<BuiltBlock, u64>),
    Announced(u64),
}

/// The mathematical value of a [`StageEvent`].
pub ghost enum EventView {
    StatusChecked(bool),
    RelayHeaderFetched(Result<Option<Seq<u8>>, u64>),
    AuthoritiesRetrieved(Result<Seq<Seq<u8>>, u64>),
    InherentCreated(Result<SlotInfo, u64>),
    ParachainInherentBuilt(Result<(), u64>),
    BlockBuilt(Result<BuiltBlockView, u64>),
    Announced(u64),
}

impl View for StageEvent {
    type V = EventView;

    open spec fn view(&self) -> EventView {
        match self {
            StageEvent::StatusChecked(b) => EventView::StatusChecked(*b),
            StageEvent::RelayHeaderFetched(r) => EventView::RelayHeaderFetched(
                match r {
                    Ok(Some(h)) => Ok(Some(h@)),
                    Ok(None) => Ok(None),
                    Err(e) => Err(*e),
                },
            ),
            StageEvent::AuthoritiesRetrieved(r) => EventView::AuthoritiesRetrieved(
                match r {
                    Ok(a) => Ok(keys_view(a@)),
                    Err(e) => Err(*e),
                },
            ),
            StageEvent::InherentCreated(r) => EventView::InherentCreated(*r),
            StageEvent::ParachainInherentBuilt(r) => EventView::ParachainInherentBuilt(*r),
            StageEvent::BlockBuilt(r) => EventView::BlockBuilt(
                match r {
                    Ok(b) => Ok(b@),
                    Err(e) => Err(*e),
                },
            ),
            StageEvent::Announced(s) => EventView::Announced(*s),
        }
    }
}

/// One step's result: the next state to feed, or the request's outcome.
#[derive(Debug)]
pub enum Step {
    Pending(PipelineState),
    Done(RequestOutcome),
}

/// The mathematical value of a [`Step`].
pub ghost enum StepView {
    Pending(StateView),
    Done(OutcomeView),
}

impl View for Step {
    type V = StepView;

    open spec fn view(&self) -> StepView {
        match self {
            Step::Pending(s) => StepView::Pending(s@),
            Step::Done(o) => StepView::Done(o@),
        }
    }
}

/// Whether `event` is the kind of answer `state` waits for.
pub open spec fn event_matches(state: StateView, event: EventView) -> bool {
    match (state, event) {
        (StateView::AwaitStatus { .. }, EventView::StatusChecked(..)) => true,
        (StateView::AwaitRelayHeader { .. }, EventView::RelayHeaderFetched(..)) => true,
        (StateView::AwaitAuthorities { .. }, EventView::AuthoritiesRetrieved(..)) => true,
        (StateView::AwaitInherent { .. }, EventView::InherentCreated(..)) => true,
        (StateView::AwaitParachainInherent { .. }, EventView::ParachainInherentBuilt(..)) => true,
        (StateView::AwaitBuild { .. }, EventView::BlockBuilt(..)) => true,
        (StateView::AwaitAnnounce { .. }, EventView::Announced(..)) => true,
        _ => false,
    }
}

/// The machine's transition on one answer. Every failure maps to the
/// outcome the stage table prescribes: a dependency's error rejects, a
/// benign absence skips, and the machine otherwise moves to the next
/// stage. The build's answer is also held to the size ceiling:
/// a payload above `max_pov_size / 2` is a build fault.
pub open spec fn spec_step(
    state: StateView,
    event: EventView,
    max_pov_size: u32,
    force_authoring: bool,
    custody: Set<Seq<u8>>,
) -> StepView {
    match (state, event) {
        (StateView::AwaitStatus { header }, EventView::StatusChecked(ok)) => if ok {
            StepView::Pending(StateView::AwaitRelayHeader { header })
        } else {
            StepView::Done(OutcomeView::Skipped(SkipReason::ParentNotEligible))
        },
        (StateView::AwaitRelayHeader { header }, EventView::RelayHeaderFetched(r)) => match r {
            Err(e) => StepView::Done(OutcomeView::Rejected(DispatchError::Query(e))),
            Ok(None) => StepView::Done(OutcomeView::Skipped(SkipReason::RelayHeaderMissing)),
            Ok(Some(relay_header)) => StepView::Pending(
                StateView::AwaitAuthorities { header, relay_header },
            ),
        },
        (StateView::AwaitAuthorities { header, .. }, EventView::AuthoritiesRetrieved(r)) => match r {
            Err(e) => StepView::Done(OutcomeView::Rejected(DispatchError::Query(e))),
            Ok(authorities) => StepView::Pending(
                StateView::AwaitInherent { header, authorities },
            ),
        },
        (StateView::AwaitInherent { header, authorities }, EventView::InherentCreated(r)) => match r {
            Err(e) => StepView::Done(OutcomeView::Rejected(DispatchError::InherentData(e))),
            Ok(slot_info) => match spec_claim_slot(
                authorities,
                slot_info.slot,
                custody,
                force_authoring,
            ) {
                ClaimResultView::NoAuthorities => StepView::Done(
                    OutcomeView::Rejected(DispatchError::SlotClaim),
                ),
                ClaimResultView::NotOurTurn => StepView::Done(
                    OutcomeView::Skipped(SkipReason::NotOurTurn),
                ),
                ClaimResultView::Claimed(claim) => StepView::Pending(
                    StateView::AwaitParachainInherent { header, claim },
                ),
            },
        },
        (
            StateView::AwaitParachainInherent { header, claim },
            EventView::ParachainInherentBuilt(r),
        ) => match r {
            Err(e) => StepView::Done(OutcomeView::Rejected(DispatchError::InherentData(e))),
            Ok(_) => StepView::Pending(StateView::AwaitBuild { header, claim }),
        },
        (StateView::AwaitBuild { .. }, EventView::BlockBuilt(r)) => match r {
            Err(e) => StepView::Done(
                OutcomeView::Rejected(DispatchError::Build(BuildFault::Proposer(e))),
            ),
            Ok(built) => if built.payload.len() > max_pov_size / 2 {
                StepView::Done(OutcomeView::Rejected(DispatchError::Build(BuildFault::Oversize)))
            } else {
                StepView::Pending(StateView::AwaitAnnounce { built })
            },
        },
        (StateView::AwaitAnnounce { built }, EventView::Announced(result_sender)) => StepView::Done(
            OutcomeView::Completed(CollationResultView { collation: built, result_sender }),
        ),
        // Mismatched pairs are ruled out by `event_matches`; this arm only
        // makes the function total.
        _ => StepView::Done(OutcomeView::Rejected(DispatchError::Decode)),
    }
}

/// Opens a request: decodes the parent head. Malformed bytes reject the
/// request; otherwise the machine waits for the status check.
pub fn begin_request(req: &CollationRequest) -> (r: Step)
    ensures
        r@ == spec_begin(req@),
{
    match decode_header(&req.validation_data.parent_head) {
        None => Step::Done(RequestOutcome::Rejected(DispatchError::Decode)),
        Some(header) => Step::Pending(PipelineState::AwaitStatus { header }),
    }
}

/// What opening a request yields.
pub open spec fn spec_begin(req: RequestView) -> StepView {
    match spec_decode_header(req.validation_data.parent_head) {
        None => StepView::Done(OutcomeView::Rejected(DispatchError::Decode)),
        Some(header) => StepView::Pending(StateView::AwaitStatus { header }),
    }
}

/// Feeds one collaborator answer to the machine, exactly as [`spec_step`]
/// states it. The host must hand the kind of answer the state waits for.
pub fn on_event(
    state: PipelineState,
    event: StageEvent,
    max_pov_size: u32,
    force_authoring: bool,
    custody: &KeyCustody,
) -> (r: Step)
    requires
        event_matches(state@, event@),
    ensures
        r@ == spec_step(state@, event@, max_pov_size, force_authoring, custody@),
{
    match (state, event) {
        (PipelineState::AwaitStatus { header }, StageEvent::StatusChecked(ok)) => if ok {
            Step::Pending(PipelineState::AwaitRelayHeader { header })
        } else {
            Step::Done(RequestOutcome::Skipped(SkipReason::ParentNotEligible))
        },
        (PipelineState::AwaitRelayHeader { header }, StageEvent::RelayHeaderFetched(r)) => match r {
            Err(e) => Step::Done(RequestOutcome::Rejected(DispatchError::Query(e))),
            Ok(None) => Step::Done(RequestOutcome::Skipped(SkipReason::RelayHeaderMissing)),
            Ok(Some(relay_header)) => Step::Pending(
                PipelineState::AwaitAuthorities { header, relay_header },
            ),
        },
        (
            PipelineState::AwaitAuthorities { header, .. },
            StageEvent::AuthoritiesRetrieved(r),
        ) => match r {
            Err(e) => Step::Done(RequestOutcome::Rejected(DispatchError::Query(e))),
            Ok(authorities) => Step::Pending(
                PipelineState::AwaitInherent { header, authorities },
            ),
        },
        (
            PipelineState::AwaitInherent { header, authorities },
            StageEvent::InherentCreated(r),
        ) => match r {
            Err(e) => Step::Done(RequestOutcome::Rejected(DispatchError::InherentData(e))),
            Ok(slot_info) => match claim_slot(
                &authorities,
                slot_info.slot,
                custody,
                force_authoring,
            ) {
                Err(_) => Step::Done(RequestOutcome::Rejected(DispatchError::SlotClaim)),
                Ok(None) => Step::Done(RequestOutcome::Skipped(SkipReason::NotOurTurn)),
                Ok(Some(claim)) => Step::Pending(
                    PipelineState::AwaitParachainInherent { header, claim },
                ),
            },
        },
        (
            PipelineState::AwaitParachainInherent { header, claim },
            StageEvent::ParachainInherentBuilt(r),
        ) => match r {
            Err(e) => Step::Done(RequestOutcome::Rejected(DispatchError::InherentData(e))),
            Ok(_) => Step::Pending(PipelineState::AwaitBuild { header, claim }),
        },
        (PipelineState::AwaitBuild { .. }, StageEvent::BlockBuilt(r)) => match r {
            Err(e) => Step::Done(
                RequestOutcome::Rejected(DispatchError::Build(BuildFault::Proposer(e))),
            ),
            Ok(built) => if built.payload.len() > pov_size_limit(max_pov_size) as usize {
                Step::Done(RequestOutcome::Rejected(DispatchError::Build(BuildFault::Oversize)))
            } else {
                Step::Pending(PipelineState::AwaitAnnounce { built })
            },
        },
        (PipelineState::AwaitAnnounce { built }, StageEvent::Announced(result_sender)) => Step::Done(
            RequestOutcome::Completed(CollationResult { collation: built, result_sender }),
        ),
        // Unreachable under this function's `requires`; the arm only makes
        // the match total, mirroring `spec_step`.
        _ => Step::Done(RequestOutcome::Rejected(DispatchError::Decode)),
    }
}

/// What a whole request comes to, given all the collaborators' answers.
#[verifier::opaque]
pub open spec fn spec_process(
    req: RequestView,
    resp: StageResponsesView,
    force_authoring: bool,
    custody: Set<Seq<u8>>,
) -> OutcomeView {
    let mp = req.validation_data.max_pov_size;
    match spec_begin(req) {
        StepView::Done(o) => o,
        StepView::Pending(s1) => match spec_step(
            s1, EventView::StatusChecked(resp.status_ok), mp, force_authoring, custody,
        ) {
            StepView::Done(o) => o,
            StepView::Pending(s2) => match spec_step(
                s2, EventView::RelayHeaderFetched(resp.relay_header), mp, force_authoring, custody,
            ) {
                StepView::Done(o) => o,
                StepView::Pending(s3) => match spec_step(
                    s3,
                    EventView::AuthoritiesRetrieved(resp.authorities),
                    mp,
                    force_authoring,
                    custody,
                ) {
                    StepView::Done(o) => o,
                    StepView::Pending(s4) => match spec_step(
                        s4, EventView::InherentCreated(resp.inherent), mp, force_authoring, custody,
                    ) {
                        StepView::Done(o) => o,
                        StepView::Pending(s5) => match spec_step(
                            s5,
                            EventView::ParachainInherentBuilt(resp.parachain_inherent),
                            mp,
                            force_authoring,
                            custody,
                        ) {
                            StepView::Done(o) => o,
                            StepView::Pending(s6) => match spec_step(
                                s6, EventView::BlockBuilt(resp.build), mp, force_authoring, custody,
                            ) {
                                StepView::Done(o) => o,
                                StepView::Pending(s7) => match spec_step(
                                    s7,
                                    EventView::Announced(resp.result_sender),
                                    mp,
                                    force_authoring,
                                    custody,
                                ) {
                                    StepView::Done(o) => o,
                                    StepView::Pending(_) => OutcomeView::Rejected(
                                        DispatchError::Decode,
                                    ),
                                },
                            },
                        },
                    },
                },
            },
        },
    }
}

/// Law: a request whose parent-head bytes hold no well-formed header is
/// rejected with the decode error — its completion is invoked, with
/// nothing, and the failure is logged.
pub proof fn lemma_invalid_bytes_rejected(
    req: RequestView,
    resp: StageResponsesView,
    force_authoring: bool,
    custody: Set<Seq<u8>>,
)
    requires
        spec_decode_header(req.validation_data.parent_head) is None,
    ensures
        spec_process(req, resp, force_authoring, custody) == OutcomeView::Rejected(
            DispatchError::Decode,
        ),
{
    reveal(spec_process);
}

/// Law: when the parent head decodes but the status check finds the parent
/// not eligible, the request is skipped — its completion is never invoked.
pub proof fn lemma_status_false_never_completes(
    req: RequestView,
    resp: StageResponsesView,
    force_authoring: bool,
    custody: Set<Seq<u8>>,
)
    requires
        spec_decode_header(req.validation_data.parent_head) is Some,
        !resp.status_ok,
    ensures
        spec_process(req, resp, force_authoring, custody) == OutcomeView::Skipped(
            SkipReason::ParentNotEligible,
        ),
        !crate::request::spec_completes(spec_process(req, resp, force_authoring, custody)),
{
    reveal(spec_process);
}

/// Law: when the relay-header lookup succeeds but finds nothing, the
/// request is skipped — its completion is never invoked and no error is
/// logged.
pub proof fn lemma_relay_header_missing_never_completes(
    req: RequestView,
    resp: StageResponsesView,
    force_authoring: bool,
    custody: Set<Seq<u8>>,
)
    requires
        spec_decode_header(req.validation_data.parent_head) is Some,
        resp.status_ok,
        resp.relay_header == Ok::<Option<Seq<u8>>, u64>(None),
    ensures
        spec_process(req, resp, force_authoring, custody) == OutcomeView::Skipped(
            SkipReason::RelayHeaderMissing,
        ),
        !crate::request::spec_completes(spec_process(req, resp, force_authoring, custody)),
        !crate::request::spec_logs_error(spec_process(req, resp, force_authoring, custody)),
{
    reveal(spec_process);
}

/// Law: an empty authority set is a rejection — the request completes
/// with nothing and the failure is logged, unlike a benign skip.
pub proof fn lemma_empty_authority_set_rejects(
    req: RequestView,
    resp: StageResponsesView,
    force_authoring: bool,
    custody: Set<Seq<u8>>,
)
    requires
        spec_decode_header(req.validation_data.parent_head) is Some,
        resp.status_ok,
        resp.relay_header matches Ok(Some(_)),
        resp.authorities == Ok::<Seq<Seq<u8>>, u64>(Seq::empty()),
        resp.inherent is Ok,
    ensures
        spec_process(req, resp, force_authoring, custody) == OutcomeView::Rejected(
            DispatchError::SlotClaim,
        ),
        crate::request::spec_logs_error(spec_process(req, resp, force_authoring, custody)),
{
    reveal(spec_process);
}

/// Law: a completed request's payload never exceeds half of the request's
/// `max_pov_size` — the ceiling the builder was given is enforced on what
/// it returns.
pub proof fn lemma_completed_within_pov_budget(
    req: RequestView,
    resp: StageResponsesView,
    force_authoring: bool,
    custody: Set<Seq<u8>>,
)
    ensures
        (match spec_process(req, resp, force_authoring, custody) {
            OutcomeView::Completed(c) => c.collation.payload.len()
                <= req.validation_data.max_pov_size / 2,
            _ => true,
        }),
{
    reveal(spec_process);
}

/// Runs the whole pipeline for one request over gathered answers, exactly
/// as [`spec_process`] states it.
pub fn process_request(
    req: &CollationRequest,
    resp: StageResponses,
    force_authoring: bool,
    custody: &KeyCustody,
) -> (r: RequestOutcome)
    ensures
        r@ == spec_process(req@, resp@, force_authoring, custody@),
{
    proof {
        reveal(spec_process);
    }
    let mp = req.validation_data.max_pov_size;
    let s1 = match begin_request(req) {
        Step::Done(o) => {
            return o;
        },
        Step::Pending(s) => s,
    };
    let s2 = match on_event(
        s1,
        StageEvent::StatusChecked(resp.status_ok),
        mp,
        force_authoring,
        custody,
    ) {
        Step::Done(o) => {
            return o;
        },
        Step::Pending(s) => s,
    };
    let s3 = match on_event(
        s2,
        StageEvent::RelayHeaderFetched(resp.relay_header),
        mp,
        force_authoring,
        custody,
    ) {
        Step::Done(o) => {
            return o;
        },
        Step::Pending(s) => s,
    };
    let s4 = match on_event(
        s3,
        StageEvent::AuthoritiesRetrieved(resp.authorities),
        mp,
        force_authoring,
        custody,
    ) {
        Step::Done(o) => {
            return o;
        },
        Step::Pending(s) => s,
    };
    let s5 = match on_event(
        s4,
        StageEvent::InherentCreated(resp.inherent),
        mp,
        force_authoring,
        custody,
    ) {
        Step::Done(o) => {
            return o;
        },
        Step::Pending(s) => s,
    };
    let s6 = match on_event(
        s5,
        StageEvent::ParachainInherentBuilt(resp.parachain_inherent),
        mp,
        force_authoring,
        custody,
    ) {
        Step::Done(o) => {
            return o;
        },
        Step::Pending(s) => s,
    };
    let s7 = match on_event(
        s6,
        StageEvent::BlockBuilt(resp.build),
        mp,
        force_authoring,
        custody,
    ) {
        Step::Done(o) => {
            return o;
        },
        Step::Pending(s) => s,
    };
    match on_event(
        s7,
        StageEvent::Announced(resp.result_sender),
        mp,
        force_authoring,
        custody,
    ) {
        Step::Done(o) => o,
        // The announce step always finishes a request; this arm mirrors
        // `spec_process`'s own final arm.
        Step::Pending(_) => RequestOutcome::Rejected(DispatchError::Decode),
    }
}

} // verus!
