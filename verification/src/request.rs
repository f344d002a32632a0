//! The data a collation request carries, the collaborators' answers, and
//! the outcome of processing one request.
//!
//! A request is answered in one of three ways. It can be *completed* with
//! a collation (success), *completed with nothing* while the failure is
//! logged (a dependency failed), or *not completed at all* (a benign race:
//! the chain moved on, the relay header was already gone, the slot belongs
//! to someone else). The outcome type keeps the three apart, so the
//! completion contract — at most once, and never for a benign skip — is
//! carried by the types rather than by convention.

use vstd::prelude::*;

verus! {

/// The validation data supplied with a request: the encoded parent head,
/// the relay storage root, and the proof-of-validity size ceiling.
#[derive(Clone, Debug, PartialEq, Eq)]
pub struct ValidationData {
    pub parent_head: Vec<u8>,
    pub relay_parent_storage_root: Vec<u8>,
    pub max_pov_size: u32,
}

/// The mathematical value of a [`ValidationData`].
pub ghost struct ValidationDataView {
    pub parent_head: Seq<u8>,
    pub relay_parent_storage_root: Seq<u8>,
    pub max_pov_size: u32,
}

impl View for ValidationData {
    type V = ValidationDataView;

    open spec fn view(&self) -> ValidationDataView {
        ValidationDataView {
            parent_head: self.parent_head@,
            relay_parent_storage_root: self.relay_parent_storage_root@,
            max_pov_size: self.max_pov_size,
        }
    }
}

/// One collation request: block space is available at `relay_parent`.
/// The one-shot completion channel itself lives with the host; the
/// dispatcher's outcome says whether and with what it is to be invoked.
#[derive(Clone, Debug, PartialEq, Eq)]
pub struct CollationRequest {
    pub relay_parent: Vec<u8>,
    pub validation_data: ValidationData,
}

/// The mathematical value of a [`CollationRequest`].
pub ghost struct RequestView {
    pub relay_parent: Seq<u8>,
    pub validation_data: ValidationDataView,
}

impl View for CollationRequest {
    type V = RequestView;

    open spec fn view(&self) -> RequestView {
        RequestView {
            relay_parent: self.relay_parent@,
            validation_data: self.validation_data@,
        }
    }
}

/// A relay-chain header, kept only by its hash: the pipeline reads nothing
/// else from it and hands it back to the collaborators.
#[derive(Clone, Debug, PartialEq, Eq)]
pub struct RelayHeader {
    pub hash: Vec<u8>,
}

impl View for RelayHeader {
    type V = Seq<u8>;

    open spec fn view(&self) -> Seq<u8> {
        self.hash@
    }
}

/// What the inherent-data factory exposes of its providers: the slot the
/// block is to be authored in.
#[derive(Clone, Copy, Debug, PartialEq, Eq, Structural)]
pub struct SlotInfo {
    pub slot: u64,
}

/// A built block: the proof-of-validity payload and the hash of the new
/// block, as the block builder returned them.
#[derive(Clone, Debug, PartialEq, Eq)]
pub struct BuiltBlock {
    pub payload: Vec<u8>,
    pub block_hash: Vec<u8>,
}

/// The mathematical value of a [`BuiltBlock`].
pub ghost struct BuiltBlockView {
    pub payload: Seq<u8>,
    pub block_hash: Seq<u8>,
}

impl View for BuiltBlock {
    type V = BuiltBlockView;

    open spec fn view(&self) -> BuiltBlockView {
        BuiltBlockView { payload: self.payload@, block_hash: self.block_hash@ }
    }
}

/// A collation delivered through a request's completion: the built block
/// and the announcer's result channel, identified by a host-side handle.
#[derive(Clone, Debug, PartialEq, Eq)]
pub struct CollationResult {
    pub collation: BuiltBlock,
    pub result_sender: u64,
}

/// The mathematical value of a [`CollationResult`].
pub ghost struct CollationResultView {
    pub collation: BuiltBlockView,
    pub result_sender: u64,
}

impl View for CollationResult {
    type V = CollationResultView;

    open spec fn view(&self) -> CollationResultView {
        CollationResultView { collation: self.collation@, result_sender: self.result_sender }
    }
}

/// Why a built block was refused.
#[derive(Clone, Copy, Debug, PartialEq, Eq, Structural)]
pub enum BuildFault {
    /// The block builder itself failed, with the collaborator's fault code.
    Proposer(u64),
    /// The builder returned a payload above the size ceiling it was given.
    Oversize,
}

/// A genuine failure in a dependency: the request completes with nothing
/// and the error is logged. The `u64` payloads carry the collaborator's
/// fault code through for diagnostics.
#[derive(Clone, Copy, Debug, PartialEq, Eq, Structural)]
pub enum DispatchError {
    /// The request's `parent_head` bytes hold no well-formed header.
    Decode,
    /// The relay-chain client or the authority oracle failed.
    Query(u64),
    /// An inherent-data stage failed.
    InherentData(u64),
    /// The authority set was empty: no index can be assigned.
    SlotClaim,
    /// The block builder failed or overshot its size ceiling.
    Build(BuildFault),
}

/// A benign race: the request is abandoned without completing it and
/// nothing is logged as an error.
#[derive(Clone, Copy, Debug, PartialEq, Eq, Structural)]
pub enum SkipReason {
    /// The parent block is not eligible to build on; the chain moved on.
    ParentNotEligible,
    /// The relay parent's header was not found — gone or not yet seen.
    RelayHeaderMissing,
    /// The assigned slot belongs to an authority whose key is not held.
    NotOurTurn,
}

/// How one request ended.
#[derive(Clone, Debug, PartialEq, Eq)]
pub enum RequestOutcome {
    /// Completion is invoked with the collation.
    Completed(CollationResult),
    /// Completion is invoked with nothing; the error is logged.
    Rejected(DispatchError),
    /// Completion is never invoked; nothing is logged as an error.
    Skipped(SkipReason),
}

/// The mathematical value of a [`RequestOutcome`].
pub ghost enum OutcomeView {
    Completed(CollationResultView),
    Rejected(DispatchError),
    Skipped(SkipReason),
}

impl View for RequestOutcome {
    type V = OutcomeView;

    open spec fn view(&self) -> OutcomeView {
        match self {
            RequestOutcome::Completed(c) => OutcomeView::Completed(c@),
            RequestOutcome::Rejected(e) => OutcomeView::Rejected(*e),
            RequestOutcome::Skipped(s) => OutcomeView::Skipped(*s),
        }
    }
}

/// Whether the outcome invokes the request's completion at all.
pub open spec fn spec_completes(o: OutcomeView) -> bool {
    match o {
        OutcomeView::Completed(_) => true,
        OutcomeView::Rejected(_) => true,
        OutcomeView::Skipped(_) => false,
    }
}

/// What a completing outcome hands to the completion channel.
pub open spec fn spec_completion_payload(o: OutcomeView) -> Option<CollationResultView> {
    match o {
        OutcomeView::Completed(c) => Some(c),
        _ => None,
    }
}

/// Whether the outcome logs an error.
pub open spec fn spec_logs_error(o: OutcomeView) -> bool {
    o is Rejected
}

/// The error a rejecting outcome logs.
pub open spec fn spec_logged_error(o: OutcomeView) -> DispatchError {
    o->Rejected_0
}

/// Law: a rejection still completes the request — with nothing. Only a
/// skip leaves the completion untouched.
pub proof fn lemma_rejected_completes_with_nothing(o: OutcomeView)
    requires
        spec_logs_error(o),
    ensures
        spec_completes(o),
        spec_completion_payload(o) is None,
{
}

/// The collaborators' answers for one request, gathered as plain values:
/// the status check's verdict, the relay-header lookup, the authority
/// set, the two inherent-data stages, the build, and the announcer's
/// result-channel handle.
#[derive(Debug, PartialEq, Eq)]
pub struct StageResponses {
    pub status_ok: bool,
    pub relay_header: Result<Option<RelayHeader>, u64>,
    pub authorities: Result<Vec<crate::keys::PublicKey>, u64>,
    pub inherent: Result<SlotInfo, u64>,
    /// The parachain-specific inherent data built via the claim. The data
    /// itself stays with the host and feeds the build call; only success
    /// or failure steers the pipeline.
    pub parachain_inherent: Result<(), u64>,
    pub build: Result<BuiltBlock, u64>,
    pub result_sender: u64,
}

/// The mathematical value of a [`StageResponses`].
pub ghost struct StageResponsesView {
    pub status_ok: bool,
    pub relay_header: Result<Option<Seq<u8>>, u64>,
    pub authorities: Result<Seq<Seq<u8>>, u64>,
    pub inherent: Result<SlotInfo, u64>,
    /// The parachain-specific inherent data built via the claim. The data
    /// itself stays with the host and feeds the build call; only success
    /// or failure steers the pipeline.
    pub parachain_inherent: Result<(), u64>,
    pub build: Result<BuiltBlockView, u64>,
    pub result_sender: u64,
}

impl View for StageResponses {
    type V = StageResponsesView;

    open spec fn view(&self) -> StageResponsesView {
        StageResponsesView {
            status_ok: self.status_ok,
            relay_header: match self.relay_header {
                Ok(Some(h)) => Ok(Some(h@)),
                Ok(None) => Ok(None),
                Err(e) => Err(e),
            },
            authorities: match self.authorities {
                Ok(a) => Ok(crate::keys::keys_view(a@)),
                Err(e) => Err(e),
            },
            inherent: self.inherent,
            parachain_inherent: self.parachain_inherent,
            build: match self.build {
                Ok(b) => Ok(b@),
                Err(e) => Err(e),
            },
            result_sender: self.result_sender,
        }
    }
}

} // verus!
