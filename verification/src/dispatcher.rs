//! The request dispatcher: strictly sequential processing of a request
//! stream, with exactly-once-or-never completion per request.
//!
//! [`run`] folds a batch of answered requests in order, one fully resolved
//! before the next begins, and returns the completion events and the
//! logged errors. Its contract pins both lists down: a request appears
//! among the completions exactly when its outcome completes, with the
//! payload its outcome prescribes; the indices are strictly increasing, so
//! requests are completed in the order they were received and none is
//! completed twice; and a failure of one request never stops the next from
//! being processed — every request's entry depends on its own answers
//! alone.

use vstd::prelude::*;
use crate::keys::KeyCustody;
use crate::pipeline::{process_request, spec_process};
use crate::request::{
    CollationRequest, CollationResult, CollationResultView, DispatchError, StageResponses,
    spec_completes, spec_completion_payload, spec_logged_error, spec_logs_error,
};

verus! {

/// The dispatcher's static configuration. The collaborator handles the
/// host drives — clients, builder, announcer — stay with the host; here
/// are the values the decisions and the collaborator calls are made with.
pub struct Params {
    /// The keys the local node holds, standing for the keystore.
    pub keystore: KeyCustody,
    /// Whether to author even when the assigned key is not held.
    pub force_authoring: bool,
    /// The wall-clock budget handed to the block builder, in milliseconds.
    pub authoring_duration_ms: u64,
    /// The parachain's slot duration, in milliseconds.
    pub slot_duration_ms: u64,
    /// The relay chain's slot duration, in milliseconds.
    pub relay_chain_slot_duration_ms: u64,
    /// The parachain this collator serves.
    pub para_id: u32,
}

/// One invocation of a request's completion channel: which request, and
/// the payload handed to it — a collation, or nothing on a rejection.
#[derive(Debug, PartialEq, Eq)]
pub struct CompletionEvent {
    pub request_index: usize,
    pub payload: Option<CollationResult>,
}

/// The mathematical value of a [`CompletionEvent`].
pub ghost struct CompletionEventView {
    pub request_index: int,
    pub payload: Option<CollationResultView>,
}

impl View for CompletionEvent {
    type V = CompletionEventView;

    open spec fn view(&self) -> CompletionEventView {
        CompletionEventView {
            request_index: self.request_index as int,
            payload: match self.payload {
                Some(c) => Some(c@),
                None => None,
            },
        }
    }
}

/// One logged error: which request, and the failure that rejected it.
#[derive(Clone, Copy, Debug, PartialEq, Eq, Structural)]
pub struct LoggedError {
    pub request_index: usize,
    pub error: DispatchError,
}

/// What request `i` of the batch comes to.
pub open spec fn outcome_at(
    batch: Seq<(CollationRequest, StageResponses)>,
    params: Params,
    i: int,
) -> crate::request::OutcomeView {
    spec_process(batch[i].0@, batch[i].1@, params.force_authoring, params.keystore@)
}

/// Runs the dispatcher over a batch of requests, each paired with its
/// collaborators' answers, strictly in order. Returns the completion
/// events and the logged errors.
#[verifier::rlimit(60)]
pub fn run(params: &Params, batch: Vec<(CollationRequest, StageResponses)>) -> (r: (
    Vec<CompletionEvent>,
    Vec<LoggedError>,
))
    ensures
        ({
            let events = r.0;
            let logs = r.1;
            // Completions come in receipt order, and no request twice.
            &&& forall|j1: int, j2: int|
                0 <= j1 < j2 < events@.len() ==> #[trigger] events@[j1].request_index
                    < #[trigger] events@[j2].request_index
            // Each completion is one request's, with the payload its
            // outcome prescribes.
            &&& forall|j: int|
                0 <= j < events@.len() ==> {
                    let i = #[trigger] events@[j].request_index as int;
                    &&& 0 <= i < batch@.len()
                    &&& spec_completes(outcome_at(batch@, *params, i))
                    &&& events@[j]@.payload == spec_completion_payload(outcome_at(batch@, *params, i))
                }
            // A request is completed exactly when its own outcome says so.
            &&& forall|i: int|
                0 <= i < batch@.len() ==> (spec_completes(#[trigger] outcome_at(batch@, *params, i))
                    <==> exists|j: int|
                        0 <= j < events@.len() && #[trigger] events@[j].request_index as int == i)
            // Errors are logged in order, one per rejected request.
            &&& forall|k1: int, k2: int|
                0 <= k1 < k2 < logs@.len() ==> #[trigger] logs@[k1].request_index
                    < #[trigger] logs@[k2].request_index
            &&& forall|k: int|
                0 <= k < logs@.len() ==> {
                    let i = #[trigger] logs@[k].request_index as int;
                    &&& 0 <= i < batch@.len()
                    &&& spec_logs_error(outcome_at(batch@, *params, i))
                    &&& logs@[k].error == spec_logged_error(outcome_at(batch@, *params, i))
                }
            &&& forall|i: int|
                0 <= i < batch@.len() ==> (spec_logs_error(#[trigger] outcome_at(batch@, *params, i))
                    <==> exists|k: int|
                        0 <= k < logs@.len() && #[trigger] logs@[k].request_index as int == i)
        }),
{
    let ghost orig = batch@;
    let mut rest = batch;
    let batch_len = rest.len();
    assert(orig.len() == batch_len);
    let mut events: Vec<CompletionEvent> = Vec::new();
    let mut logs: Vec<LoggedError> = Vec::new();
    let mut i: usize = 0;
    while rest.len() > 0
        invariant
            orig.len() <= usize::MAX,
            i + rest@.len() == orig.len(),
            rest@ == orig.skip(i as int),
            forall|j: int|
                0 <= j < events@.len() ==> #[trigger] events@[j].request_index < i,
            forall|j1: int, j2: int|
                0 <= j1 < j2 < events@.len() ==> #[trigger] events@[j1].request_index
                    < #[trigger] events@[j2].request_index,
            forall|j: int|
                0 <= j < events@.len() ==> {
                    let q = #[trigger] events@[j].request_index as int;
                    &&& 0 <= q < orig.len()
                    &&& spec_completes(outcome_at(orig, *params, q))
                    &&& events@[j]@.payload == spec_completion_payload(outcome_at(orig, *params, q))
                },
            forall|q: int|
                0 <= q < i ==> (spec_completes(#[trigger] outcome_at(orig, *params, q))
                    <==> exists|j: int|
                        0 <= j < events@.len() && #[trigger] events@[j].request_index as int == q),
            forall|k: int|
                0 <= k < logs@.len() ==> #[trigger] logs@[k].request_index < i,
            forall|k1: int, k2: int|
                0 <= k1 < k2 < logs@.len() ==> #[trigger] logs@[k1].request_index
                    < #[trigger] logs@[k2].request_index,
            forall|k: int|
                0 <= k < logs@.len() ==> {
                    let q = #[trigger] logs@[k].request_index as int;
                    &&& 0 <= q < orig.len()
                    &&& spec_logs_error(outcome_at(orig, *params, q))
                    &&& logs@[k].error == spec_logged_error(outcome_at(orig, *params, q))
                },
            forall|q: int|
                0 <= q < i ==> (spec_logs_error(#[trigger] outcome_at(orig, *params, q))
                    <==> exists|k: int|
                        0 <= k < logs@.len() && #[trigger] logs@[k].request_index as int == q),
        decreases rest@.len(),
    {
        let (req, resp) = rest.remove(0);
        assert(orig[i as int] == (req, resp));
        let outcome = process_request(&req, resp, params.force_authoring, &params.keystore);
        assert(outcome@ == outcome_at(orig, *params, i as int));
        match outcome {
            crate::request::RequestOutcome::Completed(c) => {
                let ghost before = events@;
                events.push(CompletionEvent { request_index: i, payload: Some(c) });
                assert(events@[before.len() as int].request_index as int == i as int);
                assert(forall|j: int|
                    0 <= j < before.len() ==> events@[j] == before[j]);
            },
            crate::request::RequestOutcome::Rejected(e) => {
                let ghost before = events@;
                events.push(CompletionEvent { request_index: i, payload: None });
                assert(events@[before.len() as int].request_index as int == i as int);
                assert(forall|j: int|
                    0 <= j < before.len() ==> events@[j] == before[j]);
                let ghost lbefore = logs@;
                logs.push(LoggedError { request_index: i, error: e });
                assert(logs@[lbefore.len() as int].request_index as int == i as int);
                assert(forall|k: int|
                    0 <= k < lbefore.len() ==> logs@[k] == lbefore[k]);
            },
            crate::request::RequestOutcome::Skipped(_) => {},
        }
        i = i + 1;
        assert(rest@ =~= orig.skip(i as int));
    }
    assert(orig.skip(i as int).len() == 0);
    assert(i == orig.len());
    (events, logs)
}

/// Law: no request's completion is ever invoked more than once — all
/// completion events carry pairwise distinct request indices.
pub proof fn lemma_completion_at_most_once(events: Seq<CompletionEventView>)
    requires
        forall|j1: int, j2: int|
            0 <= j1 < j2 < events.len() ==> #[trigger] events[j1].request_index
                < #[trigger] events[j2].request_index,
    ensures
        forall|j1: int, j2: int|
            0 <= j1 < events.len() && 0 <= j2 < events.len() && j1 != j2
                ==> #[trigger] events[j1].request_index != #[trigger] events[j2].request_index,
{
}

} // verus!
