use parity_scale_codec::{Compact, Encode};
use relay_collator::dispatcher::{run, Params};
use relay_collator::keys::{KeyCustody, PublicKey};
use relay_collator::request::{
    BuiltBlock, CollationRequest, DispatchError, RelayHeader, SlotInfo, StageResponses,
    ValidationData,
};

fn key(tag: u8) -> PublicKey {
    PublicKey::new(vec![tag; 32])
}

fn parent_head(number: u32) -> Vec<u8> {
    let mut out = vec![4u8; 32];
    out.extend_from_slice(&Compact(number).encode());
    out.extend_from_slice(&[5u8; 32]);
    out.extend_from_slice(&[6u8; 32]);
    out.extend_from_slice(&Compact(0u32).encode());
    out
}

fn request(head: Vec<u8>) -> CollationRequest {
    CollationRequest {
        relay_parent: vec![7u8; 32],
        validation_data: ValidationData {
            parent_head: head,
            relay_parent_storage_root: vec![8u8; 32],
            max_pov_size: 1000,
        },
    }
}

fn happy_responses(sender: u64) -> StageResponses {
    StageResponses {
        status_ok: true,
        relay_header: Ok(Some(RelayHeader { hash: vec![9u8; 32] })),
        authorities: Ok(vec![key(1), key(2), key(3)]),
        inherent: Ok(SlotInfo { slot: 7 }),
        parachain_inherent: Ok(()),
        build: Ok(BuiltBlock { payload: vec![1, 2, 3], block_hash: vec![10u8; 32] }),
        result_sender: sender,
    }
}

fn params() -> Params {
    Params {
        keystore: KeyCustody::new(vec![key(2)]),
        force_authoring: false,
        authoring_duration_ms: 500,
        slot_duration_ms: 6000,
        relay_chain_slot_duration_ms: 6000,
        para_id: 2000,
    }
}

#[test]
fn completions_come_in_receipt_order() {
    let batch = vec![
        (request(parent_head(1)), happy_responses(1)),
        (request(parent_head(2)), happy_responses(2)),
        (request(parent_head(3)), happy_responses(3)),
    ];
    let (events, logs) = run(&params(), batch);
    assert_eq!(events.len(), 3);
    for (j, ev) in events.iter().enumerate() {
        assert_eq!(ev.request_index, j);
        let payload = ev.payload.as_ref().expect("successful request");
        assert_eq!(payload.result_sender, (j + 1) as u64);
    }
    assert!(logs.is_empty());
}

#[test]
fn each_request_completes_at_most_once() {
    let batch = vec![
        (request(parent_head(1)), happy_responses(1)),
        (request(vec![0u8; 4]), happy_responses(2)),
        (request(parent_head(3)), happy_responses(3)),
    ];
    let (events, _) = run(&params(), batch);
    let mut seen = Vec::new();
    for ev in &events {
        assert!(!seen.contains(&ev.request_index));
        seen.push(ev.request_index);
    }
}

#[test]
fn loop_continues_after_a_rejection() {
    // The second request's parent head is garbage: it is rejected, its
    // completion gets nothing, the error is logged, and the third request
    // is still processed.
    let batch = vec![
        (request(parent_head(1)), happy_responses(1)),
        (request(vec![0u8; 4]), happy_responses(2)),
        (request(parent_head(3)), happy_responses(3)),
    ];
    let (events, logs) = run(&params(), batch);
    assert_eq!(events.len(), 3);
    assert_eq!(events[0].request_index, 0);
    assert!(events[0].payload.is_some());
    assert_eq!(events[1].request_index, 1);
    assert!(events[1].payload.is_none());
    assert_eq!(events[2].request_index, 2);
    assert!(events[2].payload.is_some());
    assert_eq!(logs.len(), 1);
    assert_eq!(logs[0].request_index, 1);
    assert_eq!(logs[0].error, DispatchError::Decode);
}

#[test]
fn loop_continues_after_a_relay_query_error() {
    let mut failing = happy_responses(1);
    failing.relay_header = Err(13);
    let batch = vec![
        (request(parent_head(1)), failing),
        (request(parent_head(2)), happy_responses(2)),
    ];
    let (events, logs) = run(&params(), batch);
    assert_eq!(events.len(), 2);
    assert!(events[0].payload.is_none());
    assert!(events[1].payload.is_some());
    assert_eq!(logs.len(), 1);
    assert_eq!(logs[0].request_index, 0);
    assert_eq!(logs[0].error, DispatchError::Query(13));
}

#[test]
fn skipped_requests_are_never_completed_nor_logged() {
    let mut not_eligible = happy_responses(1);
    not_eligible.status_ok = false;
    let mut header_missing = happy_responses(2);
    header_missing.relay_header = Ok(None);
    let batch = vec![
        (request(parent_head(1)), not_eligible),
        (request(parent_head(2)), header_missing),
        (request(parent_head(3)), happy_responses(3)),
    ];
    let (events, logs) = run(&params(), batch);
    assert_eq!(events.len(), 1);
    assert_eq!(events[0].request_index, 2);
    assert!(events[0].payload.is_some());
    assert!(logs.is_empty());
}

#[test]
fn empty_batch_yields_nothing() {
    let (events, logs) = run(&params(), Vec::new());
    assert!(events.is_empty());
    assert!(logs.is_empty());
}
