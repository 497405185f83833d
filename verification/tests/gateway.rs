//! A call for available blocks, step by step, and the claim of a block.

use std::sync::Arc;
use std::time::Instant;

use async_broadcast::{broadcast, Sender};
use async_lock::RwLock;
use builder_core::builder_state::{
    BuildBlockInfo, RequestMessage, ResponseMessage, TransactionSource,
};
use builder_core::commitment::{BuilderCommitment, TxCommitment, VidCommitment};
use builder_core::error::BuildError;
use builder_core::gateway::{AvailableBlocksCall, CallAction, CallEvent, Phase, ProxyGlobalState};
use builder_core::service::GlobalState;
use builder_core::types::{BuilderTransaction, BuilderTypes};
use builder_core::view_map::BuilderStateId;

#[derive(Clone, Debug, PartialEq)]
struct Tx {
    namespace: u64,
    tag: u8,
}

impl BuilderTransaction for Tx {
    fn namespace(&self) -> u64 {
        self.namespace
    }

    fn commitment(&self) -> TxCommitment {
        self.commit()
    }

    fn size(&self) -> u64 {
        1
    }

    fn namespace_id(&self) -> u64 {
        self.namespace
    }

    fn commit(&self) -> TxCommitment {
        TxCommitment::from_bytes([self.tag; 32])
    }

    fn encoded_len(&self) -> u64 {
        1
    }
}

struct Types;

impl BuilderTypes for Types {
    type Transaction = Tx;
    type BlockPayload = Vec<u8>;
    type Metadata = u32;
    type Message = u8;
    type SignatureKey = u64;
    type BuilderSignatureKey = u64;
    type BuilderPrivateKey = u64;
    type BuilderSignature = &'static str;
}

const MAX_WAIT: u64 = 100_000_000;

fn vid(b: u8) -> VidCommitment {
    VidCommitment::from_bytes([b; 32])
}

fn hash(b: u8) -> BuilderCommitment {
    BuilderCommitment::from_bytes([b; 32])
}

fn id(b: u8, view: u64) -> BuilderStateId {
    BuilderStateId { parent_commitment: vid(b), view }
}

fn channel(capacity: usize) -> Sender<u8> {
    let (sender, receiver) = broadcast(capacity);
    std::mem::forget(receiver);
    sender
}

fn registry(namespace: Option<u64>) -> GlobalState<Types> {
    let (tx_sender, tx_receiver) = broadcast(4);
    std::mem::forget(tx_receiver);
    GlobalState::new(namespace, channel(100), tx_sender, vid(0), 0, 0, 0)
}

fn proxy() -> ProxyGlobalState<Types> {
    ProxyGlobalState::new(Arc::new(RwLock::new(registry(None))), (7, 11), MAX_WAIT)
}

fn call(b: u8, view: u64, phase: Phase) -> AvailableBlocksCall {
    AvailableBlocksCall { key: id(b, view), phase, offer: None }
}

fn offer(b: u8, size: u64, fee: u64) -> ResponseMessage {
    ResponseMessage { builder_hash: hash(b), block_size: size, offered_fee: fee }
}

#[test]
fn the_gateway_keeps_what_it_was_made_with() {
    let proxy = proxy();
    assert_eq!(*proxy.builder_address(), 7);
    assert_eq!(*proxy.signing_key(), 11);
    assert_eq!(proxy.max_api_waiting_time(), MAX_WAIT);
    assert_eq!(proxy.global_state().try_read().unwrap().highest_view_num_builder_id, id(0, 0));
}

#[test]
fn a_bad_signature_ends_the_call_before_anything_else() {
    let proxy = proxy();
    let mut global = registry(None);
    for view in 1..=9u64 {
        global.register_builder_state(vid(view as u8), view, channel(view as usize));
    }
    global.remove_handles(8);
    let result = proxy.begin_available_blocks(&global, &vid(1), 1, false);
    assert_eq!(result.unwrap_err(), BuildError::InvalidSignature);
}

#[test]
fn a_view_below_the_watermark_was_decided_already() {
    let proxy = proxy();
    let mut global = registry(None);
    for view in 1..=9u64 {
        global.register_builder_state(vid(view as u8), view, channel(view as usize));
    }
    global.remove_handles(8);
    assert_eq!(global.last_garbage_collected_view_num, 7);
    assert_eq!(
        proxy.begin_available_blocks(&global, &vid(6), 6, true).unwrap_err(),
        BuildError::ViewAlreadyDecided
    );
    // The watermark itself is not below the watermark.
    let begun = proxy.begin_available_blocks(&global, &vid(7), 7, true).unwrap();
    assert_eq!(begun.key, id(7, 7));
    assert_eq!(begun.phase, Phase::Matching);
    assert_eq!(begun.offer, None);
}

#[test]
fn a_registry_that_has_not_moved_on_decides_nothing() {
    let proxy = proxy();
    let (tx_sender, tx_receiver) = broadcast(4);
    std::mem::forget(tx_receiver);
    // Bootstrapped at the watermark: the highest view equals the watermark.
    let global: GlobalState<Types> =
        GlobalState::new(None, channel(1), tx_sender, vid(0), 5, 5, 0);
    assert!(proxy.begin_available_blocks(&global, &vid(0), 2, true).is_ok());
}

#[test]
fn the_exact_state_is_asked_first() {
    let proxy = proxy();
    let mut global = registry(None);
    global.register_builder_state(vid(1), 1, channel(1));
    global.register_builder_state(vid(2), 2, channel(2));
    let mut call = call(1, 1, Phase::Matching);
    match proxy.available_blocks(&global, &mut call, CallEvent::Tick { elapsed: 0 }) {
        CallAction::Send { channel, request, wait } => {
            assert_eq!(channel.capacity(), 1);
            assert_eq!(request.requested_vid_commitment, vid(1));
            assert_eq!(request.requested_view_number, 1);
            assert_eq!(wait, 10_000_000);
        }
        _ => panic!("the request should be sent"),
    }
    assert_eq!(call.phase, Phase::Waiting);
}

#[test]
fn an_unknown_state_is_waited_for_during_half_the_time() {
    let proxy = proxy();
    let mut global = registry(None);
    global.register_builder_state(vid(2), 2, channel(2));
    let mut call = call(9, 3, Phase::Matching);
    for elapsed in [0, 10_000_000, 49_999_999] {
        match proxy.available_blocks(&global, &mut call, CallEvent::Tick { elapsed }) {
            CallAction::Sleep { nanos } => assert_eq!(nanos, 10_000_000),
            _ => panic!("the gateway should sleep"),
        }
        assert_eq!(call.phase, Phase::Matching);
    }
    match proxy.available_blocks(&global, &mut call, CallEvent::Tick { elapsed: 50_000_000 }) {
        CallAction::Send { channel, request, wait } => {
            assert_eq!(channel.capacity(), 2);
            assert_eq!(request.requested_vid_commitment, vid(9));
            assert_eq!(request.requested_view_number, 3);
            assert_eq!(wait, 10_000_000);
        }
        _ => panic!("the request should go to the highest view"),
    }
    assert_eq!(call.phase, Phase::Waiting);
}

#[test]
fn a_state_that_appears_late_is_still_preferred() {
    let proxy = proxy();
    let mut global = registry(None);
    global.register_builder_state(vid(2), 2, channel(2));
    global.register_builder_state(vid(1), 1, channel(1));
    let mut call = call(1, 1, Phase::Matching);
    match proxy.available_blocks(&global, &mut call, CallEvent::Tick { elapsed: 80_000_000 }) {
        CallAction::Send { channel, .. } => assert_eq!(channel.capacity(), 1),
        _ => panic!("the request should be sent"),
    }
}

#[test]
fn without_any_state_the_call_fails_after_half_the_time() {
    let proxy = proxy();
    let mut global = registry(None);
    global.spawned_builder_states.retain_from(1);
    let mut call = call(0, 0, Phase::Matching);
    assert!(matches!(
        proxy.available_blocks(&global, &mut call, CallEvent::Tick { elapsed: 1 }),
        CallAction::Sleep { nanos: 10_000_000 }
    ));
    assert!(matches!(
        proxy.available_blocks(&global, &mut call, CallEvent::Tick { elapsed: 50_000_000 }),
        CallAction::Fail { error: BuildError::NoBuilderState }
    ));
    assert_eq!(call.phase, Phase::Done);
}

#[test]
fn any_registered_state_keeps_the_call_from_failing() {
    let proxy = proxy();
    let mut global = registry(None);
    global.register_builder_state(vid(1), 3, channel(1));
    global.register_builder_state(vid(2), 6, channel(2));
    global.highest_view_num_builder_id = id(9, 9);
    let mut call = call(7, 7, Phase::Matching);
    assert!(matches!(
        proxy.available_blocks(&global, &mut call, CallEvent::Tick { elapsed: 0 }),
        CallAction::Sleep { nanos: 10_000_000 }
    ));
    match proxy.available_blocks(&global, &mut call, CallEvent::Tick { elapsed: 50_000_000 }) {
        CallAction::Send { channel, request, .. } => {
            assert_eq!(channel.capacity(), 2);
            assert_eq!(request.requested_vid_commitment, vid(7));
            assert_eq!(request.requested_view_number, 7);
        }
        _ => panic!("the request should go to the latest state"),
    }
    assert_eq!(call.phase, Phase::Waiting);
}

#[test]
fn a_reply_is_signed_and_returned() {
    let proxy = proxy();
    let global = registry(None);
    let mut call = call(0, 0, Phase::Waiting);
    let reply = offer(4, 12, 34);
    match proxy.available_blocks(&global, &mut call, CallEvent::Reply { response: reply }) {
        CallAction::Sign { block_size, offered_fee, builder_hash } => {
            assert_eq!((block_size, offered_fee, builder_hash), (12, 34, hash(4)));
        }
        _ => panic!("the offer should be signed"),
    }
    assert_eq!(call.phase, Phase::Signing);
    assert_eq!(call.offer, Some(reply));
    match proxy.available_blocks(&global, &mut call, CallEvent::Signed { signature: "signed" }) {
        CallAction::Return { offers } => {
            assert_eq!(offers.len(), 1);
            assert_eq!(offers[0].block_hash, hash(4));
            assert_eq!(offers[0].block_size, 12);
            assert_eq!(offers[0].offered_fee, 34);
            assert_eq!(offers[0].signature, "signed");
            assert_eq!(*offers[0].sender, 7);
        }
        _ => panic!("the offer should be returned"),
    }
    assert_eq!(call.phase, Phase::Done);
}

#[test]
fn a_failed_signature_fails_the_call() {
    let proxy = proxy();
    let global = registry(None);
    let mut call = call(0, 0, Phase::Waiting);
    proxy.available_blocks(&global, &mut call, CallEvent::Reply { response: offer(1, 1, 1) });
    assert!(matches!(
        proxy.available_blocks(&global, &mut call, CallEvent::SigningFailed),
        CallAction::Fail { error: BuildError::SigningFailed }
    ));
    assert_eq!(call.phase, Phase::Done);
}

#[test]
fn a_closed_reply_channel_fails_the_call() {
    let proxy = proxy();
    let global = registry(None);
    let mut call = call(0, 0, Phase::Waiting);
    assert!(matches!(
        proxy.available_blocks(&global, &mut call, CallEvent::ReplyClosed),
        CallAction::Fail { error: BuildError::ChannelClosed }
    ));
    assert_eq!(call.phase, Phase::Done);
}

#[test]
fn waiting_goes_on_until_the_whole_time_has_passed() {
    let proxy = proxy();
    let global = registry(None);
    let mut call = call(0, 0, Phase::Waiting);
    for elapsed in [10_000_000, 60_000_000, 99_999_999] {
        assert!(matches!(
            proxy.available_blocks(&global, &mut call, CallEvent::ReplyTimedOut { elapsed }),
            CallAction::Wait { nanos: 10_000_000 }
        ));
        assert_eq!(call.phase, Phase::Waiting);
    }
    assert!(matches!(
        proxy.available_blocks(&global, &mut call, CallEvent::ReplyTimedOut { elapsed: MAX_WAIT }),
        CallAction::Fail { error: BuildError::NoBlocksAvailable }
    ));
    assert_eq!(call.phase, Phase::Done);
}

#[test]
fn the_last_offer_is_served_when_time_runs_out() {
    let proxy = proxy();
    let mut global = registry(None);
    let block = BuildBlockInfo {
        builder_hash: hash(5),
        block_size: 3,
        offered_fee: 9,
        block_payload: vec![1, 2, 3],
        metadata: 1,
    };
    global.update_global_state(block, vid(0), 0, offer(5, 3, 9));
    let mut call = call(0, 0, Phase::Waiting);
    match proxy.available_blocks(
        &global,
        &mut call,
        CallEvent::ReplyTimedOut { elapsed: MAX_WAIT + 1 },
    ) {
        CallAction::Sign { block_size, offered_fee, builder_hash } => {
            assert_eq!((block_size, offered_fee, builder_hash), (3, 9, hash(5)));
        }
        _ => panic!("the cached offer should be signed"),
    }
    // What was offered from the cache can be claimed at the same view.
    assert!(proxy.claim_block(&global, &hash(5), 0, true).is_ok());
    // The offer of another state is not served.
    let mut other = AvailableBlocksCall { key: id(1, 0), phase: Phase::Waiting, offer: None };
    assert!(matches!(
        proxy.available_blocks(&global, &mut other, CallEvent::ReplyTimedOut { elapsed: MAX_WAIT }),
        CallAction::Fail { error: BuildError::NoBlocksAvailable }
    ));
}

#[test]
fn events_out_of_turn_change_nothing() {
    let proxy = proxy();
    let global = registry(None);
    let mut matching = call(0, 0, Phase::Matching);
    assert!(matches!(
        proxy.available_blocks(&global, &mut matching, CallEvent::Reply { response: offer(1, 1, 1) }),
        CallAction::Nothing
    ));
    assert_eq!(matching.phase, Phase::Matching);
    let mut waiting = call(0, 0, Phase::Waiting);
    assert!(matches!(
        proxy.available_blocks(&global, &mut waiting, CallEvent::Tick { elapsed: 0 }),
        CallAction::Nothing
    ));
    assert!(matches!(
        proxy.available_blocks(&global, &mut waiting, CallEvent::Signed { signature: "s" }),
        CallAction::Nothing
    ));
    assert_eq!(waiting.phase, Phase::Waiting);
    let mut done = call(0, 0, Phase::Done);
    assert!(matches!(
        proxy.available_blocks(&global, &mut done, CallEvent::Tick { elapsed: 0 }),
        CallAction::Nothing
    ));
    assert!(matches!(
        proxy.available_blocks(&global, &mut done, CallEvent::ReplyTimedOut { elapsed: MAX_WAIT }),
        CallAction::Nothing
    ));
    assert_eq!(done.phase, Phase::Done);
}

#[test]
fn a_block_is_claimed_by_hash_and_view() {
    let proxy = proxy();
    let mut global = registry(None);
    let block = BuildBlockInfo {
        builder_hash: hash(5),
        block_size: 3,
        offered_fee: 9,
        block_payload: vec![1, 2, 3],
        metadata: 4,
    };
    global.update_global_state(block, vid(0), 2, offer(5, 3, 9));
    let claimed = proxy.claim_block(&global, &hash(5), 2, true).unwrap();
    assert_eq!(claimed.block_payload, vec![1, 2, 3]);
    assert_eq!(claimed.metadata, 4);
    assert_eq!(claimed.offered_fee, 9);
    assert_eq!(
        proxy.claim_block(&global, &hash(5), 3, true).err(),
        Some(BuildError::BlockNotFound)
    );
    assert_eq!(
        proxy.claim_block(&global, &hash(6), 2, true).err(),
        Some(BuildError::BlockNotFound)
    );
    assert_eq!(
        proxy.claim_block(&global, &hash(5), 2, false).err(),
        Some(BuildError::InvalidSignature)
    );
}

#[test]
fn submitted_transactions_are_filtered_and_stamped() {
    let proxy = proxy();
    let global = registry(Some(2));
    let txns = vec![
        Tx { namespace: 2, tag: 1 },
        Tx { namespace: 3, tag: 2 },
        Tx { namespace: 2, tag: 3 },
    ];
    let now = Instant::now();
    let (received, commitments) = proxy.submit_txns(&global, txns, now);
    assert_eq!(
        commitments,
        vec![TxCommitment::from_bytes([1; 32]), TxCommitment::from_bytes([3; 32])]
    );
    assert_eq!(received.len(), 2);
    assert_eq!(received[0].tx, Tx { namespace: 2, tag: 1 });
    assert_eq!(received[1].tx, Tx { namespace: 2, tag: 3 });
    for tx in received.iter() {
        assert_eq!(tx.commit, tx.tx.commit());
        assert_eq!(tx.source, TransactionSource::External);
        assert_eq!(tx.time_in, now);
    }
    let _ = RequestMessage { requested_vid_commitment: vid(0), requested_view_number: 0 };
}
