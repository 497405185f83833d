//! The gateway between consensus and the builder states.
//!
//! A call for available blocks is a short conversation: the gateway looks for
//! the builder state that the request names, hands the request to it or to
//! the state with the highest view, waits for the reply, and signs it. The
//! gateway decides each step; its caller sleeps, sends, waits and signs, and
//! reports back what happened.

use vstd::prelude::*;
use std::sync::Arc;
use async_broadcast::Sender;
use async_lock::RwLock;
use std::time::Instant;
use crate::builder_state::{RequestMessage, ResponseMessage, SharedTransaction, TransactionSource};
use crate::commitment::{BuilderCommitment, TxCommitment, VidCommitment};
use crate::events::{commitments, stamped, taken};
use crate::error::BuildError;
use crate::service::{BlockInfo, GlobalState, Registry};
use crate::types::BuilderTypes;
use crate::view_map::{BlockId, BuilderStateId};

verus! {

/// `async_lock::RwLock`, the lock that guards the registry. The gateway
/// carries it; taking the lock is left to the caller.
#[verifier::external_type_specification]
#[verifier::external_body]
#[verifier::reject_recursive_types(T)]
pub struct ExRwLock<T: ?Sized>(RwLock<T>);

/// The longest time a call may take unless the deployment says otherwise:
/// a tenth of a second, in nanoseconds.
pub const DEFAULT_MAX_API_WAITING_TIME: u64 = 100_000_000;

/// How far a call for available blocks has come.
#[derive(Clone, Copy, Debug, PartialEq, Eq, Structural)]
pub enum Phase {
    /// Looking for the builder state that the request names.
    Matching,
    /// The request is with a builder state; its reply is awaited.
    Waiting,
    /// There is an offer; its signature is awaited.
    Signing,
    /// The call has ended.
    Done,
}

/// One call for available blocks.
#[derive(Clone, Copy, Debug)]
pub struct AvailableBlocksCall {
    /// The parent and view that the caller asked for.
    pub key: BuilderStateId,
    pub phase: Phase,
    /// The offer to sign, once there is one.
    pub offer: Option<ResponseMessage>,
}

/// What the caller of the gateway reports.
pub enum CallEvent<TYPES: BuilderTypes> {
    /// The call starts, or a sleep has ended; `elapsed` nanoseconds have
    /// passed since the call began.
    Tick { elapsed: u64 },
    /// A builder state replied.
    Reply { response: ResponseMessage },
    /// The reply channel was closed.
    ReplyClosed,
    /// No reply came within the wait; `elapsed` nanoseconds have passed
    /// since the call began.
    ReplyTimedOut { elapsed: u64 },
    /// The builder key signed the offer.
    Signed { signature: TYPES::BuilderSignature },
    /// The builder key could not sign the offer.
    SigningFailed,
}

/// An offer as it goes back to consensus.
pub struct AvailableBlockInfo<'a, TYPES: BuilderTypes> {
    pub block_hash: BuilderCommitment,
    pub block_size: u64,
    pub offered_fee: u64,
    /// Signature of the builder over size, fee and hash.
    pub signature: TYPES::BuilderSignature,
    /// The builder's public key.
    pub sender: &'a TYPES::BuilderSignatureKey,
}

/// What the caller of the gateway is to do next.
pub enum CallAction<'a, TYPES: BuilderTypes> {
    /// Sleep for `nanos` nanoseconds, then report a tick.
    Sleep { nanos: u64 },
    /// Send `request` on `channel`, then wait for the reply for up to `wait`
    /// nanoseconds.
    Send { channel: &'a Sender<TYPES::Message>, request: RequestMessage, wait: u64 },
    /// Wait for the reply for up to `nanos` nanoseconds more.
    Wait { nanos: u64 },
    /// Sign size, fee and hash of the offer with the builder key.
    Sign { block_size: u64, offered_fee: u64, builder_hash: BuilderCommitment },
    /// Return the offers to consensus: the call has succeeded.
    Return { offers: Vec<AvailableBlockInfo<'a, TYPES>> },
    /// Return the error to consensus: the call has failed.
    Fail { error: BuildError },
    /// The event does not belong to this phase of the call: do nothing.
    Nothing,
}

/// What the gateway decides. Where a request is to be sent, the registry
/// settles the builder state that it goes to.
pub enum Decision<TYPES: BuilderTypes> {
    Sleep { nanos: u64 },
    Send { request: RequestMessage, wait: u64 },
    Wait { nanos: u64 },
    Sign { block_size: u64, offered_fee: u64, builder_hash: BuilderCommitment },
    Return { offer: ResponseMessage, signature: TYPES::BuilderSignature },
    Fail { error: BuildError },
    Nothing,
}

/// The time between two looks at the registry, and the longest single wait
/// for a reply: a tenth of the whole waiting time.
pub open spec fn check_interval(max_wait: u64) -> u64 {
    max_wait / 10
}

/// The time after which the gateway stops looking for the exact builder
/// state: half of the whole waiting time.
pub open spec fn matching_window(max_wait: u64) -> u64 {
    max_wait / 2
}

/// Whether a request for `view` comes too late: the view lies below the
/// watermark, and the registry has moved on since it was bootstrapped.
pub open spec fn already_decided<TYPES: BuilderTypes>(registry: Registry<TYPES>, view: u64) -> bool {
    view < registry.last_gc_view && registry.highest.view != registry.last_gc_view
}

/// How a call for blocks on `parent` at `view` begins.
pub open spec fn admission<TYPES: BuilderTypes>(
    registry: Registry<TYPES>,
    parent: VidCommitment,
    view: u64,
    signature_valid: bool,
) -> Result<AvailableBlocksCall, BuildError> {
    if !signature_valid {
        Err(BuildError::InvalidSignature)
    } else if already_decided(registry, view) {
        Err(BuildError::ViewAlreadyDecided)
    } else {
        Ok(
            AvailableBlocksCall {
                key: BuilderStateId { parent_commitment: parent, view },
                phase: Phase::Matching,
                offer: None,
            },
        )
    }
}

/// The parent and view that a request asks for.
pub open spec fn asked_for(request: RequestMessage) -> BuilderStateId {
    BuilderStateId {
        parent_commitment: request.requested_vid_commitment,
        view: request.requested_view_number,
    }
}

/// The request that a call sends to a builder state.
pub open spec fn request_of(call: AvailableBlocksCall) -> RequestMessage {
    RequestMessage {
        requested_vid_commitment: call.key.parent_commitment,
        requested_view_number: call.key.view,
    }
}

/// The call and the decision once an offer is at hand.
pub open spec fn with_offer<TYPES: BuilderTypes>(
    call: AvailableBlocksCall,
    offer: ResponseMessage,
) -> (AvailableBlocksCall, Decision<TYPES>) {
    (
        AvailableBlocksCall { phase: Phase::Signing, offer: Some(offer), ..call },
        Decision::Sign {
            block_size: offer.block_size,
            offered_fee: offer.offered_fee,
            builder_hash: offer.builder_hash,
        },
    )
}

/// The call and the decision when the call fails.
pub open spec fn failed<TYPES: BuilderTypes>(call: AvailableBlocksCall, error: BuildError) -> (
    AvailableBlocksCall,
    Decision<TYPES>,
) {
    (AvailableBlocksCall { phase: Phase::Done, ..call }, Decision::Fail { error })
}

/// One step of a call for available blocks: the call as it goes on, and
/// what is to be done next.
pub open spec fn step<TYPES: BuilderTypes>(
    max_wait: u64,
    registry: Registry<TYPES>,
    call: AvailableBlocksCall,
    event: CallEvent<TYPES>,
) -> (AvailableBlocksCall, Decision<TYPES>) {
    match (call.phase, event) {
        (Phase::Matching, CallEvent::Tick { elapsed }) => {
            let early = elapsed < matching_window(max_wait);
            let sends = if early {
                registry.states.contains_key(call.key)
            } else {
                !registry.is_empty()
            };
            if sends {
                (
                    AvailableBlocksCall { phase: Phase::Waiting, ..call },
                    Decision::Send { request: request_of(call), wait: check_interval(max_wait) },
                )
            } else if early {
                (call, Decision::Sleep { nanos: check_interval(max_wait) })
            } else {
                failed(call, BuildError::NoBuilderState)
            }
        },
        (Phase::Waiting, CallEvent::Reply { response }) => with_offer(call, response),
        (Phase::Waiting, CallEvent::ReplyClosed) => failed(call, BuildError::ChannelClosed),
        (Phase::Waiting, CallEvent::ReplyTimedOut { elapsed }) => {
            if elapsed < max_wait {
                (call, Decision::Wait { nanos: check_interval(max_wait) })
            } else if registry.last_built.contains_key(call.key) {
                with_offer(call, registry.last_built[call.key])
            } else {
                failed(call, BuildError::NoBlocksAvailable)
            }
        },
        (Phase::Signing, CallEvent::Signed { signature }) => match call.offer {
            Some(offer) => (
                AvailableBlocksCall { phase: Phase::Done, ..call },
                Decision::Return { offer, signature },
            ),
            None => failed(call, BuildError::SigningFailed),
        },
        (Phase::Signing, CallEvent::SigningFailed) => failed(call, BuildError::SigningFailed),
        _ => (call, Decision::Nothing),
    }
}

/// Whether `channel` leads into a builder state that the registry routes
/// `request` to.
pub open spec fn reaches<TYPES: BuilderTypes>(
    registry: Registry<TYPES>,
    request: RequestMessage,
    channel: Sender<TYPES::Message>,
) -> bool {
    exists|target: BuilderStateId|
        {
            &&& #[trigger] registry.routes_to(asked_for(request), target)
            &&& registry.states.contains_key(target)
            &&& channel == registry.states[target]
        }
}

/// Whether `action` carries out `decision`: the same step, with the channel
/// of a builder state that the registry routes the request to, and with the
/// builder's own key on the one offer that is returned.
pub open spec fn carries_out<TYPES: BuilderTypes>(
    action: CallAction<TYPES>,
    decision: Decision<TYPES>,
    registry: Registry<TYPES>,
    builder_key: TYPES::BuilderSignatureKey,
) -> bool {
    match decision {
        Decision::Sleep { nanos } => action matches CallAction::Sleep { nanos: n } && n == nanos,
        Decision::Send { request, wait } => {
            &&& action matches CallAction::Send { channel, request: r, wait: w }
            &&& reaches(registry, request, *channel)
            &&& r == request
            &&& w == wait
        },
        Decision::Wait { nanos } => action matches CallAction::Wait { nanos: n } && n == nanos,
        Decision::Sign { block_size, offered_fee, builder_hash } => {
            &&& action matches CallAction::Sign { block_size: s, offered_fee: f, builder_hash: h }
            &&& s == block_size
            &&& f == offered_fee
            &&& h == builder_hash
        },
        Decision::Return { offer, signature } => {
            &&& action matches CallAction::Return { offers }
            &&& offers@.len() == 1
            &&& offers@[0].block_hash == offer.builder_hash
            &&& offers@[0].block_size == offer.block_size
            &&& offers@[0].offered_fee == offer.offered_fee
            &&& offers@[0].signature == signature
            &&& *offers@[0].sender == builder_key
        },
        Decision::Fail { error } => action matches CallAction::Fail { error: e } && e == error,
        Decision::Nothing => action is Nothing,
    }
}

/// The gateway: the registry behind its lock, the builder's keys, and the
/// longest time a call may take.
#[verifier::reject_recursive_types(TYPES)]
pub struct ProxyGlobalState<TYPES: BuilderTypes> {
    global_state: Arc<RwLock<GlobalState<TYPES>>>,
    builder_keys: (TYPES::BuilderSignatureKey, TYPES::BuilderPrivateKey),
    max_api_waiting_time: u64,
}

impl<TYPES: BuilderTypes> ProxyGlobalState<TYPES> {
    /// The registry behind its lock.
    pub closed spec fn shared_state(&self) -> Arc<RwLock<GlobalState<TYPES>>> {
        self.global_state
    }

    /// The builder's public key.
    pub closed spec fn public_key(&self) -> TYPES::BuilderSignatureKey {
        self.builder_keys.0
    }

    /// The builder's private key.
    pub closed spec fn private_key(&self) -> TYPES::BuilderPrivateKey {
        self.builder_keys.1
    }

    /// The longest time a call may take, in nanoseconds.
    pub closed spec fn max_wait(&self) -> u64 {
        self.max_api_waiting_time
    }

    /// A gateway in front of `global_state` that answers within
    /// `max_api_waiting_time` nanoseconds.
    pub fn new(
        global_state: Arc<RwLock<GlobalState<TYPES>>>,
        builder_keys: (TYPES::BuilderSignatureKey, TYPES::BuilderPrivateKey),
        max_api_waiting_time: u64,
    ) -> (proxy: Self)
        ensures
            proxy.shared_state() == global_state,
            proxy.public_key() == builder_keys.0,
            proxy.private_key() == builder_keys.1,
            proxy.max_wait() == max_api_waiting_time,
    {
        ProxyGlobalState { global_state, builder_keys, max_api_waiting_time }
    }

    /// The registry behind its lock.
    pub fn global_state(&self) -> (shared: &Arc<RwLock<GlobalState<TYPES>>>)
        ensures
            *shared == self.shared_state(),
    {
        &self.global_state
    }

    /// The builder's public key.
    pub fn builder_address(&self) -> (key: &TYPES::BuilderSignatureKey)
        ensures
            *key == self.public_key(),
    {
        &self.builder_keys.0
    }

    /// The key with which the caller signs what the gateway asks to sign.
    pub fn signing_key(&self) -> (key: &TYPES::BuilderPrivateKey)
        ensures
            *key == self.private_key(),
    {
        &self.builder_keys.1
    }

    /// The longest time a call may take, in nanoseconds.
    pub fn max_api_waiting_time(&self) -> (nanos: u64)
        ensures
            nanos == self.max_wait(),
    {
        self.max_api_waiting_time
    }

    /// Begins a call for blocks on `for_parent` at `view_number`. The caller
    /// says whether the signature on the parent validated. A bad signature
    /// ends the call at once, and so does a view that was decided already.
    pub fn begin_available_blocks(
        &self,
        global: &GlobalState<TYPES>,
        for_parent: &VidCommitment,
        view_number: u64,
        signature_valid: bool,
    ) -> (call: Result<AvailableBlocksCall, BuildError>)
        ensures
            call == admission(global@, *for_parent, view_number, signature_valid),
    {
        if !signature_valid {
            return Err(BuildError::InvalidSignature);
        }
        if view_number < global.last_garbage_collected_view_num
            && global.highest_view_num_builder_id.view != global.last_garbage_collected_view_num {
            return Err(BuildError::ViewAlreadyDecided);
        }
        Ok(
            AvailableBlocksCall {
                key: BuilderStateId { parent_commitment: *for_parent, view: view_number },
                phase: Phase::Matching,
                offer: None,
            },
        )
    }

    /// Takes a call for available blocks one step further.
    ///
    /// During the first half of the waiting time the request goes only to
    /// the builder state it names; after that it goes to that state or else
    /// to the state with the highest view, and the call fails only if no
    /// state is registered at all. Once the request is sent, the
    /// first reply is signed and returned. When the whole waiting time has
    /// passed without a reply, the last offer of the named state is signed
    /// and returned if there is one, and the call fails otherwise.
    pub fn available_blocks<'a>(
        &'a self,
        global: &'a GlobalState<TYPES>,
        call: &mut AvailableBlocksCall,
        event: CallEvent<TYPES>,
    ) -> (action: CallAction<'a, TYPES>)
        ensures
            *final(call) == step(self.max_wait(), global@, *old(call), event).0,
            carries_out(
                action,
                step(self.max_wait(), global@, *old(call), event).1,
                global@,
                self.public_key(),
            ),
    {
        let interval = self.max_api_waiting_time / 10;
        match (call.phase, event) {
            (Phase::Matching, CallEvent::Tick { elapsed }) => {
                let found = if elapsed < self.max_api_waiting_time / 2 {
                    match global.spawned_builder_states.get(&call.key) {
                        Some(channel) => {
                            assert(global@.routes_to(call.key, call.key));
                            Ok(channel)
                        },
                        None => {
                            return CallAction::Sleep { nanos: interval };
                        },
                    }
                } else {
                    global.get_channel_for_matching_builder_or_highest_view_buider(&call.key)
                };
                match found {
                    Ok(channel) => {
                        let request = RequestMessage {
                            requested_vid_commitment: call.key.parent_commitment,
                            requested_view_number: call.key.view,
                        };
                        proof {
                            assert(asked_for(request) == call.key);
                            let target = choose|target: BuilderStateId|
                                {
                                    &&& #[trigger] global@.routes_to(call.key, target)
                                    &&& global@.states.contains_key(target)
                                    &&& *channel == global@.states[target]
                                };
                            assert(global@.routes_to(asked_for(request), target));
                            assert(reaches(global@, request, *channel));
                        }
                        call.phase = Phase::Waiting;
                        CallAction::Send { channel, request, wait: interval }
                    },
                    Err(error) => {
                        call.phase = Phase::Done;
                        CallAction::Fail { error }
                    },
                }
            },
            (Phase::Waiting, CallEvent::Reply { response }) => Self::sign_offer(call, response),
            (Phase::Waiting, CallEvent::ReplyClosed) => {
                call.phase = Phase::Done;
                CallAction::Fail { error: BuildError::ChannelClosed }
            },
            (Phase::Waiting, CallEvent::ReplyTimedOut { elapsed }) => {
                if elapsed < self.max_api_waiting_time {
                    CallAction::Wait { nanos: interval }
                } else {
                    match global.builder_state_to_last_built_block.get(&call.key) {
                        Some(offer) => Self::sign_offer(call, *offer),
                        None => {
                            call.phase = Phase::Done;
                            CallAction::Fail { error: BuildError::NoBlocksAvailable }
                        },
                    }
                }
            },
            (Phase::Signing, CallEvent::Signed { signature }) => {
                call.phase = Phase::Done;
                match call.offer {
                    Some(offer) => {
                        let mut offers = Vec::new();
                        offers.push(
                            AvailableBlockInfo {
                                block_hash: offer.builder_hash,
                                block_size: offer.block_size,
                                offered_fee: offer.offered_fee,
                                signature,
                                sender: &self.builder_keys.0,
                            },
                        );
                        CallAction::Return { offers }
                    },
                    None => CallAction::Fail { error: BuildError::SigningFailed },
                }
            },
            (Phase::Signing, CallEvent::SigningFailed) => {
                call.phase = Phase::Done;
                CallAction::Fail { error: BuildError::SigningFailed }
            },
            _ => CallAction::Nothing,
        }
    }

    /// Keeps the offer in the call and asks for its signature.
    fn sign_offer<'a>(call: &mut AvailableBlocksCall, offer: ResponseMessage) -> (action:
        CallAction<'a, TYPES>)
        ensures
            *final(call) == with_offer::<TYPES>(*old(call), offer).0,
            action matches CallAction::Sign { block_size, offered_fee, builder_hash }
                && block_size == offer.block_size && offered_fee == offer.offered_fee
                && builder_hash == offer.builder_hash,
    {
        call.phase = Phase::Signing;
        call.offer = Some(offer);
        CallAction::Sign {
            block_size: offer.block_size,
            offered_fee: offer.offered_fee,
            builder_hash: offer.builder_hash,
        }
    }

    /// Looks up the block that consensus claims. The caller says whether
    /// the signature on the block hash validated. The claim succeeds exactly
    /// when it did and a block is stored under the hash and the view.
    pub fn claim_block<'a>(
        &self,
        global: &'a GlobalState<TYPES>,
        block_hash: &BuilderCommitment,
        view_number: u64,
        signature_valid: bool,
    ) -> (block: Result<&'a BlockInfo<TYPES>, BuildError>)
        ensures
            match block {
                Ok(info) => {
                    &&& signature_valid
                    &&& global@.built.contains_key(BlockId { hash: *block_hash, view: view_number })
                    &&& *info == global@.built[BlockId { hash: *block_hash, view: view_number }]
                },
                Err(error) => if signature_valid {
                    &&& error == BuildError::BlockNotFound
                    &&& !global@.built.contains_key(
                        BlockId { hash: *block_hash, view: view_number },
                    )
                } else {
                    error == BuildError::InvalidSignature
                },
            },
    {
        if !signature_valid {
            return Err(BuildError::InvalidSignature);
        }
        match global.block_hash_to_block.get(&BlockId { hash: *block_hash, view: view_number }) {
            Some(info) => Ok(info),
            None => Err(BuildError::BlockNotFound),
        }
    }

    /// Takes in transactions that a client submitted. Those of other
    /// namespaces are dropped; the others are stamped as coming from a
    /// client at `time_in`. What is returned first goes out to the builder
    /// states; the commitments of the same transactions go back to the
    /// client.
    pub fn submit_txns(
        &self,
        global: &GlobalState<TYPES>,
        txns: Vec<TYPES::Transaction>,
        time_in: Instant,
    ) -> (out: (Vec<SharedTransaction<TYPES>>, Vec<TxCommitment>))
        ensures
            out.0@.len() == taken(txns@, global.namespace_id).len(),
            forall|i: int|
                0 <= i < out.0@.len() ==> *#[trigger] out.0@[i] == stamped::<TYPES>(
                    taken(txns@, global.namespace_id)[i],
                    TransactionSource::External,
                    time_in,
                ),
            out.1@ == commitments(taken(txns@, global.namespace_id)),
    {
        global.submit_client_txns(txns, time_in)
    }
}

} // verus!
