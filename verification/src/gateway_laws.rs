//! What holds of a call for available blocks, step after step.

use vstd::prelude::*;
use crate::builder_state::ResponseMessage;
use crate::error::BuildError;
use crate::gateway::{
    admission, already_decided, asked_for, matching_window, step, AvailableBlocksCall, CallEvent,
    Decision, Phase,
};
use crate::commitment::VidCommitment;
use crate::service::{BlockInfo, Registry};
use crate::types::BuilderTypes;
use crate::view_map::{BlockId, BuilderStateId};

verus! {

/// How far a phase is along the way of a call.
pub open spec fn rank(phase: Phase) -> nat {
    match phase {
        Phase::Matching => 0,
        Phase::Waiting => 1,
        Phase::Signing => 2,
        Phase::Done => 3,
    }
}

/// A call begins exactly when the signature validated and the view was not
/// decided already, and it begins by looking for the builder state that was
/// asked for. A bad signature is reported before anything else.
pub proof fn lemma_admission<TYPES: BuilderTypes>(
    registry: Registry<TYPES>,
    parent: VidCommitment,
    view: u64,
    signature_valid: bool,
)
    ensures
        admission(registry, parent, view, signature_valid) is Ok <==> signature_valid
            && !already_decided(registry, view),
        admission(registry, parent, view, signature_valid) == Err::<
            AvailableBlocksCall,
            BuildError,
        >(BuildError::InvalidSignature) <==> !signature_valid,
        admission(registry, parent, view, signature_valid) == Err::<
            AvailableBlocksCall,
            BuildError,
        >(BuildError::ViewAlreadyDecided) <==> signature_valid && already_decided(registry, view),
        admission(registry, parent, view, signature_valid) matches Ok(call) ==> call.phase
            == Phase::Matching && call.key == (BuilderStateId { parent_commitment: parent, view }),
{
}

/// A call never goes back: no step takes it to an earlier phase, and no
/// step changes the parent and view that were asked for.
pub proof fn lemma_call_moves_forward<TYPES: BuilderTypes>(
    max_wait: u64,
    registry: Registry<TYPES>,
    call: AvailableBlocksCall,
    event: CallEvent<TYPES>,
)
    ensures
        rank(step(max_wait, registry, call, event).0.phase) >= rank(call.phase),
        step(max_wait, registry, call, event).0.key == call.key,
{
}

/// The request of a call is sent once: only a call that is still looking
/// for its builder state sends, and having sent it looks no more.
pub proof fn lemma_request_is_sent_once<TYPES: BuilderTypes>(
    max_wait: u64,
    registry: Registry<TYPES>,
    call: AvailableBlocksCall,
    event: CallEvent<TYPES>,
)
    requires
        step(max_wait, registry, call, event).1 is Send,
    ensures
        call.phase == Phase::Matching,
        step(max_wait, registry, call, event).0.phase == Phase::Waiting,
{
}

/// While the first half of the waiting time lasts, the request is sent
/// only if the builder state that was asked for is registered, and the
/// gateway sleeps otherwise. Afterwards the request is sent whenever any
/// state is registered, and the call fails only on an empty registry.
pub proof fn lemma_request_is_routed<TYPES: BuilderTypes>(
    max_wait: u64,
    registry: Registry<TYPES>,
    call: AvailableBlocksCall,
    elapsed: u64,
)
    requires
        call.phase == Phase::Matching,
    ensures
        ({
            let decision = step(max_wait, registry, call, CallEvent::<TYPES>::Tick { elapsed }).1;
            &&& registry.states.contains_key(call.key) ==> decision is Send
            &&& elapsed < matching_window(max_wait) ==> (decision is Send
                <==> registry.states.contains_key(call.key))
            &&& elapsed < matching_window(max_wait) ==> (decision is Sleep
                <==> !registry.states.contains_key(call.key))
            &&& elapsed >= matching_window(max_wait) ==> (decision is Send
                <==> !registry.is_empty())
            &&& decision is Fail <==> elapsed >= matching_window(max_wait) && registry.is_empty()
            &&& decision matches Decision::Send { request, .. } ==> asked_for(request) == call.key
        }),
{
    if registry.states.contains_key(call.key) {
        assert(!(registry.states =~= Map::empty()));
    }
}

/// A request goes to the builder state that it asks for where that state
/// is registered, and else to the state with the highest view where that
/// one is. Only a registry that holds neither sends it elsewhere, and then
/// to a state that no registered state is later than.
pub proof fn lemma_route_prefers_the_exact_state<TYPES: BuilderTypes>(
    registry: Registry<TYPES>,
    id: BuilderStateId,
    target: BuilderStateId,
)
    requires
        registry.routes_to(id, target),
    ensures
        registry.states.contains_key(id) ==> target == id,
        !registry.states.contains_key(id) && registry.highest_is_live() ==> target
            == registry.highest,
        !registry.states.contains_key(id) && !registry.highest_is_live() ==> registry.is_latest(
            target,
        ),
{
}

/// Once the whole waiting time has passed, a wait that ends without a reply
/// ends the waiting: the call goes on with the last offer of the builder
/// state that was asked for, or fails for want of a block.
pub proof fn lemma_waiting_ends<TYPES: BuilderTypes>(
    max_wait: u64,
    registry: Registry<TYPES>,
    call: AvailableBlocksCall,
    elapsed: u64,
)
    requires
        call.phase == Phase::Waiting,
        elapsed >= max_wait,
    ensures
        ({
            let (next, decision) = step(
                max_wait,
                registry,
                call,
                CallEvent::<TYPES>::ReplyTimedOut { elapsed },
            );
            if registry.last_built.contains_key(call.key) {
                &&& next.phase == Phase::Signing
                &&& next.offer == Some(registry.last_built[call.key])
            } else {
                &&& next.phase == Phase::Done
                &&& decision == Decision::<TYPES>::Fail { error: BuildError::NoBlocksAvailable }
            }
        }),
{
}

/// What is returned is what was signed: when a step asks for a signature
/// over size, fee and hash, and the signature comes, the one offer that the
/// call returns carries that size, that fee, that hash and that signature.
pub proof fn lemma_returned_offer_is_signed_offer<TYPES: BuilderTypes>(
    max_wait: u64,
    registry: Registry<TYPES>,
    later: Registry<TYPES>,
    call: AvailableBlocksCall,
    event: CallEvent<TYPES>,
    signature: TYPES::BuilderSignature,
)
    requires
        step(max_wait, registry, call, event).1 is Sign,
    ensures
        ({
            let (signing, asked) = step(max_wait, registry, call, event);
            let (end, answer) = step(
                max_wait,
                later,
                signing,
                CallEvent::<TYPES>::Signed { signature },
            );
            &&& end.phase == Phase::Done
            &&& answer matches Decision::Return { offer, signature: s }
            &&& s == signature
            &&& asked matches Decision::Sign { block_size, offered_fee, builder_hash }
            &&& offer.block_size == block_size
            &&& offer.offered_fee == offered_fee
            &&& offer.builder_hash == builder_hash
        }),
{
}

/// An offer that is served from the registry after the waiting time can be
/// claimed: in a registry whose cached offers are claimable, the block that
/// the offer names is stored under the view that was asked for.
pub proof fn lemma_cached_offer_is_claimable<TYPES: BuilderTypes>(
    max_wait: u64,
    registry: Registry<TYPES>,
    call: AvailableBlocksCall,
    elapsed: u64,
)
    requires
        registry.offers_are_claimable(),
        call.phase == Phase::Waiting,
        step(max_wait, registry, call, CallEvent::<TYPES>::ReplyTimedOut { elapsed }).1 is Sign,
    ensures
        step(
            max_wait,
            registry,
            call,
            CallEvent::<TYPES>::ReplyTimedOut { elapsed },
        ).1 matches Decision::Sign { builder_hash, .. } && registry.built.contains_key(
            BlockId { hash: builder_hash, view: call.key.view },
        ),
{
}

/// A block that a builder state recorded with its offer can be claimed
/// under the hash of the offer and the view of the state, whatever the
/// registry held before.
pub proof fn lemma_recorded_block_is_claimable<TYPES: BuilderTypes>(
    registry: Registry<TYPES>,
    info: BlockInfo<TYPES>,
    anchor: BuilderStateId,
    response: ResponseMessage,
)
    ensures
        registry.record_built(
            BlockId { hash: response.builder_hash, view: anchor.view },
            info,
            anchor,
            response,
        ).built.contains_key(BlockId { hash: response.builder_hash, view: anchor.view }),
        registry.record_built(
            BlockId { hash: response.builder_hash, view: anchor.view },
            info,
            anchor,
            response,
        ).last_built[anchor] == response,
{
}

} // verus!
