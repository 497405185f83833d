//! What holds of the registry across its operations.

use vstd::prelude::*;
use async_broadcast::Sender;
use crate::builder_state::ResponseMessage;
use std::sync::Arc;
use crate::service::{BlockInfo, ReceivedTransaction, Registry};
use crate::types::BuilderTypes;
use crate::view_map::{BlockId, BuilderStateId, ViewKey};

verus! {

/// A fresh registry keeps every live state at or above the watermark exactly
/// when the bootstrap state itself starts there.
pub proof fn lemma_bootstrap_above_watermark<TYPES: BuilderTypes>(
    id: BuilderStateId,
    sender: Sender<TYPES::Message>,
    last_gc_view: u64,
    namespace_id: Option<u64>,
    tx_sender: Sender<Arc<ReceivedTransaction<TYPES>>>,
)
    ensures
        ({
            let fresh = Registry::<TYPES>::bootstrap(
                id,
                sender,
                last_gc_view,
                namespace_id,
                tx_sender,
            );
            &&& fresh.above_watermark() <==> id.view >= last_gc_view
            &&& fresh.highest_is_live()
            &&& fresh.offers_are_claimable()
        }),
{
    let r = Registry::<TYPES>::bootstrap(id, sender, last_gc_view, namespace_id, tx_sender);
    assert(r.states.contains_key(id));
}

/// Registering a state keeps every live state at or above the watermark.
pub proof fn lemma_register_keeps_watermark<TYPES: BuilderTypes>(
    r: Registry<TYPES>,
    id: BuilderStateId,
    sender: Sender<TYPES::Message>,
)
    requires
        r.above_watermark(),
    ensures
        r.register(id, sender).above_watermark(),
{
}

/// A state whose view the watermark has reached is not taken in: the
/// registration leaves the registry as it was. A state above the watermark
/// is registered under its parent and view.
pub proof fn lemma_register_respects_watermark<TYPES: BuilderTypes>(
    r: Registry<TYPES>,
    id: BuilderStateId,
    sender: Sender<TYPES::Message>,
)
    ensures
        id.view <= r.last_gc_view ==> r.register(id, sender) == r,
        id.view > r.last_gc_view ==> r.register(id, sender).states.contains_key(id) && r.register(
            id,
            sender,
        ).states[id] == sender,
        r.register(id, sender).last_gc_view == r.last_gc_view,
{
}

/// Recording a build keeps every live state at or above the watermark.
pub proof fn lemma_record_keeps_watermark<TYPES: BuilderTypes>(
    r: Registry<TYPES>,
    block: BlockId,
    info: BlockInfo<TYPES>,
    anchor: BuilderStateId,
    response: ResponseMessage,
)
    requires
        r.above_watermark(),
    ensures
        r.record_built(block, info, anchor, response).above_watermark(),
{
}

/// After a decide, every live state sits at or above the new watermark,
/// whatever the registry held before.
pub proof fn lemma_collect_restores_watermark<TYPES: BuilderTypes>(
    r: Registry<TYPES>,
    decide_view: u64,
)
    ensures
        r.collect(decide_view).above_watermark(),
{
    let after = r.collect(decide_view);
    assert forall|k: BuilderStateId| #[trigger] after.states.contains_key(k) implies k.view
        >= after.last_gc_view by {
        assert(k.key_view() >= r.cutoff(decide_view));
    }
}

/// A decide removes exactly the states below the cutoff: none of them is
/// registered afterwards, and every state at or above the cutoff stays
/// registered with the channel it had.
pub proof fn lemma_collect_removes_below_cutoff<TYPES: BuilderTypes>(
    r: Registry<TYPES>,
    decide_view: u64,
    id: BuilderStateId,
)
    ensures
        id.view < r.cutoff(decide_view) ==> !r.collect(decide_view).states.contains_key(id),
        id.view >= r.cutoff(decide_view) ==> (r.collect(decide_view).states.contains_key(id)
            <==> r.states.contains_key(id)),
        r.collect(decide_view).states.contains_key(id) ==> r.collect(decide_view).states[id]
            == r.states[id],
{
    assert(id.key_view() == id.view);
}

/// The highest view never goes down: not by a registration, not by a
/// recorded build, not by a decide.
pub proof fn lemma_highest_view_never_decreases<TYPES: BuilderTypes>(
    r: Registry<TYPES>,
    id: BuilderStateId,
    sender: Sender<TYPES::Message>,
    block: BlockId,
    info: BlockInfo<TYPES>,
    response: ResponseMessage,
    decide_view: u64,
)
    ensures
        r.register(id, sender).highest.view >= r.highest.view,
        r.record_built(block, info, id, response).highest.view == r.highest.view,
        r.collect(decide_view).highest.view == r.highest.view,
{
}

/// Once the state with the highest view is registered it stays registered.
/// A request is then routed to the state it asks for or else to that state,
/// and to no other.
pub proof fn lemma_highest_stays_live<TYPES: BuilderTypes>(
    r: Registry<TYPES>,
    id: BuilderStateId,
    sender: Sender<TYPES::Message>,
    block: BlockId,
    info: BlockInfo<TYPES>,
    response: ResponseMessage,
    decide_view: u64,
    asked: BuilderStateId,
)
    requires
        r.highest_is_live(),
    ensures
        r.register(id, sender).highest_is_live(),
        r.record_built(block, info, id, response).highest_is_live(),
        r.collect(decide_view).highest_is_live(),
        !r.is_empty(),
        forall|target: BuilderStateId|
            r.routes_to(asked, target) <==> target == (if r.states.contains_key(asked) {
                asked
            } else {
                r.highest
            }),
{
    assert(!(r.states =~= Map::empty()));
    assert(r.highest.key_view() >= r.cutoff(decide_view));
}

/// A block, once built, stays as it is until a sweep: neither a
/// registration nor a recorded build nor a decide removes or replaces it.
pub proof fn lemma_built_blocks_stay<TYPES: BuilderTypes>(
    r: Registry<TYPES>,
    kept: BlockId,
    id: BuilderStateId,
    sender: Sender<TYPES::Message>,
    block: BlockId,
    info: BlockInfo<TYPES>,
    response: ResponseMessage,
    decide_view: u64,
)
    requires
        r.built.contains_key(kept),
    ensures
        r.register(id, sender).built.contains_key(kept),
        r.register(id, sender).built[kept] == r.built[kept],
        r.record_built(block, info, id, response).built.contains_key(kept),
        r.record_built(block, info, id, response).built[kept] == r.built[kept],
        r.collect(decide_view).built.contains_key(kept),
        r.collect(decide_view).built[kept] == r.built[kept],
{
}

/// A sweep removes exactly the blocks and offers of views below the
/// watermark; what it keeps, it keeps as it was, and it leaves the live
/// states alone.
pub proof fn lemma_sweep_removes_below_watermark<TYPES: BuilderTypes>(
    r: Registry<TYPES>,
    block: BlockId,
    id: BuilderStateId,
)
    ensures
        r.sweep().built.contains_key(block) <==> r.built.contains_key(block) && block.view
            >= r.last_gc_view,
        r.sweep().built.contains_key(block) ==> r.sweep().built[block] == r.built[block],
        r.sweep().last_built.contains_key(id) <==> r.last_built.contains_key(id) && id.view
            >= r.last_gc_view,
        r.sweep().last_built.contains_key(id) ==> r.sweep().last_built[id] == r.last_built[id],
        r.sweep().states == r.states,
        r.sweep().highest == r.highest,
        r.sweep().last_gc_view == r.last_gc_view,
{
    assert(block.key_view() == block.view);
    assert(id.key_view() == id.view);
}

/// Every offer that the registry caches can be claimed at the view of the
/// state that made it, as long as each build is recorded together with the
/// offer that names it.
pub proof fn lemma_offers_stay_claimable<TYPES: BuilderTypes>(
    r: Registry<TYPES>,
    id: BuilderStateId,
    sender: Sender<TYPES::Message>,
    info: BlockInfo<TYPES>,
    response: ResponseMessage,
    decide_view: u64,
)
    requires
        r.offers_are_claimable(),
    ensures
        r.register(id, sender).offers_are_claimable(),
        r.record_built(
            BlockId { hash: response.builder_hash, view: id.view },
            info,
            id,
            response,
        ).offers_are_claimable(),
        r.collect(decide_view).offers_are_claimable(),
        r.sweep().offers_are_claimable(),
{
    assert forall|k: BuilderStateId| #[trigger] r.sweep().last_built.contains_key(k) implies r.sweep().built.contains_key(
        BlockId { hash: r.sweep().last_built[k].builder_hash, view: k.view },
    ) by {
        assert(k.key_view() == k.view);
        assert(r.last_built.contains_key(k));
        assert((BlockId { hash: r.last_built[k].builder_hash, view: k.view }).key_view() == k.view);
    }
    let block = BlockId { hash: response.builder_hash, view: id.view };
    let after = r.record_built(block, info, id, response);
    assert forall|k: BuilderStateId| #[trigger] after.last_built.contains_key(k) implies after.built.contains_key(
        BlockId { hash: after.last_built[k].builder_hash, view: k.view },
    ) by {
        if k != id {
            assert(r.last_built.contains_key(k));
        }
    }
}

} // verus!
