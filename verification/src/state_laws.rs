//! What holds of a builder state across the events it handles.

use vstd::prelude::*;
use crate::builder_state::{
    commits_of, is_fitting_len, lemma_total_size_step, total_size, window_end,
    DaProposalInfo, QuorumProposalInfo, RequestMessage, SharedTransaction, StateModel, Status,
    ALLOW_EMPTY_BLOCK_PERIOD,
};
use async_broadcast::Sender;
use crate::builder_state::ResponseMessage;
use crate::gateway::asked_for;
use crate::service::{BlockInfo, Registry};
use crate::view_map::BlockId;
use crate::types::{BuilderTransaction, BuilderTypes};
use crate::view_map::BuilderStateId;

verus! {

/// A fresh state has no two pending transactions with the same commitment,
/// and it answers no request: with nothing pending and no window open there
/// is nothing to offer.
pub proof fn lemma_fresh_state_refuses<TYPES: BuilderTypes>(
    anchor: BuilderStateId,
    max_block_size: u64,
    request: RequestMessage,
)
    ensures
        StateModel::<TYPES>::initial(anchor, max_block_size).well_formed(),
        !StateModel::<TYPES>::initial(anchor, max_block_size).answers(request),
{
    reveal(Seq::filter);
    let fresh = StateModel::<TYPES>::initial(anchor, max_block_size);
    assert(fresh.pending(request.requested_view_number) =~= Seq::empty());
}

/// Taking a transaction in keeps the commitments of the pending
/// transactions distinct.
pub proof fn lemma_receive_keeps_well_formed<TYPES: BuilderTypes>(
    state: StateModel<TYPES>,
    tx: SharedTransaction<TYPES>,
)
    requires
        state.well_formed(),
    ensures
        state.receive(tx).well_formed(),
{
    if state.takes(tx) {
        let before = commits_of(state.mempool);
        let after = commits_of(state.receive(tx).mempool);
        assert(after =~= before.push(tx.commit));
        assert forall|a: int, b: int|
            0 <= a < after.len() && 0 <= b < after.len() && a != b implies after[a]
            != after[b] by {
            if a < before.len() {
                assert(before[a] == after[a]);
            }
            if b < before.len() {
                assert(before[b] == after[b]);
            }
        }
    }
}

/// After a non-empty block was built for `view`, every request that the
/// state accepts for a view up to `view` plus the allowed period is
/// answered, with an empty block if need be. The same holds of every state
/// that carries the same window, such as a successor.
pub proof fn lemma_nonempty_build_opens_window<TYPES: BuilderTypes>(
    state: StateModel<TYPES>,
    view: u64,
    included: nat,
    later: StateModel<TYPES>,
    request: RequestMessage,
)
    requires
        included > 0,
        later.allow_empty_block_until == state.after_build(view, included).allow_empty_block_until,
        later.accepts(request),
        request.requested_view_number <= view + ALLOW_EMPTY_BLOCK_PERIOD,
    ensures
        later.answers(request),
{
    assert(later.window_open(request.requested_view_number));
}

/// A request for a view beyond the window finds no answer when nothing is
/// pending: not when no window was ever opened, and not when the window
/// opened by a non-empty block at `view` has passed.
pub proof fn lemma_no_answer_beyond_window<TYPES: BuilderTypes>(
    state: StateModel<TYPES>,
    view: u64,
    request: RequestMessage,
)
    requires
        state.pending(request.requested_view_number).len() == 0,
        state.allow_empty_block_until is None || (state.allow_empty_block_until == Some(
            window_end(view),
        ) && request.requested_view_number > view + ALLOW_EMPTY_BLOCK_PERIOD),
    ensures
        !state.answers(request),
{
}

/// An empty block leaves the window as it is.
pub proof fn lemma_empty_build_keeps_window<TYPES: BuilderTypes>(
    state: StateModel<TYPES>,
    view: u64,
)
    ensures
        state.after_build(view, 0) == state,
{
}

/// The window for empty blocks is changed by a build alone: transactions,
/// proposals and decides leave it as it is, and a successor starts with the
/// window of the state that spawned it.
pub proof fn lemma_window_is_carried<TYPES: BuilderTypes>(
    state: StateModel<TYPES>,
    tx: SharedTransaction<TYPES>,
    view: u64,
    da: DaProposalInfo,
    qc: QuorumProposalInfo,
)
    ensures
        state.receive(tx).allow_empty_block_until == state.allow_empty_block_until,
        state.with_da(view, da).allow_empty_block_until == state.allow_empty_block_until,
        state.with_qc(view, qc).allow_empty_block_until == state.allow_empty_block_until,
        state.after_proposals(view).0.allow_empty_block_until == state.allow_empty_block_until,
        state.child(view).allow_empty_block_until == state.allow_empty_block_until,
        state.after_decide(view).allow_empty_block_until == state.allow_empty_block_until,
{
}

/// A successor extends the block of the quorum proposal at the view of the
/// proposal, and starts active with no successor of its own.
pub proof fn lemma_child_extends_proposal<TYPES: BuilderTypes>(
    state: StateModel<TYPES>,
    view: u64,
)
    requires
        state.spawns(view),
    ensures
        state.child(view).anchor.parent_commitment == state.seen_qc[view].payload_commitment,
        state.child(view).anchor.view == state.anchor.view + 1,
        state.child(view).status == Status::Active,
        state.after_spawn(view).status == Status::ChildSpawned,
        state.after_spawn(view).anchor == state.anchor,
        state.after_spawn(view).mempool == state.mempool,
{
}

/// A state spawns the successor that a pair of proposals calls for once:
/// after the spawn the same pair calls for nothing more.
pub proof fn lemma_spawns_once<TYPES: BuilderTypes>(state: StateModel<TYPES>, view: u64)
    requires
        state.spawns(view),
    ensures
        !state.after_spawn(view).spawns(view),
{
    let after = state.after_spawn(view);
    assert(after.seen_qc.contains_key(view));
    assert(after.child_id(view) == state.child_id(view));
    assert(after.children[after.children.len() - 1] == state.child_id(view));
}

/// A state that has ended stays ended, takes nothing in, answers nothing
/// and spawns nothing.
pub proof fn lemma_terminated_is_final<TYPES: BuilderTypes>(
    state: StateModel<TYPES>,
    tx: SharedTransaction<TYPES>,
    view: u64,
    included: nat,
    da: DaProposalInfo,
    qc: QuorumProposalInfo,
    request: RequestMessage,
)
    requires
        state.terminated(),
    ensures
        state.receive(tx) == state,
        state.with_da(view, da) == state,
        state.with_qc(view, qc) == state,
        state.after_proposals(view) == (state, None::<StateModel<TYPES>>),
        state.after_decide(view).terminated(),
        state.after_build(view, included).terminated(),
        state.after_inputs_closed() == state,
        !state.accepts(request),
        !state.answers(request),
{
}

/// A state ends when all its inputs are closed, wherever it stood, and
/// keeps what it held.
pub proof fn lemma_closed_inputs_end_the_state<TYPES: BuilderTypes>(state: StateModel<TYPES>)
    ensures
        state.after_inputs_closed().terminated(),
        state.after_inputs_closed().anchor == state.anchor,
        state.after_inputs_closed().mempool == state.mempool,
        state.after_inputs_closed().allow_empty_block_until == state.allow_empty_block_until,
        state.well_formed() ==> state.after_inputs_closed().well_formed(),
{
}

/// A decide ends every state that it reaches. In particular it ends every
/// state that the registry drops on the same decide: a state below the
/// cutoff of the decide is neither registered nor running afterwards.
pub proof fn lemma_decide_ends_collected_states<TYPES: BuilderTypes>(
    state: StateModel<TYPES>,
    registry: Registry<TYPES>,
    decide_view: u64,
)
    ensures
        state.anchor.view <= decide_view ==> state.after_decide(decide_view).terminated(),
        state.anchor.view < registry.cutoff(decide_view) ==> {
            &&& state.after_decide(decide_view).terminated()
            &&& !registry.collect(decide_view).states.contains_key(state.anchor)
        },
        state.anchor.view > decide_view && !state.terminated() ==> !state.after_decide(
            decide_view,
        ).terminated(),
{
}

/// The size of a prefix does not shrink when the prefix grows.
pub proof fn lemma_total_size_grows<TYPES: BuilderTypes>(
    pool: Seq<SharedTransaction<TYPES>>,
    n: int,
    m: int,
)
    requires
        0 <= n <= m <= pool.len(),
    ensures
        total_size(pool.take(n)) <= total_size(pool.take(m)),
    decreases m - n,
{
    if n < m {
        lemma_total_size_grows(pool, n, m - 1);
        lemma_total_size_step(pool, m - 1);
    }
}

/// The size limit settles how many transactions go into a block: there is
/// one longest prefix within the limit and no other.
pub proof fn lemma_fitting_len_is_unique<TYPES: BuilderTypes>(
    pool: Seq<SharedTransaction<TYPES>>,
    limit: u64,
    n: int,
    m: int,
)
    requires
        is_fitting_len(pool, limit, n),
        is_fitting_len(pool, limit, m),
    ensures
        n == m,
{
    if n < m {
        lemma_total_size_grows(pool, n + 1, m);
    }
    if m < n {
        lemma_total_size_grows(pool, m + 1, n);
    }
}

/// What is offered for a block was pending, and nothing that a proposal for
/// the view of the block or an earlier view claims is offered again.
pub proof fn lemma_pending_is_unclaimed<TYPES: BuilderTypes>(
    state: StateModel<TYPES>,
    view: u64,
    i: int,
)
    requires
        0 <= i < state.pending(view).len(),
    ensures
        state.mempool.contains(state.pending(view)[i]),
        !crate::builder_state::claimed_between(
            state.seen_da,
            state.pending(view)[i].commit,
            0,
            view,
        ),
{
    let pred = |t: SharedTransaction<TYPES>|
        !crate::builder_state::claimed_between(state.seen_da, t.commit, 0, view);
    state.mempool.lemma_filter_pred(pred, i);
    state.mempool.lemma_filter_contains_rev(pred, state.pending(view)[i]);
}

/// A block that a state builds for a request at its own view can be
/// claimed under the hash of the offer and the view of the request, and the
/// offer is what the registry serves for the request when time runs out.
/// Unless a block was stored there before, the block is the one just built.
pub proof fn lemma_answered_request_is_claimable<TYPES: BuilderTypes>(
    state: StateModel<TYPES>,
    registry: Registry<TYPES>,
    request: RequestMessage,
    info: BlockInfo<TYPES>,
    response: ResponseMessage,
)
    requires
        state.accepts(request),
        request.requested_view_number == state.anchor.view,
    ensures
        ({
            let claimed = BlockId {
                hash: response.builder_hash,
                view: request.requested_view_number,
            };
            let after = registry.record_built(claimed, info, state.anchor, response);
            &&& after.built.contains_key(claimed)
            &&& !registry.built.contains_key(claimed) ==> after.built[claimed] == info
            &&& after.last_built.contains_key(asked_for(request))
            &&& after.last_built[asked_for(request)] == response
        }),
{
    assert(asked_for(request) == state.anchor);
}

/// A successor that is registered is found by the request for the block it
/// extends: the request for the payload commitment of the quorum proposal
/// at the view of the proposal is routed to the successor and to no other
/// state, and the successor accepts it.
pub proof fn lemma_successor_is_found<TYPES: BuilderTypes>(
    state: StateModel<TYPES>,
    registry: Registry<TYPES>,
    view: u64,
    sender: Sender<TYPES::Message>,
)
    requires
        state.spawns(view),
        registry.admits(view),
    ensures
        ({
            let child = state.child(view);
            let request = RequestMessage {
                requested_vid_commitment: state.seen_qc[view].payload_commitment,
                requested_view_number: view,
            };
            let after = registry.register(child.anchor, sender);
            &&& asked_for(request) == child.anchor
            &&& after.states.contains_key(child.anchor)
            &&& after.states[child.anchor] == sender
            &&& forall|target: BuilderStateId|
                after.routes_to(asked_for(request), target) <==> target == child.anchor
            &&& child.accepts(request)
        }),
{
}

} // verus!
