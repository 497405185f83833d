//! The registry of live builder states, shared by everything in the builder.
//!
//! The registry knows, for each parent and view, the channel into the state
//! that extends that parent; it keeps every block that was built, the last
//! offer of each state, the state with the highest view, and the view up to
//! which states have been collected.

use vstd::prelude::*;
use std::sync::Arc;
use std::time::Instant;
use async_broadcast::Sender;
use crate::builder_state::{
    BuildBlockInfo, ResponseMessage, SharedTransaction, TransactionSource,
};
use crate::commitment::{BuilderCommitment, TxCommitment, VidCommitment};
use crate::error::BuildError;
use crate::events::{commitments, handle_received_txns, stamped, taken};
use crate::types::BuilderTypes;
use crate::view_map::{BlockId, BuilderStateId, ViewKey, ViewMap};
pub use crate::gateway::ProxyGlobalState;
pub use crate::types::BuilderTransaction;

verus! {

/// `async_broadcast::Sender`, the sending half of a broadcast channel. The
/// registry stores and hands out such handles; it never sends on them itself.
#[verifier::external_type_specification]
#[verifier::external_body]
#[verifier::reject_recursive_types(T)]
pub struct ExBroadcastSender<T>(Sender<T>);

/// `std::time::Instant`, a point in time as the clock of the machine gives
/// it. The builder stamps transactions with it and never reads it.
#[verifier::external_type_specification]
#[verifier::external_body]
pub struct ExInstant(Instant);

/// Capacity of a broadcast channel unless the deployment says otherwise.
pub const DEFAULT_CHANNEL_CAPACITY: usize = 32;

/// A block that was built, as it is kept for the one who claims it.
pub struct BlockInfo<TYPES: BuilderTypes> {
    pub block_payload: TYPES::BlockPayload,
    pub metadata: TYPES::Metadata,
    pub offered_fee: u64,
}

/// Names a proposed block by its parent and its own commitment.
#[derive(Clone, Copy, Debug)]
pub struct ProposedBlockId {
    pub parent_commitment: VidCommitment,
    pub payload_commitment: BuilderCommitment,
    pub parent_view: u64,
}

impl ProposedBlockId {
    pub fn new(
        parent_commitment: VidCommitment,
        payload_commitment: BuilderCommitment,
        parent_view: u64,
    ) -> (id: Self)
        ensures
            id.parent_commitment == parent_commitment,
            id.payload_commitment == payload_commitment,
            id.parent_view == parent_view,
    {
        ProposedBlockId { parent_commitment, payload_commitment, parent_view }
    }
}

/// The states spawned and the blocks proposed for one view.
#[derive(Debug)]
pub struct BuilderStatesInfo {
    /// Parents of all the builder states spawned for the view.
    pub vid_commitments: Vec<VidCommitment>,
    /// All the blocks proposed for the view.
    pub block_ids: Vec<ProposedBlockId>,
}

impl Default for BuilderStatesInfo {
    fn default() -> (info: Self)
        ensures
            info.vid_commitments@ == Seq::<VidCommitment>::empty(),
            info.block_ids@ == Seq::<ProposedBlockId>::empty(),
    {
        BuilderStatesInfo { vid_commitments: Vec::new(), block_ids: Vec::new() }
    }
}

/// A transaction as the builder states receive it.
pub struct ReceivedTransaction<TYPES: BuilderTypes> {
    pub tx: TYPES::Transaction,
    /// Content address of `tx`.
    pub commit: TxCommitment,
    pub source: TransactionSource,
    /// When the builder took the transaction in.
    pub time_in: Instant,
}

/// The registry as a mathematical value.
#[verifier::reject_recursive_types(TYPES)]
pub struct Registry<TYPES: BuilderTypes> {
    /// Channel into each live builder state.
    pub states: Map<BuilderStateId, Sender<TYPES::Message>>,
    /// Every block built so far.
    pub built: Map<BlockId, BlockInfo<TYPES>>,
    /// The last offer of each builder state.
    pub last_built: Map<BuilderStateId, ResponseMessage>,
    /// The state with the greatest view seen so far.
    pub highest: BuilderStateId,
    /// The view up to which states have been collected.
    pub last_gc_view: u64,
    /// Namespace the builder builds for; `None` if it builds for all.
    pub namespace_id: Option<u64>,
    /// Channel on which received transactions reach the builder states.
    pub tx_sender: Sender<Arc<ReceivedTransaction<TYPES>>>,
}

/// The view below which a decide at `decide_view` collects: the decided
/// view, but never above the highest view that has a state.
pub open spec fn cutoff_view(highest_view: u64, decide_view: u64) -> u64 {
    if highest_view <= decide_view {
        highest_view
    } else {
        decide_view
    }
}

/// The keys whose view is `cutoff` or later.
pub open spec fn views_from<K: ViewKey>(cutoff: u64) -> Set<K> {
    Set::new(|k: K| k.key_view() >= cutoff)
}

impl<TYPES: BuilderTypes> Registry<TYPES> {
    /// The registry that holds the bootstrap state alone.
    pub open spec fn bootstrap(
        id: BuilderStateId,
        sender: Sender<TYPES::Message>,
        last_gc_view: u64,
        namespace_id: Option<u64>,
        tx_sender: Sender<Arc<ReceivedTransaction<TYPES>>>,
    ) -> Self {
        Registry {
            states: Map::empty().insert(id, sender),
            built: Map::empty(),
            last_built: Map::empty(),
            highest: id,
            last_gc_view,
            namespace_id,
            tx_sender,
        }
    }

    /// Whether a registration at `view` is taken: only above the watermark.
    pub open spec fn admits(self, view: u64) -> bool {
        view > self.last_gc_view
    }

    /// The registry after a builder state asked to be registered.
    pub open spec fn register(self, id: BuilderStateId, sender: Sender<TYPES::Message>) -> Self {
        if self.admits(id.view) {
            Registry {
                states: self.states.insert(id, sender),
                highest: if id.view > self.highest.view {
                    id
                } else {
                    self.highest
                },
                ..self
            }
        } else {
            self
        }
    }

    /// The registry after a build was recorded for the state `anchor`.
    pub open spec fn record_built(
        self,
        block: BlockId,
        info: BlockInfo<TYPES>,
        anchor: BuilderStateId,
        response: ResponseMessage,
    ) -> Self {
        Registry {
            built: if self.built.contains_key(block) {
                self.built
            } else {
                self.built.insert(block, info)
            },
            last_built: self.last_built.insert(anchor, response),
            ..self
        }
    }

    /// The view below which a decide at `decide_view` collects.
    pub open spec fn cutoff(self, decide_view: u64) -> u64 {
        cutoff_view(self.highest.view, decide_view)
    }

    /// The registry after a decide at `decide_view`.
    pub open spec fn collect(self, decide_view: u64) -> Self {
        let cutoff = self.cutoff(decide_view);
        Registry {
            states: self.states.restrict(views_from(cutoff)),
            last_gc_view: if cutoff > 0 {
                (cutoff - 1) as u64
            } else {
                0
            },
            ..self
        }
    }

    /// The registry after a sweep: blocks and offers of views below the
    /// watermark are gone.
    pub open spec fn sweep(self) -> Self {
        Registry {
            built: self.built.restrict(views_from(self.last_gc_view)),
            last_built: self.last_built.restrict(views_from(self.last_gc_view)),
            ..self
        }
    }

    /// No builder state is registered.
    pub open spec fn is_empty(self) -> bool {
        self.states == Map::<BuilderStateId, Sender<TYPES::Message>>::empty()
    }

    /// Whether no registered state sits at a later view than `target`.
    pub open spec fn is_latest(self, target: BuilderStateId) -> bool {
        &&& self.states.contains_key(target)
        &&& forall|k: BuilderStateId| #[trigger]
            self.states.contains_key(k) ==> k.key_view() <= target.key_view()
    }

    /// Whether a request for `id` may be routed to `target`: to the state
    /// itself where it is registered, else to the state with the highest
    /// view. Should that state not be registered, any registered state
    /// at the latest view will do.
    pub open spec fn routes_to(self, id: BuilderStateId, target: BuilderStateId) -> bool {
        if self.states.contains_key(id) {
            target == id
        } else if self.states.contains_key(self.highest) {
            target == self.highest
        } else {
            self.is_latest(target)
        }
    }

    /// Whether some live state sits at `view`.
    pub open spec fn has_state_at(self, view: u64) -> bool {
        exists|k: BuilderStateId| self.states.contains_key(k) && #[trigger] k.key_view() == view
    }

    /// The state with the highest view is registered.
    pub open spec fn highest_is_live(self) -> bool {
        self.states.contains_key(self.highest)
    }

    /// Every live state sits at or above the collection watermark.
    pub open spec fn above_watermark(self) -> bool {
        forall|k: BuilderStateId| #[trigger] self.states.contains_key(k) ==> k.view >= self.last_gc_view
    }

    /// Every cached offer names a block that can be claimed at the view of
    /// the state that made the offer.
    pub open spec fn offers_are_claimable(self) -> bool {
        forall|k: BuilderStateId| #[trigger]
            self.last_built.contains_key(k) ==> self.built.contains_key(
                BlockId { hash: self.last_built[k].builder_hash, view: k.view },
            )
    }
}

/// The state shared by all builder states and by the gateway.
#[verifier::reject_recursive_types(TYPES)]
pub struct GlobalState<TYPES: BuilderTypes> {
    /// Namespace the builder builds for; `None` if it builds for all.
    pub namespace_id: Option<u64>,
    /// Every block built so far.
    pub block_hash_to_block: ViewMap<BlockId, BlockInfo<TYPES>>,
    /// Channel into each live builder state.
    pub spawned_builder_states: ViewMap<BuilderStateId, Sender<TYPES::Message>>,
    /// The last offer of each builder state, for requests that time out.
    pub builder_state_to_last_built_block: ViewMap<BuilderStateId, ResponseMessage>,
    /// Channel on which received transactions reach the builder states.
    pub tx_sender: Sender<Arc<ReceivedTransaction<TYPES>>>,
    /// The view up to which states have been collected.
    pub last_garbage_collected_view_num: u64,
    /// The state with the greatest view seen so far.
    pub highest_view_num_builder_id: BuilderStateId,
}

impl<TYPES: BuilderTypes> View for GlobalState<TYPES> {
    type V = Registry<TYPES>;

    open spec fn view(&self) -> Registry<TYPES> {
        Registry {
            states: self.spawned_builder_states@,
            built: self.block_hash_to_block@,
            last_built: self.builder_state_to_last_built_block@,
            highest: self.highest_view_num_builder_id,
            last_gc_view: self.last_garbage_collected_view_num,
            namespace_id: self.namespace_id,
            tx_sender: self.tx_sender,
        }
    }
}

impl<TYPES: BuilderTypes> GlobalState<TYPES> {
    /// A registry that holds the bootstrap state and nothing else.
    pub fn new(
        namespace_id: Option<u64>,
        bootstrap_sender: Sender<TYPES::Message>,
        tx_sender: Sender<Arc<ReceivedTransaction<TYPES>>>,
        bootstrapped_builder_state_id: VidCommitment,
        bootstrapped_view_num: u64,
        last_garbage_collected_view_num: u64,
        _buffer_view_num_count: u64,
    ) -> (state: Self)
        ensures
            state@ == Registry::<TYPES>::bootstrap(
                BuilderStateId {
                    parent_commitment: bootstrapped_builder_state_id,
                    view: bootstrapped_view_num,
                },
                bootstrap_sender,
                last_garbage_collected_view_num,
                namespace_id,
                tx_sender,
            ),
    {
        let id = BuilderStateId {
            parent_commitment: bootstrapped_builder_state_id,
            view: bootstrapped_view_num,
        };
        let mut spawned_builder_states = ViewMap::new();
        spawned_builder_states.insert(id, bootstrap_sender);
        GlobalState {
            namespace_id,
            block_hash_to_block: ViewMap::new(),
            spawned_builder_states,
            builder_state_to_last_built_block: ViewMap::new(),
            tx_sender,
            last_garbage_collected_view_num,
            highest_view_num_builder_id: id,
        }
    }

    /// Registers the channel into a new builder state and keeps track of the
    /// highest view. A registration at or below the collection watermark is
    /// refused and leaves the registry as it was. A second registration
    /// under the same parent and view replaces the first.
    pub fn register_builder_state(
        &mut self,
        vid_commmit: VidCommitment,
        view_num: u64,
        request_sender: Sender<TYPES::Message>,
    )
        ensures
            final(self)@ == old(self)@.register(
                BuilderStateId { parent_commitment: vid_commmit, view: view_num },
                request_sender,
            ),
    {
        if view_num > self.last_garbage_collected_view_num {
            let id = BuilderStateId { parent_commitment: vid_commmit, view: view_num };
            self.spawned_builder_states.insert(id, request_sender);
            if view_num > self.highest_view_num_builder_id.view {
                self.highest_view_num_builder_id = id;
            }
        }
    }

    /// Records a build: the block is stored under its commitment and the
    /// view unless one is stored there already, and the offer becomes the
    /// last offer of the state that built it.
    pub fn update_global_state(
        &mut self,
        build_block_info: BuildBlockInfo<TYPES>,
        builder_vid_commitment: VidCommitment,
        view_num: u64,
        response_msg: ResponseMessage,
    )
        ensures
            final(self)@ == old(self)@.record_built(
                BlockId { hash: build_block_info.builder_hash, view: view_num },
                BlockInfo {
                    block_payload: build_block_info.block_payload,
                    metadata: build_block_info.metadata,
                    offered_fee: build_block_info.offered_fee,
                },
                BuilderStateId { parent_commitment: builder_vid_commitment, view: view_num },
                response_msg,
            ),
    {
        let block = BlockId { hash: build_block_info.builder_hash, view: view_num };
        self.block_hash_to_block.insert_if_absent(
            block,
            BlockInfo {
                block_payload: build_block_info.block_payload,
                metadata: build_block_info.metadata,
                offered_fee: build_block_info.offered_fee,
            },
        );
        self.builder_state_to_last_built_block.insert(
            BuilderStateId { parent_commitment: builder_vid_commitment, view: view_num },
            response_msg,
        );
    }

    /// Drops the channels of the states that a decide at `on_decide_view`
    /// leaves behind, moves the watermark, and returns the cutoff: the view
    /// below which states were dropped.
    pub fn remove_handles(&mut self, on_decide_view: u64) -> (cutoff: u64)
        ensures
            cutoff == old(self)@.cutoff(on_decide_view),
            final(self)@ == old(self)@.collect(on_decide_view),
    {
        let highest = self.highest_view_num_builder_id.view;
        let cutoff = if highest <= on_decide_view {
            highest
        } else {
            on_decide_view
        };
        self.spawned_builder_states.retain_from(cutoff);
        self.last_garbage_collected_view_num = if cutoff > 0 {
            cutoff - 1
        } else {
            0
        };
        cutoff
    }

    /// Drops the blocks and the cached offers of views below the watermark.
    /// A decide leaves them in place, so that a block can still be claimed
    /// after its state is gone; the sweep is what bounds their number.
    pub fn sweep(&mut self)
        ensures
            final(self)@ == old(self)@.sweep(),
    {
        self.block_hash_to_block.retain_from(self.last_garbage_collected_view_num);
        self.builder_state_to_last_built_block.retain_from(self.last_garbage_collected_view_num);
    }

    /// The channel into the state registered under `key`, or else into the
    /// state with the highest view. Fails only when no state is registered
    /// at all: a registry that has lost track of its highest state falls
    /// back to a state at the latest view that it holds.
    pub fn get_channel_for_matching_builder_or_highest_view_buider(
        &self,
        key: &BuilderStateId,
    ) -> (channel: Result<&Sender<TYPES::Message>, BuildError>)
        ensures
            channel is Err <==> self@.is_empty(),
            match channel {
                Ok(sender) => exists|target: BuilderStateId|
                    {
                        &&& #[trigger] self@.routes_to(*key, target)
                        &&& self@.states.contains_key(target)
                        &&& *sender == self@.states[target]
                    },
                Err(e) => e == BuildError::NoBuilderState,
            },
    {
        match self.spawned_builder_states.get(key) {
            Some(sender) => {
                assert(self@.routes_to(*key, *key));
                Ok(sender)
            },
            None => match self.spawned_builder_states.get(&self.highest_view_num_builder_id) {
                Some(sender) => {
                    assert(self@.routes_to(*key, self.highest_view_num_builder_id));
                    Ok(sender)
                },
                None => match self.spawned_builder_states.greatest() {
                    Some((latest, sender)) => {
                        assert(self@.routes_to(*key, latest));
                        Ok(sender)
                    },
                    None => Err(BuildError::NoBuilderState),
                },
            },
        }
    }

    /// Whether some live builder state sits at the view `key`.
    pub fn check_builder_state_existence_for_a_view(&self, key: &u64) -> (found: bool)
        ensures
            found == self@.has_state_at(*key),
    {
        self.spawned_builder_states.has_view(*key)
    }

    /// Whether the state at `builder_view` should take up a proposal for
    /// `proposal_view`: it is the state with the highest view, and no state
    /// sits at the proposal's view yet.
    pub fn should_view_handle_other_proposals(
        &self,
        builder_view: &u64,
        proposal_view: &u64,
    ) -> (should: bool)
        ensures
            should == (*builder_view == self@.highest.view && !self@.has_state_at(*proposal_view)),
    {
        *builder_view == self.highest_view_num_builder_id.view
            && !self.check_builder_state_existence_for_a_view(proposal_view)
    }

    /// Takes in transactions that a client submitted: see
    /// [`handle_received_txns`]. What is returned first goes out on
    /// `tx_sender`.
    pub fn submit_client_txns(&self, txns: Vec<TYPES::Transaction>, time_in: Instant) -> (out: (
        Vec<SharedTransaction<TYPES>>,
        Vec<TxCommitment>,
    ))
        ensures
            out.0@.len() == taken(txns@, self.namespace_id).len(),
            forall|i: int|
                0 <= i < out.0@.len() ==> *#[trigger] out.0@[i] == stamped::<TYPES>(
                    taken(txns@, self.namespace_id)[i],
                    TransactionSource::External,
                    time_in,
                ),
            out.1@ == commitments(taken(txns@, self.namespace_id)),
    {
        handle_received_txns::<TYPES>(txns, TransactionSource::External, self.namespace_id, time_in)
    }

    /// The parents and views of all live builder states, each once.
    pub fn builder_state_ids(&self) -> (ids: Vec<BuilderStateId>)
        ensures
            ids@.no_duplicates(),
            ids@.to_set() =~= self@.states.dom(),
    {
        self.spawned_builder_states.keys()
    }
}

} // verus!
