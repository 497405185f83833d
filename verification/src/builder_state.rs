//! One builder state per parent and view, and the messages it lives on.

use vstd::prelude::*;
use vstd::std_specs::cmp::PartialEqSpecImpl;
use std::sync::Arc;
use crate::commitment::{BuilderCommitment, TxCommitment, VidCommitment};
use crate::service::{BlockInfo, GlobalState, ReceivedTransaction};
use crate::types::{BuilderTransaction, BuilderTypes};
use crate::view_map::{BlockId, BuilderStateId, ViewMap};

verus! {

/// Number of views after a non-empty block during which the builder still
/// offers empty blocks.
pub const ALLOW_EMPTY_BLOCK_PERIOD: u64 = 3;

/// Where a transaction came from.
#[derive(Clone, Copy, Debug, PartialEq, Eq, Structural)]
pub enum TransactionSource {
    /// Handed in by a client of the builder.
    External,
    /// Heard from consensus.
    HotShot,
}

/// Consensus decided everything up to a view.
#[derive(Clone, Copy, Debug, PartialEq, Eq, Structural)]
pub struct DecideMessage {
    pub latest_decide_view_number: u64,
}

/// What a data-availability proposal tells the builder.
pub struct DaProposalMessage<TYPES: BuilderTypes> {
    pub view_number: u64,
    /// Commitments of the transactions the proposal claims.
    pub txn_commitments: Vec<TxCommitment>,
    pub num_nodes: usize,
    pub sender: TYPES::SignatureKey,
    pub builder_commitment: BuilderCommitment,
}

/// What a quorum proposal tells the builder.
pub struct QCMessage<TYPES: BuilderTypes> {
    pub view_number: u64,
    /// Payload commitment in the proposed block header.
    pub payload_commitment: VidCommitment,
    /// Builder commitment in the proposed block header.
    pub builder_commitment: BuilderCommitment,
    pub sender: TYPES::SignatureKey,
}

/// A request for a block on top of a parent, at a view.
#[derive(Clone, Copy, Debug)]
pub struct RequestMessage {
    pub requested_vid_commitment: VidCommitment,
    pub requested_view_number: u64,
}

/// Summary of a block that a builder state offers.
#[derive(Clone, Copy, Debug)]
pub struct ResponseMessage {
    pub builder_hash: BuilderCommitment,
    pub block_size: u64,
    pub offered_fee: u64,
}

impl PartialEq for ResponseMessage {
    fn eq(&self, other: &Self) -> (same: bool) {
        self.block_size == other.block_size && self.offered_fee == other.offered_fee
            && self.builder_hash == other.builder_hash
    }
}

impl PartialEqSpecImpl for ResponseMessage {
    open spec fn obeys_eq_spec() -> bool {
        true
    }

    open spec fn eq_spec(&self, other: &Self) -> bool {
        *self == *other
    }
}

impl Eq for ResponseMessage {

}

/// Everything one build produced.
pub struct BuildBlockInfo<TYPES: BuilderTypes> {
    pub builder_hash: BuilderCommitment,
    pub block_size: u64,
    pub offered_fee: u64,
    pub block_payload: TYPES::BlockPayload,
    pub metadata: TYPES::Metadata,
}

/// What a builder state keeps of a data-availability proposal.
pub struct DaProposalInfo {
    /// Commitments of the transactions the proposal claims.
    pub txn_commitments: Vec<TxCommitment>,
    pub num_nodes: usize,
    pub builder_commitment: BuilderCommitment,
}

/// What a builder state keeps of a quorum proposal.
#[derive(Clone, Copy, Debug)]
pub struct QuorumProposalInfo {
    /// Payload commitment in the proposed block header.
    pub payload_commitment: VidCommitment,
    /// Builder commitment in the proposed block header.
    pub builder_commitment: BuilderCommitment,
}

/// Where a builder state stands in its life.
#[derive(Clone, Copy, Debug, PartialEq, Eq, Structural)]
pub enum Status {
    /// Serving requests; no successor yet.
    Active,
    /// Serving requests; at least one successor was spawned.
    ChildSpawned,
    /// Done: every event is ignored from here on.
    Terminated,
}

/// A received transaction, shared between the states that hold it.
pub type SharedTransaction<TYPES> = Arc<ReceivedTransaction<TYPES>>;

/// A second handle on the same shared value.
///
/// Wraps `Arc::clone`, which hands back a pointer to the same allocation: the
/// value behind the new handle is the value behind the old one.
#[verifier::external_body]
fn share<T>(handle: &Arc<T>) -> (again: Arc<T>)
    ensures
        again == *handle,
{
    Arc::clone(handle)
}

/// Whether the proposal claims the transaction with this commitment.
pub open spec fn claims(info: DaProposalInfo, commit: TxCommitment) -> bool {
    info.txn_commitments@.contains(commit)
}

/// Whether a proposal seen for a view from `lo` to `hi` claims `commit`.
pub open spec fn claimed_between(
    seen_da: Map<u64, DaProposalInfo>,
    commit: TxCommitment,
    lo: u64,
    hi: u64,
) -> bool {
    exists|v: u64| #[trigger] seen_da.contains_key(v) && lo <= v <= hi && claims(seen_da[v], commit)
}

/// The transactions of `pool` that no proposal seen for a view from `lo`
/// to `hi` claims, in the order of `pool`.
pub open spec fn unclaimed<TYPES: BuilderTypes>(
    pool: Seq<SharedTransaction<TYPES>>,
    seen_da: Map<u64, DaProposalInfo>,
    lo: u64,
    hi: u64,
) -> Seq<SharedTransaction<TYPES>> {
    pool.filter(|t: SharedTransaction<TYPES>| !claimed_between(seen_da, t.commit, lo, hi))
}

/// The transactions of `pool` that `info` does not claim, in the order of
/// `pool`.
pub open spec fn left_over<TYPES: BuilderTypes>(
    pool: Seq<SharedTransaction<TYPES>>,
    info: DaProposalInfo,
) -> Seq<SharedTransaction<TYPES>> {
    pool.filter(|t: SharedTransaction<TYPES>| !claims(info, t.commit))
}

/// The commitments of the transactions in `pool`, in order.
pub open spec fn commits_of<TYPES: BuilderTypes>(pool: Seq<SharedTransaction<TYPES>>) -> Seq<
    TxCommitment,
> {
    pool.map_values(|t: SharedTransaction<TYPES>| t.commit)
}

/// The bytes that the transactions in `pool` take up together.
pub open spec fn total_size<TYPES: BuilderTypes>(pool: Seq<SharedTransaction<TYPES>>) -> nat
    decreases pool.len(),
{
    if pool.len() == 0 {
        0
    } else {
        total_size(pool.drop_last()) + pool.last().tx.size() as nat
    }
}

/// Whether `n` is the length of the longest prefix of `pool` that takes up
/// no more than `limit` bytes.
pub open spec fn is_fitting_len<TYPES: BuilderTypes>(
    pool: Seq<SharedTransaction<TYPES>>,
    limit: u64,
    n: int,
) -> bool {
    &&& 0 <= n <= pool.len()
    &&& total_size(pool.take(n)) <= limit
    &&& n < pool.len() ==> total_size(pool.take(n + 1)) > limit
}

/// What a filter makes of one more element.
pub proof fn lemma_filter_step<A>(s: Seq<A>, pred: spec_fn(A) -> bool, i: int)
    requires
        0 <= i < s.len(),
    ensures
        s.take(i + 1).filter(pred) == if pred(s[i]) {
            s.take(i).filter(pred).push(s[i])
        } else {
            s.take(i).filter(pred)
        },
{
    reveal(Seq::filter);
    assert(s.take(i + 1).drop_last() =~= s.take(i));
}

/// What leaving out the claimed transactions makes of one more transaction.
pub proof fn lemma_unclaimed_step<TYPES: BuilderTypes>(
    pool: Seq<SharedTransaction<TYPES>>,
    seen_da: Map<u64, DaProposalInfo>,
    lo: u64,
    hi: u64,
    i: int,
)
    requires
        0 <= i < pool.len(),
    ensures
        unclaimed(pool.take(i + 1), seen_da, lo, hi) == if claimed_between(
            seen_da,
            pool[i].commit,
            lo,
            hi,
        ) {
            unclaimed(pool.take(i), seen_da, lo, hi)
        } else {
            unclaimed(pool.take(i), seen_da, lo, hi).push(pool[i])
        },
{
    lemma_filter_step(
        pool,
        |t: SharedTransaction<TYPES>| !claimed_between(seen_da, t.commit, lo, hi),
        i,
    );
}

/// What leaving out the transactions of one proposal makes of one more
/// transaction.
pub proof fn lemma_left_over_step<TYPES: BuilderTypes>(
    pool: Seq<SharedTransaction<TYPES>>,
    info: DaProposalInfo,
    i: int,
)
    requires
        0 <= i < pool.len(),
    ensures
        left_over(pool.take(i + 1), info) == if claims(info, pool[i].commit) {
            left_over(pool.take(i), info)
        } else {
            left_over(pool.take(i), info).push(pool[i])
        },
{
    lemma_filter_step(pool, |t: SharedTransaction<TYPES>| !claims(info, t.commit), i);
}

/// Every transaction that a proposal leaves over was in the pool, and if no
/// commitment occurred twice in the pool, none does in what is left over.
pub proof fn lemma_left_over_well_formed<TYPES: BuilderTypes>(
    pool: Seq<SharedTransaction<TYPES>>,
    info: DaProposalInfo,
)
    ensures
        forall|j: int|
            0 <= j < left_over(pool, info).len() ==> commits_of(pool).contains(
                #[trigger] left_over(pool, info)[j].commit,
            ),
        commits_of(pool).no_duplicates() ==> commits_of(left_over(pool, info)).no_duplicates(),
    decreases pool.len(),
{
    reveal(Seq::filter);
    if pool.len() > 0 {
        let front = pool.drop_last();
        let last = pool.last();
        let kept = left_over(front, info);
        lemma_left_over_well_formed(front, info);
        assert forall|j: int| 0 <= j < left_over(pool, info).len() implies commits_of(
            pool,
        ).contains(#[trigger] left_over(pool, info)[j].commit) by {
            if j < kept.len() {
                let c = kept[j].commit;
                let at = choose|at: int| 0 <= at < commits_of(front).len() && commits_of(front)[at] == c;
                assert(commits_of(pool)[at] == c);
            } else {
                assert(commits_of(pool)[pool.len() - 1] == last.commit);
            }
        }
        if commits_of(pool).no_duplicates() {
            assert forall|a: int, b: int|
                0 <= a < commits_of(front).len() && 0 <= b < commits_of(front).len() && a
                    != b implies commits_of(front)[a] != commits_of(front)[b] by {
                assert(commits_of(pool)[a] == commits_of(front)[a]);
                assert(commits_of(pool)[b] == commits_of(front)[b]);
            }
            let out = left_over(pool, info);
            assert forall|a: int, b: int|
                0 <= a < commits_of(out).len() && 0 <= b < commits_of(out).len() && a
                    != b implies commits_of(out)[a] != commits_of(out)[b] by {
                if a < kept.len() && b < kept.len() {
                    assert(commits_of(kept)[a] == commits_of(out)[a]);
                    assert(commits_of(kept)[b] == commits_of(out)[b]);
                } else {
                    // One of the two is the last transaction of the pool; the
                    // other came from the front, where its commitment sits at
                    // another place of the pool.
                    let other = if a < kept.len() {
                        a
                    } else {
                        b
                    };
                    let c = kept[other].commit;
                    let at = choose|at: int|
                        0 <= at < commits_of(front).len() && commits_of(front)[at] == c;
                    assert(commits_of(pool)[at] == c);
                    assert(commits_of(pool)[pool.len() - 1] == last.commit);
                }
            }
        }
    }
}

/// The size of a prefix grows by the size of the element that follows it.
pub proof fn lemma_total_size_step<TYPES: BuilderTypes>(
    pool: Seq<SharedTransaction<TYPES>>,
    i: int,
)
    requires
        0 <= i < pool.len(),
    ensures
        total_size(pool.take(i + 1)) == total_size(pool.take(i)) + pool[i].tx.size(),
{
    assert(pool.take(i + 1).drop_last() =~= pool.take(i));
}

/// Whether the list holds the commitment.
pub fn commit_in(list: &Vec<TxCommitment>, commit: &TxCommitment) -> (found: bool)
    ensures
        found == list@.contains(*commit),
{
    let mut i: usize = 0;
    while i < list.len()
        invariant
            i <= list.len(),
            forall|j: int| 0 <= j < i ==> list[j] != *commit,
        decreases list.len() - i,
    {
        if list[i] == *commit {
            return true;
        }
        i += 1;
    }
    false
}

/// Whether the list holds the id.
pub fn id_in(list: &Vec<BuilderStateId>, id: &BuilderStateId) -> (found: bool)
    ensures
        found == list@.contains(*id),
{
    let mut i: usize = 0;
    while i < list.len()
        invariant
            i <= list.len(),
            forall|j: int| 0 <= j < i ==> list[j] != *id,
        decreases list.len() - i,
    {
        if list[i] == *id {
            return true;
        }
        i += 1;
    }
    false
}

/// Whether a proposal seen for a view from `lo` to `hi` claims `commit`.
pub fn is_claimed_between(
    seen_da: &ViewMap<u64, DaProposalInfo>,
    commit: &TxCommitment,
    lo: u64,
    hi: u64,
) -> (claimed: bool)
    ensures
        claimed == claimed_between(seen_da@, *commit, lo, hi),
{
    let views = seen_da.keys();
    let mut i: usize = 0;
    while i < views.len()
        invariant
            i <= views.len(),
            views@.to_set() =~= seen_da@.dom(),
            forall|j: int|
                0 <= j < i ==> !(lo <= #[trigger] views[j] <= hi && claims(
                    seen_da@[views[j]],
                    *commit,
                )),
        decreases views.len() - i,
    {
        let v = views[i];
        if lo <= v && v <= hi {
            assert(views@.to_set().contains(v));
            match seen_da.get(&v) {
                Some(info) => {
                    if commit_in(&info.txn_commitments, commit) {
                        return true;
                    }
                },
                None => {},
            }
        }
        i += 1;
    }
    proof {
        assert forall|v: u64| #[trigger] seen_da@.contains_key(v) && lo <= v <= hi implies !claims(
            seen_da@[v],
            *commit,
        ) by {
            assert(views@.to_set().contains(v));
            let j = choose|j: int| 0 <= j < views@.len() && views@[j] == v;
            assert(views[j] == v);
        }
    }
    false
}

/// A builder state as a mathematical value.
#[verifier::reject_recursive_types(TYPES)]
pub struct StateModel<TYPES: BuilderTypes> {
    /// The parent and view that the state extends.
    pub anchor: BuilderStateId,
    /// Pending transactions in the order of their arrival.
    pub mempool: Seq<SharedTransaction<TYPES>>,
    /// The data-availability proposal seen for each view.
    pub seen_da: Map<u64, DaProposalInfo>,
    /// The quorum proposal seen for each view.
    pub seen_qc: Map<u64, QuorumProposalInfo>,
    /// The last view for which an empty block may still be offered.
    pub allow_empty_block_until: Option<u64>,
    /// The successors spawned so far.
    pub children: Seq<BuilderStateId>,
    pub status: Status,
    /// The most bytes that the transactions of one block may take up.
    pub max_block_size: u64,
}

/// The view that ends the window opened by a non-empty block at `view`.
pub open spec fn window_end(view: u64) -> u64 {
    if view + ALLOW_EMPTY_BLOCK_PERIOD <= u64::MAX {
        (view + ALLOW_EMPTY_BLOCK_PERIOD) as u64
    } else {
        u64::MAX
    }
}

impl<TYPES: BuilderTypes> StateModel<TYPES> {
    /// A fresh state on `anchor` with nothing seen and nothing pending.
    pub open spec fn initial(anchor: BuilderStateId, max_block_size: u64) -> Self {
        StateModel {
            anchor,
            mempool: Seq::empty(),
            seen_da: Map::empty(),
            seen_qc: Map::empty(),
            allow_empty_block_until: None,
            children: Seq::empty(),
            status: Status::Active,
            max_block_size,
        }
    }

    /// No two pending transactions have the same commitment.
    pub open spec fn well_formed(self) -> bool {
        commits_of(self.mempool).no_duplicates()
    }

    pub open spec fn terminated(self) -> bool {
        self.status == Status::Terminated
    }

    /// Whether a proposal seen for a view after `view` claims `commit`.
    pub open spec fn claimed_after(self, view: u64, commit: TxCommitment) -> bool {
        view < u64::MAX && claimed_between(self.seen_da, commit, (view + 1) as u64, u64::MAX)
    }

    /// Whether the state takes a transaction in: it is not pending yet, and
    /// no proposal seen for a view after the anchor claims it.
    pub open spec fn takes(self, tx: SharedTransaction<TYPES>) -> bool {
        &&& !self.terminated()
        &&& !commits_of(self.mempool).contains(tx.commit)
        &&& !self.claimed_after(self.anchor.view, tx.commit)
    }

    /// The state after a transaction arrived.
    pub open spec fn receive(self, tx: SharedTransaction<TYPES>) -> Self {
        if self.takes(tx) {
            StateModel { mempool: self.mempool.push(tx), ..self }
        } else {
            self
        }
    }

    /// The pending transactions that a block for `view` may hold: those
    /// that no proposal seen for `view` or an earlier view claims.
    pub open spec fn pending(self, view: u64) -> Seq<SharedTransaction<TYPES>> {
        unclaimed(self.mempool, self.seen_da, 0, view)
    }

    /// Whether an empty block may be offered for `view`.
    pub open spec fn window_open(self, view: u64) -> bool {
        self.allow_empty_block_until matches Some(until) && view <= until
    }

    /// Whether the request is for this state: same parent, and a view at
    /// or after the anchor's.
    pub open spec fn accepts(self, request: RequestMessage) -> bool {
        &&& !self.terminated()
        &&& request.requested_vid_commitment == self.anchor.parent_commitment
        &&& request.requested_view_number >= self.anchor.view
    }

    /// Whether the state answers the request with a block: the request is
    /// for it, and there is something to put in the block or an empty block
    /// may be offered.
    pub open spec fn answers(self, request: RequestMessage) -> bool {
        &&& self.accepts(request)
        &&& (self.pending(request.requested_view_number).len() > 0 || self.window_open(
            request.requested_view_number,
        ))
    }

    /// The state after a block with `included` transactions was built for
    /// `view`: a non-empty block opens the window for empty ones.
    pub open spec fn after_build(self, view: u64, included: nat) -> Self {
        if included > 0 {
            StateModel { allow_empty_block_until: Some(window_end(view)), ..self }
        } else {
            self
        }
    }

    /// The state after a data-availability proposal for `view` was seen.
    pub open spec fn with_da(self, view: u64, info: DaProposalInfo) -> Self {
        if self.terminated() {
            self
        } else {
            StateModel { seen_da: self.seen_da.insert(view, info), ..self }
        }
    }

    /// The state after a quorum proposal for `view` was seen.
    pub open spec fn with_qc(self, view: u64, info: QuorumProposalInfo) -> Self {
        if self.terminated() {
            self
        } else {
            StateModel { seen_qc: self.seen_qc.insert(view, info), ..self }
        }
    }

    /// Whether both proposals for `view` were seen and name the same block.
    pub open spec fn matched_pair(self, view: u64) -> bool {
        &&& self.seen_da.contains_key(view)
        &&& self.seen_qc.contains_key(view)
        &&& self.seen_da[view].builder_commitment == self.seen_qc[view].builder_commitment
    }

    /// The successor that the proposals for `view` call for.
    pub open spec fn child_id(self, view: u64) -> BuilderStateId {
        BuilderStateId { parent_commitment: self.seen_qc[view].payload_commitment, view }
    }

    /// Whether the state spawns a successor for `view`: the view follows the
    /// anchor's, the proposals for it match, and that successor was not
    /// spawned before.
    pub open spec fn spawns(self, view: u64) -> bool {
        &&& !self.terminated()
        &&& view == self.anchor.view + 1
        &&& self.matched_pair(view)
        &&& !self.children.contains(self.child_id(view))
    }

    /// The successor spawned for `view`: it extends the proposed block and
    /// starts with the transactions that the proposal left over.
    pub open spec fn child(self, view: u64) -> Self {
        StateModel {
            anchor: self.child_id(view),
            mempool: left_over(self.mempool, self.seen_da[view]),
            seen_da: Map::empty(),
            seen_qc: Map::empty(),
            allow_empty_block_until: self.allow_empty_block_until,
            children: Seq::empty(),
            status: Status::Active,
            max_block_size: self.max_block_size,
        }
    }

    /// The state after it spawned its successor for `view`.
    pub open spec fn after_spawn(self, view: u64) -> Self {
        StateModel {
            seen_da: self.seen_da.restrict(Set::new(|v: u64| v >= self.anchor.view)),
            seen_qc: self.seen_qc.restrict(Set::new(|v: u64| v >= self.anchor.view)),
            children: self.children.push(self.child_id(view)),
            status: Status::ChildSpawned,
            ..self
        }
    }

    /// The state and its new successor, if any, once the proposals seen for
    /// `view` have been looked at.
    pub open spec fn after_proposals(self, view: u64) -> (Self, Option<Self>) {
        if self.spawns(view) {
            (self.after_spawn(view), Some(self.child(view)))
        } else {
            (self, None)
        }
    }

    /// The state after all its inputs were closed: it has ended.
    pub open spec fn after_inputs_closed(self) -> Self {
        StateModel { status: Status::Terminated, ..self }
    }

    /// The state after a decide at `decide_view`: it ends unless it is
    /// ahead of the decide.
    pub open spec fn after_decide(self, decide_view: u64) -> Self {
        if decide_view >= self.anchor.view {
            StateModel { status: Status::Terminated, ..self }
        } else {
            self
        }
    }
}

/// What a builder state makes of a request.
pub enum RequestOutcome<TYPES: BuilderTypes> {
    /// The request is for another state: nothing is sent back.
    Ignored,
    /// The request is for this state, but there is nothing to offer and no
    /// empty block is allowed: nothing is sent back.
    Refused,
    /// A block is to be built from these transactions, in this order.
    Build { transactions: Vec<SharedTransaction<TYPES>> },
}

/// The state of the builder for one parent and view.
pub struct BuilderState<TYPES: BuilderTypes> {
    anchor: BuilderStateId,
    mempool: Vec<SharedTransaction<TYPES>>,
    seen_da: ViewMap<u64, DaProposalInfo>,
    seen_qc: ViewMap<u64, QuorumProposalInfo>,
    allow_empty_block_until: Option<u64>,
    children: Vec<BuilderStateId>,
    status: Status,
    max_block_size: u64,
}

impl<TYPES: BuilderTypes> View for BuilderState<TYPES> {
    type V = StateModel<TYPES>;

    closed spec fn view(&self) -> StateModel<TYPES> {
        StateModel {
            anchor: self.anchor,
            mempool: self.mempool@,
            seen_da: self.seen_da@,
            seen_qc: self.seen_qc@,
            allow_empty_block_until: self.allow_empty_block_until,
            children: self.children@,
            status: self.status,
            max_block_size: self.max_block_size,
        }
    }
}

impl<TYPES: BuilderTypes> BuilderState<TYPES> {
    /// A fresh state that extends `parent_commitment` at `view` and puts at
    /// most `max_block_size` bytes of transactions into a block.
    pub fn new(parent_commitment: VidCommitment, view: u64, max_block_size: u64) -> (state: Self)
        ensures
            state@ == StateModel::<TYPES>::initial(
                BuilderStateId { parent_commitment, view },
                max_block_size,
            ),
    {
        BuilderState {
            anchor: BuilderStateId { parent_commitment, view },
            mempool: Vec::new(),
            seen_da: ViewMap::new(),
            seen_qc: ViewMap::new(),
            allow_empty_block_until: None,
            children: Vec::new(),
            status: Status::Active,
            max_block_size,
        }
    }

    /// The parent and view that the state extends.
    pub fn anchor(&self) -> (id: BuilderStateId)
        ensures
            id == self@.anchor,
    {
        self.anchor
    }

    pub fn status(&self) -> (status: Status)
        ensures
            status == self@.status,
    {
        self.status
    }

    /// The last view for which an empty block may still be offered.
    pub fn allow_empty_block_until(&self) -> (until: Option<u64>)
        ensures
            until == self@.allow_empty_block_until,
    {
        self.allow_empty_block_until
    }

    /// Number of pending transactions.
    pub fn mempool_len(&self) -> (n: usize)
        ensures
            n == self@.mempool.len(),
    {
        self.mempool.len()
    }

    /// Whether a transaction with this commitment is pending.
    pub fn holds(&self, commit: &TxCommitment) -> (found: bool)
        ensures
            found == commits_of(self@.mempool).contains(*commit),
    {
        let mut i: usize = 0;
        while i < self.mempool.len()
            invariant
                i <= self.mempool.len(),
                forall|j: int| 0 <= j < i ==> self.mempool[j].commit != *commit,
            decreases self.mempool.len() - i,
        {
            if self.mempool[i].commit == *commit {
                assert(commits_of(self.mempool@)[i as int] == *commit);
                return true;
            }
            i += 1;
        }
        proof {
            assert forall|j: int| 0 <= j < commits_of(self.mempool@).len() implies commits_of(
                self.mempool@,
            )[j] != *commit by {
                assert(self.mempool[j].commit != *commit);
            }
        }
        false
    }

    /// Takes a transaction in, unless it is pending already or a proposal
    /// seen for a view after the anchor claims it. Says whether it went in.
    pub fn handle_transaction(&mut self, tx: SharedTransaction<TYPES>) -> (taken: bool)
        ensures
            taken == old(self)@.takes(tx),
            final(self)@ == old(self)@.receive(tx),
            old(self)@.well_formed() ==> final(self)@.well_formed(),
    {
        if self.status == Status::Terminated {
            return false;
        }
        if self.holds(&tx.commit) {
            return false;
        }
        if self.anchor.view < u64::MAX && is_claimed_between(
            &self.seen_da,
            &tx.commit,
            self.anchor.view + 1,
            u64::MAX,
        ) {
            return false;
        }
        proof {
            if self@.well_formed() {
                crate::state_laws::lemma_receive_keeps_well_formed(self@, tx);
            }
        }
        self.mempool.push(tx);
        true
    }

    /// Ends the state once every channel into it has been closed: nothing
    /// can reach it any more. Says that the state has ended.
    pub fn handle_inputs_closed(&mut self) -> (ended: bool)
        ensures
            final(self)@ == old(self)@.after_inputs_closed(),
            final(self)@.terminated(),
            ended,
    {
        self.status = Status::Terminated;
        true
    }

    /// Ends the state if the decide reaches its anchor; a state ahead of the
    /// decide goes on. Says whether the state has ended.
    pub fn handle_decide(&mut self, decide: DecideMessage) -> (ended: bool)
        ensures
            final(self)@ == old(self)@.after_decide(decide.latest_decide_view_number),
            ended == final(self)@.terminated(),
    {
        if decide.latest_decide_view_number >= self.anchor.view {
            self.status = Status::Terminated;
        }
        self.status == Status::Terminated
    }

    /// The pending transactions that a block for `view` may hold, in the
    /// order of their arrival.
    pub fn pending_for(&self, view: u64) -> (pending: Vec<SharedTransaction<TYPES>>)
        ensures
            pending@ == self@.pending(view),
    {
        let mut pending: Vec<SharedTransaction<TYPES>> = Vec::new();
        let mut i: usize = 0;
        proof {
            reveal(Seq::filter);
            assert(self.mempool@.take(0) =~= Seq::<SharedTransaction<TYPES>>::empty());
        }
        while i < self.mempool.len()
            invariant
                i <= self.mempool.len(),
                pending@ == unclaimed(self.mempool@.take(i as int), self.seen_da@, 0, view),
            decreases self.mempool.len() - i,
        {
            proof {
                lemma_unclaimed_step(self.mempool@, self.seen_da@, 0, view, i as int);
            }
            if !is_claimed_between(&self.seen_da, &self.mempool[i].commit, 0, view) {
                pending.push(share(&self.mempool[i]));
            }
            i += 1;
        }
        proof {
            assert(self.mempool@.take(i as int) =~= self.mempool@);
        }
        pending
    }

    /// Decides what to do with a request. A request for another parent, or
    /// for a view before the anchor's, is ignored. A request that finds
    /// nothing pending is refused unless an empty block may be offered.
    /// Otherwise a block is to be built from the longest run of pending
    /// transactions, oldest first, that fits the size limit.
    pub fn handle_request(&self, request: &RequestMessage) -> (outcome: RequestOutcome<TYPES>)
        ensures
            match outcome {
                RequestOutcome::Ignored => !self@.accepts(*request),
                RequestOutcome::Refused => self@.accepts(*request) && !self@.answers(*request),
                RequestOutcome::Build { transactions } => {
                    &&& self@.answers(*request)
                    &&& is_fitting_len(
                        self@.pending(request.requested_view_number),
                        self@.max_block_size,
                        transactions@.len() as int,
                    )
                    &&& transactions@ == self@.pending(request.requested_view_number).take(
                        transactions@.len() as int,
                    )
                },
            },
    {
        if self.status == Status::Terminated || request.requested_vid_commitment
            != self.anchor.parent_commitment || request.requested_view_number < self.anchor.view {
            return RequestOutcome::Ignored;
        }
        let view = request.requested_view_number;
        let mut pending = self.pending_for(view);
        let window_open = match self.allow_empty_block_until {
            Some(until) => view <= until,
            None => false,
        };
        if pending.len() == 0 && !window_open {
            return RequestOutcome::Refused;
        }
        let ghost all = pending@;
        let limit = self.max_block_size;
        let mut total: u64 = 0;
        let mut n: usize = 0;
        proof {
            assert(all.take(0) =~= Seq::<SharedTransaction<TYPES>>::empty());
        }
        while n < pending.len()
            invariant
                pending@ == all,
                n <= pending.len(),
                total == total_size(all.take(n as int)),
                total <= limit,
            ensures
                n <= pending.len(),
                is_fitting_len(all, limit, n as int),
                pending@ == all,
            decreases pending.len() - n,
        {
            let size = pending[n].tx.encoded_len();
            proof {
                lemma_total_size_step(all, n as int);
            }
            if size > limit - total {
                break ;
            }
            total = total + size;
            n += 1;
        }
        pending.truncate(n);
        assert(pending@ =~= all.take(n as int));
        RequestOutcome::Build { transactions: pending }
    }

    /// Records a block that was built for a request at `view` with
    /// `included` transactions, and returns the offer to send back. The
    /// block and the offer go into the registry under the anchor of this
    /// state; a non-empty block opens the window for empty ones.
    pub fn finish_build(
        &mut self,
        global: &mut GlobalState<TYPES>,
        view: u64,
        included: usize,
        block: BuildBlockInfo<TYPES>,
    ) -> (response: ResponseMessage)
        ensures
            response == (ResponseMessage {
                builder_hash: block.builder_hash,
                block_size: block.block_size,
                offered_fee: block.offered_fee,
            }),
            final(self)@ == old(self)@.after_build(view, included as nat),
            final(global)@ == old(global)@.record_built(
                BlockId { hash: block.builder_hash, view: old(self)@.anchor.view },
                BlockInfo {
                    block_payload: block.block_payload,
                    metadata: block.metadata,
                    offered_fee: block.offered_fee,
                },
                old(self)@.anchor,
                response,
            ),
    {
        let response = ResponseMessage {
            builder_hash: block.builder_hash,
            block_size: block.block_size,
            offered_fee: block.offered_fee,
        };
        global.update_global_state(
            block,
            self.anchor.parent_commitment,
            self.anchor.view,
            response,
        );
        if included > 0 {
            self.allow_empty_block_until = Some(view.saturating_add(ALLOW_EMPTY_BLOCK_PERIOD));
        }
        response
    }

    /// The pending transactions that `info` does not claim, in the order of
    /// their arrival.
    fn left_over_from(&self, info: &DaProposalInfo) -> (rest: Vec<SharedTransaction<TYPES>>)
        ensures
            rest@ == left_over(self@.mempool, *info),
    {
        let mut rest: Vec<SharedTransaction<TYPES>> = Vec::new();
        let mut i: usize = 0;
        proof {
            reveal(Seq::filter);
            assert(self.mempool@.take(0) =~= Seq::<SharedTransaction<TYPES>>::empty());
        }
        while i < self.mempool.len()
            invariant
                i <= self.mempool.len(),
                rest@ == left_over(self.mempool@.take(i as int), *info),
            decreases self.mempool.len() - i,
        {
            proof {
                lemma_left_over_step(self.mempool@, *info, i as int);
            }
            if !commit_in(&info.txn_commitments, &self.mempool[i].commit) {
                rest.push(share(&self.mempool[i]));
            }
            i += 1;
        }
        proof {
            assert(self.mempool@.take(i as int) =~= self.mempool@);
        }
        rest
    }

    /// Spawns the successor for `view` if the proposals seen call for one.
    fn try_spawn(&mut self, view: u64) -> (child: Option<Self>)
        ensures
            final(self)@ == old(self)@.after_proposals(view).0,
            match child {
                Some(c) => old(self)@.after_proposals(view).1 == Some(c@),
                None => old(self)@.after_proposals(view).1 is None,
            },
            old(self)@.well_formed() ==> final(self)@.well_formed(),
            old(self)@.well_formed() ==> (child matches Some(c) ==> c@.well_formed()),
    {
        if self.status == Status::Terminated || self.anchor.view == u64::MAX || view
            != self.anchor.view + 1 {
            return None;
        }
        let (payload_commitment, proposed) = match self.seen_qc.get(&view) {
            Some(qc) => (qc.payload_commitment, qc.builder_commitment),
            None => {
                return None;
            },
        };
        let id = BuilderStateId { parent_commitment: payload_commitment, view };
        let rest = match self.seen_da.get(&view) {
            Some(da) => {
                if da.builder_commitment != proposed || id_in(&self.children, &id) {
                    return None;
                }
                proof {
                    lemma_left_over_well_formed(self.mempool@, *da);
                }
                self.left_over_from(da)
            },
            None => {
                return None;
            },
        };
        let child = BuilderState {
            anchor: id,
            mempool: rest,
            seen_da: ViewMap::new(),
            seen_qc: ViewMap::new(),
            allow_empty_block_until: self.allow_empty_block_until,
            children: Vec::new(),
            status: Status::Active,
            max_block_size: self.max_block_size,
        };
        let ghost before = self@;
        self.children.push(id);
        self.status = Status::ChildSpawned;
        self.seen_da.retain_from(self.anchor.view);
        self.seen_qc.retain_from(self.anchor.view);
        proof {
            assert(self@.seen_da =~= before.after_spawn(view).seen_da);
            assert(self@.seen_qc =~= before.after_spawn(view).seen_qc);
        }
        Some(child)
    }

    /// Takes in a data-availability proposal. If the quorum proposal for the
    /// same view was seen and names the same block, and the view follows the
    /// anchor's, the successor for that view is spawned and returned.
    pub fn handle_da_proposal(&mut self, proposal: DaProposalMessage<TYPES>) -> (child: Option<
        Self,
    >)
        ensures
            ({
                let stored = old(self)@.with_da(
                    proposal.view_number,
                    DaProposalInfo {
                        txn_commitments: proposal.txn_commitments,
                        num_nodes: proposal.num_nodes,
                        builder_commitment: proposal.builder_commitment,
                    },
                );
                &&& final(self)@ == stored.after_proposals(proposal.view_number).0
                &&& match child {
                    Some(c) => stored.after_proposals(proposal.view_number).1 == Some(c@),
                    None => stored.after_proposals(proposal.view_number).1 is None,
                }
            }),
            old(self)@.well_formed() ==> final(self)@.well_formed(),
            old(self)@.well_formed() ==> (child matches Some(c) ==> c@.well_formed()),
    {
        if self.status == Status::Terminated {
            return None;
        }
        let view = proposal.view_number;
        self.seen_da.insert(
            view,
            DaProposalInfo {
                txn_commitments: proposal.txn_commitments,
                num_nodes: proposal.num_nodes,
                builder_commitment: proposal.builder_commitment,
            },
        );
        self.try_spawn(view)
    }

    /// Takes in a quorum proposal. If the data-availability proposal for the
    /// same view was seen and names the same block, and the view follows the
    /// anchor's, the successor for that view is spawned and returned.
    pub fn handle_quorum_proposal(&mut self, proposal: QCMessage<TYPES>) -> (child: Option<Self>)
        ensures
            ({
                let stored = old(self)@.with_qc(
                    proposal.view_number,
                    QuorumProposalInfo {
                        payload_commitment: proposal.payload_commitment,
                        builder_commitment: proposal.builder_commitment,
                    },
                );
                &&& final(self)@ == stored.after_proposals(proposal.view_number).0
                &&& match child {
                    Some(c) => stored.after_proposals(proposal.view_number).1 == Some(c@),
                    None => stored.after_proposals(proposal.view_number).1 is None,
                }
            }),
            old(self)@.well_formed() ==> final(self)@.well_formed(),
            old(self)@.well_formed() ==> (child matches Some(c) ==> c@.well_formed()),
    {
        if self.status == Status::Terminated {
            return None;
        }
        let view = proposal.view_number;
        self.seen_qc.insert(
            view,
            QuorumProposalInfo {
                payload_commitment: proposal.payload_commitment,
                builder_commitment: proposal.builder_commitment,
            },
        );
        self.try_spawn(view)
    }
}

} // verus!
