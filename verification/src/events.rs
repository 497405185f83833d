//! What the builder makes of the events that consensus sends.
//!
//! Each handler takes what an event carries, together with the outcome of the
//! checks that only the key scheme can make, and returns the message that is
//! to go out on the bus of the builder states, if any.

use vstd::prelude::*;
use std::sync::Arc;
use std::time::Instant;
use sha2::{Digest, Sha256};
use crate::builder_state::{
    lemma_filter_step, DaProposalMessage, DecideMessage, QCMessage, SharedTransaction,
    TransactionSource,
};
use crate::commitment::{BuilderCommitment, TxCommitment, VidCommitment};
use crate::service::ReceivedTransaction;
use crate::types::{BuilderTransaction, BuilderTypes};

verus! {

/// Whether a builder for `namespace_id` takes a transaction of `namespace`:
/// a builder without a namespace takes every transaction.
pub open spec fn in_namespace(namespace_id: Option<u64>, namespace: u64) -> bool {
    match namespace_id {
        Some(id) => namespace == id,
        None => true,
    }
}

/// The transactions of `txns` that a builder for `namespace_id` takes, in
/// the order of `txns`.
pub open spec fn taken<T: BuilderTransaction>(txns: Seq<T>, namespace_id: Option<u64>) -> Seq<T> {
    txns.filter(|t: T| in_namespace(namespace_id, t.namespace()))
}

/// The commitments of `txns`, in order.
pub open spec fn commitments<T: BuilderTransaction>(txns: Seq<T>) -> Seq<TxCommitment> {
    txns.map_values(|t: T| t.commitment())
}

/// `tx` as a builder state receives it.
pub open spec fn stamped<TYPES: BuilderTypes>(
    tx: TYPES::Transaction,
    source: TransactionSource,
    time_in: Instant,
) -> ReceivedTransaction<TYPES> {
    ReceivedTransaction { tx, commit: tx.commitment(), source, time_in }
}

/// What the namespace filter makes of one more transaction.
pub proof fn lemma_taken_step<T: BuilderTransaction>(
    txns: Seq<T>,
    namespace_id: Option<u64>,
    i: int,
)
    requires
        0 <= i < txns.len(),
    ensures
        taken(txns.take(i + 1), namespace_id) == if in_namespace(
            namespace_id,
            txns[i].namespace(),
        ) {
            taken(txns.take(i), namespace_id).push(txns[i])
        } else {
            taken(txns.take(i), namespace_id)
        },
{
    lemma_filter_step(txns, |t: T| in_namespace(namespace_id, t.namespace()), i);
}

/// The same values in the opposite order.
fn reversed<T>(list: Vec<T>) -> (turned: Vec<T>)
    ensures
        turned@.len() == list@.len(),
        forall|j: int| 0 <= j < turned@.len() ==> turned@[j] == list@[list@.len() - 1 - j],
{
    let ghost all = list@;
    let mut rest = list;
    let mut turned: Vec<T> = Vec::new();
    while rest.len() > 0
        invariant
            rest@ == all.take(rest@.len() as int),
            rest@.len() <= all.len(),
            turned@.len() == all.len() - rest@.len(),
            forall|j: int| 0 <= j < turned@.len() ==> turned@[j] == all[all.len() - 1 - j],
        decreases rest.len(),
    {
        let value = rest.pop().unwrap();
        turned.push(value);
    }
    turned
}

/// Takes in transactions from a client or from consensus: those of other
/// namespaces are dropped, the others are stamped with their commitment,
/// their source and the time of arrival. Returns what is to be broadcast to
/// the builder states, and the commitments of the same transactions.
pub fn handle_received_txns<TYPES: BuilderTypes>(
    txns: Vec<TYPES::Transaction>,
    source: TransactionSource,
    namespace_id: Option<u64>,
    time_in: Instant,
) -> (out: (Vec<SharedTransaction<TYPES>>, Vec<TxCommitment>))
    ensures
        out.0@.len() == taken(txns@, namespace_id).len(),
        forall|i: int|
            0 <= i < out.0@.len() ==> *#[trigger] out.0@[i] == stamped::<TYPES>(
                taken(txns@, namespace_id)[i],
                source,
                time_in,
            ),
        out.1@ == commitments(taken(txns@, namespace_id)),
{
    let ghost all = txns@;
    let mut received: Vec<SharedTransaction<TYPES>> = Vec::new();
    let mut results: Vec<TxCommitment> = Vec::new();
    let mut rest = reversed(txns);
    let ghost mut done: int = 0;
    proof {
        reveal(Seq::filter);
        assert(all.take(0) =~= Seq::<TYPES::Transaction>::empty());
        assert(commitments(taken(all.take(0), namespace_id)) =~= Seq::<
            TxCommitment,
        >::empty());
    }
    while rest.len() > 0
        invariant
            0 <= done <= all.len(),
            rest@.len() == all.len() - done,
            forall|j: int| 0 <= j < rest@.len() ==> rest@[j] == all[all.len() - 1 - j],
            received@.len() == taken(all.take(done), namespace_id).len(),
            forall|i: int|
                0 <= i < received@.len() ==> *#[trigger] received@[i] == stamped::<TYPES>(
                    taken(all.take(done), namespace_id)[i],
                    source,
                    time_in,
                ),
            results@ == commitments(taken(all.take(done), namespace_id)),
        decreases rest.len(),
    {
        let tx = rest.pop().unwrap();
        proof {
            assert(tx == all[done]);
            lemma_taken_step(all, namespace_id, done);
        }
        let keep = match namespace_id {
            Some(id) => tx.namespace_id() == id,
            None => true,
        };
        if keep {
            let commit = tx.commit();
            let ghost before = results@;
            results.push(commit);
            received.push(Arc::new(ReceivedTransaction { tx, commit, source, time_in }));
            proof {
                let now = taken(all.take(done + 1), namespace_id);
                assert(results@ =~= commitments(now));
            }
        }
        proof {
            done = done + 1;
        }
    }
    proof {
        assert(all.take(done) =~= all);
    }
    (received, results)
}

/// The SHA-256 digest of a byte string.
pub uninterp spec fn sha256(bytes: Seq<u8>) -> Seq<u8>;

/// Computes the SHA-256 digest of `bytes`.
///
/// Wraps `sha2::Sha256::digest`. The digest depends on the bytes alone and is
/// 32 bytes long; nothing else is claimed of it.
#[verifier::external_body]
fn sha256_digest(bytes: &Vec<u8>) -> (digest: [u8; 32])
    ensures
        digest@ == sha256(bytes@),
{
    Sha256::digest(bytes).into()
}

/// The digest that the leader signs when it sends a data-availability
/// proposal: the SHA-256 digest of the encoded transactions.
pub fn da_proposal_digest(encoded_transactions: &Vec<u8>) -> (digest: [u8; 32])
    ensures
        digest@ == sha256(encoded_transactions@),
{
    sha256_digest(encoded_transactions)
}

/// The number of nodes that a proposal is spread over: the number of nodes
/// with stake, and one where the committee reports none.
pub fn node_count(total_nodes: usize) -> (count: usize)
    ensures
        count == if total_nodes == 0 {
            1
        } else {
            total_nodes
        },
{
    if total_nodes == 0 {
        1
    } else {
        total_nodes
    }
}

/// Makes the message for the builder states out of a data-availability
/// proposal. The caller says whether the sender is the leader of the view
/// and whether its signature over [`da_proposal_digest`] validated; without
/// both there is no message. `transactions` are the transactions decoded
/// from the proposal and `builder_commitment` is the commitment of its
/// payload. The message names the transactions that the builder takes: all
/// of them if it has no namespace, else those of its own namespace.
pub fn handle_da_event<TYPES: BuilderTypes>(
    view_number: u64,
    transactions: &Vec<TYPES::Transaction>,
    builder_commitment: BuilderCommitment,
    sender: TYPES::SignatureKey,
    sender_is_leader: bool,
    signature_valid: bool,
    total_nodes: usize,
    namespace_id: Option<u64>,
) -> (message: Option<DaProposalMessage<TYPES>>)
    ensures
        message is Some <==> sender_is_leader && signature_valid,
        message matches Some(m) ==> {
            &&& m.view_number == view_number
            &&& m.txn_commitments@ == commitments(taken(transactions@, namespace_id))
            &&& m.num_nodes == total_nodes
            &&& m.sender == sender
            &&& m.builder_commitment == builder_commitment
        },
{
    if !(sender_is_leader && signature_valid) {
        return None;
    }
    let mut txn_commitments: Vec<TxCommitment> = Vec::new();
    let mut i: usize = 0;
    proof {
        reveal(Seq::filter);
        assert(transactions@.take(0) =~= Seq::<TYPES::Transaction>::empty());
        assert(commitments(taken(transactions@.take(0), namespace_id)) =~= Seq::<
            TxCommitment,
        >::empty());
    }
    while i < transactions.len()
        invariant
            i <= transactions.len(),
            txn_commitments@ == commitments(taken(transactions@.take(i as int), namespace_id)),
        decreases transactions.len() - i,
    {
        proof {
            lemma_taken_step(transactions@, namespace_id, i as int);
        }
        let keep = match namespace_id {
            Some(id) => transactions[i].namespace_id() == id,
            None => true,
        };
        if keep {
            txn_commitments.push(transactions[i].commit());
            proof {
                assert(txn_commitments@ =~= commitments(
                    taken(transactions@.take(i + 1), namespace_id),
                ));
            }
        }
        i += 1;
    }
    proof {
        assert(transactions@.take(i as int) =~= transactions@);
    }
    Some(
        DaProposalMessage {
            view_number,
            txn_commitments,
            num_nodes: total_nodes,
            sender,
            builder_commitment,
        },
    )
}

/// Makes the message for the builder states out of a quorum proposal. The
/// caller says whether the sender is the leader of the view and whether its
/// signature over the proposed leaf validated; without both there is no
/// message.
pub fn handle_qc_event<TYPES: BuilderTypes>(
    view_number: u64,
    payload_commitment: VidCommitment,
    builder_commitment: BuilderCommitment,
    sender: TYPES::SignatureKey,
    sender_is_leader: bool,
    signature_valid: bool,
) -> (message: Option<QCMessage<TYPES>>)
    ensures
        message is Some <==> sender_is_leader && signature_valid,
        message matches Some(m) ==> {
            &&& m.view_number == view_number
            &&& m.payload_commitment == payload_commitment
            &&& m.builder_commitment == builder_commitment
            &&& m.sender == sender
        },
{
    if sender_is_leader && signature_valid {
        Some(QCMessage { view_number, payload_commitment, builder_commitment, sender })
    } else {
        None
    }
}

/// Makes the message for the builder states out of a decide.
pub fn handle_decide_event(latest_decide_view_number: u64) -> (message: DecideMessage)
    ensures
        message.latest_decide_view_number == latest_decide_view_number,
{
    DecideMessage { latest_decide_view_number }
}

/// Number of views by which a bid runs ahead of the view that just ended.
pub const BID_VIEWS_AHEAD: u64 = 3;

/// The view that the builder bids for when `view_number` has ended.
pub fn handle_view_finished(view_number: u64) -> (bid_view: u64)
    requires
        view_number + BID_VIEWS_AHEAD <= u64::MAX,
    ensures
        bid_view == view_number + BID_VIEWS_AHEAD,
{
    view_number + BID_VIEWS_AHEAD
}

} // verus!
