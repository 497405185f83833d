//! The types that the builder carries through without looking inside.

use vstd::prelude::*;
use crate::commitment::TxCommitment;

verus! {

/// What the builder has to know of a transaction: the namespace it belongs
/// to, its content address and its size. Each answer is a fixed property of
/// the transaction.
pub trait BuilderTransaction {
    /// The namespace the transaction belongs to.
    spec fn namespace(&self) -> u64;

    /// The content address of the transaction.
    spec fn commitment(&self) -> TxCommitment;

    /// The number of bytes the transaction takes up in a block.
    spec fn size(&self) -> u64;

    fn namespace_id(&self) -> (id: u64)
        ensures
            id == self.namespace(),
    ;

    fn commit(&self) -> (c: TxCommitment)
        ensures
            c == self.commitment(),
    ;

    fn encoded_len(&self) -> (n: u64)
        ensures
            n == self.size(),
    ;
}

/// The family of types a deployment plugs into the builder. The builder
/// stores, moves and hands back values of these types and never inspects them
/// beyond what [`BuilderTransaction`] offers.
pub trait BuilderTypes {
    /// A transaction as submitters and consensus hand it in.
    type Transaction: BuilderTransaction;

    /// An encoded block payload.
    type BlockPayload;

    /// The metadata that belongs to a payload.
    type Metadata;

    /// What travels on the channel into a builder state.
    type Message;

    /// The key by which consensus nodes sign.
    type SignatureKey;

    /// The builder's public key.
    type BuilderSignatureKey;

    /// The builder's private key.
    type BuilderPrivateKey;

    /// A signature made with the builder's private key.
    type BuilderSignature;
}

} // verus!
