//! The bid that the builder places after each view.
//!
//! A bid names the account that pays, the amount, the view that is bid for,
//! the namespaces, and the address at which the bundle can be fetched. The
//! account is derived from a seed, and the bid is signed with the key that is
//! derived along with it; both are the work of the key scheme.

use vstd::prelude::*;
use ethers::types::U256;
use url::Url;
use crate::error::BuildError;

verus! {

/// `url::Url`, an address on the web. A bid carries the address and never
/// looks into it.
#[verifier::external_type_specification]
#[verifier::external_body]
pub struct ExUrl(Url);

/// `ethers::types::U256`, an unsigned 256-bit number. A bid carries its
/// amount as such a number and never computes with it.
#[verifier::external_type_specification]
#[verifier::external_body]
pub struct ExU256(U256);

/// What a bid is made from.
#[derive(Clone, Copy, Debug)]
pub struct BidConfig {
    account_seed: [u8; 32],
    account_index: u64,
    bid_amount: U256,
}

impl BidConfig {
    pub closed spec fn seed(&self) -> [u8; 32] {
        self.account_seed
    }

    pub closed spec fn index(&self) -> u64 {
        self.account_index
    }

    pub closed spec fn amount(&self) -> U256 {
        self.bid_amount
    }

    pub fn new(account_seed: [u8; 32], account_index: u64, bid_amount: U256) -> (config: Self)
        ensures
            config.seed() == account_seed,
            config.index() == account_index,
            config.amount() == bid_amount,
    {
        BidConfig { account_seed, account_index, bid_amount }
    }

    /// The seed from which the bidding account is derived.
    pub fn account_seed(&self) -> (seed: [u8; 32])
        ensures
            seed == self.seed(),
    {
        self.account_seed
    }

    /// The index of the bidding account among those derived from the seed.
    pub fn account_index(&self) -> (index: u64)
        ensures
            index == self.index(),
    {
        self.account_index
    }

    /// The amount that is bid.
    pub fn bid_amount(&self) -> (amount: U256)
        ensures
            amount == self.amount(),
    {
        self.bid_amount
    }
}

/// A bid before it is signed. `A` is the type of an account.
pub struct BidTxBody<A> {
    /// The account that pays for the bid.
    pub account: A,
    pub bid_amount: U256,
    /// The view that is bid for.
    pub view: u64,
    /// The namespaces that are bid for.
    pub namespaces: Vec<u64>,
    /// Where the bundle for the view can be fetched.
    pub url: Url,
}

/// A signed bid. `S` is the type of a signature.
pub struct BidTx<A, S> {
    pub body: BidTxBody<A>,
    pub signature: S,
}

/// Makes the bid for `view_number` and the one namespace `namespace`, to be
/// paid by `account`, the account derived from the seed and index of
/// `bid_config`.
pub fn from_bid_config<A>(
    bid_config: BidConfig,
    account: A,
    view_number: u64,
    bid_base_url: Url,
    namespace: u32,
) -> (body: BidTxBody<A>)
    ensures
        body.account == account,
        body.bid_amount == bid_config.amount(),
        body.view == view_number,
        body.namespaces@ == seq![namespace as u64],
        body.url == bid_base_url,
{
    let mut namespaces: Vec<u64> = Vec::new();
    namespaces.push(namespace as u64);
    BidTxBody {
        account,
        bid_amount: bid_config.bid_amount,
        view: view_number,
        namespaces,
        url: bid_base_url,
    }
}

/// Puts the signature on a bid. A bid that could not be signed is an error.
pub fn signed_bid<A, S>(body: BidTxBody<A>, signature: Option<S>) -> (bid: Result<
    BidTx<A, S>,
    BuildError,
>)
    ensures
        match signature {
            Some(s) => bid == Ok::<BidTx<A, S>, BuildError>(BidTx { body, signature: s }),
            None => bid == Err::<BidTx<A, S>, BuildError>(BuildError::BidSigningFailed),
        },
{
    match signature {
        Some(signature) => Ok(BidTx { body, signature }),
        None => Err(BuildError::BidSigningFailed),
    }
}

/// What becomes of a bid: it is placed when the solver was reached and took
/// it. A solver that cannot be reached is reported before a bid that was not
/// taken.
pub fn bid_outcome(solver_reached: bool, bid_taken: bool) -> (outcome: Result<(), BuildError>)
    ensures
        outcome == if !solver_reached {
            Err::<(), BuildError>(BuildError::SolverUnreachable)
        } else if !bid_taken {
            Err::<(), BuildError>(BuildError::BidSubmissionFailed)
        } else {
            Ok::<(), BuildError>(())
        },
{
    if !solver_reached {
        Err(BuildError::SolverUnreachable)
    } else if !bid_taken {
        Err(BuildError::BidSubmissionFailed)
    } else {
        Ok(())
    }
}

} // verus!
