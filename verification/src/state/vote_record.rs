//! The record that an owner voted on a transaction.

use vstd::prelude::*;
use crate::key::Pubkey;

verus! {

/// One owner's vote on one transaction; its existence stops a second vote.
#[derive(Clone, Copy, Debug)]
pub struct VoteRecord {
    pub transaction: Pubkey,
    pub owner: Pubkey,
}

impl VoteRecord {
    /// Bytes that a vote record account takes.
    pub const LEN: usize = 8 + 32 + 32;

    /// The record of `owner`'s vote on `transaction`.
    pub fn new(transaction: Pubkey, owner: Pubkey) -> (r: VoteRecord)
        ensures
            r.transaction == transaction,
            r.owner == owner,
    {
        VoteRecord { transaction, owner }
    }
}

} // verus!
