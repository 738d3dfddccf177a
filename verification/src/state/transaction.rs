//! A proposed transaction of a multi-sig and its tally of votes per stratum.

use vstd::prelude::*;
use vstd::utf8::encode_utf8;
use crate::key::Pubkey;

verus! {

/// Longest transaction description, in bytes.
pub const MAX_DESCRIPTION_LEN: usize = 140;

/// Where a transaction stands in its life.
#[derive(Clone, Copy, Debug, PartialEq, Eq, Structural)]
pub enum TransactionStatus {
    Initiated,
    Vote,
    Accepted,
    Rejected,
    Executed,
}

/// A transaction proposed to a multi-sig.
#[derive(Clone, Debug)]
pub struct Transaction {
    /// The address of the multi-sig wallet.
    pub multi_sig: Pubkey,
    /// The address of the owner who created the transaction.
    pub owner: Pubkey,
    /// The transaction number in the multi-sig.
    pub transaction_num: u32,
    /// The version of the multi-sig that the transaction was made for.
    pub version: u32,
    /// Transaction status.
    pub status: TransactionStatus,
    /// The bump of the transaction account's address.
    pub bump: u8,
    /// The number of owners of each stratum who accepted the transaction.
    pub accepted: Vec<u16>,
    /// The number of owners of each stratum who rejected the transaction.
    pub rejected: Vec<u16>,
    /// The description of the transaction.
    pub description: String,
}

/// A transaction as the contracts see it.
#[verifier::ext_equal]
pub struct TransactionView {
    pub multi_sig: Pubkey,
    pub owner: Pubkey,
    pub transaction_num: u32,
    pub version: u32,
    pub status: TransactionStatus,
    pub bump: u8,
    pub accepted: Seq<u16>,
    pub rejected: Seq<u16>,
    pub description: Seq<char>,
}

impl View for Transaction {
    type V = TransactionView;

    open spec fn view(&self) -> TransactionView {
        TransactionView {
            multi_sig: self.multi_sig,
            owner: self.owner,
            transaction_num: self.transaction_num,
            version: self.version,
            status: self.status,
            bump: self.bump,
            accepted: self.accepted@,
            rejected: self.rejected@,
            description: self.description@,
        }
    }
}

/// Bytes that a transaction account for this many strata and this description takes.
pub open spec fn transaction_space(stratum_count: int, description: Seq<char>) -> int {
    8 + 32 + 32 + 4 + 4 + 1 + 1 + 4 + stratum_count * 2 + 4 + stratum_count * 2 + 4 + encode_utf8(
        description,
    ).len()
}

/// `n` zero counters.
pub open spec fn zero_tally(n: int) -> Seq<u16> {
    Seq::new(n as nat, |i: int| 0u16)
}

/// `n` zero counters.
fn zeros(n: usize) -> (v: Vec<u16>)
    ensures
        v@ == zero_tally(n as int),
{
    let mut v: Vec<u16> = Vec::new();
    let mut i: usize = 0;
    while i < n
        invariant
            0 <= i <= n,
            v@ =~= zero_tally(i as int),
        decreases n - i,
    {
        v.push(0);
        i = i + 1;
    }
    v
}

impl Transaction {
    /// Bytes that a transaction account for this many strata and this description takes.
    pub fn len(stratum_count: usize, description: String) -> (size: usize)
        requires
            transaction_space(stratum_count as int, description@) <= usize::MAX,
        ensures
            size == transaction_space(stratum_count as int, description@),
    {
        8 + 32 + 32 + 4 + 4 + 1 + 1 + 4 + stratum_count * 2 + 4 + stratum_count * 2 + 4
            + description.as_str().len()
    }

    /// A new transaction, open for its instructions, with no votes in any of
    /// `stratum_count` strata.
    pub fn new(
        multi_sig: Pubkey,
        owner: Pubkey,
        transaction_num: u32,
        bump: u8,
        version: u32,
        stratum_count: usize,
        description: String,
    ) -> (t: Transaction)
        ensures
            t.multi_sig == multi_sig,
            t.owner == owner,
            t.transaction_num == transaction_num,
            t.bump == bump,
            t.version == version,
            t.status == TransactionStatus::Initiated,
            t@.accepted == zero_tally(stratum_count as int),
            t@.rejected == zero_tally(stratum_count as int),
            t@.description == description@,
    {
        let accepted = zeros(stratum_count);
        let rejected = zeros(stratum_count);
        Transaction {
            multi_sig,
            owner,
            transaction_num,
            bump,
            version,
            status: TransactionStatus::Initiated,
            accepted,
            rejected,
            description,
        }
    }
}

} // verus!
