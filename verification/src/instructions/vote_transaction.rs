//! An owner's vote for or against a transaction.

use vstd::prelude::*;
use crate::errors::Errors;
use crate::key::{Pubkey, keys_sorted};
use crate::instructions::account_checks::{
    check_owner, check_transaction, first_error, owner_error, transaction_error,
};
use crate::state::multisig::{MultiSig, MultiSigView, StratumView, stratum_wf};
use crate::state::transaction::{Transaction, TransactionStatus, TransactionView};
use crate::state::vote_record::VoteRecord;

verus! {

/// First failure of the checks of a vote: the transaction belongs to the
/// multi-sig, is open for votes and current, and the signer is an owner of the
/// stratum it votes in.
pub open spec fn vote_error(
    tx: TransactionView,
    ms: MultiSigView,
    ms_key: Pubkey,
    signer: Pubkey,
    owner_stratum: int,
) -> Option<Errors> {
    first_error(
        transaction_error(
            tx,
            ms_key,
            ms.version,
            TransactionStatus::Vote,
            Errors::NotVoteStatus,
            true,
        ),
        owner_error(ms, signer, owner_stratum),
    )
}

/// How many rejections a stratum can take and still reach its threshold.
pub open spec fn max_rejections(st: StratumView) -> int {
    st.owners.len() - st.m
}

/// The transaction after one vote in stratum `s`: the count of its side goes up
/// by one, and once the rejections exceed what the stratum can take, the
/// transaction is rejected.
pub open spec fn vote_counted(
    tx: TransactionView,
    ms: MultiSigView,
    s: int,
    is_accept: bool,
) -> TransactionView {
    if is_accept {
        TransactionView { accepted: tx.accepted.update(s, (tx.accepted[s] + 1) as u16), ..tx }
    } else {
        TransactionView {
            rejected: tx.rejected.update(s, (tx.rejected[s] + 1) as u16),
            status: if tx.rejected[s] + 1 > max_rejections(ms.strata[s]) {
                TransactionStatus::Rejected
            } else {
                tx.status
            },
            ..tx
        }
    }
}

/// Counts the signer's vote in stratum `owner_stratum` and returns the record
/// that keeps the signer from voting twice.
pub fn vote_transaction_handler(
    transaction: &mut Transaction,
    multi_sig: &MultiSig,
    multi_sig_key: Pubkey,
    transaction_key: Pubkey,
    signer: Pubkey,
    owner_stratum: u8,
    is_accept: bool,
) -> (r: Result<VoteRecord, Errors>)
    requires
        owner_stratum < multi_sig.strata.len() ==> keys_sorted(
            multi_sig@.strata[owner_stratum as int].owners,
        ) && stratum_wf(multi_sig@.strata[owner_stratum as int]),
        vote_error(old(transaction)@, multi_sig@, multi_sig_key, signer, owner_stratum as int) is None
            ==> owner_stratum < old(transaction).accepted.len() && owner_stratum < old(
            transaction,
        ).rejected.len() && (is_accept ==> old(transaction).accepted@[owner_stratum as int]
            < u16::MAX) && (!is_accept ==> old(transaction).rejected@[owner_stratum as int]
            < u16::MAX),
    ensures
        vote_error(old(transaction)@, multi_sig@, multi_sig_key, signer, owner_stratum as int) matches Some(e)
            ==> r == Err::<VoteRecord, Errors>(e) && final(transaction)@ =~~= old(transaction)@,
        vote_error(old(transaction)@, multi_sig@, multi_sig_key, signer, owner_stratum as int) is None
            ==> r is Ok,
        r matches Ok(record) ==> record.transaction == transaction_key && record.owner == signer
            && final(transaction)@ =~~= vote_counted(
            old(transaction)@,
            multi_sig@,
            owner_stratum as int,
            is_accept,
        ),
{
    match check_transaction(
        transaction,
        &multi_sig_key,
        multi_sig.version,
        TransactionStatus::Vote,
        Errors::NotVoteStatus,
        true,
    ) {
        Err(e) => {
            return Err(e);
        },
        Ok(()) => {},
    }
    match check_owner(multi_sig, &signer, owner_stratum) {
        Err(e) => {
            return Err(e);
        },
        Ok(()) => {},
    }
    let s_index = owner_stratum as usize;
    let target_stratum_len = multi_sig.strata[s_index].owners.len() as u16;
    let target_stratum_m = multi_sig.strata[s_index].m;
    if is_accept {
        transaction.accepted[s_index] = transaction.accepted[s_index] + 1;
    } else {
        transaction.rejected[s_index] = transaction.rejected[s_index] + 1;
        let max_rejection = target_stratum_len - target_stratum_m;
        if transaction.rejected[s_index] > max_rejection {
            transaction.status = TransactionStatus::Rejected;
        }
    }
    Ok(VoteRecord::new(transaction_key, signer))
}

} // verus!
