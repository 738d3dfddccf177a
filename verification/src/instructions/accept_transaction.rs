//! Accepting a transaction once every active stratum has reached its threshold.

use vstd::prelude::*;
use crate::errors::Errors;
use crate::key::{Pubkey, keys_sorted};
use crate::instructions::account_checks::{check_owner, check_transaction, first_error};
use crate::instructions::vote_transaction::vote_error;
use crate::state::multisig::{MultiSig, MultiSigView, outcome};
use crate::state::transaction::{Transaction, TransactionStatus, TransactionView};

verus! {

/// Every active stratum has at least as many acceptances as its threshold.
pub open spec fn thresholds_met(tx: TransactionView, ms: MultiSigView) -> bool {
    forall|i: int|
        0 <= i < ms.strata.len() && (#[trigger] ms.strata[i]).active ==> tx.accepted[i]
            >= ms.strata[i].m
}

/// Checking the thresholds in order would reach an active stratum for which the
/// transaction has no counter, every active stratum before it having reached
/// its threshold.
pub open spec fn tally_runs_short(tx: TransactionView, ms: MultiSigView) -> bool {
    exists|i: int|
        0 <= i < ms.strata.len() && (#[trigger] ms.strata[i]).active && i >= tx.accepted.len()
            && forall|j: int|
            0 <= j < i && (#[trigger] ms.strata[j]).active ==> j < tx.accepted.len()
                && tx.accepted[j] >= ms.strata[j].m
}

/// First failure of accepting a transaction.
pub open spec fn accept_error(
    tx: TransactionView,
    ms: MultiSigView,
    ms_key: Pubkey,
    signer: Pubkey,
    owner_stratum: int,
) -> Option<Errors> {
    first_error(
        vote_error(tx, ms, ms_key, signer, owner_stratum),
        if !thresholds_met(tx, ms) {
            Some(Errors::InsufficientVotes)
        } else {
            None
        },
    )
}

/// Marks a transaction accepted when every active stratum has reached its
/// threshold.
pub fn accept_transaction_handler(
    transaction: &mut Transaction,
    multi_sig: &MultiSig,
    multi_sig_key: Pubkey,
    signer: Pubkey,
    owner_stratum: u8,
) -> (r: Result<(), Errors>)
    requires
        owner_stratum < multi_sig.strata.len() ==> keys_sorted(
            multi_sig@.strata[owner_stratum as int].owners,
        ),
        vote_error(old(transaction)@, multi_sig@, multi_sig_key, signer, owner_stratum as int) is None
            ==> !tally_runs_short(old(transaction)@, multi_sig@),
    ensures
        r == outcome(
            accept_error(old(transaction)@, multi_sig@, multi_sig_key, signer, owner_stratum as int),
        ),
        r is Ok ==> final(transaction)@ =~~= (TransactionView {
            status: TransactionStatus::Accepted,
            ..old(transaction)@
        }),
        r is Err ==> final(transaction)@ =~~= old(transaction)@,
{
    match check_transaction(
        transaction,
        &multi_sig_key,
        multi_sig.version,
        TransactionStatus::Vote,
        Errors::NotVoteStatus,
        true,
    ) {
        Err(e) => {
            return Err(e);
        },
        Ok(()) => {},
    }
    match check_owner(multi_sig, &signer, owner_stratum) {
        Err(e) => {
            return Err(e);
        },
        Ok(()) => {},
    }
    let mut index: usize = 0;
    while index < multi_sig.strata.len()
        invariant
            0 <= index <= multi_sig.strata.len(),
            transaction@ == old(transaction)@,
            !tally_runs_short(transaction@, multi_sig@),
            vote_error(transaction@, multi_sig@, multi_sig_key, signer, owner_stratum as int) is None,
            forall|i: int|
                0 <= i < index && (#[trigger] multi_sig@.strata[i]).active ==> i
                    < transaction@.accepted.len() && transaction@.accepted[i]
                    >= multi_sig@.strata[i].m,
        decreases multi_sig.strata.len() - index,
    {
        if multi_sig.strata[index].active {
            proof {
                if index >= transaction.accepted.len() {
                    assert(multi_sig@.strata[index as int].active);
                    assert(tally_runs_short(transaction@, multi_sig@));
                }
            }
            if !(transaction.accepted[index] >= multi_sig.strata[index].m) {
                proof {
                    assert(multi_sig@.strata[index as int].active);
                    assert(!thresholds_met(transaction@, multi_sig@));
                }
                return Err(Errors::InsufficientVotes);
            }
        }
        index = index + 1;
    }
    transaction.status = TransactionStatus::Accepted;
    Ok(())
}

} // verus!
