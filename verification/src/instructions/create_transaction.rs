//! Proposing a transaction to a multi-sig.

use vstd::prelude::*;
use vstd::utf8::encode_utf8;
use crate::errors::Errors;
use crate::key::{Pubkey, keys_sorted};
use crate::instructions::account_checks::{check_owner, first_error, owner_error};
use crate::state::multisig::{MultiSig, MultiSigView, outcome};
use crate::state::transaction::{
    MAX_DESCRIPTION_LEN, Transaction, TransactionStatus, TransactionView, zero_tally,
};

verus! {

/// First failure of proposing a transaction with this description, signed by
/// `signer` as an owner of stratum `owner_stratum`.
pub open spec fn create_transaction_error(
    ms: MultiSigView,
    signer: Pubkey,
    owner_stratum: int,
    description: Seq<char>,
) -> Option<Errors> {
    first_error(
        owner_error(ms, signer, owner_stratum),
        if encode_utf8(description).len() > MAX_DESCRIPTION_LEN {
            Some(Errors::InvalidDescriptionLen)
        } else {
            None
        },
    )
}

/// The new transaction: numbered by the multi-sig's count, made for its current
/// version, with a zero tally for each of its strata.
pub open spec fn proposed_transaction(
    ms: MultiSigView,
    ms_key: Pubkey,
    signer: Pubkey,
    bump: u8,
    description: Seq<char>,
) -> TransactionView {
    TransactionView {
        multi_sig: ms_key,
        owner: signer,
        transaction_num: ms.transaction_count,
        version: ms.version,
        status: TransactionStatus::Initiated,
        bump,
        accepted: zero_tally(ms.strata.len() as int),
        rejected: zero_tally(ms.strata.len() as int),
        description,
    }
}

/// Checks the signer and the description of a proposed transaction.
pub fn check_create_transaction(
    multi_sig: &MultiSig,
    signer: &Pubkey,
    owner_stratum: u8,
    description: &String,
) -> (r: Result<(), Errors>)
    requires
        owner_stratum < multi_sig.strata.len() ==> keys_sorted(
            multi_sig@.strata[owner_stratum as int].owners,
        ),
        encode_utf8(description@).len() <= usize::MAX,
    ensures
        r == outcome(create_transaction_error(multi_sig@, *signer, owner_stratum as int, description@)),
{
    match check_owner(multi_sig, signer, owner_stratum) {
        Err(e) => {
            return Err(e);
        },
        Ok(()) => {},
    }
    let description_str = description.as_str();
    let description_len = description_str.len();
    proof {
        assert(description_str@ == description@);
    }
    if !(MAX_DESCRIPTION_LEN >= description_len) {
        return Err(Errors::InvalidDescriptionLen);
    }
    Ok(())
}

/// Proposes a transaction: checks the signer and the description, numbers the
/// transaction with the multi-sig's transaction count and counts it.
pub fn create_transaction_handler(
    multi_sig: &mut MultiSig,
    multi_sig_key: Pubkey,
    signer: Pubkey,
    owner_stratum: u8,
    bump: u8,
    description: String,
) -> (r: Result<Transaction, Errors>)
    requires
        owner_stratum < old(multi_sig).strata.len() ==> keys_sorted(
            old(multi_sig)@.strata[owner_stratum as int].owners,
        ),
        encode_utf8(description@).len() <= usize::MAX,
        create_transaction_error(old(multi_sig)@, signer, owner_stratum as int, description@) is None
            ==> old(multi_sig).transaction_count < u32::MAX,
    ensures
        create_transaction_error(old(multi_sig)@, signer, owner_stratum as int, description@) matches Some(e)
            ==> r == Err::<Transaction, Errors>(e) && final(multi_sig)@ =~~= old(multi_sig)@,
        create_transaction_error(old(multi_sig)@, signer, owner_stratum as int, description@) is None
            ==> r is Ok,
        r matches Ok(t) ==> t@ =~~= proposed_transaction(
            old(multi_sig)@,
            multi_sig_key,
            signer,
            bump,
            description@,
        ) && final(multi_sig)@ =~~= (MultiSigView {
            transaction_count: (old(multi_sig).transaction_count + 1) as u32,
            ..old(multi_sig)@
        }),
{
    match check_create_transaction(multi_sig, &signer, owner_stratum, &description) {
        Err(e) => {
            return Err(e);
        },
        Ok(()) => {},
    }
    let transaction_num = multi_sig.transaction_count;
    let version = multi_sig.version;
    let stratum_count = multi_sig.strata.len();
    multi_sig.transaction_count = multi_sig.transaction_count + 1;
    let t = Transaction::new(
        multi_sig_key,
        signer,
        transaction_num,
        bump,
        version,
        stratum_count,
        description,
    );
    proof {
        assert(stratum_count == old(multi_sig)@.strata.len());
    }
    Ok(t)
}

} // verus!
