//! Properties that hold across the wallet's instructions.

use vstd::prelude::*;
use crate::key::Pubkey;
use crate::instructions::accept_transaction::{accept_error, thresholds_met};
use crate::instructions::account_checks::owner_error;
use crate::instructions::add_tx_data::tx_data_edit_error;
use crate::instructions::change_multisig::{change_error, changed};
use crate::instructions::change_multisig_realloc::{realloc_change_error, realloc_changed};
use crate::instructions::create_transaction::{create_transaction_error, proposed_transaction};
use crate::instructions::create_tx_data::{create_tx_data_error, opened_for_vote};
use crate::instructions::execute_transaction::execute_error;
use crate::instructions::vote_transaction::{vote_counted, vote_error};
use crate::key::{key_le, key_order, keys_sorted, lemma_key_le_order, lemma_key_order_total};
use crate::state::multisig::{
    ChangeReallocType, MultiSigView, add_owner_error, key_position, lemma_sorted_keys_facts, lemma_without_one,
    owner_added, owner_removed, remove_owner_error, stratum_wf,
};
use crate::state::transaction::{TransactionStatus, TransactionView};
use crate::state::tx_data::{
    InstructionData, TransactionType, VersionedInstructionData, instructions_view, legacy_sizes,
    transaction_type_space, versioned_sizes, versioned_view,
};

use crate::instructions::create_versioned_tx_data::resolved;
use crate::instructions::create_multisig::created_multisig;
use crate::state::multisig::StratumView;
use crate::instructions::execute_transaction::{
    AccountSource, ExecuteError, accounts_error, prepared_keys, prepared_sources, step_error,
};
use crate::state::tx_data::{InstructionAccount, InstructionDataView, TxDataView, VersionedInstructionDataView, keys_added};
use crate::state::multisig::{
    stratum_activated, stratum_added, stratum_deactivated, threshold_changed,
};

verus! {

/// A rejected or executed transaction is final: every instruction that acts on
/// a transaction refuses it.
pub proof fn law_finished_transaction_refused(
    tx: TransactionView,
    ms: MultiSigView,
    ms_key: Pubkey,
    tx_key: Pubkey,
    td_transaction: Pubkey,
    signer: Pubkey,
    owner_stratum: int,
)
    requires
        tx.status == TransactionStatus::Rejected || tx.status == TransactionStatus::Executed,
    ensures
        vote_error(tx, ms, ms_key, signer, owner_stratum) is Some,
        accept_error(tx, ms, ms_key, signer, owner_stratum) is Some,
        create_tx_data_error(tx, ms_key, ms.version, signer) is Some,
        tx_data_edit_error(tx, ms_key, ms.version, tx_key, td_transaction, signer) is Some,
        execute_error(tx, td_transaction, ms, ms_key, tx_key, signer, owner_stratum) is Some,
{
}

/// A transaction made for an earlier version of the multi-sig can no longer
/// get instructions, votes or acceptance.
pub proof fn law_outdated_transaction_refused(
    tx: TransactionView,
    ms: MultiSigView,
    ms_key: Pubkey,
    tx_key: Pubkey,
    td_transaction: Pubkey,
    signer: Pubkey,
    owner_stratum: int,
)
    requires
        tx.version != ms.version,
    ensures
        vote_error(tx, ms, ms_key, signer, owner_stratum) is Some,
        accept_error(tx, ms, ms_key, signer, owner_stratum) is Some,
        create_tx_data_error(tx, ms_key, ms.version, signer) is Some,
        tx_data_edit_error(tx, ms_key, ms.version, tx_key, td_transaction, signer) is Some,
{
}

/// Only an accepted transaction passes the checks of execution, and only an
/// owner of the named stratum may execute it.
pub proof fn law_execute_requires_acceptance(
    tx: TransactionView,
    ms: MultiSigView,
    ms_key: Pubkey,
    tx_key: Pubkey,
    td_transaction: Pubkey,
    signer: Pubkey,
    owner_stratum: int,
)
    requires
        execute_error(tx, td_transaction, ms, ms_key, tx_key, signer, owner_stratum) is None,
    ensures
        tx.status == TransactionStatus::Accepted,
        tx.multi_sig == ms_key,
        owner_error(ms, signer, owner_stratum) is None,
{
}

/// The tally of a transaction has one counter per stratum while the
/// transaction is current, and a transaction is never newer than its multi-sig.
pub open spec fn tally_fits(tx: TransactionView, ms: MultiSigView) -> bool {
    &&& tx.version <= ms.version
    &&& tx.version == ms.version ==> tx.accepted.len() == ms.strata.len() && tx.rejected.len()
        == ms.strata.len()
}

/// A new transaction's tally fits its multi-sig.
pub proof fn law_proposed_tally_fits(
    ms: MultiSigView,
    ms_key: Pubkey,
    signer: Pubkey,
    bump: u8,
    description: Seq<char>,
)
    ensures
        tally_fits(proposed_transaction(ms, ms_key, signer, bump, description), ms),
{
}

/// Every successful change of a multi-sig keeps the tally of every transaction
/// fitting: the number of strata only changes together with the version.
pub proof fn law_changes_keep_tally_fitting(
    tx: TransactionView,
    ms: MultiSigView,
    change: crate::state::multisig::ChangeType,
    s: int,
    grow: ChangeReallocType,
)
    requires
        tally_fits(tx, ms),
        ms.version < u32::MAX,
    ensures
        change_error(ms, change, s) is None ==> tally_fits(tx, changed(ms, change, s)),
        realloc_change_error(ms, grow) is None ==> tally_fits(tx, realloc_changed(ms, grow)),
        change_error(ms, change, s) is None ==> changed(ms, change, s).version == ms.version + 1,
        realloc_change_error(ms, grow) is None ==> realloc_changed(ms, grow).version == ms.version
            + 1,
{
}

/// A vote keeps the tally fitting; with a fitting tally, a vote that passes its
/// checks always has a counter for its stratum.
pub proof fn law_vote_keeps_tally_fitting(
    tx: TransactionView,
    ms: MultiSigView,
    ms_key: Pubkey,
    signer: Pubkey,
    s: int,
    is_accept: bool,
)
    requires
        tally_fits(tx, ms),
        0 <= s,
        vote_error(tx, ms, ms_key, signer, s) is None,
    ensures
        0 <= s < tx.accepted.len(),
        0 <= s < tx.rejected.len(),
        tally_fits(vote_counted(tx, ms, s, is_accept), ms),
{
}

/// In a well-formed multi-sig the first stratum is active and has an owner, and
/// every threshold can be reached by the owners of its stratum.
pub proof fn law_thresholds_reachable(ms: MultiSigView, i: int)
    requires
        ms.wf(),
        0 <= i < ms.strata.len(),
    ensures
        ms.strata[0].active,
        ms.strata[0].owners.len() >= 1,
        ms.strata[i].m <= ms.strata[i].owners.len(),
{
    assert(stratum_wf(ms.strata[0]));
    assert(stratum_wf(ms.strata[i]));
}

/// In a well-formed multi-sig an inactive stratum has a zero threshold, so the
/// acceptance check over the active strata is the check over every stratum.
pub proof fn law_acceptance_covers_every_stratum(tx: TransactionView, ms: MultiSigView)
    requires
        ms.wf(),
        tx.accepted.len() >= ms.strata.len(),
    ensures
        thresholds_met(tx, ms) <==> forall|i: int|
            0 <= i < ms.strata.len() ==> tx.accepted[i] >= (#[trigger] ms.strata[i]).m,
{
    assert forall|i: int| 0 <= i < ms.strata.len() && !(#[trigger] ms.strata[i]).active implies ms.strata[i].m
        == 0 by {
        assert(stratum_wf(ms.strata[i]));
    }
}

/// Removing an owner right after adding it gives back the multi-sig as it was.
pub proof fn law_add_then_remove_owner(ms: MultiSigView, owner: Pubkey, s: int)
    requires
        ms.wf(),
        0 <= s < ms.strata.len(),
        add_owner_error(ms, owner, s) is None,
    ensures
        remove_owner_error(owner_added(ms, owner, s), owner, s) is None,
        owner_removed(owner_added(ms, owner, s), owner, s) =~~= ms,
{
    broadcast use vstd::seq_lib::group_to_multiset_ensures;

    lemma_key_order_total();
    let o = ms.strata[s].owners;
    let pushed = o.push(owner);
    let sorted = pushed.sort_by(key_order());
    lemma_sorted_keys_facts(pushed);
    pushed.lemma_sort_by_ensures(key_order());
    assert(pushed.contains(owner)) by {
        assert(pushed[o.len() as int] == owner);
    }
    assert(sorted.contains(owner));
    let added = owner_added(ms, owner, s);
    assert(added.strata[s].owners == sorted);
    assert(stratum_wf(ms.strata[s]));
    let i = key_position(sorted, owner);
    assert(0 <= i < sorted.len() && sorted[i] == owner);
    lemma_without_one(sorted, i, owner);
    assert(keys_sorted(o));
    vstd::seq_lib::to_multiset_remove(sorted, i);
    vstd::seq_lib::to_multiset_build(o, owner);
    assert(sorted.remove(i).to_multiset() =~= o.to_multiset());
    vstd::seq_lib::lemma_sorted_unique(sorted.remove(i), o, key_order());
    let back = owner_removed(added, owner, s);
    assert(back.strata[s] =~~= ms.strata[s]);
    assert(back.strata =~~= ms.strata);
}

/// Successive proposals number their transactions with consecutive numbers from
/// the count they start at, so no two of them share a number (nor an address),
/// and the count ends that many higher.
pub proof fn law_transaction_numbers_consecutive(
    states: Seq<MultiSigView>,
    txs: Seq<TransactionView>,
    ms_key: Pubkey,
)
    requires
        states.len() == txs.len() + 1,
        forall|k: int|
            0 <= k < txs.len() ==> #[trigger] txs[k] == proposed_transaction(
                states[k],
                ms_key,
                txs[k].owner,
                txs[k].bump,
                txs[k].description,
            ) && states[k].transaction_count < u32::MAX && states[k + 1] == (MultiSigView {
                transaction_count: (states[k].transaction_count + 1) as u32,
                ..states[k]
            }),
    ensures
        forall|k: int| 0 <= k < txs.len() ==> #[trigger] txs[k].transaction_num == states[0].transaction_count + k,
        forall|k: int, l: int|
            0 <= k < l < txs.len() ==> #[trigger] txs[k].transaction_num != #[trigger] txs[l].transaction_num,
        states[txs.len() as int].transaction_count == states[0].transaction_count + txs.len(),
    decreases txs.len(),
{
    if txs.len() > 0 {
        let n = txs.len() - 1;
        law_transaction_numbers_consecutive(states.take(n + 1), txs.take(n), ms_key);
        assert(txs[n] == proposed_transaction(states[n], ms_key, txs[n].owner, txs[n].bump, txs[n].description));
        assert forall|k: int| 0 <= k < txs.len() implies #[trigger] txs[k].transaction_num
            == states[0].transaction_count + k by {
            if k < n {
                assert(txs.take(n)[k] == txs[k]);
            }
        }
    }
}

/// A versioned instruction list takes as much space as a list of stored
/// instructions with the same data lengths and account counts.
pub proof fn law_tx_data_space_by_shape(v: Vec<VersionedInstructionData>, w: Vec<InstructionData>)
    requires
        v@.len() == w@.len(),
        forall|i: int|
            0 <= i < v@.len() ==> (#[trigger] v@[i]).data@.len() == w@[i].data@.len()
                && v@[i].keys@.len() == w@[i].keys@.len(),
    ensures
        transaction_type_space(TransactionType::Versioned { data: v }) == transaction_type_space(
            TransactionType::Legacy { data: w },
        ),
{
    assert(versioned_sizes(versioned_view(v@)) =~= legacy_sizes(instructions_view(w@)));
}

/// In a well-formed multi-sig every owner list is strictly ascending.
pub proof fn law_owner_lists_strictly_ascending(ms: MultiSigView, s: int)
    requires
        ms.wf(),
        0 <= s < ms.strata.len(),
    ensures
        forall|i: int, j: int|
            0 <= i < j < ms.strata[s].owners.len() ==> key_le(
                #[trigger] ms.strata[s].owners[i],
                #[trigger] ms.strata[s].owners[j],
            ) && ms.strata[s].owners[i] != ms.strata[s].owners[j],
{
    let o = ms.strata[s].owners;
    assert(stratum_wf(ms.strata[s]));
    assert(keys_sorted(o));
    lemma_key_le_order();
    assert forall|i: int, j: int| 0 <= i < j < o.len() implies key_le(#[trigger] o[i], #[trigger] o[j])
        && o[i] != o[j] by {
        assert(key_order()(o[i], o[j]));
    }
}

/// The data of an instruction begins with the eight bytes that select this
/// program's `change_multisig_realloc` instruction.
pub open spec fn begins_with_realloc_tag(data: Seq<u8>) -> bool {
    data.len() >= 8 && data.take(8) == seq![0x98u8, 0x5a, 0x30, 0x68, 0x6b, 0x7a, 0x0b, 0x71]
}

/// An executed instruction keeps its accounts unless it calls this program's
/// `change_multisig_realloc`: any other instruction, a call of this program
/// included, never lacks a payer, hands on its stored accounts unchanged, and
/// takes its program and accounts from the passed accounts one after another
/// from the cursor on.
pub proof fn law_only_size_changes_get_a_new_payer(
    ix: InstructionDataView,
    accounts: Seq<Pubkey>,
    cursor: int,
    self_id: Seq<u8>,
    signer: Pubkey,
)
    requires
        !begins_with_realloc_tag(ix.data) || ix.program_id.bytes@ != self_id,
    ensures
        step_error(ix, accounts, cursor, self_id) != Some(ExecuteError::PayerAccountMissing),
        prepared_keys(ix, self_id, signer) == ix.keys,
        prepared_sources(ix, cursor, self_id).len() == ix.keys.len() + 1,
        forall|j: int|
            0 <= j <= ix.keys.len() ==> #[trigger] prepared_sources(ix, cursor, self_id)[j]
                == AccountSource::Remaining((cursor + j) as usize),
{
    crate::instructions::execute_transaction::lemma_realloc_tag_literal(ix.data);
    crate::instructions::execute_transaction::lemma_accounts_error_kinds(ix, accounts, cursor);
}

/// A call of this program's `change_multisig_realloc` whose accounts check out
/// is paid by the executing signer: with at least three accounts, account 2
/// becomes the signer, as a writable signer, and the passed account handed in
/// its place is the signer's; every other account and source stays as it was.
/// With fewer than three accounts there is no payer to replace.
pub proof fn law_size_change_paid_by_signer(
    ix: InstructionDataView,
    accounts: Seq<Pubkey>,
    cursor: int,
    self_id: Seq<u8>,
    signer: Pubkey,
)
    requires
        begins_with_realloc_tag(ix.data),
        ix.program_id.bytes@ == self_id,
        accounts_error(ix, accounts, cursor) is None,
    ensures
        ix.keys.len() < 3 ==> step_error(ix, accounts, cursor, self_id) == Some(
            ExecuteError::PayerAccountMissing,
        ),
        ix.keys.len() >= 3 ==> step_error(ix, accounts, cursor, self_id) is None
            && prepared_keys(ix, self_id, signer).len() == ix.keys.len()
            && prepared_keys(ix, self_id, signer)[2] == (InstructionAccount {
                pubkey: signer,
                is_signer: true,
                is_writable: true,
            }) && (forall|j: int|
                0 <= j < ix.keys.len() && j != 2 ==> #[trigger] prepared_keys(ix, self_id, signer)[j]
                    == ix.keys[j]) && prepared_sources(ix, cursor, self_id)[3] == AccountSource::Signer
            && (forall|j: int|
                0 <= j <= ix.keys.len() && j != 3 ==> #[trigger] prepared_sources(ix, cursor, self_id)[j]
                    == AccountSource::Remaining((cursor + j) as usize)),
{
    crate::instructions::execute_transaction::lemma_realloc_tag_literal(ix.data);
    assert(seq![0x98u8, 0x5a, 0x30, 0x68, 0x6b, 0x7a, 0x0b, 0x71] != seq![
        0xe7u8,
        0xad,
        0x31,
        0x5b,
        0xeb,
        0x18,
        0x44,
        0x13,
    ]) by {
        assert(seq![0x98u8, 0x5a, 0x30, 0x68, 0x6b, 0x7a, 0x0b, 0x71][0] == 0x98u8);
    }
    crate::instructions::execute_transaction::lemma_execute_tag_literal(ix.data);
}

/// A rejecting vote in stratum `s` adds one to that stratum's rejections and
/// rejects the transaction exactly when the owners of the stratum who have not
/// rejected it are fewer than its threshold; otherwise the transaction stays
/// open for votes. Nothing else changes.
pub proof fn law_rejected_once_threshold_unreachable(tx: TransactionView, ms: MultiSigView, s: int)
    requires
        0 <= s < ms.strata.len(),
        0 <= s < tx.rejected.len(),
        tx.rejected[s] < u16::MAX,
        tx.status == TransactionStatus::Vote,
    ensures
        vote_counted(tx, ms, s, false).rejected.len() == tx.rejected.len(),
        vote_counted(tx, ms, s, false).rejected[s] == tx.rejected[s] + 1,
        forall|i: int|
            0 <= i < tx.rejected.len() && i != s ==> #[trigger] vote_counted(tx, ms, s, false).rejected[i]
                == tx.rejected[i],
        vote_counted(tx, ms, s, false).accepted == tx.accepted,
        (vote_counted(tx, ms, s, false).status == TransactionStatus::Rejected) == (
        ms.strata[s].owners.len() - (tx.rejected[s] + 1) < ms.strata[s].m),
        vote_counted(tx, ms, s, false).status != TransactionStatus::Rejected
            ==> vote_counted(tx, ms, s, false).status == TransactionStatus::Vote,
        vote_counted(tx, ms, s, false).description == tx.description,
        vote_counted(tx, ms, s, false).version == tx.version,
        vote_counted(tx, ms, s, false).transaction_num == tx.transaction_num,
{
}

/// An accepting vote in stratum `s` adds one to that stratum's acceptances and
/// changes nothing else: a transaction is never accepted or rejected by a vote
/// for it.
pub proof fn law_accepting_vote_only_counts(tx: TransactionView, ms: MultiSigView, s: int)
    requires
        0 <= s < tx.accepted.len(),
        tx.accepted[s] < u16::MAX,
    ensures
        vote_counted(tx, ms, s, true).accepted.len() == tx.accepted.len(),
        vote_counted(tx, ms, s, true).accepted[s] == tx.accepted[s] + 1,
        forall|i: int|
            0 <= i < tx.accepted.len() && i != s ==> #[trigger] vote_counted(tx, ms, s, true).accepted[i]
                == tx.accepted[i],
        vote_counted(tx, ms, s, true).rejected == tx.rejected,
        vote_counted(tx, ms, s, true).status == tx.status,
{
}

/// Resolving a versioned instruction looks its program and each of its
/// accounts up by place, keeps its data, and keeps both flags of every account
/// as they were given.
pub proof fn law_resolved_accounts_keep_their_flags(
    ixs: Seq<VersionedInstructionDataView>,
    accounts: Seq<Pubkey>,
    i: int,
)
    requires
        0 <= i < ixs.len(),
    ensures
        resolved(ixs, accounts).len() == ixs.len(),
        resolved(ixs, accounts)[i].program_id == accounts[ixs[i].program_id_index as int],
        resolved(ixs, accounts)[i].data == ixs[i].data,
        resolved(ixs, accounts)[i].keys.len() == ixs[i].keys.len(),
        forall|j: int|
            0 <= j < ixs[i].keys.len() ==> (#[trigger] resolved(ixs, accounts)[i].keys[j]).pubkey
                == accounts[ixs[i].keys[j].pubkey_index as int] && resolved(ixs, accounts)[i].keys[j].is_signer
                == ixs[i].keys[j].is_signer && resolved(ixs, accounts)[i].keys[j].is_writable
                == ixs[i].keys[j].is_writable,
{
}

/// Adding accounts to a stored instruction appends them after its accounts, in
/// the order given; its program and data, and every other instruction, stay as
/// they were.
pub proof fn law_added_accounts_follow_in_order(
    td: TxDataView,
    index: int,
    keys: Seq<InstructionAccount>,
)
    requires
        0 <= index < td.instructions.len(),
    ensures
        keys_added(td, index, keys).instructions.len() == td.instructions.len(),
        keys_added(td, index, keys).instructions[index].keys.len() == td.instructions[index].keys.len()
            + keys.len(),
        forall|j: int|
            0 <= j < td.instructions[index].keys.len() ==> #[trigger] keys_added(
                td,
                index,
                keys,
            ).instructions[index].keys[j] == td.instructions[index].keys[j],
        forall|j: int|
            0 <= j < keys.len() ==> keys_added(td, index, keys).instructions[index].keys[td.instructions[index].keys.len()
                + j] == #[trigger] keys[j],
        keys_added(td, index, keys).instructions[index].program_id == td.instructions[index].program_id,
        keys_added(td, index, keys).instructions[index].data == td.instructions[index].data,
        forall|i: int|
            0 <= i < td.instructions.len() && i != index ==> #[trigger] keys_added(
                td,
                index,
                keys,
            ).instructions[i] == td.instructions[i],
        keys_added(td, index, keys).transaction == td.transaction,
{
}

/// A proposed transaction keeps what it was proposed with: its description,
/// its proposer, its multi-sig and bump; it takes the multi-sig's transaction
/// count as its number and its version, is open for instructions, and starts
/// with no vote in any of the multi-sig's strata.
pub proof fn law_proposal_keeps_what_it_was_given(
    ms: MultiSigView,
    ms_key: Pubkey,
    signer: Pubkey,
    bump: u8,
    description: Seq<char>,
)
    ensures
        proposed_transaction(ms, ms_key, signer, bump, description).description == description,
        proposed_transaction(ms, ms_key, signer, bump, description).owner == signer,
        proposed_transaction(ms, ms_key, signer, bump, description).multi_sig == ms_key,
        proposed_transaction(ms, ms_key, signer, bump, description).bump == bump,
        proposed_transaction(ms, ms_key, signer, bump, description).transaction_num
            == ms.transaction_count,
        proposed_transaction(ms, ms_key, signer, bump, description).version == ms.version,
        proposed_transaction(ms, ms_key, signer, bump, description).status
            == TransactionStatus::Initiated,
        proposed_transaction(ms, ms_key, signer, bump, description).accepted.len() == ms.strata.len(),
        proposed_transaction(ms, ms_key, signer, bump, description).rejected.len() == ms.strata.len(),
        forall|i: int|
            0 <= i < ms.strata.len() ==> #[trigger] proposed_transaction(
                ms,
                ms_key,
                signer,
                bump,
                description,
            ).accepted[i] == 0 && proposed_transaction(ms, ms_key, signer, bump, description).rejected[i]
                == 0,
{
}

/// The stratum `s` with `owner` added holds that owner besides every owner it
/// had, and nothing more, one more owner in all, in key order; its threshold,
/// its state and every other stratum stay as they were.
pub proof fn law_added_owner_joins_in_order(ms: MultiSigView, owner: Pubkey, s: int)
    requires
        0 <= s < ms.strata.len(),
    ensures
        owner_added(ms, owner, s).strata.len() == ms.strata.len(),
        owner_added(ms, owner, s).strata[s].owners.contains(owner),
        owner_added(ms, owner, s).strata[s].owners.len() == ms.strata[s].owners.len() + 1,
        forall|k: Pubkey|
            #[trigger] owner_added(ms, owner, s).strata[s].owners.contains(k) <==> (k == owner
                || ms.strata[s].owners.contains(k)),
        forall|i: int, j: int|
            0 <= i < j < owner_added(ms, owner, s).strata[s].owners.len() ==> key_le(
                #[trigger] owner_added(ms, owner, s).strata[s].owners[i],
                #[trigger] owner_added(ms, owner, s).strata[s].owners[j],
            ),
        owner_added(ms, owner, s).strata[s].m == ms.strata[s].m,
        owner_added(ms, owner, s).strata[s].active == ms.strata[s].active,
        forall|i: int|
            0 <= i < ms.strata.len() && i != s ==> #[trigger] owner_added(ms, owner, s).strata[i]
                == ms.strata[i],
        owner_added(ms, owner, s).version == ms.version,
        owner_added(ms, owner, s).transaction_count == ms.transaction_count,
{
    let pushed = ms.strata[s].owners.push(owner);
    lemma_sorted_keys_facts(pushed);
    lemma_key_le_order();
    let o = owner_added(ms, owner, s).strata[s].owners;
    assert(o == pushed.sort_by(key_order()));
    assert(pushed.contains(owner)) by {
        assert(pushed[pushed.len() - 1] == owner);
    }
    assert forall|k: Pubkey| #[trigger] o.contains(k) <==> (k == owner || ms.strata[s].owners.contains(k)) by {
        if ms.strata[s].owners.contains(k) {
            let j = choose|j: int| 0 <= j < ms.strata[s].owners.len() && ms.strata[s].owners[j] == k;
            assert(pushed[j] == k);
        }
        if pushed.contains(k) && k != owner {
            let j = choose|j: int| 0 <= j < pushed.len() && pushed[j] == k;
            assert(j < ms.strata[s].owners.len());
            assert(ms.strata[s].owners[j] == k);
        }
    }
    assert forall|i: int, j: int| 0 <= i < j < o.len() implies key_le(#[trigger] o[i], #[trigger] o[j]) by {
        assert(key_order()(o[i], o[j]));
    }
}

/// The stratum `s` with an owner that it lists once taken out no longer lists
/// that owner, still lists every other owner it had and nothing more, one owner
/// fewer in all; its threshold, its state and every other stratum stay as they
/// were.
pub proof fn law_removed_owner_leaves(ms: MultiSigView, owner: Pubkey, s: int)
    requires
        0 <= s < ms.strata.len(),
        ms.strata[s].owners.contains(owner),
        ms.strata[s].owners.no_duplicates(),
    ensures
        owner_removed(ms, owner, s).strata.len() == ms.strata.len(),
        !owner_removed(ms, owner, s).strata[s].owners.contains(owner),
        owner_removed(ms, owner, s).strata[s].owners.len() == ms.strata[s].owners.len() - 1,
        forall|k: Pubkey|
            k != owner ==> (#[trigger] owner_removed(ms, owner, s).strata[s].owners.contains(k)
                <==> ms.strata[s].owners.contains(k)),
        owner_removed(ms, owner, s).strata[s].m == ms.strata[s].m,
        owner_removed(ms, owner, s).strata[s].active == ms.strata[s].active,
        forall|i: int|
            0 <= i < ms.strata.len() && i != s ==> #[trigger] owner_removed(ms, owner, s).strata[i]
                == ms.strata[i],
{
    let o = ms.strata[s].owners;
    let c = key_position(o, owner);
    assert(0 <= c < o.len() && o[c] == owner);
    let r = owner_removed(ms, owner, s).strata[s].owners;
    assert(r == o.remove(c));
    assert(!r.contains(owner)) by {
        if r.contains(owner) {
            let j = choose|j: int| 0 <= j < r.len() && r[j] == owner;
            if j < c {
                assert(o[j] == owner);
            } else {
                assert(o[j + 1] == owner);
            }
        }
    }
    assert forall|k: Pubkey| k != owner implies (#[trigger] r.contains(k) <==> o.contains(k)) by {
        if r.contains(k) {
            let j = choose|j: int| 0 <= j < r.len() && r[j] == k;
            if j < c {
                assert(o[j] == k);
            } else {
                assert(o[j + 1] == k);
            }
        }
        if o.contains(k) {
            let j = choose|j: int| 0 <= j < o.len() && o[j] == k;
            assert(j != c);
            if j < c {
                assert(r[j] == k);
            } else {
                assert(r[j - 1] == k);
            }
        }
    }
}

/// A new stratum stands after all the others, active, with the threshold it was
/// given and its owners in key order, the same owners as given and as many;
/// the strata before it stay as they were.
pub proof fn law_added_stratum_comes_last(ms: MultiSigView, owners: Seq<Pubkey>, m: u16)
    ensures
        stratum_added(ms, owners, m).strata.len() == ms.strata.len() + 1,
        stratum_added(ms, owners, m).strata[ms.strata.len() as int].active,
        stratum_added(ms, owners, m).strata[ms.strata.len() as int].m == m,
        stratum_added(ms, owners, m).strata[ms.strata.len() as int].owners.len() == owners.len(),
        forall|k: Pubkey|
            #[trigger] stratum_added(ms, owners, m).strata[ms.strata.len() as int].owners.contains(k)
                <==> owners.contains(k),
        forall|i: int, j: int|
            0 <= i < j < owners.len() ==> key_le(
                #[trigger] stratum_added(ms, owners, m).strata[ms.strata.len() as int].owners[i],
                #[trigger] stratum_added(ms, owners, m).strata[ms.strata.len() as int].owners[j],
            ),
        forall|i: int|
            0 <= i < ms.strata.len() ==> #[trigger] stratum_added(ms, owners, m).strata[i] == ms.strata[i],
{
    lemma_sorted_keys_facts(owners);
    lemma_key_le_order();
    let o = owners.sort_by(key_order());
    assert(stratum_added(ms, owners, m).strata[ms.strata.len() as int].owners == o);
    assert forall|i: int, j: int| 0 <= i < j < o.len() implies key_le(#[trigger] o[i], #[trigger] o[j]) by {
        assert(key_order()(o[i], o[j]));
    }
}

/// Deactivating stratum `s` leaves it inactive with no owners; activating it
/// makes it active with its owners and threshold as they were; setting its
/// threshold changes only that. Every other stratum stays as it was.
pub proof fn law_stratum_changes_touch_one_field(ms: MultiSigView, s: int, new_m: u16)
    requires
        0 <= s < ms.strata.len(),
    ensures
        stratum_deactivated(ms, s).strata.len() == ms.strata.len(),
        !stratum_deactivated(ms, s).strata[s].active,
        stratum_deactivated(ms, s).strata[s].owners.len() == 0,
        stratum_activated(ms, s).strata.len() == ms.strata.len(),
        stratum_activated(ms, s).strata[s].active,
        stratum_activated(ms, s).strata[s].owners == ms.strata[s].owners,
        stratum_activated(ms, s).strata[s].m == ms.strata[s].m,
        threshold_changed(ms, new_m, s).strata.len() == ms.strata.len(),
        threshold_changed(ms, new_m, s).strata[s].m == new_m,
        threshold_changed(ms, new_m, s).strata[s].owners == ms.strata[s].owners,
        threshold_changed(ms, new_m, s).strata[s].active == ms.strata[s].active,
        forall|i: int|
            0 <= i < ms.strata.len() && i != s ==> #[trigger] stratum_deactivated(ms, s).strata[i]
                == ms.strata[i] && stratum_activated(ms, s).strata[i] == ms.strata[i]
                && threshold_changed(ms, new_m, s).strata[i] == ms.strata[i],
{
}

/// Only an owner of the stratum it names can propose, vote on, accept or
/// execute a transaction, and only on a transaction of this multi-sig in the
/// state the instruction needs: open for votes (and current) to vote or
/// accept, accepted to execute. Only the proposer stores or edits a
/// transaction's instructions, while it is still open for them and current.
pub proof fn law_only_owners_act(
    tx: TransactionView,
    ms: MultiSigView,
    ms_key: Pubkey,
    tx_key: Pubkey,
    td_transaction: Pubkey,
    signer: Pubkey,
    s: int,
    description: Seq<char>,
)
    requires
        0 <= s,
    ensures
        create_transaction_error(ms, signer, s, description) is None ==> 0 <= s < ms.strata.len()
            && ms.strata[s].owners.contains(signer),
        vote_error(tx, ms, ms_key, signer, s) is None ==> 0 <= s < ms.strata.len()
            && ms.strata[s].owners.contains(signer) && tx.multi_sig == ms_key && tx.status
            == TransactionStatus::Vote && tx.version == ms.version,
        accept_error(tx, ms, ms_key, signer, s) is None ==> 0 <= s < ms.strata.len()
            && ms.strata[s].owners.contains(signer) && tx.multi_sig == ms_key && tx.status
            == TransactionStatus::Vote && tx.version == ms.version,
        execute_error(tx, td_transaction, ms, ms_key, tx_key, signer, s) is None ==> 0 <= s
            < ms.strata.len() && ms.strata[s].owners.contains(signer) && tx.multi_sig == ms_key
            && tx.status == TransactionStatus::Accepted && td_transaction == tx_key,
        create_tx_data_error(tx, ms_key, ms.version, signer) is None ==> signer == tx.owner
            && tx.multi_sig == ms_key && tx.status == TransactionStatus::Initiated && tx.version
            == ms.version,
        tx_data_edit_error(tx, ms_key, ms.version, tx_key, td_transaction, signer) is None ==> signer
            == tx.owner && tx.multi_sig == ms_key && tx.status == TransactionStatus::Initiated
            && tx.version == ms.version && td_transaction == tx_key,
{
}

/// A new multi-sig keeps its strata in the order given, each active, with the
/// threshold and the owners it was given, as many, in key order; it keeps its
/// name, creator and bumps, starts at version 0 with no transaction, and is not
/// in recovery.
pub proof fn law_created_multisig_keeps_its_strata(
    strata: Seq<StratumView>,
    name: Seq<char>,
    creator: Pubkey,
    multisig_bump: u8,
    authority_bump: u8,
    i: int,
)
    requires
        0 <= i < strata.len(),
    ensures
        created_multisig(strata, name, creator, multisig_bump, authority_bump).strata.len()
            == strata.len(),
        created_multisig(strata, name, creator, multisig_bump, authority_bump).strata[i].active,
        created_multisig(strata, name, creator, multisig_bump, authority_bump).strata[i].m
            == strata[i].m,
        created_multisig(strata, name, creator, multisig_bump, authority_bump).strata[i].owners.len()
            == strata[i].owners.len(),
        forall|k: Pubkey|
            #[trigger] created_multisig(strata, name, creator, multisig_bump, authority_bump).strata[i].owners.contains(k)
                <==> strata[i].owners.contains(k),
        forall|a: int, b: int|
            0 <= a < b < strata[i].owners.len() ==> key_le(
                #[trigger] created_multisig(strata, name, creator, multisig_bump, authority_bump).strata[i].owners[a],
                #[trigger] created_multisig(strata, name, creator, multisig_bump, authority_bump).strata[i].owners[b],
            ),
        created_multisig(strata, name, creator, multisig_bump, authority_bump).name == name,
        created_multisig(strata, name, creator, multisig_bump, authority_bump).creator == creator,
        created_multisig(strata, name, creator, multisig_bump, authority_bump).multisig_bump
            == multisig_bump,
        created_multisig(strata, name, creator, multisig_bump, authority_bump).authority_bump
            == authority_bump,
        created_multisig(strata, name, creator, multisig_bump, authority_bump).version == 0,
        created_multisig(strata, name, creator, multisig_bump, authority_bump).transaction_count == 0,
        !created_multisig(strata, name, creator, multisig_bump, authority_bump).recovery,
{
    lemma_sorted_keys_facts(strata[i].owners);
    lemma_key_le_order();
    let o = created_multisig(strata, name, creator, multisig_bump, authority_bump).strata[i].owners;
    assert(o == strata[i].owners.sort_by(key_order()));
    assert forall|a: int, b: int| 0 <= a < b < o.len() implies key_le(#[trigger] o[a], #[trigger] o[b]) by {
        assert(key_order()(o[a], o[b]));
    }
}

/// Storing or finalizing a transaction's instructions opens it for votes and
/// changes nothing else of it: its counts, number, version and description
/// stay as they were.
pub proof fn law_opening_for_votes_changes_only_the_status(tx: TransactionView)
    ensures
        opened_for_vote(tx).status == TransactionStatus::Vote,
        opened_for_vote(tx).accepted == tx.accepted,
        opened_for_vote(tx).rejected == tx.rejected,
        opened_for_vote(tx).transaction_num == tx.transaction_num,
        opened_for_vote(tx).version == tx.version,
        opened_for_vote(tx).description == tx.description,
        opened_for_vote(tx).owner == tx.owner,
        opened_for_vote(tx).multi_sig == tx.multi_sig,
        opened_for_vote(tx).bump == tx.bump,
{
}

} // verus!
