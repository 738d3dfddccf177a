//! Changes to a multi-sig that keep its size: removing an owner, setting a
//! threshold, activating or deactivating a stratum.

use vstd::prelude::*;
use crate::errors::Errors;
use crate::key::keys_sorted;
use crate::state::multisig::{
    ChangeType, MultiSig, MultiSigView, activate_error, change_m_error, deactivate_error, outcome,
    owner_removed, remove_owner_error, stratum_activated, stratum_deactivated, threshold_changed,
};

verus! {

/// First failure of change `change` to stratum `s`.
pub open spec fn change_error(ms: MultiSigView, change: ChangeType, s: int) -> Option<Errors> {
    if !(ms.strata.len() > s) {
        Some(Errors::InvalidStratumNumber)
    } else {
        match change {
            ChangeType::RemoveOwner { owner } => remove_owner_error(ms, owner, s),
            ChangeType::ChangeM { new_m } => change_m_error(ms, new_m, s),
            ChangeType::ActivateStratum => activate_error(ms, s),
            ChangeType::DeactivateStratum => deactivate_error(ms, s),
        }
    }
}

/// The multi-sig after change `change` to stratum `s`, at the next version.
pub open spec fn changed(ms: MultiSigView, change: ChangeType, s: int) -> MultiSigView {
    let n = match change {
        ChangeType::RemoveOwner { owner } => owner_removed(ms, owner, s),
        ChangeType::ChangeM { new_m } => threshold_changed(ms, new_m, s),
        ChangeType::ActivateStratum => stratum_activated(ms, s),
        ChangeType::DeactivateStratum => stratum_deactivated(ms, s),
    };
    MultiSigView { version: (ms.version + 1) as u32, ..n }
}

/// Applies a change to stratum `stratum` and moves the multi-sig to its next
/// version, which makes every pending transaction out-dated.
pub fn change_multisig_handler(
    multi_sig: &mut MultiSig,
    change_type: ChangeType,
    stratum: u8,
) -> (r: Result<(), Errors>)
    requires
        stratum < old(multi_sig).strata.len() ==> keys_sorted(
            old(multi_sig)@.strata[stratum as int].owners,
        ),
        change_error(old(multi_sig)@, change_type, stratum as int) is None ==> old(multi_sig).version
            < u32::MAX,
    ensures
        r == outcome(change_error(old(multi_sig)@, change_type, stratum as int)),
        r is Ok ==> final(multi_sig)@ =~~= changed(old(multi_sig)@, change_type, stratum as int),
        r is Err ==> final(multi_sig)@ =~~= old(multi_sig)@,
        old(multi_sig)@.wf() ==> final(multi_sig)@.wf(),
{
    let s_index = stratum as usize;
    let strata_len = multi_sig.strata.len();
    if !(strata_len > s_index) {
        return Err(Errors::InvalidStratumNumber);
    }
    let ghost before = multi_sig@;
    let res = match change_type {
        ChangeType::RemoveOwner { owner } => multi_sig.remove_owner(owner, s_index),
        ChangeType::ChangeM { new_m } => multi_sig.change_m(new_m, s_index),
        ChangeType::ActivateStratum => multi_sig.activate_stratum(s_index),
        ChangeType::DeactivateStratum => multi_sig.deactivate_stratum(s_index),
    };
    match res {
        Err(e) => {
            return Err(e);
        },
        Ok(()) => {},
    }
    multi_sig.version = multi_sig.version + 1;
    proof {
        assert(multi_sig@ =~~= changed(before, change_type, s_index as int));
    }
    Ok(())
}

} // verus!
