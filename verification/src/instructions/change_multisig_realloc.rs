//! Changes to a multi-sig that grow it: adding an owner or a stratum.

use vstd::prelude::*;
use crate::errors::Errors;
use crate::state::multisig::{
    ChangeReallocType, MultiSig, MultiSigView, add_owner_error, add_stratum_error, outcome,
    owner_added, stratum_added,
};

verus! {

/// First failure of change `change`.
pub open spec fn realloc_change_error(ms: MultiSigView, change: ChangeReallocType) -> Option<Errors> {
    match change {
        ChangeReallocType::AddOwner { owner, stratum } => if !(ms.strata.len() > stratum) {
            Some(Errors::InvalidStratumNumber)
        } else {
            add_owner_error(ms, owner, stratum as int)
        },
        ChangeReallocType::AddStratum { stratum } => add_stratum_error(
            ms,
            stratum.owners@,
            stratum.m,
        ),
    }
}

/// The multi-sig after change `change`, at the next version.
pub open spec fn realloc_changed(ms: MultiSigView, change: ChangeReallocType) -> MultiSigView {
    let n = match change {
        ChangeReallocType::AddOwner { owner, stratum } => owner_added(ms, owner, stratum as int),
        ChangeReallocType::AddStratum { stratum } => stratum_added(ms, stratum.owners@, stratum.m),
    };
    MultiSigView { version: (ms.version + 1) as u32, ..n }
}

/// Adds an owner to a stratum, or a new stratum, and moves the multi-sig to its
/// next version, which makes every pending transaction out-dated.
pub fn change_multisig_realloc_handler(
    multi_sig: &mut MultiSig,
    change_type: ChangeReallocType,
) -> (r: Result<(), Errors>)
    requires
        old(multi_sig)@.strata_sorted(),
        realloc_change_error(old(multi_sig)@, change_type) is None ==> old(multi_sig).version
            < u32::MAX,
    ensures
        r == outcome(realloc_change_error(old(multi_sig)@, change_type)),
        r is Ok ==> final(multi_sig)@ =~~= realloc_changed(old(multi_sig)@, change_type),
        r is Err ==> final(multi_sig)@ =~~= old(multi_sig)@,
        old(multi_sig)@.wf() ==> final(multi_sig)@.wf(),
{
    let ghost before = multi_sig@;
    let ghost change = change_type;
    let res = match change_type {
        ChangeReallocType::AddOwner { owner, stratum } => {
            let s_index = stratum as usize;
            let strata_len = multi_sig.strata.len();
            if !(strata_len > s_index) {
                return Err(Errors::InvalidStratumNumber);
            }
            multi_sig.add_owner(owner, stratum)
        },
        ChangeReallocType::AddStratum { stratum } => {
            multi_sig.add_stratum(stratum.owners, stratum.m)
        },
    };
    match res {
        Err(e) => {
            return Err(e);
        },
        Ok(()) => {},
    }
    multi_sig.version = multi_sig.version + 1;
    proof {
        assert(multi_sig@ =~~= realloc_changed(before, change));
    }
    Ok(())
}

} // verus!
