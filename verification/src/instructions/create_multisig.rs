//! Creating a multi-sig from its strata and name.

use vstd::prelude::*;
use vstd::string::StrSliceExecFns;
use crate::errors::Errors;
use crate::key::{Pubkey, contains_key, key_order, occurs_from, sort_keys};
use crate::program::{authority_tag, find_authority, program_address, program_id_bytes};
use crate::state::multisig::{
    MultiSig, MultiSigView, Stratum, StratumView, MAX_NAME_LEN, MAX_OWNERS, MAX_STRATA, activated, has_repeat,
    lemma_no_repeat_no_duplicates,
    lemma_sorted_keys_facts, stratum_wf, strata_view,
};

verus! {

/// Some owner of stratum `s` is also an owner of stratum `c`.
pub open spec fn shares_owner(strata: Seq<StratumView>, s: int, c: int) -> bool {
    exists|a: int|
        0 <= a < strata[s].owners.len() && strata[c].owners.contains(#[trigger] strata[s].owners[a])
}

/// Stratum `s` repeats an owner, or shares one with a later stratum.
pub open spec fn duplicate_from(strata: Seq<StratumView>, s: int) -> bool {
    has_repeat(strata[s].owners) || exists|c: int| s < c < strata.len() && #[trigger] shares_owner(
        strata,
        s,
        c,
    )
}

/// First failure among the checks of stratum `s`.
pub open spec fn stratum_error(strata: Seq<StratumView>, s: int) -> Option<Errors> {
    let st = strata[s];
    if st.owners.len() == 0 || st.owners.len() > MAX_OWNERS {
        Some(Errors::InvalidOwnersCount)
    } else if s == 0 && st.m == 0 {
        Some(Errors::ThresholdZero)
    } else if duplicate_from(strata, s) {
        Some(Errors::DuplicateOwner)
    } else if st.owners.len() < st.m {
        Some(Errors::ThresholdExceeds)
    } else {
        None
    }
}

/// First failure among the strata from `from` on, checked in order.
pub open spec fn first_stratum_error(strata: Seq<StratumView>, from: int) -> Option<Errors>
    decreases strata.len() - from,
{
    if from < 0 || from >= strata.len() {
        None
    } else {
        match stratum_error(strata, from) {
            Some(e) => Some(e),
            None => first_stratum_error(strata, from + 1),
        }
    }
}

/// First failure of creating a multi-sig with these strata and this name.
pub open spec fn create_multisig_error(strata: Seq<StratumView>, name: Seq<char>) -> Option<Errors> {
    if name.len() > MAX_NAME_LEN {
        Some(Errors::InvalidNameLen)
    } else if strata.len() == 0 || strata.len() > MAX_STRATA {
        Some(Errors::InvalidStrataLen)
    } else {
        first_stratum_error(strata, 0)
    }
}

/// The strata as a new multi-sig stores them: owners sorted, every stratum active.
pub open spec fn created_strata(strata: Seq<StratumView>) -> Seq<StratumView> {
    activated(
        strata.map_values(
            |s: StratumView| StratumView { owners: s.owners.sort_by(key_order()), ..s },
        ),
    )
}

/// The multi-sig that creation gives once the checks pass and the authority
/// address is found.
pub open spec fn created_multisig(
    strata: Seq<StratumView>,
    name: Seq<char>,
    creator: Pubkey,
    multisig_bump: u8,
    authority_bump: u8,
) -> MultiSigView {
    MultiSigView {
        strata: created_strata(strata),
        transaction_count: 0,
        authority_bump,
        multisig_bump,
        version: 0,
        name,
        creator,
        recovery: false,
    }
}

proof fn lemma_first_error_skip(strata: Seq<StratumView>, from: int, to: int)
    requires
        0 <= from <= to <= strata.len(),
        forall|j: int| from <= j < to ==> #[trigger] stratum_error(strata, j) is None,
    ensures
        first_stratum_error(strata, from) == first_stratum_error(strata, to),
    decreases to - from,
{
    if from < to {
        lemma_first_error_skip(strata, from + 1, to);
    }
}

proof fn lemma_no_first_error(strata: Seq<StratumView>, from: int)
    requires
        0 <= from,
        first_stratum_error(strata, from) is None,
    ensures
        forall|j: int| from <= j < strata.len() ==> #[trigger] stratum_error(strata, j) is None,
    decreases strata.len() - from,
{
    if from < strata.len() {
        lemma_no_first_error(strata, from + 1);
    }
}

/// Whether stratum `s` repeats an owner or shares one with a later stratum.
fn has_duplicate_from(strata: &Vec<Stratum>, s: usize) -> (r: bool)
    requires
        s < strata.len(),
    ensures
        r == duplicate_from(strata_view(strata@), s as int),
{
    let ghost sv = strata_view(strata@);
    let owners = &strata[s].owners;
    let owners_len = owners.len();
    let strata_len = strata.len();
    let mut c = s;
    while c < strata_len
        invariant
            s <= c <= strata_len == strata.len(),
            sv == strata_view(strata@),
            owners@ == sv[s as int].owners,
            owners_len == owners.len(),
            c > s ==> !has_repeat(owners@),
            forall|d: int| s < d < c ==> !#[trigger] shares_owner(sv, s as int, d),
        decreases strata_len - c,
    {
        let mut current_num: usize = 0;
        while current_num < owners_len
            invariant
                s <= c < strata_len == strata.len(),
                sv == strata_view(strata@),
                owners@ == sv[s as int].owners,
                owners_len == owners.len(),
                0 <= current_num <= owners_len,
                c == s ==> forall|a: int, b: int|
                    0 <= a < current_num && a < b < owners_len ==> owners@[a] != owners@[b],
                c != s ==> forall|a: int|
                    0 <= a < current_num ==> !sv[c as int].owners.contains(#[trigger] owners@[a]),
            decreases owners_len - current_num,
        {
            let current_key = owners[current_num];
            if s == c {
                if occurs_from(owners, current_num + 1, &current_key) {
                    proof {
                        let b = choose|b: int|
                            current_num + 1 <= b < owners@.len() && owners@[b] == current_key;
                        assert(owners@[current_num as int] == owners@[b]);
                    }
                    return true;
                }
            } else {
                if contains_key(&strata[c].owners, &current_key) {
                    proof {
                        assert(sv[c as int].owners == strata@[c as int].owners@);
                        assert(shares_owner(sv, s as int, c as int));
                    }
                    return true;
                }
                proof {
                    assert(sv[c as int].owners == strata@[c as int].owners@);
                }
            }
            current_num = current_num + 1;
        }
        proof {
            if c > s {
                assert(!shares_owner(sv, s as int, c as int));
            }
        }
        c = c + 1;
    }
    false
}

/// Checks the strata and the name of a new multi-sig.
pub fn check_multisig_params(strata: &Vec<Stratum>, name: &String) -> (r: Result<(), Errors>)
    ensures
        r == crate::state::multisig::outcome(create_multisig_error(strata_view(strata@), name@)),
{
    let ghost sv = strata_view(strata@);
    let name_len = name.as_str().unicode_len();
    if !(MAX_NAME_LEN >= name_len) {
        return Err(Errors::InvalidNameLen);
    }
    let strata_len = strata.len();
    proof {
        assert(sv.len() == strata_len);
    }
    if !(strata_len > 0) {
        return Err(Errors::InvalidStrataLen);
    }
    if !(MAX_STRATA >= strata_len) {
        return Err(Errors::InvalidStrataLen);
    }
    let mut s_index: usize = 0;
    proof {
        assert(sv.len() == strata_len);
    }
    while s_index < strata_len
        invariant
            0 <= s_index <= strata_len == strata.len(),
            sv == strata_view(strata@),
            sv.len() == strata_len,
            0 < strata_len <= MAX_STRATA,
            name@.len() <= MAX_NAME_LEN,
            forall|j: int| 0 <= j < s_index ==> #[trigger] stratum_error(sv, j) is None,
        decreases strata_len - s_index,
    {
        proof {
            lemma_first_error_skip(sv, 0, s_index as int);
        }
        let owners_len = strata[s_index].owners.len();
        let m = strata[s_index].m;
        if !(owners_len > 0) {
            return Err(Errors::InvalidOwnersCount);
        }
        if !(MAX_OWNERS >= owners_len) {
            return Err(Errors::InvalidOwnersCount);
        }
        if s_index == 0 {
            if !(m > 0) {
                return Err(Errors::ThresholdZero);
            }
        }
        if has_duplicate_from(strata, s_index) {
            return Err(Errors::DuplicateOwner);
        }
        if !(owners_len >= m as usize) {
            return Err(Errors::ThresholdExceeds);
        }
        s_index = s_index + 1;
    }
    proof {
        lemma_first_error_skip(sv, 0, strata_len as int);
    }
    Ok(())
}

/// Sorts the owners of every stratum.
fn sort_strata(strata: Vec<Stratum>) -> (r: Vec<Stratum>)
    ensures
        strata_view(r@) =~~= strata_view(strata@).map_values(
            |s: StratumView| StratumView { owners: s.owners.sort_by(key_order()), ..s },
        ),
{
    let ghost orig = strata_view(strata@);
    let mut strata = strata;
    let mut i: usize = 0;
    while i < strata.len()
        invariant
            0 <= i <= strata.len(),
            orig.len() == strata@.len(),
            forall|j: int| 0 <= j < i ==> #[trigger] strata@[j]@ == (StratumView {
                owners: orig[j].owners.sort_by(key_order()),
                ..orig[j]
            }),
            forall|j: int| i <= j < strata.len() ==> #[trigger] strata@[j]@ == orig[j],
        decreases strata.len() - i,
    {
        let ghost before = strata@;
        let mut owners: Vec<Pubkey> = Vec::new();
        std::mem::swap(&mut owners, &mut strata[i].owners);
        proof {
            assert(owners@ == before[i as int].owners@);
        }
        let sorted = sort_keys(owners);
        strata[i].owners = sorted;
        proof {
            assert(strata@[i as int].m == before[i as int].m);
            assert(strata@[i as int].active == before[i as int].active);
            assert(before[i as int]@ == orig[i as int]);
            assert(strata@[i as int]@ =~~= (StratumView {
                owners: orig[i as int].owners.sort_by(key_order()),
                ..orig[i as int]
            }));
        }
        i = i + 1;
    }
    strata
}

/// Creates a multi-sig once its authority address has been looked up: checks the
/// strata and the name, sorts every stratum's owners and makes every stratum
/// active.
pub fn create_multisig_with_authority(
    strata: Vec<Stratum>,
    name: String,
    creator: Pubkey,
    multisig_bump: u8,
    authority: Option<(Pubkey, u8)>,
) -> (r: Result<MultiSig, Errors>)
    ensures
        create_multisig_error(strata_view(strata@), name@) matches Some(e) ==> r == Err::<
            MultiSig,
            Errors,
        >(e),
        create_multisig_error(strata_view(strata@), name@) is None && authority is None ==> r
            == Err::<MultiSig, Errors>(Errors::AuthorityBumpNotFound),
        create_multisig_error(strata_view(strata@), name@) is None && authority is Some ==> r is Ok,
        r matches Ok(ms) ==> ms@ =~~= created_multisig(
            strata_view(strata@),
            name@,
            creator,
            multisig_bump,
            authority.unwrap().1,
        ) && ms@.wf(),
{
    match check_multisig_params(&strata, &name) {
        Err(e) => {
            return Err(e);
        },
        Ok(()) => {},
    }
    let ghost sv = strata_view(strata@);
    let sorted = sort_strata(strata);
    match authority {
        None => Err(Errors::AuthorityBumpNotFound),
        Some((_, authority_bump)) => {
            let ms = MultiSig::new(sorted, authority_bump, name, creator, multisig_bump);
            proof {
                lemma_created_wf(sv, name@, creator, multisig_bump, authority_bump);
            }
            Ok(ms)
        },
    }
}

/// A multi-sig created from strata and a name that pass the checks is well formed.
pub proof fn lemma_created_wf(
    strata: Seq<StratumView>,
    name: Seq<char>,
    creator: Pubkey,
    multisig_bump: u8,
    authority_bump: u8,
)
    requires
        create_multisig_error(strata, name) is None,
    ensures
        created_multisig(strata, name, creator, multisig_bump, authority_bump).wf(),
{
    let n = created_multisig(strata, name, creator, multisig_bump, authority_bump);
    lemma_no_first_error(strata, 0);
    assert forall|i: int| 0 <= i < n.strata.len() implies stratum_wf(#[trigger] n.strata[i])
        && crate::key::keys_sorted(n.strata[i].owners) && forall|k: Pubkey| #[trigger] n.strata[i].owners.contains(k)
        <==> strata[i].owners.contains(k) by {
        assert(stratum_error(strata, i) is None);
        lemma_no_repeat_no_duplicates(strata[i].owners);
        lemma_sorted_keys_facts(strata[i].owners);
    }
    assert forall|i: int, j: int, k: Pubkey|
        #![trigger n.strata[i].owners.contains(k), n.strata[j].owners.contains(k)]
        0 <= i < n.strata.len() && 0 <= j < n.strata.len() && i != j
            && n.strata[i].owners.contains(k) implies !n.strata[j].owners.contains(k) by {
        assert(n.strata[i].owners.contains(k) <==> strata[i].owners.contains(k));
        assert(n.strata[j].owners.contains(k) <==> strata[j].owners.contains(k));
        let (lo, hi) = if i < j { (i, j) } else { (j, i) };
        assert(stratum_error(strata, lo) is None);
        assert(!duplicate_from(strata, lo));
        assert(!shares_owner(strata, lo, hi));
        if strata[i].owners.contains(k) && strata[j].owners.contains(k) {
            let a = choose|a: int| 0 <= a < strata[lo].owners.len() && strata[lo].owners[a] == k;
            assert(strata[hi].owners.contains(strata[lo].owners[a]));
        }
    }
    assert(stratum_error(strata, 0) is None);
}

/// Creates a multi-sig at address `multi_sig_key` for the signer `signer`:
/// checks the strata and the name, looks up the multi-sig's authority address,
/// and stores the strata with sorted owners, every stratum active.
pub fn create_multisig_handler(
    multi_sig_key: Pubkey,
    signer: Pubkey,
    multisig_bump: u8,
    strata: Vec<Stratum>,
    name: String,
) -> (r: Result<MultiSig, Errors>)
    ensures
        create_multisig_error(strata_view(strata@), name@) matches Some(e) ==> r == Err::<
            MultiSig,
            Errors,
        >(e),
        create_multisig_error(strata_view(strata@), name@) is None ==> (r is Ok <==> program_address(
            seq![authority_tag(), multi_sig_key.bytes@],
            program_id_bytes(),
        ) is Some),
        r is Err && create_multisig_error(strata_view(strata@), name@) is None ==> r == Err::<
            MultiSig,
            Errors,
        >(Errors::AuthorityBumpNotFound),
        r matches Ok(ms) ==> ms@ =~~= created_multisig(
            strata_view(strata@),
            name@,
            signer,
            multisig_bump,
            program_address(seq![authority_tag(), multi_sig_key.bytes@], program_id_bytes()).unwrap().1,
        ) && ms@.wf(),
{
    let authority = find_authority(&multi_sig_key);
    create_multisig_with_authority(strata, name, signer, multisig_bump, authority)
}

} // verus!
