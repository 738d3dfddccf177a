//! The multi-sig account: its strata of owners, their thresholds, and the
//! changes that the owners can make to them.

use vstd::prelude::*;
use vstd::utf8::encode_utf8;
use crate::errors::Errors;
use crate::key::{
    Pubkey, insert_sorted, key_order, keys_sorted, lemma_key_order_total, occurs_from,
    search_sorted, sort_keys,
};

verus! {

/// Most strata that a multi-sig can have.
pub const MAX_STRATA: usize = 256;

/// Most owners that one stratum can have.
pub const MAX_OWNERS: usize = 1220;

/// Longest multi-sig name, in characters.
pub const MAX_NAME_LEN: usize = 25;

/// A group of owners with its own approval threshold `m`.
#[derive(Clone, Debug)]
pub struct Stratum {
    pub owners: Vec<Pubkey>,
    pub m: u16,
    pub active: bool,
}

/// A stratum as the contracts see it.
#[verifier::ext_equal]
pub struct StratumView {
    pub owners: Seq<Pubkey>,
    pub m: u16,
    pub active: bool,
}

impl View for Stratum {
    type V = StratumView;

    open spec fn view(&self) -> StratumView {
        StratumView { owners: self.owners@, m: self.m, active: self.active }
    }
}

/// The views of a list of strata.
pub open spec fn strata_view(strata: Seq<Stratum>) -> Seq<StratumView> {
    strata.map_values(|s: Stratum| s@)
}

/// The multi-sig wallet account.
#[derive(Clone, Debug)]
pub struct MultiSig {
    pub strata: Vec<Stratum>,
    pub transaction_count: u32,
    pub authority_bump: u8,
    pub multisig_bump: u8,
    pub version: u32,
    pub name: String,
    pub creator: Pubkey,
    pub recovery: bool,
}

/// A multi-sig as the contracts see it.
#[verifier::ext_equal]
pub struct MultiSigView {
    pub strata: Seq<StratumView>,
    pub transaction_count: u32,
    pub authority_bump: u8,
    pub multisig_bump: u8,
    pub version: u32,
    pub name: Seq<char>,
    pub creator: Pubkey,
    pub recovery: bool,
}

impl View for MultiSig {
    type V = MultiSigView;

    open spec fn view(&self) -> MultiSigView {
        MultiSigView {
            strata: strata_view(self.strata@),
            transaction_count: self.transaction_count,
            authority_bump: self.authority_bump,
            multisig_bump: self.multisig_bump,
            version: self.version,
            name: self.name@,
            creator: self.creator,
            recovery: self.recovery,
        }
    }
}

/// The change that a call of `change_multisig_realloc` makes; each grows the account.
pub enum ChangeReallocType {
    AddOwner { owner: Pubkey, stratum: u8 },
    AddStratum { stratum: Stratum },
}

/// The change that a call of `change_multisig` makes; none grows the account.
pub enum ChangeType {
    RemoveOwner { owner: Pubkey },
    ChangeM { new_m: u16 },
    ActivateStratum,
    DeactivateStratum,
}

/// Bytes that one stratum takes in the account.
pub open spec fn stratum_space(s: StratumView) -> int {
    4 + 32 * (s.owners.len() as int) + 2 + 1
}

/// Bytes that a list of strata takes in the account.
pub open spec fn strata_space(strata: Seq<StratumView>) -> int
    decreases strata.len(),
{
    if strata.len() == 0 {
        0
    } else {
        strata_space(strata.drop_last()) + stratum_space(strata.last())
    }
}

/// The UTF-8 bytes of a name.
pub open spec fn name_bytes(name: Seq<char>) -> Seq<u8> {
    encode_utf8(name)
}

/// Bytes that a multi-sig account with these strata and this name takes.
pub open spec fn multisig_space(strata: Seq<StratumView>, name: Seq<char>) -> int {
    8 + 4 + 4 + 4 + 1 + 1 + 32 + 1 + strata_space(strata) + 4 + name_bytes(name).len()
}

/// Bytes that a change of `change_multisig_realloc` needs beyond the current size.
pub open spec fn realloc_extra(change: ChangeReallocType) -> int {
    match change {
        ChangeReallocType::AddOwner { .. } => 32int,
        ChangeReallocType::AddStratum { stratum } => 4 + (stratum.owners@.len() as int) * 32 + 2 + 1,
    }
}

/// A prefix of the strata takes no more space than all of them.
pub proof fn lemma_strata_space_prefix(strata: Seq<StratumView>, i: int)
    requires
        0 <= i <= strata.len(),
    ensures
        0 <= strata_space(strata.take(i)) <= strata_space(strata),
    decreases strata.len(),
{
    if i == strata.len() {
        assert(strata.take(i) =~= strata);
        lemma_strata_space_nonneg(strata);
    } else {
        assert(strata.take(i) =~= strata.drop_last().take(i));
        lemma_strata_space_prefix(strata.drop_last(), i);
    }
}

/// Space is never negative.
pub proof fn lemma_strata_space_nonneg(strata: Seq<StratumView>)
    ensures
        strata_space(strata) >= 0,
    decreases strata.len(),
{
    if strata.len() > 0 {
        lemma_strata_space_nonneg(strata.drop_last());
    }
}

/// Adding a stratum at the end adds its space.
pub proof fn lemma_strata_space_push(strata: Seq<StratumView>, s: StratumView)
    ensures
        strata_space(strata.push(s)) == strata_space(strata) + stratum_space(s),
{
    assert(strata.push(s).drop_last() =~= strata);
}

/// Replacing one stratum changes the space by the difference of the two.
pub proof fn lemma_strata_space_update(strata: Seq<StratumView>, i: int, s: StratumView)
    requires
        0 <= i < strata.len(),
    ensures
        strata_space(strata.update(i, s)) == strata_space(strata) - stratum_space(strata[i])
            + stratum_space(s),
    decreases strata.len(),
{
    if i == strata.len() - 1 {
        assert(strata.update(i, s).drop_last() =~= strata.drop_last());
    } else {
        assert(strata.update(i, s).drop_last() =~= strata.drop_last().update(i, s));
        lemma_strata_space_update(strata.drop_last(), i, s);
    }
}

/// Some owner is listed twice in `owners`.
pub open spec fn has_repeat(owners: Seq<Pubkey>) -> bool {
    exists|a: int, b: int| 0 <= a < b < owners.len() && owners[a] == owners[b]
}

/// A list without a repeat has no duplicates, and the other way round.
pub proof fn lemma_no_repeat_no_duplicates(owners: Seq<Pubkey>)
    ensures
        !has_repeat(owners) <==> owners.no_duplicates(),
{
    if !has_repeat(owners) {
        assert forall|i: int, j: int|
            0 <= i < owners.len() && 0 <= j < owners.len() && i != j implies owners[i]
            != owners[j] by {
            if i < j {
                assert(!(owners[i] == owners[j]));
            } else {
                assert(!(owners[j] == owners[i]));
            }
        }
    }
}

/// Two lists with the same elements, counted with multiplicity, either both
/// have duplicates or neither has.
pub proof fn lemma_no_duplicates_same_multiset(a: Seq<Pubkey>, b: Seq<Pubkey>)
    requires
        a.no_duplicates(),
        a.to_multiset() == b.to_multiset(),
    ensures
        b.no_duplicates(),
{
    a.lemma_multiset_has_no_duplicates();
    b.lemma_multiset_has_no_duplicates_conv();
}

/// Adding a key that is not yet listed keeps a list free of duplicates.
pub proof fn lemma_no_duplicates_push(s: Seq<Pubkey>, k: Pubkey)
    requires
        s.no_duplicates(),
        !s.contains(k),
    ensures
        s.push(k).no_duplicates(),
{
    let p = s.push(k);
    assert forall|i: int, j: int| 0 <= i < p.len() && 0 <= j < p.len() && i != j implies p[i]
        != p[j] by {
        if i == s.len() {
            assert(p[j] == s[j]);
        } else if j == s.len() {
            assert(p[i] == s[i]);
        } else {
            assert(p[i] == s[i] && p[j] == s[j]);
        }
    }
}

/// Whether some owner is listed twice.
pub fn has_repeated_key(owners: &Vec<Pubkey>) -> (r: bool)
    ensures
        r == has_repeat(owners@),
{
    let mut a: usize = 0;
    while a < owners.len()
        invariant
            0 <= a <= owners.len(),
            forall|x: int, y: int| 0 <= x < a && x < y < owners@.len() ==> owners@[x] != owners@[y],
        decreases owners.len() - a,
    {
        if occurs_from(owners, a + 1, &owners[a]) {
            proof {
                let b = choose|b: int| a + 1 <= b < owners@.len() && owners@[b] == owners@[a as int];
                assert(owners@[a as int] == owners@[b]);
            }
            return true;
        }
        a = a + 1;
    }
    false
}

/// The requirements that every stratum meets.
pub open spec fn stratum_wf(s: StratumView) -> bool {
    &&& s.owners.len() <= MAX_OWNERS
    &&& s.owners.no_duplicates()
    &&& s.m <= s.owners.len()
    &&& !s.active ==> s.owners.len() == 0 && s.m == 0
}

impl MultiSigView {
    /// `k` is an owner in some stratum.
    pub open spec fn has_owner(self, k: Pubkey) -> bool {
        exists|i: int| 0 <= i < self.strata.len() && #[trigger] self.strata[i].owners.contains(k)
    }

    /// Every stratum lists its owners in key order.
    pub open spec fn strata_sorted(self) -> bool {
        forall|i: int| 0 <= i < self.strata.len() ==> keys_sorted(#[trigger] self.strata[i].owners)
    }

    /// No key is an owner in two different strata.
    pub open spec fn members_disjoint(self) -> bool {
        forall|i: int, j: int, k: Pubkey|
            #![trigger self.strata[i].owners.contains(k), self.strata[j].owners.contains(k)]
            0 <= i < self.strata.len() && 0 <= j < self.strata.len() && i != j
                && self.strata[i].owners.contains(k) ==> !self.strata[j].owners.contains(k)
    }

    /// What holds of every multi-sig: between 1 and 256 strata, sorted owner
    /// lists, no owner in two strata, each threshold within its owner count,
    /// inactive strata empty, the first stratum active with a non-zero
    /// threshold, and a name of at most 25 characters.
    pub open spec fn wf(self) -> bool {
        &&& 1 <= self.strata.len() <= MAX_STRATA
        &&& self.strata_sorted()
        &&& self.members_disjoint()
        &&& forall|i: int| 0 <= i < self.strata.len() ==> stratum_wf(#[trigger] self.strata[i])
        &&& self.strata[0].active
        &&& self.strata[0].m >= 1
        &&& self.name.len() <= MAX_NAME_LEN
    }

    /// The same multi-sig with the owners of stratum `s` replaced.
    pub open spec fn with_owners(self, s: int, owners: Seq<Pubkey>) -> MultiSigView {
        MultiSigView {
            strata: self.strata.update(
                s,
                StratumView { owners, m: self.strata[s].m, active: self.strata[s].active },
            ),
            ..self
        }
    }

    /// The same multi-sig with stratum `s` replaced.
    pub open spec fn with_stratum(self, s: int, st: StratumView) -> MultiSigView {
        MultiSigView { strata: self.strata.update(s, st), ..self }
    }
}

/// The outcome that a check with this first failure gives.
pub open spec fn outcome(err: Option<Errors>) -> Result<(), Errors> {
    match err {
        Some(e) => Err(e),
        None => Ok(()),
    }
}

/// The strata as a new multi-sig stores them: every stratum active.
pub open spec fn activated(strata: Seq<StratumView>) -> Seq<StratumView> {
    strata.map_values(|s: StratumView| StratumView { active: true, ..s })
}

impl MultiSig {
    /// Bytes that a multi-sig account with these strata and this name takes.
    pub fn len(strata: Vec<Stratum>, name: &String) -> (size: usize)
        requires
            multisig_space(strata_view(strata@), name@) <= usize::MAX,
        ensures
            size == multisig_space(strata_view(strata@), name@),
    {
        Self::space_for(&strata, name)
    }

    fn space_for(strata: &Vec<Stratum>, name: &String) -> (size: usize)
        requires
            multisig_space(strata_view(strata@), name@) <= usize::MAX,
        ensures
            size == multisig_space(strata_view(strata@), name@),
    {
        let ghost sv = strata_view(strata@);
        let mut size: usize = 8 + 4 + 4 + 4 + 1 + 1 + 32 + 1;
        let mut i: usize = 0;
        proof {
            assert(sv.take(0) =~= Seq::<StratumView>::empty());
        }
        while i < strata.len()
            invariant
                0 <= i <= strata.len(),
                sv == strata_view(strata@),
                multisig_space(sv, name@) <= usize::MAX,
                size == 8 + 4 + 4 + 4 + 1 + 1 + 32 + 1 + strata_space(sv.take(i as int)),
            decreases strata.len() - i,
        {
            proof {
                assert(sv.take(i + 1).drop_last() =~= sv.take(i as int));
                assert(sv.take(i + 1).last() == strata@[i as int]@);
                lemma_strata_space_prefix(sv, i + 1);
            }
            size = size + (4 + strata[i].owners.len() * 32 + 2 + 1);
            i = i + 1;
        }
        proof {
            assert(sv.take(i as int) =~= sv);
            lemma_strata_space_nonneg(sv);
        }
        size = size + (4 + name.as_str().len());
        size
    }

    /// A new multi-sig with these strata, every one of them made active.
    pub fn new(
        strata: Vec<Stratum>,
        authority_bump: u8,
        name: String,
        creator: Pubkey,
        multisig_bump: u8,
    ) -> (ms: MultiSig)
        ensures
            ms@.strata =~~= activated(strata_view(strata@)),
            ms.transaction_count == 0,
            ms.authority_bump == authority_bump,
            ms.multisig_bump == multisig_bump,
            ms.version == 0,
            ms@.name == name@,
            ms.creator == creator,
            !ms.recovery,
    {
        let mut strata = strata;
        let ghost orig = strata_view(strata@);
        let mut i: usize = 0;
        while i < strata.len()
            invariant
                0 <= i <= strata.len(),
                orig.len() == strata@.len(),
                forall|j: int| 0 <= j < i ==> #[trigger] strata@[j]@ == (StratumView { active: true, ..orig[j] }),
                forall|j: int| i <= j < strata.len() ==> #[trigger] strata@[j]@ == orig[j],
            decreases strata.len() - i,
        {
            let ghost before = strata@;
            strata[i].active = true;
            proof {
                assert(strata@[i as int].owners == before[i as int].owners);
                assert(strata@[i as int].m == before[i as int].m);
                assert(before[i as int]@ == orig[i as int]);
                assert(strata@[i as int]@ =~~= (StratumView { active: true, ..orig[i as int] }));
            }
            i = i + 1;
        }
        proof {
            assert(strata_view(strata@) =~~= activated(orig));
        }
        MultiSig {
            strata,
            transaction_count: 0,
            authority_bump,
            multisig_bump,
            version: 0,
            name,
            creator,
            recovery: false,
        }
    }

    /// The account size that a change of `change_multisig_realloc` needs.
    pub fn realloc_bytes(&self, change_type: &ChangeReallocType) -> (size: usize)
        requires
            multisig_space(self@.strata, self@.name) + realloc_extra(*change_type) <= usize::MAX,
        ensures
            size == multisig_space(self@.strata, self@.name) + realloc_extra(*change_type),
            *change_type matches ChangeReallocType::AddOwner { owner, stratum } ==> (stratum
                < self.strata.len() ==> size == multisig_space(
                owner_added(self@, owner, stratum as int).strata,
                self@.name,
            )),
            *change_type matches ChangeReallocType::AddStratum { stratum } ==> size == multisig_space(
                stratum_added(self@, stratum.owners@, stratum.m).strata,
                self@.name,
            ),
    {
        proof {
            lemma_strata_space_nonneg(self@.strata);
            match *change_type {
                ChangeReallocType::AddOwner { owner, stratum } => {
                    if stratum < self.strata.len() {
                        law_realloc_fits_change(self@, *change_type);
                    }
                },
                ChangeReallocType::AddStratum { .. } => {
                    law_realloc_fits_change(self@, *change_type);
                },
            }
        }
        let req_len = Self::space_for(&self.strata, &self.name);
        match change_type {
            ChangeReallocType::AddOwner { owner: _, stratum: _ } => req_len + 32,
            ChangeReallocType::AddStratum { stratum } => req_len + 4 + stratum.owners.len() * 32 + 2
                + 1,
        }
    }

    /// Where `address` stands among the owners of stratum `owner_stratum`.
    ///
    /// A returned index holds `address`; on a sorted owner list `None` means that
    /// `address` is not an owner of that stratum.
    pub fn is_owner_stratum(&self, address: Pubkey, owner_stratum: usize) -> (r: Option<usize>)
        requires
            owner_stratum < self.strata.len(),
        ensures
            r matches Some(i) ==> i < self@.strata[owner_stratum as int].owners.len()
                && self@.strata[owner_stratum as int].owners[i as int] == address,
            r is None && keys_sorted(self@.strata[owner_stratum as int].owners)
                ==> !self@.strata[owner_stratum as int].owners.contains(address),
    {
        search_sorted(&self.strata[owner_stratum].owners, &address)
    }

    /// Whether `address` is an owner in any stratum.
    pub fn is_owner_wallet(&self, address: Pubkey) -> (r: bool)
        ensures
            r ==> self@.has_owner(address),
            self@.strata_sorted() ==> r == self@.has_owner(address),
    {
        let mut i: usize = 0;
        while i < self.strata.len()
            invariant
                0 <= i <= self.strata.len(),
                self@.strata_sorted() ==> forall|j: int|
                    0 <= j < i ==> !(#[trigger] self@.strata[j].owners.contains(address)),
            decreases self.strata.len() - i,
        {
            let result = search_sorted(&self.strata[i].owners, &address);
            match result {
                Some(_) => {
                    proof {
                        assert(self@.strata[i as int].owners.contains(address));
                    }
                    return true;
                },
                None => {
                    proof {
                        if self@.strata_sorted() {
                            assert(keys_sorted(self@.strata[i as int].owners));
                        }
                    }
                },
            }
            i = i + 1;
        }
        false
    }
}

/// Sorting keeps the keys and their number, and gives a sorted list.
pub proof fn lemma_sorted_keys_facts(s: Seq<Pubkey>)
    ensures
        keys_sorted(s.sort_by(key_order())),
        s.sort_by(key_order()).len() == s.len(),
        forall|k: Pubkey| #[trigger] s.sort_by(key_order()).contains(k) <==> s.contains(k),
        s.no_duplicates() ==> s.sort_by(key_order()).no_duplicates(),
{
    broadcast use vstd::seq_lib::group_to_multiset_ensures;

    lemma_key_order_total();
    s.lemma_sort_by_ensures(key_order());
    if s.no_duplicates() {
        lemma_no_duplicates_same_multiset(s, s.sort_by(key_order()));
    }
    assert(s.sort_by(key_order()).to_multiset().len() == s.to_multiset().len());
    assert forall|k: Pubkey| #[trigger] s.sort_by(key_order()).contains(k) <==> s.contains(k) by {
        assert(s.sort_by(key_order()).to_multiset().count(k) == s.to_multiset().count(k));
    }
}

/// Some index at which `k` occurs in `s`.
pub open spec fn key_position(s: Seq<Pubkey>, k: Pubkey) -> int {
    choose|i: int| 0 <= i < s.len() && s[i] == k
}

/// `s` with one occurrence of `k` taken out.
pub open spec fn without_one(s: Seq<Pubkey>, k: Pubkey) -> Seq<Pubkey> {
    s.remove(key_position(s, k))
}

/// Taking an element out of a sorted list leaves it sorted.
pub proof fn lemma_remove_sorted(s: Seq<Pubkey>, i: int)
    requires
        keys_sorted(s),
        0 <= i < s.len(),
    ensures
        keys_sorted(s.remove(i)),
{
    let r = s.remove(i);
    assert forall|a: int, b: int| 0 <= a < b < r.len() implies #[trigger] key_order()(r[a], r[b]) by {
        let a0 = if a < i { a } else { a + 1 };
        let b0 = if b < i { b } else { b + 1 };
        assert(r[a] == s[a0] && r[b] == s[b0]);
        assert(key_order()(s[a0], s[b0]));
    }
}

/// In a sorted list, taking out any occurrence of `k` gives `without_one(s, k)`.
pub proof fn lemma_without_one(s: Seq<Pubkey>, i: int, k: Pubkey)
    requires
        keys_sorted(s),
        0 <= i < s.len(),
        s[i] == k,
    ensures
        s.remove(i) == without_one(s, k),
        keys_sorted(without_one(s, k)),
        without_one(s, k).len() == s.len() - 1,
        forall|x: Pubkey| #[trigger] without_one(s, k).contains(x) ==> s.contains(x),
{
    broadcast use vstd::seq_lib::group_to_multiset_ensures;

    lemma_key_order_total();
    assert(exists|j: int| 0 <= j < s.len() && s[j] == k);
    let c = key_position(s, k);
    assert(s[c] == k);
    lemma_remove_sorted(s, i);
    lemma_remove_sorted(s, c);
    vstd::seq_lib::to_multiset_remove(s, i);
    vstd::seq_lib::to_multiset_remove(s, c);
    vstd::seq_lib::lemma_sorted_unique(s.remove(i), s.remove(c), key_order());
    let r = s.remove(i);
    assert forall|x: Pubkey| #[trigger] r.contains(x) implies s.contains(x) by {
        let j = choose|j: int| 0 <= j < r.len() && r[j] == x;
        if j < i {
            assert(s[j] == x);
        } else {
            assert(s[j + 1] == x);
        }
    }
}

/// First failure of adding `owner` to stratum `s`.
pub open spec fn add_owner_error(ms: MultiSigView, owner: Pubkey, s: int) -> Option<Errors> {
    if ms.has_owner(owner) {
        Some(Errors::OwnerAlreadyExists)
    } else if !ms.strata[s].active {
        Some(Errors::InactiveStratum)
    } else if ms.strata[s].owners.len() >= MAX_OWNERS {
        Some(Errors::InvalidOwnersCount)
    } else {
        None
    }
}

/// The multi-sig after `owner` joined stratum `s`: the owners are sorted again.
pub open spec fn owner_added(ms: MultiSigView, owner: Pubkey, s: int) -> MultiSigView {
    ms.with_owners(s, ms.strata[s].owners.push(owner).sort_by(key_order()))
}

/// First failure of removing `owner` from stratum `s`.
pub open spec fn remove_owner_error(ms: MultiSigView, owner: Pubkey, s: int) -> Option<Errors> {
    if !ms.strata[s].owners.contains(owner) {
        Some(Errors::OwnerDoesntExist)
    } else if !ms.strata[s].active {
        Some(Errors::InactiveStratum)
    } else if ms.strata[s].owners.len() - 1 < ms.strata[s].m {
        Some(Errors::ThresholdExceeds)
    } else {
        None
    }
}

/// The multi-sig after `owner` left stratum `s`.
pub open spec fn owner_removed(ms: MultiSigView, owner: Pubkey, s: int) -> MultiSigView {
    ms.with_owners(s, without_one(ms.strata[s].owners, owner))
}

/// First failure of adding a stratum with these owners and threshold.
pub open spec fn add_stratum_error(ms: MultiSigView, owners: Seq<Pubkey>, m: u16) -> Option<Errors> {
    if ms.strata.len() >= MAX_STRATA {
        Some(Errors::InvalidStrataLen)
    } else if owners.len() == 0 {
        Some(Errors::InvalidOwnersCount)
    } else if owners.len() > MAX_OWNERS {
        Some(Errors::InvalidOwnersCount)
    } else if owners.len() < m {
        Some(Errors::ThresholdExceeds)
    } else if has_repeat(owners) {
        Some(Errors::DuplicateOwner)
    } else if exists|i: int| 0 <= i < owners.len() && ms.has_owner(#[trigger] owners[i]) {
        Some(Errors::OwnerAlreadyExists)
    } else {
        None
    }
}

/// The multi-sig with a new active stratum at the end, its owners sorted.
pub open spec fn stratum_added(ms: MultiSigView, owners: Seq<Pubkey>, m: u16) -> MultiSigView {
    MultiSigView {
        strata: ms.strata.push(StratumView { owners: owners.sort_by(key_order()), m, active: true }),
        ..ms
    }
}

/// First failure of deactivating stratum `s`.
pub open spec fn deactivate_error(ms: MultiSigView, s: int) -> Option<Errors> {
    if s == 0 {
        Some(Errors::CannotDeactivateFirst)
    } else if !ms.strata[s].active {
        Some(Errors::InactiveStratum)
    } else if ms.strata[s].m != 0 {
        Some(Errors::ThresholdNotZero)
    } else {
        None
    }
}

/// The multi-sig with stratum `s` inactive and emptied of owners.
pub open spec fn stratum_deactivated(ms: MultiSigView, s: int) -> MultiSigView {
    ms.with_stratum(s, StratumView { owners: Seq::empty(), m: ms.strata[s].m, active: false })
}

/// First failure of activating stratum `s`.
pub open spec fn activate_error(ms: MultiSigView, s: int) -> Option<Errors> {
    if ms.strata[s].active {
        Some(Errors::ActiveStratum)
    } else {
        None
    }
}

/// The multi-sig with stratum `s` active again.
pub open spec fn stratum_activated(ms: MultiSigView, s: int) -> MultiSigView {
    ms.with_stratum(s, StratumView { active: true, ..ms.strata[s] })
}

/// First failure of setting the threshold of stratum `s` to `new_m`.
pub open spec fn change_m_error(ms: MultiSigView, new_m: u16, s: int) -> Option<Errors> {
    if ms.strata[s].owners.len() < new_m {
        Some(Errors::ThresholdExceeds)
    } else if !ms.strata[s].active {
        Some(Errors::InactiveStratum)
    } else if s == 0 && new_m == 0 {
        Some(Errors::ThresholdZero)
    } else {
        None
    }
}

/// The multi-sig with the threshold of stratum `s` set to `new_m`.
pub open spec fn threshold_changed(ms: MultiSigView, new_m: u16, s: int) -> MultiSigView {
    ms.with_stratum(s, StratumView { m: new_m, ..ms.strata[s] })
}

/// The account size that `realloc_bytes` asks for before a growing change is
/// exactly the size of the multi-sig once the change is made, whether or not
/// the change would pass its checks.
pub proof fn law_realloc_fits_change(ms: MultiSigView, change: ChangeReallocType)
    requires
        change matches ChangeReallocType::AddOwner { stratum, .. } ==> stratum < ms.strata.len(),
    ensures
        change matches ChangeReallocType::AddOwner { owner, stratum } ==> multisig_space(
            owner_added(ms, owner, stratum as int).strata,
            ms.name,
        ) == multisig_space(ms.strata, ms.name) + realloc_extra(change),
        change matches ChangeReallocType::AddStratum { stratum } ==> multisig_space(
            stratum_added(ms, stratum.owners@, stratum.m).strata,
            ms.name,
        ) == multisig_space(ms.strata, ms.name) + realloc_extra(change),
{
    match change {
        ChangeReallocType::AddOwner { owner, stratum } => {
            let s = stratum as int;
            let n = owner_added(ms, owner, s);
            lemma_sorted_keys_facts(ms.strata[s].owners.push(owner));
            lemma_strata_space_update(ms.strata, s, n.strata[s]);
            assert(n.strata =~= ms.strata.update(s, n.strata[s]));
        },
        ChangeReallocType::AddStratum { stratum } => {
            let n = stratum_added(ms, stratum.owners@, stratum.m);
            lemma_sorted_keys_facts(stratum.owners@);
            lemma_strata_space_push(ms.strata, n.strata.last());
            assert(n.strata =~= ms.strata.push(n.strata.last()));
        },
    }
}

/// Adding an owner keeps a multi-sig well formed.
pub proof fn lemma_wf_owner_added(ms: MultiSigView, owner: Pubkey, s: int)
    requires
        ms.wf(),
        0 <= s < ms.strata.len(),
        add_owner_error(ms, owner, s) is None,
    ensures
        owner_added(ms, owner, s).wf(),
{
    let o = ms.strata[s].owners;
    assert(stratum_wf(ms.strata[s]));
    assert(!o.contains(owner));
    lemma_no_duplicates_push(o, owner);
    lemma_sorted_keys_facts(o.push(owner));
    let n = owner_added(ms, owner, s);
    assert forall|k: Pubkey| #[trigger] n.strata[s].owners.contains(k) implies o.contains(k) || k
        == owner by {
        assert(o.push(owner).contains(k));
        let j = choose|j: int| 0 <= j < o.push(owner).len() && o.push(owner)[j] == k;
        if j < o.len() {
            assert(o[j] == k);
        }
    }
    assert forall|i: int, j: int, k: Pubkey|
        #![trigger n.strata[i].owners.contains(k), n.strata[j].owners.contains(k)]
        0 <= i < n.strata.len() && 0 <= j < n.strata.len() && i != j
            && n.strata[i].owners.contains(k) implies !n.strata[j].owners.contains(k) by {
        if i == s {
            if k == owner {
                assert(!ms.strata[j].owners.contains(owner));
            } else {
                assert(ms.strata[i].owners.contains(k));
            }
        } else if j == s {
            assert(ms.strata[i].owners.contains(k));
            if n.strata[j].owners.contains(k) {
                if k == owner {
                    assert(ms.strata[i].owners.contains(owner));
                } else {
                    assert(ms.strata[j].owners.contains(k));
                }
            }
        } else {
            assert(ms.strata[i].owners.contains(k));
        }
    }
    assert forall|i: int| 0 <= i < n.strata.len() implies stratum_wf(#[trigger] n.strata[i])
        && keys_sorted(n.strata[i].owners) by {
        if i != s {
            assert(n.strata[i] == ms.strata[i]);
        }
    }
}

/// Removing an owner keeps a multi-sig well formed.
pub proof fn lemma_wf_owner_removed(ms: MultiSigView, owner: Pubkey, s: int)
    requires
        ms.wf(),
        0 <= s < ms.strata.len(),
        remove_owner_error(ms, owner, s) is None,
    ensures
        owner_removed(ms, owner, s).wf(),
{
    let o = ms.strata[s].owners;
    assert(keys_sorted(o));
    let i = choose|i: int| 0 <= i < o.len() && o[i] == owner;
    lemma_without_one(o, i, owner);
    let n = owner_removed(ms, owner, s);
    assert forall|i: int, j: int, k: Pubkey|
        #![trigger n.strata[i].owners.contains(k), n.strata[j].owners.contains(k)]
        0 <= i < n.strata.len() && 0 <= j < n.strata.len() && i != j
            && n.strata[i].owners.contains(k) implies !n.strata[j].owners.contains(k) by {
        assert(ms.strata[i].owners.contains(k));
        if n.strata[j].owners.contains(k) {
            assert(ms.strata[j].owners.contains(k));
        }
    }
    assert forall|i: int| 0 <= i < n.strata.len() implies stratum_wf(#[trigger] n.strata[i])
        && keys_sorted(n.strata[i].owners) by {
        if i != s {
            assert(n.strata[i] == ms.strata[i]);
        }
    }
}

/// Adding a stratum keeps a multi-sig well formed.
pub proof fn lemma_wf_stratum_added(ms: MultiSigView, owners: Seq<Pubkey>, m: u16)
    requires
        ms.wf(),
        add_stratum_error(ms, owners, m) is None,
    ensures
        stratum_added(ms, owners, m).wf(),
{
    lemma_no_repeat_no_duplicates(owners);
    lemma_sorted_keys_facts(owners);
    let n = stratum_added(ms, owners, m);
    let last = ms.strata.len() as int;
    assert forall|k: Pubkey| #[trigger] n.strata[last].owners.contains(k) implies !ms.has_owner(k) by {
        let j = choose|j: int| 0 <= j < owners.len() && owners[j] == k;
        assert(!ms.has_owner(owners[j]));
    }
    assert forall|i: int, j: int, k: Pubkey|
        #![trigger n.strata[i].owners.contains(k), n.strata[j].owners.contains(k)]
        0 <= i < n.strata.len() && 0 <= j < n.strata.len() && i != j
            && n.strata[i].owners.contains(k) implies !n.strata[j].owners.contains(k) by {
        if i == last {
            assert(!ms.has_owner(k));
            assert(n.strata[j] == ms.strata[j]);
        } else if j == last {
            assert(ms.strata[i].owners.contains(k));
            assert(ms.has_owner(k));
        } else {
            assert(n.strata[i] == ms.strata[i]);
            assert(n.strata[j] == ms.strata[j]);
        }
    }
    assert forall|i: int| 0 <= i < n.strata.len() implies stratum_wf(#[trigger] n.strata[i])
        && keys_sorted(n.strata[i].owners) by {
        if i != last {
            assert(n.strata[i] == ms.strata[i]);
        }
    }
}

/// Deactivating a stratum keeps a multi-sig well formed.
pub proof fn lemma_wf_stratum_deactivated(ms: MultiSigView, s: int)
    requires
        ms.wf(),
        0 <= s < ms.strata.len(),
        deactivate_error(ms, s) is None,
    ensures
        stratum_deactivated(ms, s).wf(),
{
    let n = stratum_deactivated(ms, s);
    assert forall|i: int, j: int, k: Pubkey|
        #![trigger n.strata[i].owners.contains(k), n.strata[j].owners.contains(k)]
        0 <= i < n.strata.len() && 0 <= j < n.strata.len() && i != j
            && n.strata[i].owners.contains(k) implies !n.strata[j].owners.contains(k) by {
        if i != s && j != s {
            assert(ms.strata[i].owners.contains(k));
        }
    }
    assert forall|i: int| 0 <= i < n.strata.len() implies stratum_wf(#[trigger] n.strata[i])
        && keys_sorted(n.strata[i].owners) by {
        if i != s {
            assert(n.strata[i] == ms.strata[i]);
        }
    }
}

/// Activating a stratum keeps a multi-sig well formed.
pub proof fn lemma_wf_stratum_activated(ms: MultiSigView, s: int)
    requires
        ms.wf(),
        0 <= s < ms.strata.len(),
        activate_error(ms, s) is None,
    ensures
        stratum_activated(ms, s).wf(),
{
    let n = stratum_activated(ms, s);
    assert forall|i: int, j: int, k: Pubkey|
        #![trigger n.strata[i].owners.contains(k), n.strata[j].owners.contains(k)]
        0 <= i < n.strata.len() && 0 <= j < n.strata.len() && i != j
            && n.strata[i].owners.contains(k) implies !n.strata[j].owners.contains(k) by {
        assert(ms.strata[i].owners.contains(k));
    }
    assert forall|i: int| 0 <= i < n.strata.len() implies stratum_wf(#[trigger] n.strata[i])
        && keys_sorted(n.strata[i].owners) by {
        assert(stratum_wf(ms.strata[i]));
    }
}

/// Changing a threshold keeps a multi-sig well formed.
pub proof fn lemma_wf_threshold_changed(ms: MultiSigView, new_m: u16, s: int)
    requires
        ms.wf(),
        0 <= s < ms.strata.len(),
        change_m_error(ms, new_m, s) is None,
    ensures
        threshold_changed(ms, new_m, s).wf(),
{
    let n = threshold_changed(ms, new_m, s);
    assert forall|i: int, j: int, k: Pubkey|
        #![trigger n.strata[i].owners.contains(k), n.strata[j].owners.contains(k)]
        0 <= i < n.strata.len() && 0 <= j < n.strata.len() && i != j
            && n.strata[i].owners.contains(k) implies !n.strata[j].owners.contains(k) by {
        assert(ms.strata[i].owners.contains(k));
    }
    assert forall|i: int| 0 <= i < n.strata.len() implies stratum_wf(#[trigger] n.strata[i])
        && keys_sorted(n.strata[i].owners) by {
        assert(stratum_wf(ms.strata[i]));
    }
}

impl MultiSig {
    /// Adds `owner` to stratum `stratum`, keeping its owners sorted.
    pub fn add_owner(&mut self, owner: Pubkey, stratum: u8) -> (r: Result<(), Errors>)
        requires
            old(self)@.strata_sorted(),
            old(self)@.has_owner(owner) || (stratum as int) < old(self)@.strata.len(),
        ensures
            r == outcome(add_owner_error(old(self)@, owner, stratum as int)),
            r is Ok ==> final(self)@ =~~= owner_added(old(self)@, owner, stratum as int),
            r is Err ==> final(self)@ =~~= old(self)@,
            old(self)@.wf() ==> final(self)@.wf(),
    {
        if self.is_owner_wallet(owner) {
            return Err(Errors::OwnerAlreadyExists);
        }
        let s = stratum as usize;
        if !self.strata[s].active {
            return Err(Errors::InactiveStratum);
        }
        if !(MAX_OWNERS > self.strata[s].owners.len()) {
            return Err(Errors::InvalidOwnersCount);
        }
        let ghost before = self@;
        proof {
            assert(keys_sorted(before.strata[s as int].owners));
        }
        insert_sorted(&mut self.strata[s].owners, owner);
        proof {
            assert(self@ =~~= owner_added(before, owner, s as int));
            if before.wf() {
                lemma_wf_owner_added(before, owner, s as int);
            }
        }
        Ok(())
    }

    /// Removes `owner` from stratum `s_index`.
    pub fn remove_owner(&mut self, owner: Pubkey, s_index: usize) -> (r: Result<(), Errors>)
        requires
            s_index < old(self).strata.len(),
            keys_sorted(old(self)@.strata[s_index as int].owners),
        ensures
            r == outcome(remove_owner_error(old(self)@, owner, s_index as int)),
            r is Ok ==> final(self)@ =~~= owner_removed(old(self)@, owner, s_index as int),
            r is Err ==> final(self)@ =~~= old(self)@,
            old(self)@.wf() ==> final(self)@.wf(),
    {
        let ghost before = self@;
        let owner_status = self.is_owner_stratum(owner, s_index);
        match owner_status {
            Some(index) => {
                if !self.strata[s_index].active {
                    return Err(Errors::InactiveStratum);
                }
                if !(self.strata[s_index].owners.len() - 1 >= self.strata[s_index].m as usize) {
                    return Err(Errors::ThresholdExceeds);
                }
                self.strata[s_index].owners.remove(index);
                proof {
                    lemma_without_one(before.strata[s_index as int].owners, index as int, owner);
                    assert(self@ =~~= owner_removed(before, owner, s_index as int));
                    if before.wf() {
                        lemma_wf_owner_removed(before, owner, s_index as int);
                    }
                }
            },
            _ => {
                return Err(Errors::OwnerDoesntExist);
            },
        }
        Ok(())
    }

    /// Adds a new active stratum with these owners, sorted, and threshold `m`.
    pub fn add_stratum(&mut self, owners: Vec<Pubkey>, m: u16) -> (r: Result<(), Errors>)
        requires
            old(self)@.strata_sorted(),
        ensures
            r == outcome(add_stratum_error(old(self)@, owners@, m)),
            r is Ok ==> final(self)@ =~~= stratum_added(old(self)@, owners@, m),
            r is Err ==> final(self)@ =~~= old(self)@,
            old(self)@.wf() ==> final(self)@.wf(),
    {
        let ghost before = self@;
        if !(MAX_STRATA > self.strata.len()) {
            return Err(Errors::InvalidStrataLen);
        }
        if !(owners.len() > 0) {
            return Err(Errors::InvalidOwnersCount);
        }
        if !(MAX_OWNERS >= owners.len()) {
            return Err(Errors::InvalidOwnersCount);
        }
        if !(owners.len() >= m as usize) {
            return Err(Errors::ThresholdExceeds);
        }
        if has_repeated_key(&owners) {
            return Err(Errors::DuplicateOwner);
        }
        let mut i: usize = 0;
        while i < owners.len()
            invariant
                0 <= i <= owners.len(),
                self@ == before,
                before.strata_sorted(),
                before.strata.len() < MAX_STRATA,
                0 < owners.len() <= MAX_OWNERS,
                owners.len() >= m,
                !has_repeat(owners@),
                forall|j: int| 0 <= j < i ==> !before.has_owner(#[trigger] owners@[j]),
            decreases owners.len() - i,
        {
            if self.is_owner_wallet(owners[i]) {
                proof {
                    assert(before.has_owner(owners@[i as int]));
                }
                return Err(Errors::OwnerAlreadyExists);
            }
            i = i + 1;
        }
        let sorted = sort_keys(owners);
        self.strata.push(Stratum { owners: sorted, m, active: true });
        proof {
            assert(self@ =~~= stratum_added(before, owners@, m));
            if before.wf() {
                lemma_wf_stratum_added(before, owners@, m);
            }
        }
        Ok(())
    }

    /// Deactivates stratum `s_index`, which must have a zero threshold; its
    /// owners are dropped.
    pub fn deactivate_stratum(&mut self, s_index: usize) -> (r: Result<(), Errors>)
        requires
            s_index == 0 || s_index < old(self).strata.len(),
        ensures
            r == outcome(deactivate_error(old(self)@, s_index as int)),
            r is Ok ==> final(self)@ =~~= stratum_deactivated(old(self)@, s_index as int),
            r is Err ==> final(self)@ =~~= old(self)@,
            old(self)@.wf() ==> final(self)@.wf(),
    {
        if s_index == 0 {
            return Err(Errors::CannotDeactivateFirst);
        }
        let ghost before = self@;
        if !self.strata[s_index].active {
            return Err(Errors::InactiveStratum);
        }
        if self.strata[s_index].m != 0 {
            return Err(Errors::ThresholdNotZero);
        }
        self.strata[s_index].active = false;
        self.strata[s_index].owners = Vec::new();
        proof {
            assert(self@ =~~= stratum_deactivated(before, s_index as int));
            if before.wf() {
                lemma_wf_stratum_deactivated(before, s_index as int);
            }
        }
        Ok(())
    }

    /// Activates stratum `s_index` again.
    pub fn activate_stratum(&mut self, s_index: usize) -> (r: Result<(), Errors>)
        requires
            s_index < old(self).strata.len(),
        ensures
            r == outcome(activate_error(old(self)@, s_index as int)),
            r is Ok ==> final(self)@ =~~= stratum_activated(old(self)@, s_index as int),
            r is Err ==> final(self)@ =~~= old(self)@,
            old(self)@.wf() ==> final(self)@.wf(),
    {
        let ghost before = self@;
        if self.strata[s_index].active {
            return Err(Errors::ActiveStratum);
        }
        self.strata[s_index].active = true;
        proof {
            assert(self@ =~~= stratum_activated(before, s_index as int));
            if before.wf() {
                lemma_wf_stratum_activated(before, s_index as int);
            }
        }
        Ok(())
    }

    /// Sets the threshold of stratum `s_index` to `new_m`.
    pub fn change_m(&mut self, new_m: u16, s_index: usize) -> (r: Result<(), Errors>)
        requires
            s_index < old(self).strata.len(),
        ensures
            r == outcome(change_m_error(old(self)@, new_m, s_index as int)),
            r is Ok ==> final(self)@ =~~= threshold_changed(old(self)@, new_m, s_index as int),
            r is Err ==> final(self)@ =~~= old(self)@,
            old(self)@.wf() ==> final(self)@.wf(),
    {
        let ghost before = self@;
        if !(self.strata[s_index].owners.len() >= new_m as usize) {
            return Err(Errors::ThresholdExceeds);
        }
        if !self.strata[s_index].active {
            return Err(Errors::InactiveStratum);
        }
        if s_index == 0 && new_m == 0 {
            return Err(Errors::ThresholdZero);
        }
        self.strata[s_index].m = new_m;
        proof {
            assert(self@ =~~= threshold_changed(before, new_m, s_index as int));
            if before.wf() {
                lemma_wf_threshold_changed(before, new_m, s_index as int);
            }
        }
        Ok(())
    }
}

} // verus!
