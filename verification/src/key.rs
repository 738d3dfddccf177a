//! Account addresses: 32-byte keys, their byte-wise order, and the sorted
//! owner lists built on that order.

use vstd::prelude::*;
use vstd::relations::*;

verus! {

/// A 32-byte account address.
#[derive(Clone, Copy, Debug)]
pub struct Pubkey {
    pub bytes: [u8; 32],
}

/// Result of comparing two keys.
#[derive(Clone, Copy, Debug, PartialEq, Eq, Structural)]
pub enum KeyOrder {
    Less,
    Equal,
    Greater,
}

/// Lexicographic "less than or equal" on byte strings.
pub open spec fn lex_le(a: Seq<u8>, b: Seq<u8>) -> bool
    decreases a.len(),
{
    if a.len() == 0 {
        true
    } else if b.len() == 0 {
        false
    } else if a[0] < b[0] {
        true
    } else if a[0] > b[0] {
        false
    } else {
        lex_le(a.drop_first(), b.drop_first())
    }
}

/// Keys are ordered by their bytes, first byte most significant.
pub open spec fn key_le(a: Pubkey, b: Pubkey) -> bool {
    lex_le(a.bytes@, b.bytes@)
}

/// The key order as a relation, for `sorted_by` and `sort_by`.
pub open spec fn key_order() -> spec_fn(Pubkey, Pubkey) -> bool {
    |a: Pubkey, b: Pubkey| key_le(a, b)
}

/// The outcome that comparing `a` with `b` must give.
pub open spec fn key_comparison(a: Pubkey, b: Pubkey) -> KeyOrder {
    if a == b {
        KeyOrder::Equal
    } else if key_le(a, b) {
        KeyOrder::Less
    } else {
        KeyOrder::Greater
    }
}

/// A sequence of keys in non-decreasing key order.
pub open spec fn keys_sorted(s: Seq<Pubkey>) -> bool {
    sorted_by(s, key_order())
}

proof fn lemma_lex_refl(a: Seq<u8>)
    ensures
        lex_le(a, a),
    decreases a.len(),
{
    if a.len() > 0 {
        lemma_lex_refl(a.drop_first());
    }
}

proof fn lemma_lex_antisym(a: Seq<u8>, b: Seq<u8>)
    requires
        a.len() == b.len(),
        lex_le(a, b),
        lex_le(b, a),
    ensures
        a =~= b,
    decreases a.len(),
{
    if a.len() > 0 {
        lemma_lex_antisym(a.drop_first(), b.drop_first());
        assert forall|i: int| 0 <= i < a.len() implies a[i] == b[i] by {
            if i > 0 {
                assert(a[i] == a.drop_first()[i - 1]);
                assert(b[i] == b.drop_first()[i - 1]);
            }
        }
    }
}

proof fn lemma_lex_trans(a: Seq<u8>, b: Seq<u8>, c: Seq<u8>)
    requires
        a.len() == b.len(),
        b.len() == c.len(),
        lex_le(a, b),
        lex_le(b, c),
    ensures
        lex_le(a, c),
    decreases a.len(),
{
    if a.len() > 0 && a[0] == b[0] && b[0] == c[0] {
        lemma_lex_trans(a.drop_first(), b.drop_first(), c.drop_first());
    }
}

proof fn lemma_lex_total(a: Seq<u8>, b: Seq<u8>)
    requires
        a.len() == b.len(),
    ensures
        lex_le(a, b) || lex_le(b, a),
    decreases a.len(),
{
    if a.len() > 0 && a[0] == b[0] {
        lemma_lex_total(a.drop_first(), b.drop_first());
    }
}

/// Past a common prefix, the order is decided by the rest.
proof fn lemma_lex_skip(a: Seq<u8>, b: Seq<u8>, i: int)
    requires
        a.len() == b.len(),
        0 <= i <= a.len(),
        a.take(i) =~= b.take(i),
    ensures
        lex_le(a, b) == lex_le(a.skip(i), b.skip(i)),
    decreases i,
{
    if i == 0 {
        assert(a.skip(0) =~= a);
        assert(b.skip(0) =~= b);
    } else {
        assert(a[0] == a.take(i)[0]);
        assert(b[0] == b.take(i)[0]);
        assert(a.drop_first().take(i - 1) =~= b.drop_first().take(i - 1)) by {
            assert forall|j: int| 0 <= j < i - 1 implies a.drop_first()[j] == b.drop_first()[j] by {
                assert(a.take(i)[j + 1] == b.take(i)[j + 1]);
            }
        }
        lemma_lex_skip(a.drop_first(), b.drop_first(), i - 1);
        assert(a.drop_first().skip(i - 1) =~= a.skip(i));
        assert(b.drop_first().skip(i - 1) =~= b.skip(i));
    }
}

/// Two keys with the same bytes are the same key.
pub proof fn lemma_key_bytes_eq(a: Pubkey, b: Pubkey)
    requires
        a.bytes@ =~= b.bytes@,
    ensures
        a == b,
{
    assert(a.bytes =~= b.bytes) by {
        assert forall|i: int| 0 <= i < 32 implies a.bytes[i] == b.bytes[i] by {
            assert(a.bytes@[i] == b.bytes@[i]);
        }
    }
}

/// The key order is a total order.
pub proof fn lemma_key_order_total()
    ensures
        total_ordering(key_order()),
{
    assert forall|x: Pubkey| #[trigger] key_order()(x, x) by {
        lemma_lex_refl(x.bytes@);
    }
    assert forall|x: Pubkey, y: Pubkey|
        #[trigger] key_order()(x, y) && #[trigger] key_order()(y, x) implies x == y by {
        lemma_lex_antisym(x.bytes@, y.bytes@);
        lemma_key_bytes_eq(x, y);
    }
    assert forall|x: Pubkey, y: Pubkey, z: Pubkey|
        #[trigger] key_order()(x, y) && #[trigger] key_order()(y, z) implies key_order()(x, z) by {
        lemma_lex_trans(x.bytes@, y.bytes@, z.bytes@);
    }
    assert forall|x: Pubkey, y: Pubkey| #[trigger] key_order()(x, y) || #[trigger] key_order()(y, x) by {
        lemma_lex_total(x.bytes@, y.bytes@);
    }
}

/// The key order, stated on `key_le` itself: reflexive, antisymmetric,
/// transitive and total.
pub proof fn lemma_key_le_order()
    ensures
        forall|x: Pubkey| #[trigger] key_le(x, x),
        forall|x: Pubkey, y: Pubkey| #[trigger] key_le(x, y) && #[trigger] key_le(y, x) ==> x == y,
        forall|x: Pubkey, y: Pubkey, z: Pubkey|
            #[trigger] key_le(x, y) && #[trigger] key_le(y, z) ==> key_le(x, z),
        forall|x: Pubkey, y: Pubkey| #![trigger key_le(x, y)] key_le(x, y) || key_le(y, x),
        forall|x: Pubkey, y: Pubkey| #[trigger] key_order()(x, y) == key_le(x, y),
{
    lemma_key_order_total();
    assert forall|x: Pubkey, y: Pubkey| #[trigger] key_le(x, y) && #[trigger] key_le(y, x) implies x
        == y by {
        assert(key_order()(x, y) && key_order()(y, x));
    }
    assert forall|x: Pubkey, y: Pubkey, z: Pubkey|
        #[trigger] key_le(x, y) && #[trigger] key_le(y, z) implies key_le(x, z) by {
        assert(key_order()(x, y) && key_order()(y, z));
    }
    assert forall|x: Pubkey, y: Pubkey| #![trigger key_le(x, y)] key_le(x, y) || key_le(y, x) by {
        assert(key_order()(x, y) || key_order()(y, x));
    }
    assert forall|x: Pubkey| #[trigger] key_le(x, x) by {
        assert(key_order()(x, x));
    }
}

impl Pubkey {
    /// Builds a key from its 32 bytes.
    pub fn new_from_array(bytes: [u8; 32]) -> (k: Pubkey)
        ensures
            k.bytes == bytes,
    {
        Pubkey { bytes }
    }

    /// The 32 bytes of the key.
    pub fn to_bytes(&self) -> (b: [u8; 32])
        ensures
            b == self.bytes,
    {
        self.bytes
    }
}

/// Compares two keys byte by byte.
pub fn compare_keys(a: &Pubkey, b: &Pubkey) -> (r: KeyOrder)
    ensures
        r == key_comparison(*a, *b),
{
    let mut i: usize = 0;
    while i < 32
        invariant
            0 <= i <= 32,
            a.bytes@.take(i as int) =~= b.bytes@.take(i as int),
        decreases 32 - i,
    {
        let x = a.bytes[i];
        let y = b.bytes[i];
        if x != y {
            proof {
                lemma_lex_skip(a.bytes@, b.bytes@, i as int);
                lemma_lex_skip(b.bytes@, a.bytes@, i as int);
                assert(a.bytes@.skip(i as int)[0] == x);
                assert(b.bytes@.skip(i as int)[0] == y);
                assert(a.bytes@[i as int] != b.bytes@[i as int]);
            }
            if x < y {
                return KeyOrder::Less;
            } else {
                return KeyOrder::Greater;
            }
        }
        proof {
            assert(a.bytes@.take(i + 1) =~= a.bytes@.take(i as int).push(x));
            assert(b.bytes@.take(i + 1) =~= b.bytes@.take(i as int).push(y));
        }
        i = i + 1;
    }
    proof {
        assert(a.bytes@.take(32) =~= a.bytes@);
        assert(b.bytes@.take(32) =~= b.bytes@);
        lemma_key_bytes_eq(*a, *b);
    }
    KeyOrder::Equal
}

/// Whether two keys are the same.
pub fn keys_equal(a: &Pubkey, b: &Pubkey) -> (r: bool)
    ensures
        r == (*a == *b),
{
    match compare_keys(a, b) {
        KeyOrder::Equal => true,
        _ => false,
    }
}

/// Whether `k` occurs in `owners` at an index of at least `from`.
pub fn occurs_from(owners: &Vec<Pubkey>, from: usize, k: &Pubkey) -> (r: bool)
    ensures
        r == exists|b: int| from <= b < owners@.len() && owners@[b] == *k,
{
    let mut i = from;
    while i < owners.len()
        invariant
            from <= i,
            forall|b: int| from <= b < i && b < owners@.len() ==> owners@[b] != *k,
        decreases owners.len() - i,
    {
        if keys_equal(k, &owners[i]) {
            return true;
        }
        i = i + 1;
    }
    false
}

/// Whether `k` is in `owners`.
pub fn contains_key(owners: &Vec<Pubkey>, k: &Pubkey) -> (r: bool)
    ensures
        r == owners@.contains(*k),
{
    let r = occurs_from(owners, 0, k);
    proof {
        if r {
            let b = choose|b: int| 0 <= b < owners@.len() && owners@[b] == *k;
            assert(owners@[b] == *k);
        }
    }
    r
}

/// Binary search of `k` in an owner list.
///
/// A returned index always holds `k`; on a sorted list `None` means that `k` is
/// absent. When `k` occurs several times, any one of its indices may come back.
pub fn search_sorted(v: &Vec<Pubkey>, k: &Pubkey) -> (r: Option<usize>)
    ensures
        r matches Some(i) ==> i < v.len() && v@[i as int] == *k,
        r is None && keys_sorted(v@) ==> !v@.contains(*k),
{
    proof {
        lemma_key_order_total();
        lemma_key_le_order();
    }
    let mut lo: usize = 0;
    let mut hi: usize = v.len();
    while lo < hi
        invariant
            0 <= lo <= hi <= v.len(),
            total_ordering(key_order()),
            keys_sorted(v@) ==> forall|j: int|
                0 <= j < lo ==> key_order()(#[trigger] v@[j], *k) && v@[j] != *k,
            keys_sorted(v@) ==> forall|j: int|
                hi <= j < v.len() ==> key_order()(*k, #[trigger] v@[j]) && v@[j] != *k,
        decreases hi - lo,
    {
        let mid = lo + (hi - lo) / 2;
        match compare_keys(&v[mid], k) {
            KeyOrder::Equal => {
                return Some(mid);
            },
            KeyOrder::Less => {
                proof {
                    lemma_key_le_order();
                    assert(key_le(v@[mid as int], *k));
                    assert(key_order()(v@[mid as int], *k));
                    if keys_sorted(v@) {
                        assert forall|j: int| 0 <= j <= mid implies key_order()(#[trigger] v@[j], *k)
                            && v@[j] != *k by {
                            if j < mid {
                                assert(key_order()(v@[j], v@[mid as int]));
                            }
                        }
                    }
                }
                lo = mid + 1;
            },
            KeyOrder::Greater => {
                proof {
                    lemma_key_le_order();
                    assert(!key_le(v@[mid as int], *k));
                    assert(key_le(*k, v@[mid as int]));
                    assert(key_order()(*k, v@[mid as int]));
                    if keys_sorted(v@) {
                        assert forall|j: int| mid <= j < v.len() implies key_order()(*k, #[trigger] v@[j])
                            && v@[j] != *k by {
                            if j > mid {
                                assert(key_order()(v@[mid as int], v@[j]));
                            }
                        }
                    }
                }
                hi = mid;
            },
        }
    }
    proof {
        if keys_sorted(v@) {
            assert forall|j: int| 0 <= j < v@.len() implies v@[j] != *k by {
                if j < lo {
                } else {
                }
            }
        }
    }
    None
}

/// Puts `k` into a sorted owner list at its place in the key order.
pub fn insert_sorted(v: &mut Vec<Pubkey>, k: Pubkey)
    requires
        keys_sorted(old(v)@),
    ensures
        final(v)@ == old(v)@.push(k).sort_by(key_order()),
        keys_sorted(final(v)@),
        final(v)@.to_multiset() == old(v)@.to_multiset().insert(k),
{
    proof {
        lemma_key_order_total();
        lemma_key_le_order();
    }
    let mut p: usize = 0;
    let len = v.len();
    while p < len
        invariant
            0 <= p <= len == v.len(),
            v@ == old(v)@,
            forall|j: int| 0 <= j < p ==> key_order()(#[trigger] v@[j], k),
        ensures
            0 <= p <= len == v.len(),
            v@ == old(v)@,
            forall|j: int| 0 <= j < p ==> key_order()(#[trigger] v@[j], k),
            p < len ==> key_le(k, v@[p as int]),
        decreases len - p,
    {
        match compare_keys(&v[p], &k) {
            KeyOrder::Greater => {
                proof {
                    lemma_key_le_order();
                    assert(!key_le(v@[p as int], k));
                    assert(key_le(k, v@[p as int]));
                }
                break;
            },
            _ => {
                proof {
                    lemma_key_le_order();
                    assert(key_le(v@[p as int], k));
                    assert(key_order()(v@[p as int], k));
                }
                p = p + 1;
            },
        }
    }
    let ghost before = v@;
    proof {
        if p < len {
            assert(key_order()(k, before[p as int]));
        }
        assert forall|j: int| p <= j < len implies key_order()(k, #[trigger] before[j]) by {
            assert(key_order()(k, before[p as int]));
            if j > p {
                assert(key_order()(before[p as int], before[j]));
            }
        }
    }
    v.insert(p, k);
    proof {
        let after = v@;
        assert(after =~= before.insert(p as int, k));
        assert forall|i: int, j: int| 0 <= i < j < after.len() implies #[trigger] key_order()(
            after[i],
            after[j],
        ) by {
            if j < p {
                assert(key_order()(before[i], before[j]));
            } else if j == p {
            } else if i < p {
                assert(key_order()(before[i], k));
                assert(key_order()(k, before[j - 1]));
            } else if i == p {
            } else {
                assert(key_order()(before[i - 1], before[j - 1]));
            }
        }
        vstd::seq_lib::to_multiset_insert(before, p as int, k);
        vstd::seq_lib::to_multiset_build(before, k);
        let pushed = before.push(k);
        pushed.lemma_sort_by_ensures(key_order());
        vstd::seq_lib::lemma_sorted_unique(after, pushed.sort_by(key_order()), key_order());
    }
}

/// Sorts an owner list into key order.
pub fn sort_keys(v: Vec<Pubkey>) -> (r: Vec<Pubkey>)
    ensures
        r@ == v@.sort_by(key_order()),
        keys_sorted(r@),
        r@.to_multiset() == v@.to_multiset(),
{
    proof {
        lemma_key_order_total();
    }
    let mut r: Vec<Pubkey> = Vec::new();
    let mut i: usize = 0;
    proof {
        assert(v@.take(0) =~= Seq::<Pubkey>::empty());
    }
    while i < v.len()
        invariant
            0 <= i <= v.len(),
            keys_sorted(r@),
            r@.to_multiset() == v@.take(i as int).to_multiset(),
        decreases v.len() - i,
    {
        insert_sorted(&mut r, v[i]);
        proof {
            assert(v@.take(i + 1) =~= v@.take(i as int).push(v@[i as int]));
            vstd::seq_lib::to_multiset_build(v@.take(i as int), v@[i as int]);
        }
        i = i + 1;
    }
    proof {
        assert(v@.take(v@.len() as int) =~= v@);
        v@.lemma_sort_by_ensures(key_order());
        vstd::seq_lib::lemma_sorted_unique(r@, v@.sort_by(key_order()), key_order());
    }
    r
}

} // verus!
