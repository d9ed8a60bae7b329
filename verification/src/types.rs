//! Identifiers and arithmetic helpers shared by every contract module.
use vstd::prelude::*;

verus! {

/// An on-ledger account (user or contract), identified by a stable number
/// that the host layer assigns to each address.
#[derive(Clone, Copy, Debug, PartialEq, Eq, Hash, Structural)]
pub struct AccountId {
    pub id: u64,
}

/// A 32-byte hash value (commitments, WASM hashes, changelog hashes).
pub type Hash32 = [u8; 32];

/// Rust's truncating signed division, for a positive divisor.
pub open spec fn tdiv(x: int, d: int) -> int {
    if x >= 0 {
        x / d
    } else {
        -((-x) / d)
    }
}

/// `x - y` clamped at zero, as `u64::saturating_sub` computes it.
pub open spec fn sat_sub(x: u64, y: u64) -> u64 {
    if x >= y {
        (x - y) as u64
    } else {
        0
    }
}

/// Truncating division of an `i128` by a positive `i128`.
pub fn i128_div_pos(x: i128, d: i128) -> (q: i128)
    requires
        d > 0,
    ensures
        q == tdiv(x as int, d as int),
{
    match x.checked_div(d) {
        Some(q) => q,
        None => {
            // A positive divisor never overflows the quotient.
            proof {
                assert(false) by {
                    if x >= 0 {
                        let xx: int = x as int;
                        let dd: int = d as int;
                        assert(xx / dd <= xx) by (nonlinear_arith)
                            requires xx >= 0, dd > 0;
                    } else {
                        let nx: int = -(x as int);
                        let dd: int = d as int;
                        assert(nx / dd <= nx) by (nonlinear_arith)
                            requires nx > 0, dd > 0;
                    }
                }
            }
            0
        }
    }
}

/// Whether two 32-byte hashes are equal.
pub fn hash_eq(a: &Hash32, b: &Hash32) -> (eq: bool)
    ensures
        eq == (a@ == b@),
{
    let mut i: usize = 0;
    while i < 32
        invariant
            0 <= i <= 32,
            a@.len() == 32,
            b@.len() == 32,
            forall|j: int| 0 <= j < i ==> a@[j] == b@[j],
        decreases 32 - i,
    {
        if a[i] != b[i] {
            return false;
        }
        i = i + 1;
    }
    assert(a@ =~= b@);
    true
}

/// Whether a hash is all zero bytes.
pub open spec fn is_zero_hash(h: Seq<u8>) -> bool {
    forall|j: int| 0 <= j < h.len() ==> h[j] == 0
}

/// The position of the first occurrence of `a` in `s` (meaningful only
/// when `s` contains `a`).
pub open spec fn first_position(s: Seq<AccountId>, a: AccountId) -> int {
    choose|i: int| 0 <= i < s.len() && s[i] == a && forall|j: int| 0 <= j < i ==> s[j] != a
}

/// Whether a sequence of accounts holds no account twice.
pub open spec fn distinct_accounts(s: Seq<AccountId>) -> bool {
    forall|i: int, j: int| 0 <= i < j < s.len() ==> s[i] != s[j]
}

/// The position of the first occurrence of `a` in `list`, if any.
pub fn position_of(list: &Vec<AccountId>, a: AccountId) -> (r: Option<usize>)
    ensures
        r is None <==> !list@.contains(a),
        r matches Some(i) ==> i < list@.len() && list@[i as int] == a && i == first_position(list@, a)
            && forall|j: int| 0 <= j < i ==> list@[j] != a,
{
    let mut i: usize = 0;
    while i < list.len()
        invariant
            0 <= i <= list@.len(),
            forall|j: int| 0 <= j < i ==> list@[j] != a,
        decreases list@.len() - i,
    {
        if list[i] == a {
            proof {
                let ii = i as int;
                assert(0 <= ii < list@.len() && list@[ii] == a && forall|j: int| 0 <= j < ii ==> list@[j] != a);
                let k = first_position(list@, a);
                if k < ii {
                    assert(list@[k] != a);
                } else if k > ii {
                    assert(list@[ii] != a);
                }
                assert(list@.contains(a));
            }
            return Some(i);
        }
        i = i + 1;
    }
    proof {
        if list@.contains(a) {
            let k = choose|k: int| 0 <= k < list@.len() && list@[k] == a;
            assert(list@[k] != a);
        }
    }
    None
}

/// `s` with every occurrence of `a` removed, the others kept in order.
pub open spec fn without(s: Seq<AccountId>, a: AccountId) -> Seq<AccountId>
    decreases s.len(),
{
    if s.len() == 0 {
        Seq::empty()
    } else {
        let prev = without(s.drop_last(), a);
        if s.last() != a { prev.push(s.last()) } else { prev }
    }
}

/// Removing an account that does not occur changes nothing.
pub proof fn lemma_without_absent(s: Seq<AccountId>, a: AccountId)
    requires
        !s.contains(a),
    ensures
        without(s, a) == s,
    decreases s.len(),
{
    if s.len() > 0 {
        assert(!s.drop_last().contains(a)) by {
            if s.drop_last().contains(a) {
                let k = choose|k: int| 0 <= k < s.drop_last().len() && s.drop_last()[k] == a;
                assert(s[k] == a);
            }
        }
        lemma_without_absent(s.drop_last(), a);
        assert(s.drop_last().push(s.last()) =~= s);
    }
}

/// `list` with every occurrence of `a` removed, the others in order.
pub fn without_account(list: &Vec<AccountId>, a: AccountId) -> (next: Vec<AccountId>)
    ensures
        next@ == without(list@, a),
{
    let mut next: Vec<AccountId> = Vec::new();
    let mut i: usize = 0;
    assert(next@ =~= without(list@.take(0), a));
    while i < list.len()
        invariant
            0 <= i <= list@.len(),
            next@ == without(list@.take(i as int), a),
        decreases list@.len() - i,
    {
        proof {
            assert(list@.take(i + 1).drop_last() =~= list@.take(i as int));
        }
        if list[i] != a {
            next.push(list[i]);
        }
        i = i + 1;
    }
    assert(list@.take(list@.len() as int) =~= list@);
    next
}

/// `s` without its first `k` elements (empty when `k` reaches its length).
pub open spec fn drop_front<T>(s: Seq<T>, k: int) -> Seq<T> {
    if k >= s.len() { Seq::empty() } else if k <= 0 { s } else { s.subrange(k, s.len() as int) }
}

/// The elements of `v` from position `k` on, in order.
pub fn copy_from<T: Copy>(v: &Vec<T>, k: usize) -> (r: Vec<T>)
    ensures
        r@ == drop_front(v@, k as int),
{
    let mut r: Vec<T> = Vec::new();
    let mut i: usize = k;
    if i > v.len() {
        i = v.len();
    }
    let start: usize = i;
    while i < v.len()
        invariant
            start <= i <= v@.len(),
            start == if k > v@.len() { v@.len() as int } else { k as int },
            r@ == v@.subrange(start as int, i as int),
        decreases v@.len() - i,
    {
        r.push(v[i]);
        proof {
            assert(v@.subrange(start as int, i + 1) =~= v@.subrange(start as int, i as int).push(v@[i as int]));
        }
        i = i + 1;
    }
    proof {
        if k >= v@.len() {
            assert(r@ =~= Seq::<T>::empty());
        } else if k == 0 {
            assert(r@ =~= v@);
        }
    }
    r
}

} // verus!
