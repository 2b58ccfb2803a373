//! Ordered finite maps and sets over small copyable keys.
//!
//! Entries are kept in ascending key order, so a walk by position visits keys in
//! the order that [`order_of`] states.
use vstd::prelude::*;

verus! {

/// A copyable key with an injective integer rank that fixes its place in a [`Table`].
pub trait Key: Copy + Sized + View<V = Self> {
    spec fn rank(self) -> int;

    proof fn rank_injective(a: Self, b: Self)
        ensures
            a.rank() == b.rank() ==> a == b,
    ;

    proof fn view_same(a: Self)
        ensures
            a@ == a,
    ;

    fn before(self, other: Self) -> (r: bool)
        ensures
            r == (self.rank() < other.rank()),
    ;

    /// Key equality.
    fn same(self, other: Self) -> (r: bool)
        ensures
            r == (self == other),
    ;
}

/// Strictly ascending by rank.
pub open spec fn increasing<K: Key>(q: Seq<K>) -> bool {
    forall|i: int, j: int|
        0 <= i < j < q.len() ==> (#[trigger] q[i]).rank() < (#[trigger] q[j]).rank()
}

/// `q` lists the members of `d` once each, ascending.
pub open spec fn lists<K: Key>(q: Seq<K>, d: Set<K>) -> bool {
    &&& increasing(q)
    &&& forall|k: K| #[trigger] q.contains(k) <==> d.contains(k)
}

/// The members of a finite key set in ascending order.
pub open spec fn order_of<K: Key>(d: Set<K>) -> Seq<K> {
    choose|q: Seq<K>| lists(q, d)
}

/// Number of members of a finite key set.
pub open spec fn count<K: Key>(d: Set<K>) -> usize {
    order_of(d).len() as usize
}

/// Whether a key set has no member.
pub open spec fn vacant<K: Key>(d: Set<K>) -> bool {
    d =~= Set::<K>::empty()
}

proof fn lemma_lists_head<K: Key>(p: Seq<K>, q: Seq<K>, d: Set<K>)
    requires
        lists(p, d),
        lists(q, d),
    ensures
        p.len() == q.len(),
        p =~= q,
    decreases p.len(),
{
    if p.len() == 0 {
        if q.len() > 0 {
            assert(q.contains(q[0]));
            assert(p.contains(q[0]));
        }
    } else {
        assert(p.contains(p.last()));
        assert(q.contains(p.last()));
        assert(q.len() > 0);
        assert(q.contains(q.last()));
        assert(p.contains(q.last()));
        let i = choose|i: int| 0 <= i < p.len() && p[i] == q.last();
        let j = choose|j: int| 0 <= j < q.len() && q[j] == p.last();
        assert(p[i].rank() <= p.last().rank());
        assert(q[j].rank() <= q.last().rank());
        K::rank_injective(p.last(), q.last());
        let d2 = d.remove(p.last());
        let p2 = p.drop_last();
        let q2 = q.drop_last();
        assert forall|k: K| #[trigger] p2.contains(k) <==> d2.contains(k) by {
            if p2.contains(k) {
                let m = choose|m: int| 0 <= m < p2.len() && p2[m] == k;
                assert(p[m] == k);
                assert(p.contains(k));
                assert(p[m].rank() < p.last().rank());
            }
            if d2.contains(k) {
                assert(p.contains(k));
                let m = choose|m: int| 0 <= m < p.len() && p[m] == k;
                assert(p2[m] == k);
            }
        }
        assert forall|k: K| #[trigger] q2.contains(k) <==> d2.contains(k) by {
            if q2.contains(k) {
                let m = choose|m: int| 0 <= m < q2.len() && q2[m] == k;
                assert(q[m] == k);
                assert(q.contains(k));
                assert(q[m].rank() < q.last().rank());
            }
            if d2.contains(k) {
                assert(q.contains(k));
                let m = choose|m: int| 0 <= m < q.len() && q[m] == k;
                assert(q2[m] == k);
            }
        }
        lemma_lists_head(p2, q2, d2);
        assert(p =~= p2.push(p.last()));
        assert(q =~= q2.push(q.last()));
    }
}

/// A listing of a key set is unique.
pub proof fn lemma_order_unique<K: Key>(q: Seq<K>, d: Set<K>)
    requires
        lists(q, d),
    ensures
        order_of(d) == q,
{
    lemma_lists_head(order_of(d), q, d);
}

/// `q` with `k` at its place.
spec fn with_key<K: Key>(q: Seq<K>, k: K) -> Seq<K>
    decreases q.len(),
{
    if q.len() == 0 || q.last().rank() < k.rank() {
        q.push(k)
    } else {
        with_key(q.drop_last(), k).push(q.last())
    }
}

proof fn lemma_with_key<K: Key>(q: Seq<K>, k: K)
    requires
        increasing(q),
        !q.contains(k),
    ensures
        increasing(with_key(q, k)),
        forall|x: K| #[trigger] with_key(q, k).contains(x) <==> q.contains(x) || x == k,
        forall|i: int|
            0 <= i < with_key(q, k).len() ==> (#[trigger] with_key(q, k)[i]).rank() <= k.rank() || (
            q.len() > 0 && with_key(q, k)[i].rank() <= q.last().rank()),
    decreases q.len(),
{
    let r = with_key(q, k);
    if q.len() == 0 || q.last().rank() < k.rank() {
        assert forall|x: K| #[trigger] r.contains(x) <==> q.contains(x) || x == k by {
            if q.contains(x) {
                let i = choose|i: int| 0 <= i < q.len() && q[i] == x;
                assert(r[i] == x);
            }
            assert(r[q.len() as int] == k);
        }
        assert forall|i: int, j: int| 0 <= i < j < r.len() implies (#[trigger] r[i]).rank()
            < (#[trigger] r[j]).rank() by {
            if j == q.len() && i < q.len() - 1 {
                assert(q[i].rank() < q[q.len() - 1].rank());
            }
        }
    } else {
        let p = q.drop_last();
        assert forall|i: int, j: int| 0 <= i < j < p.len() implies (#[trigger] p[i]).rank()
            < (#[trigger] p[j]).rank() by {
            assert(q[i].rank() < q[j].rank());
        }
        assert(!p.contains(k)) by {
            if p.contains(k) {
                let i = choose|i: int| 0 <= i < p.len() && p[i] == k;
                assert(q[i] == k);
            }
        }
        lemma_with_key(p, k);
        let m = with_key(p, k);
        assert(q.contains(q.last()));
        K::rank_injective(q.last(), k);
        assert forall|x: K| #[trigger] r.contains(x) <==> q.contains(x) || x == k by {
            if q.contains(x) {
                let i = choose|i: int| 0 <= i < q.len() && q[i] == x;
                if i < p.len() {
                    assert(p[i] == x);
                    assert(m.contains(x));
                    let j = choose|j: int| 0 <= j < m.len() && m[j] == x;
                    assert(r[j] == x);
                } else {
                    assert(r[m.len() as int] == x);
                }
            }
            if x == k {
                assert(m.contains(k));
                let j = choose|j: int| 0 <= j < m.len() && m[j] == k;
                assert(r[j] == k);
            }
            if r.contains(x) {
                let j = choose|j: int| 0 <= j < r.len() && r[j] == x;
                if j < m.len() {
                    assert(m[j] == x);
                    assert(m.contains(x));
                    if p.contains(x) {
                        let i = choose|i: int| 0 <= i < p.len() && p[i] == x;
                        assert(q[i] == x);
                    }
                }
            }
        }
        assert forall|i: int, j: int| 0 <= i < j < r.len() implies (#[trigger] r[i]).rank()
            < (#[trigger] r[j]).rank() by {
            if j < m.len() {
                assert(m[i].rank() < m[j].rank());
            } else {
                assert(m[i].rank() <= k.rank() || (p.len() > 0 && m[i].rank() <= p.last().rank()));
                if p.len() > 0 {
                    assert(q[p.len() - 1].rank() < q[q.len() - 1].rank());
                }
            }
        }
    }
}

/// Every finite key set has a listing.
pub proof fn lemma_order_exists<K: Key>(d: Set<K>)
    requires
        d.finite(),
    ensures
        lists(order_of(d), d),
    decreases d.len(),
{
    if d.len() == 0 {
        let q = Seq::<K>::empty();
        assert(lists(q, d));
    } else {
        let k = d.choose();
        let rest = d.remove(k);
        lemma_order_exists(rest);
        let q = order_of(rest);
        assert(!q.contains(k));
        lemma_with_key(q, k);
        let r = with_key(q, k);
        assert forall|x: K| #[trigger] r.contains(x) <==> d.contains(x) by {
            assert(q.contains(x) <==> rest.contains(x));
        }
        assert(lists(r, d));
    }
}

/// Ordered map from keys to values.
pub struct Table<K: Key, V> {
    keys: Vec<K>,
    vals: Vec<V>,
}

impl<K: Key, V> Table<K, V> {
    #[verifier::type_invariant]
    spec fn inv(self) -> bool {
        &&& self.keys@.len() == self.vals@.len()
        &&& increasing(self.keys@)
    }
}

impl<K: Key, V: View> View for Table<K, V> {
    type V = Map<K, V::V>;

    closed spec fn view(&self) -> Map<K, V::V> {
        Map::new(
            |k: K| self.keys@.contains(k),
            |k: K| self.vals@[self.keys@.index_of(k)]@,
        )
    }
}

proof fn lemma_index<K: Key>(q: Seq<K>, i: int)
    requires
        increasing(q),
        0 <= i < q.len(),
    ensures
        q.contains(q[i]),
        q.index_of(q[i]) == i,
{
    let j = q.index_of(q[i]);
    assert(0 <= j < q.len() && q[j] == q[i]);
    if i < j {
        assert(q[i].rank() < q[j].rank());
    }
    if j < i {
        assert(q[j].rank() < q[i].rank());
    }
}

/// Position of the first key not before `k`.
fn lower_bound<K: Key>(keys: &Vec<K>, k: K) -> (r: usize)
    requires
        increasing(keys@),
    ensures
        r <= keys@.len(),
        forall|i: int| 0 <= i < r ==> (#[trigger] keys@[i]).rank() < k.rank(),
        forall|i: int| r <= i < keys@.len() ==> (#[trigger] keys@[i]).rank() >= k.rank(),
{
    let mut lo: usize = 0;
    let mut hi: usize = keys.len();
    while lo < hi
        invariant
            lo <= hi <= keys@.len(),
            increasing(keys@),
            forall|i: int| 0 <= i < lo ==> (#[trigger] keys@[i]).rank() < k.rank(),
            forall|i: int| hi <= i < keys@.len() ==> (#[trigger] keys@[i]).rank() >= k.rank(),
        decreases hi - lo,
    {
        let mid: usize = lo + (hi - lo) / 2;
        if keys[mid].before(k) {
            lo = mid + 1;
        } else {
            hi = mid;
        }
    }
    lo
}

/// Position of `k`, if it is present.
fn find<K: Key>(keys: &Vec<K>, k: K) -> (r: Option<usize>)
    requires
        increasing(keys@),
    ensures
        match r {
            Some(i) => i < keys@.len() && keys@[i as int] == k && keys@.contains(k)
                && keys@.index_of(k) == i,
            None => !keys@.contains(k),
        },
{
    let i: usize = lower_bound(keys, k);
    if i < keys.len() && keys[i].same(k) {
        proof {
            lemma_index(keys@, i as int);
        }
        return Some(i);
    }
    proof {
        if keys@.contains(k) {
            let j = keys@.index_of(k);
            assert(0 <= j < keys@.len() && keys@[j] == k);
            if j < i {
                assert(keys@[j].rank() < k.rank());
            } else if i < j {
                assert(keys@[i as int].rank() < keys@[j].rank());
            }
        }
    }
    None
}

proof fn lemma_insert_order<K: Key>(q: Seq<K>, i: int, k: K)
    requires
        increasing(q),
        0 <= i <= q.len(),
        forall|j: int| 0 <= j < i ==> (#[trigger] q[j]).rank() < k.rank(),
        forall|j: int| i <= j < q.len() ==> (#[trigger] q[j]).rank() > k.rank(),
    ensures
        increasing(q.insert(i, k)),
        forall|x: K| #[trigger] q.insert(i, k).contains(x) <==> (x == k || q.contains(x)),
{
    let p = q.insert(i, k);
    assert forall|a: int, b: int| 0 <= a < b < p.len() implies (#[trigger] p[a]).rank() < (
    #[trigger] p[b]).rank() by {
        if a < i && b < i {
            assert(p[a] == q[a] && p[b] == q[b]);
        } else if a < i && b == i {
            assert(p[a] == q[a]);
        } else if a < i {
            assert(p[a] == q[a] && p[b] == q[b - 1]);
        } else if a == i {
            assert(p[b] == q[b - 1]);
        } else {
            assert(p[a] == q[a - 1] && p[b] == q[b - 1]);
        }
    }
    assert forall|x: K| #[trigger] p.contains(x) <==> (x == k || q.contains(x)) by {
        if p.contains(x) {
            let a = choose|a: int| 0 <= a < p.len() && p[a] == x;
            if a < i {
                assert(q[a] == x);
            } else if a > i {
                assert(q[a - 1] == x);
            }
        }
        if x == k {
            assert(p[i] == k);
        }
        if q.contains(x) {
            let a = choose|a: int| 0 <= a < q.len() && q[a] == x;
            if a < i {
                assert(p[a] == x);
            } else {
                assert(p[a + 1] == x);
            }
        }
    }
}

proof fn lemma_remove_order<K: Key>(q: Seq<K>, i: int)
    requires
        increasing(q),
        0 <= i < q.len(),
    ensures
        increasing(q.remove(i)),
        forall|x: K| #[trigger] q.remove(i).contains(x) <==> (x != q[i] && q.contains(x)),
{
    let p = q.remove(i);
    assert forall|a: int, b: int| 0 <= a < b < p.len() implies (#[trigger] p[a]).rank() < (
    #[trigger] p[b]).rank() by {
        let a2 = if a < i { a } else { a + 1 };
        let b2 = if b < i { b } else { b + 1 };
        assert(p[a] == q[a2] && p[b] == q[b2]);
    }
    assert forall|x: K| #[trigger] p.contains(x) <==> (x != q[i] && q.contains(x)) by {
        if p.contains(x) {
            let a = choose|a: int| 0 <= a < p.len() && p[a] == x;
            let a2 = if a < i { a } else { a + 1 };
            assert(p[a] == q[a2]);
            assert(q.contains(x));
            if a2 < i {
                assert(q[a2].rank() < q[i].rank());
            } else {
                assert(q[i].rank() < q[a2].rank());
            }
        }
        if x != q[i] && q.contains(x) {
            let a = choose|a: int| 0 <= a < q.len() && q[a] == x;
            if a < i {
                assert(p[a] == x);
            } else {
                assert(p[a - 1] == x);
            }
        }
    }
}

impl<K: Key, V: View> Table<K, V> {
    /// The entry behind what a key maps to.
    pub proof fn value_of(&self, k: K) -> (v: V)
        requires
            self@.contains_key(k),
        ensures
            self@[k] == v@,
    {
        self.vals@[self.keys@.index_of(k)]
    }

    pub fn new() -> (r: Self)
        ensures
            r@ == Map::<K, V::V>::empty(),
    {
        let r = Table { keys: Vec::new(), vals: Vec::new() };
        assert(r@ =~= Map::<K, V::V>::empty());
        r
    }

    /// Number of entries.
    pub fn len(&self) -> (r: usize)
        ensures
            r == order_of(self@.dom()).len(),
            lists(order_of(self@.dom()), self@.dom()),
    {
        proof {
            use_type_invariant(self);
            assert(lists(self.keys@, self@.dom()));
            lemma_order_unique(self.keys@, self@.dom());
        }
        self.keys.len()
    }

    /// Number of entries, as [`count`] states it.
    pub fn size(&self) -> (r: usize)
        ensures
            r == count(self@.dom()),
    {
        self.len()
    }

    /// Whether there is no entry.
    pub fn is_vacant(&self) -> (r: bool)
        ensures
            r == vacant(self@.dom()),
    {
        proof {
            use_type_invariant(self);
            if self.keys@.len() > 0 {
                assert(self.keys@.contains(self.keys@[0]));
                assert(self@.contains_key(self.keys@[0]));
            }
        }
        self.keys.len() == 0
    }

    /// The `i`-th key, ascending.
    pub fn key_at(&self, i: usize) -> (r: K)
        requires
            i < order_of(self@.dom()).len(),
        ensures
            r == order_of(self@.dom())[i as int],
            self@.contains_key(r),
    {
        proof {
            use_type_invariant(self);
            assert(lists(self.keys@, self@.dom()));
            lemma_order_unique(self.keys@, self@.dom());
            assert(self.keys@.contains(self.keys@[i as int]));
        }
        self.keys[i]
    }

    /// The value of the `i`-th key, ascending.
    pub fn val_at(&self, i: usize) -> (r: &V)
        requires
            i < order_of(self@.dom()).len(),
        ensures
            r@ == self@[order_of(self@.dom())[i as int]],
            self@.contains_key(order_of(self@.dom())[i as int]),
    {
        proof {
            use_type_invariant(self);
            assert(lists(self.keys@, self@.dom()));
            lemma_order_unique(self.keys@, self@.dom());
            lemma_index(self.keys@, i as int);
        }
        &self.vals[i]
    }

    pub fn contains_key(&self, k: K) -> (r: bool)
        ensures
            r == self@.contains_key(k),
    {
        proof {
            use_type_invariant(self);
        }
        find(&self.keys, k).is_some()
    }

    pub fn get(&self, k: K) -> (r: Option<&V>)
        ensures
            match r {
                Some(v) => self@.contains_key(k) && v@ == self@[k],
                None => !self@.contains_key(k),
            },
    {
        proof {
            use_type_invariant(self);
        }
        match find(&self.keys, k) {
            Some(i) => Some(&self.vals[i]),
            None => None,
        }
    }

    pub fn get_mut(&mut self, k: K) -> (r: Option<&mut V>)
        ensures
            match r {
                Some(v) => old(self)@.contains_key(k) && (*v)@ == old(self)@[k] && final(self)@
                    == old(self)@.insert(k, (*final(v))@),
                None => !old(self)@.contains_key(k) && final(self)@ == old(self)@,
            },
    {
        proof {
            use_type_invariant(&*self);
        }
        match find(&self.keys, k) {
            Some(i) => {
                proof {
                    assert forall|j: int| 0 <= j < self.keys@.len() && j != i implies
                        self.keys@.index_of(
                            #[trigger] self.keys@[j],
                        ) == j && self.keys@[j] != k by {
                        lemma_index(self.keys@, j);
                        lemma_index(self.keys@, i as int);
                    }
                }
                Some(&mut self.vals[i])
            },
            None => None,
        }
    }

    /// Insert or replace.
    pub fn insert(&mut self, k: K, v: V)
        ensures
            final(self)@ == old(self)@.insert(k, v@),
    {
        proof {
            use_type_invariant(&*self);
        }
        let i: usize = lower_bound(&self.keys, k);
        let ghost q = self.keys@;
        let ghost w = self.vals@;
        let ghost m = self@;
        let mut whole = Table { keys: Vec::new(), vals: Vec::new() };
        core::mem::swap(&mut whole, self);
        let mut keys = whole.keys;
        let mut vals = whole.vals;
        if i < keys.len() && keys[i].same(k) {
            proof {
                lemma_index(q, i as int);
            }
            vals.set(i, v);
        } else {
            proof {
                assert forall|j: int| i <= j < q.len() implies (#[trigger] q[j]).rank() > k.rank() by {
                    K::rank_injective(q[j], k);
                    if i < j {
                        assert(q[i as int].rank() < q[j].rank());
                    }
                }
                lemma_insert_order(q, i as int, k);
            }
            keys.insert(i, k);
            vals.insert(i, v);
        }
        *self = Table { keys, vals };
        proof {
            let q2 = self.keys@;
            let w2 = self.vals@;
            assert(self@.dom() =~= m.insert(k, v@).dom());
            assert forall|x: K| #[trigger] self@.contains_key(x) implies self@[x] == m.insert(k, v@)[x] by {
                let j = q2.index_of(x);
                assert(0 <= j < q2.len() && q2[j] == x);
                lemma_index(q2, j);
                if x == k {
                    if q2.len() == q.len() {
                        lemma_index(q, i as int);
                        lemma_index(q2, i as int);
                    } else {
                        lemma_index(q2, i as int);
                        assert(q2[i as int] == k);
                    }
                } else if q2.len() == q.len() {
                    lemma_index(q, j);
                } else {
                    lemma_index(q2, i as int);
                    if j < i {
                        lemma_index(q, j);
                    } else {
                        lemma_index(q, j - 1);
                    }
                }
            }
            assert(self@ =~= m.insert(k, v@));
        }
    }

    /// Remove and return the value of `k`.
    pub fn remove(&mut self, k: K) -> (r: Option<V>)
        ensures
            final(self)@ == old(self)@.remove(k),
            match r {
                Some(v) => old(self)@.contains_key(k) && v@ == old(self)@[k],
                None => !old(self)@.contains_key(k),
            },
    {
        proof {
            use_type_invariant(&*self);
        }
        let ghost q = self.keys@;
        let ghost m = self@;
        match find(&self.keys, k) {
            None => {
                assert(m.remove(k) =~= m);
                None
            },
            Some(i) => {
                let mut whole = Table { keys: Vec::new(), vals: Vec::new() };
                core::mem::swap(&mut whole, self);
                let mut keys = whole.keys;
                let mut vals = whole.vals;
                proof {
                    lemma_index(q, i as int);
                    lemma_remove_order(q, i as int);
                }
                let _k = keys.remove(i);
                let v = vals.remove(i);
                *self = Table { keys, vals };
                proof {
                    let q2 = self.keys@;
                    assert(self@.dom() =~= m.remove(k).dom());
                    assert forall|x: K| #[trigger] self@.contains_key(x) implies self@[x] == m.remove(
                        k,
                    )[x] by {
                        let j = q2.index_of(x);
                        assert(0 <= j < q2.len() && q2[j] == x);
                        lemma_index(q2, j);
                        if j < i {
                            lemma_index(q, j);
                        } else {
                            lemma_index(q, j + 1);
                        }
                    }
                    assert(self@ =~= m.remove(k));
                }
                Some(v)
            },
        }
    }
}

/// The entries of `m` whose value is not `v`.
pub open spec fn without_value<K, V>(m: Map<K, V>, v: V) -> Map<K, V> {
    Map::new(|k: K| m.contains_key(k) && m[k] != v, |k: K| m[k])
}

/// Drop every entry with this value.
pub fn drop_value<K: Key, V: Key>(t: &mut Table<K, V>, v: V)
    ensures
        final(t)@ == without_value(old(t)@, v),
{
    let ghost m = t@;
    let mut out: Table<K, V> = Table::new();
    let n: usize = t.len();
    let ghost q = order_of(m.dom());
    let mut i: usize = 0;
    assert(out@ =~= without_value(m, v).restrict(q.take(0).to_set()));
    while i < n
        invariant
            t@ == m,
            q == order_of(m.dom()),
            lists(q, m.dom()),
            n == q.len(),
            i <= n,
            out@ == without_value(m, v).restrict(q.take(i as int).to_set()),
        decreases n - i,
    {
        let k = t.key_at(i);
        let x = *t.val_at(i);
        proof {
            V::view_same(x);
        }
        if !x.same(v) {
            out.insert(k, x);
        }
        i += 1;
        proof {
            let a = q.take(i - 1);
            let b = q.take(i as int);
            assert(b =~= a.push(k));
            assert forall|y: K| b.to_set().contains(y) <==> (a.to_set().contains(y) || y == k) by {
                if a.contains(y) {
                    let j = choose|j: int| 0 <= j < a.len() && a[j] == y;
                    assert(b[j] == y);
                }
                if b.contains(y) {
                    let j = choose|j: int| 0 <= j < b.len() && b[j] == y;
                    if j < i - 1 {
                        assert(a[j] == y);
                    }
                }
                assert(b[i - 1] == k);
            }
            assert(out@ =~= without_value(m, v).restrict(b.to_set()));
        }
    }
    proof {
        assert(q.take(i as int) =~= q);
        assert forall|y: K| m.contains_key(y) implies q.to_set().contains(y) by {
            assert(q.contains(y));
        }
        assert(out@ =~= without_value(m, v));
    }
    *t = out;
}

/// Ordered set of keys.
pub struct KeySet<K: Key> {
    keys: Vec<K>,
}

impl<K: Key> KeySet<K> {
    #[verifier::type_invariant]
    spec fn inv(self) -> bool {
        increasing(self.keys@)
    }
}

impl<K: Key> View for KeySet<K> {
    type V = Set<K>;

    closed spec fn view(&self) -> Set<K> {
        Set::new(|k: K| self.keys@.contains(k))
    }
}

impl<K: Key> KeySet<K> {
    pub fn new() -> (r: Self)
        ensures
            r@ == Set::<K>::empty(),
    {
        let r = KeySet { keys: Vec::new() };
        assert(r@ =~= Set::<K>::empty());
        r
    }

    pub fn contains(&self, k: K) -> (r: bool)
        ensures
            r == self@.contains(k),
    {
        proof {
            use_type_invariant(self);
        }
        find(&self.keys, k).is_some()
    }

    pub fn len(&self) -> (r: usize)
        ensures
            r == order_of(self@).len(),
            lists(order_of(self@), self@),
    {
        proof {
            use_type_invariant(self);
            assert(lists(self.keys@, self@));
            lemma_order_unique(self.keys@, self@);
        }
        self.keys.len()
    }

    /// Number of members, as [`count`] states it.
    pub fn card(&self) -> (r: usize)
        ensures
            r == count(self@),
    {
        self.len()
    }

    /// The `i`-th member, ascending.
    pub fn at(&self, i: usize) -> (r: K)
        requires
            i < order_of(self@).len(),
        ensures
            r == order_of(self@)[i as int],
            self@.contains(r),
    {
        proof {
            use_type_invariant(self);
            assert(lists(self.keys@, self@));
            lemma_order_unique(self.keys@, self@);
            assert(self.keys@.contains(self.keys@[i as int]));
        }
        self.keys[i]
    }

    /// The members, ascending.
    pub fn to_list(&self) -> (r: Vec<K>)
        ensures
            r@ == order_of(self@),
            lists(r@, self@),
    {
        proof {
            use_type_invariant(self);
            assert(lists(self.keys@, self@));
            lemma_order_unique(self.keys@, self@);
        }
        let mut out: Vec<K> = Vec::new();
        let mut i: usize = 0;
        while i < self.keys.len()
            invariant
                i <= self.keys@.len(),
                out@ == self.keys@.take(i as int),
            decreases self.keys@.len() - i,
        {
            out.push(self.keys[i]);
            i += 1;
            assert(self.keys@.take(i as int) =~= self.keys@.take(i - 1).push(self.keys@[i - 1]));
        }
        assert(self.keys@.take(i as int) =~= self.keys@);
        out
    }

    /// Returns whether `k` was absent.
    pub fn insert(&mut self, k: K) -> (r: bool)
        ensures
            final(self)@ == old(self)@.insert(k),
            r == !old(self)@.contains(k),
    {
        proof {
            use_type_invariant(&*self);
        }
        let ghost q = self.keys@;
        let i: usize = lower_bound(&self.keys, k);
        if i < self.keys.len() && self.keys[i].same(k) {
            proof {
                assert(q.contains(q[i as int]));
                assert(self@.insert(k) =~= self@);
            }
            return false;
        }
        proof {
            assert forall|j: int| i <= j < q.len() implies (#[trigger] q[j]).rank() > k.rank() by {
                K::rank_injective(q[j], k);
                if i < j {
                    assert(q[i as int].rank() < q[j].rank());
                }
            }
            lemma_insert_order(q, i as int, k);
            if q.contains(k) {
                let j = q.index_of(k);
                assert(0 <= j < q.len() && q[j] == k);
                assert(false);
            }
        }
        let mut keys: Vec<K> = Vec::new();
        core::mem::swap(&mut keys, &mut self.keys);
        keys.insert(i, k);
        *self = KeySet { keys };
        assert(self@ =~= old(self)@.insert(k));
        true
    }

    /// Returns whether `k` was present.
    pub fn remove(&mut self, k: K) -> (r: bool)
        ensures
            final(self)@ == old(self)@.remove(k),
            r == old(self)@.contains(k),
    {
        proof {
            use_type_invariant(&*self);
        }
        let ghost q = self.keys@;
        match find(&self.keys, k) {
            None => {
                assert(self@.remove(k) =~= self@);
                false
            },
            Some(i) => {
                proof {
                    lemma_remove_order(q, i as int);
                }
                let mut keys: Vec<K> = Vec::new();
                core::mem::swap(&mut keys, &mut self.keys);
                let _k = keys.remove(i);
                *self = KeySet { keys };
                assert(self@ =~= old(self)@.remove(k));
                true
            },
        }
    }
}

} // verus!
