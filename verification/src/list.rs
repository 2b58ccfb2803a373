//! Vectors of structured rows, and helpers over vectors of keys.
use vstd::prelude::*;
use crate::table::{increasing, lemma_order_unique, lists, order_of, Key, KeySet};

verus! {

/// A value that can be copied with its view.
pub trait Dup: View + Sized {
    fn dup(&self) -> (r: Self)
        ensures
            r@ == self@,
    ;
}

/// The success value by its view.
pub open spec fn ok_view<T: View, E>(r: Result<T, E>) -> Result<T::V, E> {
    match r {
        Ok(t) => Ok(t@),
        Err(e) => Err(e),
    }
}

/// The success reference by its view.
pub open spec fn ok_ref<T: View, E>(r: Result<&T, E>) -> Result<T::V, E> {
    match r {
        Ok(t) => Ok(t@),
        Err(e) => Err(e),
    }
}

/// The optional value by its view.
pub open spec fn opt_view<T: View>(r: Option<T>) -> Option<T::V> {
    match r {
        Some(t) => Some(t@),
        None => None,
    }
}

/// A vector whose elements are compared by their view.
pub struct Rows<T> {
    v: Vec<T>,
}

impl<T: View> View for Rows<T> {
    type V = Seq<T::V>;

    closed spec fn view(&self) -> Seq<T::V> {
        Seq::new(self.v@.len(), |i: int| self.v@[i]@)
    }
}

impl<T: View> Rows<T> {
    /// A list is no longer than a length can say.
    pub proof fn len_fits(&self)
        ensures
            self@.len() <= usize::MAX,
    {
        assert(self.v.len() == self.v@.len());
    }

    pub fn new() -> (r: Self)
        ensures
            r@ == Seq::<T::V>::empty(),
    {
        let r = Rows { v: Vec::new() };
        assert(r@ =~= Seq::<T::V>::empty());
        r
    }

    pub fn len(&self) -> (r: usize)
        ensures
            r == self@.len(),
    {
        self.v.len()
    }

    pub fn at(&self, i: usize) -> (r: &T)
        requires
            i < self@.len(),
        ensures
            r@ == self@[i as int],
    {
        &self.v[i]
    }

    pub fn at_mut(&mut self, i: usize) -> (r: &mut T)
        requires
            i < old(self)@.len(),
        ensures
            (*r)@ == old(self)@[i as int],
            final(self)@ == old(self)@.update(i as int, (*final(r))@),
    {
        &mut self.v[i]
    }

    pub fn push(&mut self, t: T)
        ensures
            final(self)@ == old(self)@.push(t@),
    {
        self.v.push(t);
        assert(self@ =~= old(self)@.push(t@));
    }

    pub fn set(&mut self, i: usize, t: T)
        requires
            i < old(self)@.len(),
        ensures
            final(self)@ == old(self)@.update(i as int, t@),
    {
        self.v.set(i, t);
        assert(self@ =~= old(self)@.update(i as int, t@));
    }
}

impl<T: Dup> Dup for Rows<T> {
    fn dup(&self) -> (r: Self) {
        let mut v: Vec<T> = Vec::new();
        let mut i: usize = 0;
        while i < self.v.len()
            invariant
                i <= self.v@.len(),
                v@.len() == i,
                forall|j: int| 0 <= j < i ==> (#[trigger] v@[j])@ == self.v@[j]@,
            decreases self.v@.len() - i,
        {
            v.push(self.v[i].dup());
            i += 1;
        }
        let r = Rows { v };
        assert(r@ =~= self@);
        r
    }
}

/// A vector of one element.
pub fn one<T>(x: T) -> (r: Vec<T>)
    ensures
        r@ == seq![x],
{
    let mut v: Vec<T> = Vec::new();
    v.push(x);
    assert(v@ =~= seq![x]);
    v
}

/// Copy of a slice of plain values.
pub fn copy_slice<T: Copy>(v: &[T]) -> (r: Vec<T>)
    ensures
        r@ == v@,
{
    let mut out: Vec<T> = Vec::new();
    let mut i: usize = 0;
    while i < v.len()
        invariant
            i <= v@.len(),
            out@ == v@.take(i as int),
        decreases v@.len() - i,
    {
        out.push(v[i]);
        i += 1;
        assert(v@.take(i as int) =~= v@.take(i - 1).push(v@[i - 1]));
    }
    assert(v@.take(i as int) =~= v@);
    out
}

/// Copy of a vector of plain values.
pub fn copy_vec<T: Copy>(v: &Vec<T>) -> (r: Vec<T>)
    ensures
        r@ == v@,
{
    copy_slice(v.as_slice())
}

/// The elements of `a`, then those of `b`.
pub fn joined<T: Copy>(a: &[T], b: &[T]) -> (r: Vec<T>)
    ensures
        r@ == a@ + b@,
{
    let mut out = copy_slice(a);
    let tail = copy_slice(b);
    extend_copy(&mut out, &tail);
    out
}

/// Append every element of `b` to `a`.
pub fn extend_copy<T: Copy>(a: &mut Vec<T>, b: &Vec<T>)
    ensures
        final(a)@ == old(a)@ + b@,
{
    let mut i: usize = 0;
    while i < b.len()
        invariant
            i <= b@.len(),
            a@ == old(a)@ + b@.take(i as int),
        decreases b@.len() - i,
    {
        a.push(b[i]);
        i += 1;
        assert(b@.take(i as int) =~= b@.take(i - 1).push(b@[i - 1]));
        assert(a@ =~= old(a)@ + b@.take(i as int));
    }
    assert(b@.take(i as int) =~= b@);
}

/// Whether a slice of keys holds `x`.
pub fn has<K: Key>(v: &[K], x: K) -> (r: bool)
    ensures
        r == v@.contains(x),
{
    let mut i: usize = 0;
    while i < v.len()
        invariant
            i <= v@.len(),
            forall|j: int| 0 <= j < i ==> v@[j] != x,
        decreases v@.len() - i,
    {
        if v[i].same(x) {
            assert(v@[i as int] == x);
            return true;
        }
        i += 1;
    }
    false
}

/// Whether a vector of keys holds `x`.
pub fn has_key<K: Key>(v: &Vec<K>, x: K) -> (r: bool)
    ensures
        r == v@.contains(x),
{
    has(v.as_slice(), x)
}

/// Whether two vectors hold the same keys in the same order.
pub fn same_keys<K: Key>(a: &Vec<K>, b: &Vec<K>) -> (r: bool)
    ensures
        r == (a@ == b@),
{
    if a.len() != b.len() {
        return false;
    }
    let mut i: usize = 0;
    while i < a.len()
        invariant
            a@.len() == b@.len(),
            i <= a@.len(),
            forall|j: int| 0 <= j < i ==> a@[j] == b@[j],
        decreases a@.len() - i,
    {
        if !a[i].same(b[i]) {
            return false;
        }
        i += 1;
    }
    assert(a@ =~= b@);
    true
}

/// `q` with `x` at the end unless it is already there.
pub open spec fn with_new<K>(q: Seq<K>, x: K) -> Seq<K> {
    if q.contains(x) {
        q
    } else {
        q.push(x)
    }
}

pub fn push_new<K: Key>(v: &mut Vec<K>, x: K)
    ensures
        final(v)@ == with_new(old(v)@, x),
{
    if !has_key(v, x) {
        v.push(x);
    }
}

/// `q` with each element of `more` appended unless it is already there.
pub open spec fn with_all_new<K>(q: Seq<K>, more: Seq<K>) -> Seq<K>
    decreases more.len(),
{
    if more.len() == 0 {
        q
    } else {
        with_new(with_all_new(q, more.drop_last()), more.last())
    }
}

pub fn push_all_new<K: Key>(v: &mut Vec<K>, more: &Vec<K>)
    ensures
        final(v)@ == with_all_new(old(v)@, more@),
{
    let mut i: usize = 0;
    while i < more.len()
        invariant
            i <= more@.len(),
            v@ == with_all_new(old(v)@, more@.take(i as int)),
        decreases more@.len() - i,
    {
        push_new(v, more[i]);
        i += 1;
        assert(more@.take(i as int).drop_last() =~= more@.take(i - 1));
    }
    assert(more@.take(i as int) =~= more@);
}

/// `q` without the elements equal to `x`.
pub open spec fn without<K>(q: Seq<K>, x: K) -> Seq<K>
    decreases q.len(),
{
    if q.len() == 0 {
        q
    } else if q.last() == x {
        without(q.drop_last(), x)
    } else {
        without(q.drop_last(), x).push(q.last())
    }
}

pub fn drop_key<K: Key>(v: &mut Vec<K>, x: K)
    ensures
        final(v)@ == without(old(v)@, x),
{
    let mut out: Vec<K> = Vec::new();
    let mut i: usize = 0;
    while i < v.len()
        invariant
            i <= v@.len(),
            v@ == old(v)@,
            out@ == without(v@.take(i as int), x),
        decreases v@.len() - i,
    {
        if !v[i].same(x) {
            out.push(v[i]);
        }
        i += 1;
        assert(v@.take(i as int).drop_last() =~= v@.take(i - 1));
    }
    assert(v@.take(i as int) =~= v@);
    *v = out;
}

/// Ascending insertion: `x` goes behind the last element that is not after it.
pub open spec fn put_ascending(q: Seq<usize>, x: usize) -> Seq<usize>
    decreases q.len(),
{
    if q.len() == 0 || q.last() <= x {
        q.push(x)
    } else {
        put_ascending(q.drop_last(), x).push(q.last())
    }
}

/// The elements of `q`, ascending.
pub open spec fn ascending(q: Seq<usize>) -> Seq<usize>
    decreases q.len(),
{
    if q.len() == 0 {
        q
    } else {
        put_ascending(ascending(q.drop_last()), q.last())
    }
}

fn put(v: &mut Vec<usize>, x: usize)
    ensures
        final(v)@ == put_ascending(old(v)@, x),
{
    let ghost q = v@;
    let mut i: usize = v.len();
    assert(q.take(i as int) =~= q);
    assert(put_ascending(q, x) + q.skip(i as int) =~= put_ascending(q, x));
    while i > 0 && v[i - 1] > x
        invariant
            i <= v@.len(),
            v@ == q,
            put_ascending(q, x) == put_ascending(q.take(i as int), x) + q.skip(i as int),
        decreases i,
    {
        proof {
            let t = q.take(i as int);
            assert(t.drop_last() =~= q.take(i - 1));
            assert(q.skip(i - 1) =~= seq![q[i - 1]] + q.skip(i as int));
            assert(put_ascending(t, x) + q.skip(i as int) =~= put_ascending(q.take(i - 1), x)
                + q.skip(i - 1));
        }
        i -= 1;
    }
    v.insert(i, x);
    assert(v@ =~= q.take(i as int).push(x) + q.skip(i as int));
}

/// Sort ascending; equal elements stay.
pub fn sort(v: &mut Vec<usize>)
    ensures
        final(v)@ == ascending(old(v)@),
{
    let mut out: Vec<usize> = Vec::new();
    let mut i: usize = 0;
    while i < v.len()
        invariant
            i <= v@.len(),
            v@ == old(v)@,
            out@ == ascending(v@.take(i as int)),
        decreases v@.len() - i,
    {
        put(&mut out, v[i]);
        i += 1;
        assert(v@.take(i as int).drop_last() =~= v@.take(i - 1));
    }
    assert(v@.take(i as int) =~= v@);
    *v = out;
}

/// The distinct elements of `q`, ascending.
pub open spec fn distinct_ascending(q: Seq<usize>) -> Seq<usize> {
    order_of(q.to_set())
}

/// The distinct elements of `v`, ascending.
pub fn sorted_distinct(v: &[usize]) -> (r: Vec<usize>)
    ensures
        r@ == distinct_ascending(v@),
        lists(r@, v@.to_set()),
{
    let mut set: KeySet<usize> = KeySet::new();
    let mut i: usize = 0;
    while i < v.len()
        invariant
            i <= v@.len(),
            set@ == v@.take(i as int).to_set(),
        decreases v@.len() - i,
    {
        let _new = set.insert(v[i]);
        i += 1;
        proof {
            let t = v@.take(i as int);
            assert(t =~= v@.take(i - 1).push(v@[i - 1]));
            assert forall|x: usize| t.to_set().contains(x) == set@.contains(x) by {
                if t.contains(x) {
                    let j = choose|j: int| 0 <= j < t.len() && t[j] == x;
                    if j < i - 1 {
                        assert(v@.take(i - 1)[j] == x);
                    }
                }
                if v@.take(i - 1).contains(x) {
                    let u = v@.take(i - 1);
                    let j = choose|j: int| 0 <= j < u.len() && u[j] == x;
                    assert(t[j] == x);
                }
                if x == v@[i - 1] {
                    assert(t[i - 1] == x);
                }
            }
            assert(set@ =~= t.to_set());
        }
    }
    assert(v@.take(i as int) =~= v@);
    set.to_list()
}

/// The least position below `n` at which `p` holds.
pub open spec fn first_where(n: nat, p: spec_fn(int) -> bool) -> Option<int> {
    if exists|i: int| 0 <= i < n && #[trigger] p(i) {
        Some(
            choose|i: int|
                0 <= i < n && #[trigger] p(i) && forall|j: int| 0 <= j < i ==> !#[trigger] p(j),
        )
    } else {
        None
    }
}

/// A position at which `p` holds, and before which it does not, is the least one.
pub proof fn lemma_first_at(n: nat, p: spec_fn(int) -> bool, i: int)
    requires
        0 <= i < n,
        p(i),
        forall|j: int| 0 <= j < i ==> !#[trigger] p(j),
    ensures
        first_where(n, p) == Some(i),
{
    let k = choose|k: int|
        0 <= k < n && #[trigger] p(k) && forall|j: int| 0 <= j < k ==> !#[trigger] p(j);
    assert(p(k) && forall|j: int| 0 <= j < k ==> !#[trigger] p(j));
    if k < i {
        assert(!p(k));
    }
    if i < k {
        assert(!p(i));
    }
}

proof fn lemma_least(n: nat, p: spec_fn(int) -> bool, i: int) -> (k: int)
    requires
        0 <= i < n,
        p(i),
    ensures
        0 <= k <= i,
        p(k),
        forall|j: int| 0 <= j < k ==> !#[trigger] p(j),
    decreases i,
{
    if exists|j: int| 0 <= j < i && #[trigger] p(j) {
        let j = choose|j: int| 0 <= j < i && #[trigger] p(j);
        lemma_least(n, p, j)
    } else {
        i
    }
}

/// What [`first_where`] finds.
pub proof fn lemma_first_where(n: nat, p: spec_fn(int) -> bool)
    ensures
        match first_where(n, p) {
            Some(i) => 0 <= i < n && p(i) && forall|j: int| 0 <= j < i ==> !#[trigger] p(j),
            None => forall|i: int| 0 <= i < n ==> !#[trigger] p(i),
        },
{
    if exists|i: int| 0 <= i < n && #[trigger] p(i) {
        let i = choose|i: int| 0 <= i < n && #[trigger] p(i);
        let k = lemma_least(n, p, i);
        lemma_first_at(n, p, k);
    }
}

/// The elements of a list that is built one by one, or the first refusal.
pub open spec fn all_ok<T, E>(n: nat, f: spec_fn(int) -> Result<T, E>) -> Result<Seq<T>, E> {
    match first_where(n, |i: int| f(i) is Err) {
        Some(i) => Err(f(i)->Err_0),
        None => Ok(Seq::new(n, |i: int| f(i)->Ok_0)),
    }
}

/// Where everything before `i` is in order, a refusal at `i` is the first, and none of `n` is left.
pub proof fn lemma_all_ok<T, E>(n: nat, f: spec_fn(int) -> Result<T, E>, i: int)
    requires
        forall|j: int| 0 <= j < i ==> #[trigger] f(j) is Ok,
        0 <= i <= n,
    ensures
        i < n && f(i) is Err ==> all_ok(n, f) == Err::<Seq<T>, E>(f(i)->Err_0),
        i == n ==> all_ok(n, f) == Ok::<Seq<T>, E>(Seq::new(n, |i: int| f(i)->Ok_0)),
{
    let bad = |i: int| f(i) is Err;
    lemma_first_where(n, bad);
    if i < n && f(i) is Err {
        assert forall|j: int| 0 <= j < i implies !#[trigger] bad(j) by {
            assert(f(j) is Ok);
        }
        lemma_first_at(n, bad, i);
    }
    if i == n && first_where(n, bad) is Some {
        assert(bad(first_where(n, bad)->0));
        assert(f(first_where(n, bad)->0) is Ok);
    }
}

/// A list of what every position gives is the whole list.
pub proof fn lemma_all_done<T, E>(n: nat, f: spec_fn(int) -> Result<T, E>, q: Seq<T>)
    requires
        q.len() == n,
        forall|j: int| 0 <= j < n ==> #[trigger] f(j) is Ok && f(j)->Ok_0 == q[j],
    ensures
        all_ok(n, f) == Ok::<Seq<T>, E>(q),
{
    lemma_all_ok(n, f, n as int);
    assert(q =~= Seq::new(n, |i: int| f(i)->Ok_0)) by {
        assert forall|j: int| 0 <= j < n implies q[j] == f(j)->Ok_0 by {
            assert(f(j) is Ok);
        }
    }
}

/// Nothing to refuse, or the first refusal.
pub open spec fn each_ok<T, E>(n: nat, f: spec_fn(int) -> Result<T, E>) -> Result<(), E> {
    match first_where(n, |i: int| f(i) is Err) {
        Some(i) => Err(f(i)->Err_0),
        None => Ok(()),
    }
}

/// Where everything before `i` is in order, a refusal at `i` is the first, and none of `n` is left.
pub proof fn lemma_each_ok<T, E>(n: nat, f: spec_fn(int) -> Result<T, E>, i: int)
    requires
        forall|j: int| 0 <= j < i ==> #[trigger] f(j) is Ok,
        0 <= i <= n,
    ensures
        i < n && f(i) is Err ==> each_ok(n, f) == Err::<(), E>(f(i)->Err_0),
        i == n ==> each_ok(n, f) == Ok::<(), E>(()),
{
    lemma_all_ok(n, f, i);
}

/// What is in order is in order everywhere.
pub proof fn lemma_ok_each<T, E>(n: nat, f: spec_fn(int) -> Result<T, E>)
    ensures
        each_ok(n, f) is Ok <==> forall|i: int| 0 <= i < n ==> #[trigger] f(i) is Ok,
        all_ok(n, f) is Ok <==> forall|i: int| 0 <= i < n ==> #[trigger] f(i) is Ok,
{
    let bad = |i: int| f(i) is Err;
    lemma_first_where(n, bad);
    if first_where(n, bad) is Some {
        assert(bad(first_where(n, bad)->0));
        assert(f(first_where(n, bad)->0) is Err);
    } else {
        assert forall|i: int| 0 <= i < n implies #[trigger] f(i) is Ok by {
            assert(!bad(i));
        }
    }
}

/// What the least position below `n` that gives something gives.
pub open spec fn first_some<T>(n: nat, f: spec_fn(int) -> Option<T>) -> Option<T> {
    match first_where(n, |i: int| f(i) is Some) {
        Some(i) => f(i),
        None => None,
    }
}

/// Where nothing before `i` gives anything, `i` is the first, and none of `n` is left.
pub proof fn lemma_first_some<T>(n: nat, f: spec_fn(int) -> Option<T>, i: int)
    requires
        forall|j: int| 0 <= j < i ==> #[trigger] f(j) is None,
        0 <= i <= n,
    ensures
        i < n && f(i) is Some ==> first_some(n, f) == f(i),
        i == n ==> first_some(n, f) is None,
{
    let hit = |i: int| f(i) is Some;
    lemma_first_where(n, hit);
    if i < n && f(i) is Some {
        assert forall|j: int| 0 <= j < i implies !#[trigger] hit(j) by {
            assert(f(j) is None);
        }
        lemma_first_at(n, hit, i);
    }
    if i == n && first_where(n, hit) is Some {
        assert(hit(first_where(n, hit)->0));
        assert(f(first_where(n, hit)->0) is None);
    }
}

/// What the positions below `n` give, in order, those left out that give nothing.
pub open spec fn picked<T>(n: nat, f: spec_fn(int) -> Option<T>) -> Seq<T>
    decreases n,
{
    if n == 0 {
        Seq::empty()
    } else {
        match f(n - 1) {
            Some(x) => picked((n - 1) as nat, f).push(x),
            None => picked((n - 1) as nat, f),
        }
    }
}

/// What was picked is what some position gives.
pub proof fn lemma_picked_holds<T>(n: nat, f: spec_fn(int) -> Option<T>, x: T)
    ensures
        picked(n, f).contains(x) <==> exists|i: int| 0 <= i < n && #[trigger] f(i) == Some(x),
    decreases n,
{
    if n > 0 {
        let m = (n - 1) as nat;
        let q = picked(m, f);
        let r = picked(n, f);
        lemma_picked_holds(m, f, x);
        if q.contains(x) {
            let j = choose|j: int| 0 <= j < q.len() && q[j] == x;
            assert(r[j] == x);
        }
        if f(n - 1) == Some(x) {
            assert(r[q.len() as int] == x);
        }
        if r.contains(x) {
            let j = choose|j: int| 0 <= j < r.len() && r[j] == x;
            if j < q.len() {
                assert(q[j] == x);
            } else {
                assert(f(n - 1) == Some(x));
            }
        }
    }
}

/// The lists that the positions below `n` give, one behind the other.
pub open spec fn joined_up<T>(n: nat, f: spec_fn(int) -> Seq<T>) -> Seq<T>
    decreases n,
{
    if n == 0 {
        Seq::empty()
    } else {
        joined_up((n - 1) as nat, f) + f(n - 1)
    }
}

/// Number of positions below `n` at which `p` holds.
pub open spec fn count_where(n: nat, p: spec_fn(int) -> bool) -> nat
    decreases n,
{
    if n == 0 {
        0
    } else {
        count_where((n - 1) as nat, p) + if p(n - 1) {
            1nat
        } else {
            0nat
        }
    }
}

/// Where `p` holds once, the count is not zero.
pub proof fn lemma_count_positive(n: nat, p: spec_fn(int) -> bool, i: int)
    requires
        0 <= i < n,
        p(i),
    ensures
        count_where(n, p) >= 1,
    decreases n,
{
    if i < n - 1 {
        lemma_count_positive((n - 1) as nat, p, i);
    }
}

/// No more is counted than there is.
pub proof fn lemma_count_bound(n: nat, p: spec_fn(int) -> bool)
    ensures
        count_where(n, p) <= n,
    decreases n,
{
    if n > 0 {
        lemma_count_bound((n - 1) as nat, p);
    }
}

/// [`count_where`] as far as the type goes.
pub open spec fn count_u32(n: nat, p: spec_fn(int) -> bool) -> u32 {
    if count_where(n, p) > u32::MAX {
        u32::MAX
    } else {
        count_where(n, p) as u32
    }
}

/// [`count_where`] as far as the type goes.
pub open spec fn count_u64(n: nat, p: spec_fn(int) -> bool) -> u64 {
    if count_where(n, p) > u64::MAX {
        u64::MAX
    } else {
        count_where(n, p) as u64
    }
}

} // verus!
