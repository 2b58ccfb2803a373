//! Which operations start first.
use vstd::prelude::*;
use crate::ids::OpId;
use crate::sim::SimState;
use crate::table::{Key, lemma_order_exists, lists, order_of};

verus! {

/// Whether `a` is tried before `b`: by higher priority, then by smaller id.
pub open spec fn goes_first(s: SimState, a: OpId, b: OpId) -> bool {
    s.priority_of(a) > s.priority_of(b) || (s.priority_of(a) == s.priority_of(b) && a.0 < b.0)
}

/// A list in the order in which operations are tried.
pub open spec fn in_turn(s: SimState, q: Seq<OpId>) -> bool {
    forall|i: int, j: int| 0 <= i < j < q.len() ==> goes_first(s, #[trigger] q[i], #[trigger] q[j])
}

proof fn lemma_put_candidate(s: SimState, q: Seq<OpId>, id: OpId)
    requires
        in_turn(s, q),
        forall|i: int| 0 <= i < q.len() ==> (#[trigger] q[i]).0 < id.0,
    ensures
        in_turn(s, s.put_candidate(q, id)),
        forall|x: OpId| #[trigger] s.put_candidate(q, id).contains(x) <==> q.contains(x) || x == id,
    decreases q.len(),
{
    let r = s.put_candidate(q, id);
    if q.len() == 0 || s.priority_of(q.last()) >= s.priority_of(id) {
        assert forall|i: int, j: int| 0 <= i < j < r.len() implies goes_first(
            s,
            #[trigger] r[i],
            #[trigger] r[j],
        ) by {
            if j == q.len() {
                assert(q[i].0 < id.0);
                if i < q.len() - 1 {
                    assert(goes_first(s, q[i], q[q.len() - 1]));
                }
            } else {
                assert(goes_first(s, q[i], q[j]));
            }
        }
        assert forall|x: OpId| #[trigger] r.contains(x) <==> q.contains(x) || x == id by {
            if q.contains(x) {
                let i = choose|i: int| 0 <= i < q.len() && q[i] == x;
                assert(r[i] == x);
            }
            assert(r[q.len() as int] == id);
        }
    } else {
        let p = q.drop_last();
        assert(in_turn(s, p)) by {
            assert forall|i: int, j: int| 0 <= i < j < p.len() implies goes_first(
                s,
                #[trigger] p[i],
                #[trigger] p[j],
            ) by {
                assert(goes_first(s, q[i], q[j]));
            }
        }
        assert forall|i: int| 0 <= i < p.len() implies (#[trigger] p[i]).0 < id.0 by {
            assert(q[i].0 < id.0);
        }
        lemma_put_candidate(s, p, id);
        let m = s.put_candidate(p, id);
        assert forall|i: int, j: int| 0 <= i < j < r.len() implies goes_first(
            s,
            #[trigger] r[i],
            #[trigger] r[j],
        ) by {
            if j < m.len() {
                assert(goes_first(s, m[i], m[j]));
            } else {
                assert(m.contains(m[i]));
                if p.contains(m[i]) {
                    let k = choose|k: int| 0 <= k < p.len() && p[k] == m[i];
                    assert(goes_first(s, q[k], q[q.len() - 1]));
                }
            }
        }
        assert forall|x: OpId| #[trigger] r.contains(x) <==> q.contains(x) || x == id by {
            if q.contains(x) {
                let i = choose|i: int| 0 <= i < q.len() && q[i] == x;
                if i < p.len() {
                    assert(p[i] == x);
                    assert(m.contains(x));
                    let j = choose|j: int| 0 <= j < m.len() && m[j] == x;
                    assert(r[j] == x);
                } else {
                    assert(r[m.len() as int] == x);
                }
            }
            if x == id {
                assert(m.contains(id));
                let j = choose|j: int| 0 <= j < m.len() && m[j] == id;
                assert(r[j] == id);
            }
            if r.contains(x) {
                let j = choose|j: int| 0 <= j < r.len() && r[j] == x;
                if j < m.len() {
                    assert(m[j] == x);
                    assert(m.contains(x));
                    if p.contains(x) {
                        let i = choose|i: int| 0 <= i < p.len() && p[i] == x;
                        assert(q[i] == x);
                    }
                }
            }
        }
    }
}

proof fn lemma_candidates_upto(s: SimState, n: int)
    requires
        lists(order_of(s.ops.dom()), s.ops.dom()),
        0 <= n <= order_of(s.ops.dom()).len(),
    ensures
        in_turn(s, s.candidates_upto(n)),
        forall|x: OpId| #[trigger]
            s.candidates_upto(n).contains(x) <==> order_of(s.ops.dom()).take(n).contains(x)
                && s.startable(x),
    decreases n,
{
    let all = order_of(s.ops.dom());
    if n > 0 {
        lemma_candidates_upto(s, n - 1);
        let q = s.candidates_upto(n - 1);
        let id = all[n - 1];
        let before = all.take(n - 1);
        assert(all.take(n) =~= before.push(id));
        assert forall|i: int| 0 <= i < q.len() implies (#[trigger] q[i]).0 < id.0 by {
            assert(q.contains(q[i]));
            let j = choose|j: int| 0 <= j < before.len() && before[j] == q[i];
            assert(all[j].rank() < all[n - 1].rank());
        }
        if s.startable(id) {
            lemma_put_candidate(s, q, id);
        }
        assert forall|x: OpId| #[trigger] s.candidates_upto(n).contains(x) <==> all.take(
            n,
        ).contains(x) && s.startable(x) by {
            if before.contains(x) {
                let j = choose|j: int| 0 <= j < before.len() && before[j] == x;
                assert(all.take(n)[j] == x);
            }
            if all.take(n).contains(x) {
                let j = choose|j: int| 0 <= j < all.take(n).len() && all.take(n)[j] == x;
                if j < n - 1 {
                    assert(before[j] == x);
                }
            }
            assert(all.take(n)[n - 1] == id);
        }
    }
}

/// What is tried are exactly the operations that are not finished, not in flight and held back by
/// no dependency: higher priorities first, and earlier ones first among equals.
pub proof fn candidates_in_turn(s: SimState)
    requires
        s.ops.dom().finite(),
    ensures
        in_turn(s, s.candidates()),
        forall|x: OpId| #[trigger]
            s.candidates().contains(x) <==> s.ops.contains_key(x) && s.startable(x),
{
    lemma_order_exists(s.ops.dom());
    let all = order_of(s.ops.dom());
    lemma_candidates_upto(s, all.len() as int);
    assert(all.take(all.len() as int) =~= all);
    assert forall|x: OpId| #[trigger] s.candidates().contains(x) <==> s.ops.contains_key(x)
        && s.startable(x) by {
        assert(all.contains(x) <==> s.ops.dom().contains(x));
    }
}

} // verus!
