//! Launch order of graph nodes.
use vstd::prelude::*;
use crate::error::{invalid, SimError};
use crate::list::{has_key, ok_view, one, Rows};
use crate::state::{GraphStep, StepView};

verus! {

/// A dependency list names other nodes, each once.
pub open spec fn deps_well_formed(deps: Seq<usize>, node: int, n: nat) -> bool {
    &&& forall|k: int| 0 <= k < deps.len() ==> #[trigger] deps[k] < n && deps[k] != node
    &&& deps.no_duplicates()
}

/// Whether every dependency list is well formed.
pub open spec fn graph_well_formed(steps: Seq<StepView>) -> bool {
    forall|i: int|
        0 <= i < steps.len() ==> deps_well_formed((#[trigger] steps[i]).deps, i, steps.len())
}

/// Whether a node is not placed yet and all of its dependencies are.
pub open spec fn node_ready(steps: Seq<StepView>, placed: Seq<usize>, i: int) -> bool {
    &&& !placed.contains(i as usize)
    &&& forall|k: int|
        0 <= k < steps[i].deps.len() ==> placed.contains(#[trigger] steps[i].deps[k])
}

/// The first ready node at or after `i`.
pub open spec fn first_ready(steps: Seq<StepView>, placed: Seq<usize>, i: int) -> Option<usize>
    decreases steps.len() - i,
{
    if i < 0 || i >= steps.len() {
        None
    } else if node_ready(steps, placed, i) {
        Some(i as usize)
    } else {
        first_ready(steps, placed, i + 1)
    }
}

/// Place the first ready node, `left` times or until none is ready.
pub open spec fn place_ready(steps: Seq<StepView>, placed: Seq<usize>, left: nat) -> Seq<usize>
    decreases left,
{
    match first_ready(steps, placed, 0) {
        Some(i) => if left == 0 {
            placed
        } else {
            place_ready(steps, placed.push(i), (left - 1) as nat)
        },
        None => placed,
    }
}

/// Order that always takes the first node whose dependencies are placed. Malformed dependencies
/// and cycles are refused.
pub open spec fn launch_order(steps: Seq<StepView>) -> Result<Seq<usize>, SimError> {
    if !graph_well_formed(steps) {
        Err(invalid("graph dependency"))
    } else {
        let order = place_ready(steps, Seq::empty(), steps.len());
        if order.len() == steps.len() {
            Ok(order)
        } else {
            Err(invalid("cyclic graph dependencies"))
        }
    }
}

fn check_deps(deps: &Vec<usize>, node: usize, n: usize) -> (r: bool)
    ensures
        r == deps_well_formed(deps@, node as int, n as nat),
{
    let mut i: usize = 0;
    while i < deps.len()
        invariant
            i <= deps@.len(),
            forall|k: int| 0 <= k < i ==> #[trigger] deps@[k] < n && deps@[k] != node,
            forall|a: int, b: int| 0 <= a < b < i ==> deps@[a] != deps@[b],
        decreases deps@.len() - i,
    {
        let d: usize = deps[i];
        if d >= n || d == node {
            assert(!(deps@[i as int] < n && deps@[i as int] != node));
            return false;
        }
        let mut k: usize = 0;
        while k < i
            invariant
                i < deps@.len(),
                k <= i,
                d == deps@[i as int],
                forall|a: int| 0 <= a < k ==> deps@[a] != d,
            decreases i - k,
        {
            if deps[k] == d {
                assert(deps@[k as int] == deps@[i as int]);
                return false;
            }
            k += 1;
        }
        i += 1;
    }
    assert(deps@.no_duplicates());
    true
}

fn check_graph(steps: &Rows<GraphStep>) -> (r: bool)
    ensures
        r == graph_well_formed(steps@),
{
    let mut i: usize = 0;
    while i < steps.len()
        invariant
            i <= steps@.len(),
            forall|k: int|
                0 <= k < i ==> deps_well_formed((#[trigger] steps@[k]).deps, k, steps@.len()),
        decreases steps@.len() - i,
    {
        if !check_deps(&steps.at(i).deps, i, steps.len()) {
            assert(!deps_well_formed(steps@[i as int].deps, i as int, steps@.len()));
            return false;
        }
        i += 1;
    }
    true
}

fn is_ready(steps: &Rows<GraphStep>, placed: &Vec<usize>, done: &Vec<bool>, i: usize) -> (r: bool)
    requires
        i < steps@.len(),
        done@.len() == steps@.len(),
        graph_well_formed(steps@),
        forall|k: int| 0 <= k < done@.len() ==> #[trigger] done@[k] == placed@.contains(k as usize),
    ensures
        r == node_ready(steps@, placed@, i as int),
{
    assert(done@[i as int] == placed@.contains(i));
    if done[i] {
        return false;
    }
    let deps = &steps.at(i).deps;
    assert(deps@ == steps@[i as int].deps);
    assert(deps_well_formed(steps@[i as int].deps, i as int, steps@.len()));
    let mut k: usize = 0;
    while k < deps.len()
        invariant
            i < steps@.len(),
            deps@ == steps@[i as int].deps,
            deps_well_formed(deps@, i as int, steps@.len()),
            done@.len() == steps@.len(),
            k <= deps@.len(),
            forall|j: int| 0 <= j < done@.len() ==> #[trigger] done@[j] == placed@.contains(j as usize),
            forall|a: int| 0 <= a < k ==> placed@.contains(#[trigger] deps@[a]),
        decreases deps@.len() - k,
    {
        let d: usize = deps[k];
        assert(deps@[k as int] < steps@.len());
        assert(done@[d as int] == placed@.contains(d));
        if !done[d] {
            assert(!placed@.contains(steps@[i as int].deps[k as int]));
            return false;
        }
        k += 1;
    }
    true
}

fn find_ready(steps: &Rows<GraphStep>, placed: &Vec<usize>, done: &Vec<bool>) -> (r: Option<usize>)
    requires
        done@.len() == steps@.len(),
        graph_well_formed(steps@),
        forall|k: int| 0 <= k < done@.len() ==> #[trigger] done@[k] == placed@.contains(k as usize),
    ensures
        r == first_ready(steps@, placed@, 0),
        r matches Some(i) ==> i < steps@.len(),
{
    let mut i: usize = 0;
    while i < steps.len()
        invariant
            i <= steps@.len(),
            done@.len() == steps@.len(),
            graph_well_formed(steps@),
            forall|k: int|
                0 <= k < done@.len() ==> #[trigger] done@[k] == placed@.contains(k as usize),
            first_ready(steps@, placed@, 0) == first_ready(steps@, placed@, i as int),
        decreases steps@.len() - i,
    {
        if is_ready(steps, placed, done, i) {
            return Some(i);
        }
        i += 1;
    }
    None
}

/// Launch order of the nodes.
pub fn graph_topo_order(steps: &Rows<GraphStep>) -> (r: Result<Vec<usize>, SimError>)
    ensures
        ok_view(r) == launch_order(steps@),
{
    if !check_graph(steps) {
        return Err(invalid("graph dependency"));
    }
    let n: usize = steps.len();
    let mut done: Vec<bool> = Vec::new();
    let mut i: usize = 0;
    while i < n
        invariant
            i <= n,
            done@.len() == i,
            forall|k: int| 0 <= k < i ==> !#[trigger] done@[k],
        decreases n - i,
    {
        done.push(false);
        i += 1;
    }
    let mut placed: Vec<usize> = Vec::new();
    let mut left: usize = n;
    let mut next: Option<usize> = find_ready(steps, &placed, &done);
    while left > 0 && next.is_some()
        invariant
            n == steps@.len(),
            left <= n,
            done@.len() == steps@.len(),
            graph_well_formed(steps@),
            forall|k: int|
                0 <= k < done@.len() ==> #[trigger] done@[k] == placed@.contains(k as usize),
            next == first_ready(steps@, placed@, 0),
            next matches Some(j) ==> j < steps@.len(),
            place_ready(steps@, Seq::empty(), steps@.len()) == place_ready(
                steps@,
                placed@,
                left as nat,
            ),
        decreases left,
    {
        if let Some(j) = next {
            let ghost before = placed@;
            placed.push(j);
            done.set(j, true);
            proof {
                assert forall|k: int| 0 <= k < done@.len() implies #[trigger] done@[k]
                    == placed@.contains(k as usize) by {
                    if k == j {
                        assert(placed@[before.len() as int] == j);
                    } else {
                        if before.contains(k as usize) {
                            let m = choose|m: int| 0 <= m < before.len() && before[m] == k as usize;
                            assert(placed@[m] == k as usize);
                        }
                        if placed@.contains(k as usize) {
                            let m = choose|m: int|
                                0 <= m < placed@.len() && placed@[m] == k as usize;
                            assert(before[m] == k as usize);
                        }
                    }
                }
            }
            left -= 1;
            next = find_ready(steps, &placed, &done);
        }
    }
    if placed.len() == n {
        Ok(placed)
    } else {
        Err(invalid("cyclic graph dependencies"))
    }
}

/// Whether `node` is a node that depends on `on`.
pub open spec fn depends(steps: Seq<StepView>, node: usize, on: usize) -> bool {
    node < steps.len() && steps[node as int].deps.contains(on)
}

/// A walk along dependencies: each node is a dependency of the next one.
pub open spec fn is_path(steps: Seq<StepView>, p: Seq<usize>) -> bool {
    &&& p.len() > 0
    &&& forall|k: int| 0 < k < p.len() ==> #[trigger] depends(steps, p[k], p[k - 1])
}

/// Whether a walk leads from `start` to `goal`.
pub open spec fn reaches(steps: Seq<StepView>, start: usize, goal: usize) -> bool {
    exists|p: Seq<usize>| #[trigger] is_path(steps, p) && p[0] == start && p.last() == goal
}

/// No walk of more than one node leads back to where it began.
pub open spec fn acyclic(steps: Seq<StepView>) -> bool {
    forall|p: Seq<usize>| #[trigger] is_path(steps, p) && p.len() > 1 ==> p[0] != p.last()
}

spec fn unmarked(mark: Seq<bool>) -> nat
    decreases mark.len(),
{
    if mark.len() == 0 {
        0
    } else {
        unmarked(mark.drop_last()) + if mark.last() {
            0nat
        } else {
            1nat
        }
    }
}

proof fn lemma_mark(mark: Seq<bool>, j: int)
    requires
        0 <= j < mark.len(),
        !mark[j],
    ensures
        unmarked(mark.update(j, true)) + 1 == unmarked(mark),
    decreases mark.len(),
{
    let after = mark.update(j, true);
    if j == mark.len() - 1 {
        assert(after.drop_last() =~= mark.drop_last());
    } else {
        assert(after.drop_last() =~= mark.drop_last().update(j, true));
        lemma_mark(mark.drop_last(), j);
    }
}

/// A walk goes on to every node that depends on its last one.
proof fn lemma_extend(steps: Seq<StepView>, start: usize, i: usize, j: usize)
    requires
        reaches(steps, start, i),
        j < steps.len(),
        steps[j as int].deps.contains(i),
    ensures
        reaches(steps, start, j),
{
    let p = choose|p: Seq<usize>| #[trigger] is_path(steps, p) && p[0] == start && p.last() == i;
    let q = p.push(j);
    assert forall|k: int| 0 < k < q.len() implies #[trigger] depends(steps, q[k], q[k - 1]) by {
        if k < p.len() {
            assert(depends(steps, p[k], p[k - 1]));
        }
    }
    assert(is_path(steps, q));
}

/// The successors of `x` are all marked.
spec fn expanded(steps: Seq<StepView>, mark: Seq<bool>, x: usize) -> bool {
    forall|j: int| 0 <= j < steps.len() && steps[j].deps.contains(x) ==> #[trigger] mark[j]
}

/// Where every marked node and `start` are expanded, a walk from `start` stays on them.
proof fn lemma_closed(steps: Seq<StepView>, mark: Seq<bool>, start: usize, p: Seq<usize>, k: int)
    requires
        mark.len() == steps.len(),
        is_path(steps, p),
        p[0] == start,
        expanded(steps, mark, start),
        forall|x: usize| x < mark.len() && #[trigger] mark[x as int] ==> expanded(steps, mark, x),
        0 <= k < p.len(),
    ensures
        k == 0 || (p[k] < mark.len() && mark[p[k] as int]),
    decreases k,
{
    if k > 0 {
        lemma_closed(steps, mark, start, p, k - 1);
        assert(depends(steps, p[k], p[k - 1]));
        if k > 1 {
            assert(mark[p[k - 1] as int]);
        }
        assert(expanded(steps, mark, p[k - 1]));
        assert(mark[p[k] as int]);
    }
}

/// Whether a walk along dependencies leads from `start` to `goal`.
pub fn graph_reaches(steps: &Rows<GraphStep>, start: usize, goal: usize) -> (r: bool)
    ensures
        r == reaches(steps@, start, goal),
{
    proof {
        let p = seq![start];
        assert(is_path(steps@, p) && p[0] == start && p.last() == start);
    }
    if start == goal {
        return true;
    }
    let n: usize = steps.len();
    let mut mark: Vec<bool> = Vec::new();
    while mark.len() < n
        invariant
            mark@.len() <= n,
            forall|i: int| 0 <= i < mark@.len() ==> !mark@[i],
        decreases n - mark@.len(),
    {
        mark.push(false);
    }
    let mut stack: Vec<usize> = one(start);
    assert(stack@[0] == start);
    while stack.len() > 0
        invariant
            n == steps@.len(),
            mark@.len() == n,
            start != goal,
            forall|i: int| 0 <= i < n && #[trigger] mark@[i] ==> i != goal,
            forall|k: int| 0 <= k < stack@.len() ==> reaches(steps@, start, #[trigger] stack@[k]),
            stack@.contains(start) || expanded(steps@, mark@, start),
            forall|x: usize|
                x < n && #[trigger] mark@[x as int] ==> stack@.contains(x) || expanded(
                    steps@,
                    mark@,
                    x,
                ),
        decreases unmarked(mark@), stack@.len(),
    {
        let i: usize = stack[stack.len() - 1];
        let ghost before = stack@;
        let _last = stack.pop();
        let ghost rest = stack@;
        assert(before == rest.push(i));
        assert forall|x: usize| before.contains(x) && x != i implies rest.contains(x) by {
            let k = choose|k: int| 0 <= k < before.len() && before[k] == x;
            assert(rest[k] == x);
        }
        let ghost mark0 = mark@;
        let mut j: usize = 0;
        while j < n
            invariant
                n == steps@.len(),
                mark@.len() == n,
                mark0.len() == n,
                j <= n,
                reaches(steps@, start, i),
                rest.len() + 1 == before.len(),
                forall|k: int| 0 <= k < n && #[trigger] mark@[k] ==> k != goal,
                forall|k: int| 0 <= k < stack@.len() ==> reaches(
                    steps@,
                    start,
                    #[trigger] stack@[k],
                ),
                forall|x: usize| #[trigger] rest.contains(x) ==> stack@.contains(x),
                forall|k: int| 0 <= k < n && #[trigger] mark0[k] ==> mark@[k],
                forall|k: int|
                    0 <= k < n && #[trigger] mark@[k] && !mark0[k] ==> stack@.contains(k as usize),
                forall|k: int|
                    0 <= k < j && (#[trigger] steps@[k]).deps.contains(i) ==> mark@[k],
                unmarked(mark@) < unmarked(mark0) || (mark@ == mark0 && stack@ == rest),
                unmarked(mark@) <= unmarked(mark0),
            decreases n - j,
        {
            if !mark[j] && has_key(&steps.at(j).deps, i) {
                proof {
                    lemma_extend(steps@, start, i, j);
                }
                if j == goal {
                    return true;
                }
                let ghost s1 = stack@;
                let ghost m1 = mark@;
                proof {
                    lemma_mark(mark@, j as int);
                }
                mark.set(j, true);
                stack.push(j);
                assert(mark@ == m1.update(j as int, true));
                assert(stack@[s1.len() as int] == j);
                assert forall|x: usize| s1.contains(x) implies stack@.contains(x) by {
                    let k = choose|k: int| 0 <= k < s1.len() && s1[k] == x;
                    assert(stack@[k] == x);
                }
                assert forall|k: int| 0 <= k < n && #[trigger] mark@[k] && !mark0[k] implies stack@.contains(
                    k as usize,
                ) by {
                    if k != j {
                        assert(m1[k]);
                    }
                }
            }
            j += 1;
        }
        proof {
            assert(expanded(steps@, mark@, i)) by {
                assert forall|k: int| 0 <= k < steps@.len() && steps@[k].deps.contains(i) implies #[trigger] mark@[k] by {
                    assert(steps@[k].deps.contains(i));
                }
            }
            assert forall|x: usize| expanded(steps@, mark0, x) implies expanded(
                steps@,
                mark@,
                x,
            ) by {
                assert forall|k: int| 0 <= k < steps@.len() && steps@[k].deps.contains(x) implies #[trigger] mark@[k] by {
                    assert(mark0[k]);
                }
            }
            assert forall|x: usize| x < n && #[trigger] mark@[x as int] implies stack@.contains(x) || expanded(
                steps@,
                mark@,
                x,
            ) by {
                if mark0[x as int] {
                    if before.contains(x) && x != i {
                        assert(rest.contains(x));
                    }
                }
            }
            if before.contains(start) && start != i {
                assert(rest.contains(start));
            }
        }
    }
    proof {
        assert forall|x: usize| x < mark@.len() && #[trigger] mark@[x as int] implies expanded(
            steps@,
            mark@,
            x,
        ) by {
            assert(!stack@.contains(x));
        }
        assert(!stack@.contains(start));
        if reaches(steps@, start, goal) {
            let p = choose|p: Seq<usize>| #[trigger]
                is_path(steps@, p) && p[0] == start && p.last() == goal;
            lemma_closed(steps@, mark@, start, p, p.len() - 1);
        }
    }
    false
}

} // verus!
