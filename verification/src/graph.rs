//! Dependency graphs over patch indices: the edge lists in both directions
//! and the order in which patches run.

use vstd::prelude::*;
use vstd::set_lib::*;

verus! {

/// How often `x` occurs in `s`.
pub open spec fn occurrences(s: Seq<usize>, x: usize) -> nat
    decreases s.len(),
{
    if s.len() == 0 {
        0
    } else {
        occurrences(s.drop_last(), x) + if s.last() == x { 1nat } else { 0nat }
    }
}

/// How many entries of `s` are not in `done`.
pub open spec fn remaining(s: Seq<usize>, done: Set<usize>) -> nat
    decreases s.len(),
{
    if s.len() == 0 {
        0
    } else {
        remaining(s.drop_last(), done) + if done.contains(s.last()) { 0nat } else { 1nat }
    }
}

/// The views of an edge table.
pub open spec fn edge_views(e: Seq<Vec<usize>>) -> Seq<Seq<usize>> {
    e.map_values(|v: Vec<usize>| v@)
}

/// Every edge names one of the `n` nodes.
pub open spec fn edges_in_range(e: Seq<Seq<usize>>, n: nat) -> bool {
    &&& e.len() == n
    &&& forall|i: int, k: int| 0 <= i < n && 0 <= k < e[i].len() ==> (#[trigger] e[i][k]) < n
}

/// `dependents` lists, for each node, the nodes depending on it, as often as
/// each of them lists the dependency.
pub open spec fn transposed(dependencies: Seq<Seq<usize>>, dependents: Seq<Seq<usize>>, n: nat) -> bool {
    &&& edges_in_range(dependencies, n)
    &&& edges_in_range(dependents, n)
    &&& forall|i: usize, j: usize|
        i < n && j < n ==> occurrences(#[trigger] dependents[j as int], i) == occurrences(
            #[trigger] dependencies[i as int],
            j,
        )
}

/// `order` runs every node exactly once, each after all its dependencies.
pub open spec fn is_topological(order: Seq<usize>, dependencies: Seq<Seq<usize>>, n: nat) -> bool {
    &&& order.len() == n
    &&& order.no_duplicates()
    &&& forall|p: int| 0 <= p < order.len() ==> (#[trigger] order[p]) < n
    &&& forall|p: int, k: int|
        0 <= p < order.len() && 0 <= k < dependencies[order[p] as int].len() ==> order.take(
            p,
        ).contains(#[trigger] dependencies[order[p] as int][k])
}

/// The nodes left over when no order exists: each of them waits on another
/// node of the set, so they contain a dependency cycle.
pub open spec fn is_stuck_set(stuck: Seq<usize>, dependencies: Seq<Seq<usize>>, n: nat) -> bool {
    &&& stuck.len() > 0
    &&& forall|p: int| 0 <= p < stuck.len() ==> (#[trigger] stuck[p]) < n
    &&& forall|p: int, q: int| 0 <= p < q < stuck.len() ==> stuck[p] < stuck[q]
    &&& forall|p: int| 0 <= p < stuck.len() ==> waits_within(stuck, dependencies, #[trigger] stuck[p])
}

/// `x` has a dependency among `set`.
pub open spec fn waits_within(set: Seq<usize>, dependencies: Seq<Seq<usize>>, x: usize) -> bool {
    exists|k: int|
        0 <= k < dependencies[x as int].len() && set.contains(#[trigger] dependencies[x as int][k])
}

pub proof fn lemma_occurrences_push(s: Seq<usize>, a: usize, x: usize)
    ensures
        occurrences(s.push(a), x) == occurrences(s, x) + if a == x { 1nat } else { 0nat },
{
    assert(s.push(a).drop_last() =~= s);
}

pub proof fn lemma_remaining_empty(s: Seq<usize>)
    ensures
        remaining(s, Set::empty()) == s.len(),
    decreases s.len(),
{
    if s.len() > 0 {
        lemma_remaining_empty(s.drop_last());
    }
}

pub proof fn lemma_remaining_insert(s: Seq<usize>, done: Set<usize>, x: usize)
    requires
        !done.contains(x),
    ensures
        remaining(s, done.insert(x)) + occurrences(s, x) == remaining(s, done),
    decreases s.len(),
{
    if s.len() > 0 {
        lemma_remaining_insert(s.drop_last(), done, x);
    }
}

pub proof fn lemma_remaining_zero(s: Seq<usize>, done: Set<usize>)
    ensures
        remaining(s, done) == 0 <==> forall|k: int| 0 <= k < s.len() ==> done.contains(#[trigger] s[k]),
    decreases s.len(),
{
    if s.len() > 0 {
        lemma_remaining_zero(s.drop_last(), done);
        if remaining(s, done) == 0 {
            assert forall|k: int| 0 <= k < s.len() implies done.contains(#[trigger] s[k]) by {
                if k < s.len() - 1 {
                    assert(s[k] == s.drop_last()[k]);
                }
            }
        } else {
            if remaining(s.drop_last(), done) > 0 {
                let k = choose|k: int| 0 <= k < s.drop_last().len() && !done.contains(#[trigger] s.drop_last()[k]);
                assert(s[k] == s.drop_last()[k]);
            } else {
                assert(!done.contains(s[s.len() - 1]));
            }
        }
    }
}

pub proof fn lemma_occurrences_take(s: Seq<usize>, j: int, x: usize)
    requires
        0 <= j < s.len(),
    ensures
        occurrences(s.take(j + 1), x) == occurrences(s.take(j), x) + if s[j] == x { 1nat } else { 0nat },
        occurrences(s.take(j + 1), x) <= occurrences(s, x),
    decreases s.len(),
{
    assert(s.take(j + 1).drop_last() =~= s.take(j));
    if j + 1 < s.len() {
        lemma_occurrences_take(s.drop_last(), j, x);
        assert(s.drop_last().take(j + 1) =~= s.take(j + 1));
        assert(s.drop_last().take(j) =~= s.take(j));
    } else {
        assert(s.take(j + 1) =~= s);
    }
}

/// A list of distinct nodes below `n` has at most `n` entries.
pub proof fn lemma_distinct_below(s: Seq<usize>, n: usize)
    requires
        s.no_duplicates(),
        forall|k: int| 0 <= k < s.len() ==> s[k] < n,
    ensures
        s.len() <= n,
{
    s.unique_seq_to_set();
    <usize as FiniteRange>::range_properties(0, n);
    assert(s.to_set().subset_of(Set::<usize>::range(0, n)));
    lemma_len_subset(s.to_set(), Set::<usize>::range(0, n));
}

/// The nodes a stalled run leaves over form a stuck set.
proof fn lemma_stuck_set(
    stuck: Seq<usize>,
    order: Seq<usize>,
    in_degree: Seq<usize>,
    deps: Seq<Seq<usize>>,
    done: Set<usize>,
    n: usize,
)
    requires
        edges_in_range(deps, n as nat),
        in_degree.len() == n,
        forall|x: int| 0 <= x < n ==> #[trigger] in_degree[x] == remaining(deps[x], done),
        forall|x: usize| x < n ==> (order.contains(x) <==> in_degree[x as int] == 0),
        done == order.to_set(),
        forall|x: usize| x < n ==> (stuck.contains(x) <==> in_degree[x as int] > 0),
        forall|p: int| 0 <= p < stuck.len() ==> (#[trigger] stuck[p]) < n,
        forall|p: int, q: int| 0 <= p < q < stuck.len() ==> stuck[p] < stuck[q],
        order.no_duplicates(),
        order.len() != n,
        order.len() <= n,
    ensures
        is_stuck_set(stuck, deps, n as nat),
{
    // Some node never ran: otherwise the order would hold all `n` of them.
    if stuck.len() == 0 {
        assert(Set::<usize>::range(0, n).subset_of(order.to_set())) by {
            assert forall|x: usize| Set::<usize>::range(0, n).contains(x) implies order.to_set().contains(x) by {
                assert(!stuck.contains(x));
            }
        }
        <usize as FiniteRange>::range_properties(0, n);
        order.unique_seq_to_set();
        lemma_len_subset(Set::<usize>::range(0, n), order.to_set());
    }
    assert forall|p: int| 0 <= p < stuck.len() implies waits_within(stuck, deps, #[trigger] stuck[p]) by {
        let x = stuck[p];
        assert(stuck.contains(x));
        assert(in_degree[x as int] > 0);
        lemma_remaining_zero(deps[x as int], done);
        let k = choose|k: int| 0 <= k < deps[x as int].len() && !done.contains(#[trigger] deps[x as int][k]);
        let d = deps[x as int][k];
        assert(d < n);
        assert(!order.contains(d));
        assert(stuck.contains(d));
    }
    assert(stuck.len() > 0);
}

/// How many dependencies each node has.
pub open spec fn in_degrees(dependencies: Seq<Seq<usize>>) -> Seq<usize> {
    dependencies.map_values(|d: Seq<usize>| d.len() as usize)
}

/// The nodes below `i` that wait on nothing, in index order.
pub open spec fn ready_upto(degree: Seq<usize>, i: int) -> Seq<usize>
    decreases i,
{
    if i <= 0 {
        Seq::empty()
    } else if degree[i - 1] == 0 {
        ready_upto(degree, i - 1).push((i - 1) as usize)
    } else {
        ready_upto(degree, i - 1)
    }
}

/// Taking a node: each of its dependents, in list order, waits on one
/// dependency less, and joins the end of the queue when it waits on none.
pub open spec fn kahn_visit(dependents: Seq<usize>, degree: Seq<usize>, queue: Seq<usize>) -> (Seq<usize>, Seq<usize>)
    decreases dependents.len(),
{
    if dependents.len() == 0 {
        (degree, queue)
    } else {
        let (g, q) = kahn_visit(dependents.drop_last(), degree, queue);
        let d = dependents.last();
        let g2 = g.update(d as int, (g[d as int] - 1) as usize);
        (g2, if g2[d as int] == 0 { q.push(d) } else { q })
    }
}

/// The queue once every node from position `head` on has been taken, first
/// in first out, for at most `fuel` nodes.
pub open spec fn kahn_run(degree: Seq<usize>, queue: Seq<usize>, head: nat, dependents: Seq<Seq<usize>>, fuel: nat) -> Seq<usize>
    decreases fuel,
{
    if fuel == 0 || head >= queue.len() {
        queue
    } else {
        let (g, q) = kahn_visit(dependents[queue[head as int] as int], degree, queue);
        kahn_run(g, q, head + 1, dependents, (fuel - 1) as nat)
    }
}

/// The order Kahn's algorithm takes the `n` nodes in: first those that wait
/// on nothing, by index; then first in first out, a node being queued when
/// the last of its dependencies is taken. It holds every node exactly when
/// the dependencies have no cycle.
pub open spec fn kahn_order(dependencies: Seq<Seq<usize>>, dependents: Seq<Seq<usize>>, n: nat) -> Seq<usize> {
    kahn_run(in_degrees(dependencies), ready_upto(in_degrees(dependencies), n as int), 0, dependents, n)
}

/// The nodes below `i` that `order` leaves out, by index.
pub open spec fn left_out(order: Seq<usize>, i: int) -> Seq<usize>
    decreases i,
{
    if i <= 0 {
        Seq::empty()
    } else if !order.contains((i - 1) as usize) {
        left_out(order, i - 1).push((i - 1) as usize)
    } else {
        left_out(order, i - 1)
    }
}

/// A runs-after order of the `n` nodes (Kahn's algorithm: a node runs once
/// all its dependencies have, ties broken by index, first come first
/// served). When the graph has a cycle, the nodes that could never run are
/// returned instead, in index order.
pub fn topological_order(n: usize, dependencies: &Vec<Vec<usize>>, dependents: &Vec<Vec<usize>>) -> (r: Result<Vec<usize>, Vec<usize>>)
    requires
        transposed(edge_views(dependencies@), edge_views(dependents@), n as nat),
    ensures
        r is Ok <==> kahn_order(edge_views(dependencies@), edge_views(dependents@), n as nat).len() == n,
        match r {
            Ok(order) => is_topological(order@, edge_views(dependencies@), n as nat) && order@ == kahn_order(
                edge_views(dependencies@),
                edge_views(dependents@),
                n as nat,
            ),
            Err(stuck) => is_stuck_set(stuck@, edge_views(dependencies@), n as nat) && stuck@ == left_out(
                kahn_order(edge_views(dependencies@), edge_views(dependents@), n as nat),
                n as int,
            ),
        },
{
    let ghost deps = edge_views(dependencies@);
    let ghost dnts = edge_views(dependents@);
    assert(deps.len() == n && dnts.len() == n);
    let mut in_degree: Vec<usize> = Vec::new();
    for i in 0..n
        invariant
            deps == edge_views(dependencies@),
            deps.len() == n,
            in_degree@.len() == i,
            in_degree@ == in_degrees(deps).take(i as int),
            forall|x: int| 0 <= x < i ==> #[trigger] in_degree@[x] == remaining(deps[x], Set::empty()),
    {
        proof {
            lemma_remaining_empty(deps[i as int]);
        }
        assert(deps[i as int] == dependencies@[i as int]@);
        in_degree.push(dependencies[i].len());
        assert(in_degree@ =~= in_degrees(deps).take(i + 1));
    }
    assert(in_degree@ =~= in_degrees(deps));
    let ghost degree0 = in_degree@;
    let mut order: Vec<usize> = Vec::new();
    for i in 0..n
        invariant
            deps == edge_views(dependencies@),
            deps.len() == n,
            in_degree@.len() == n,
            forall|x: int| 0 <= x < n ==> #[trigger] in_degree@[x] == remaining(deps[x], Set::empty()),
            order@.no_duplicates(),
            forall|p: int| 0 <= p < order@.len() ==> (#[trigger] order@[p]) < i,
            forall|x: usize| x < n ==> (order@.contains(x) <==> (x < i && in_degree@[x as int] == 0)),
            in_degree@ == degree0,
            order@ == ready_upto(degree0, i as int),
            forall|p: int, k: int|
                0 <= p < order@.len() && 0 <= k < deps[order@[p] as int].len() ==> order@.take(
                    p,
                ).contains(#[trigger] deps[order@[p] as int][k]),
    {
        if in_degree[i] == 0 {
            proof {
                lemma_remaining_empty(deps[i as int]);
                assert forall|p: int, k: int|
                    0 <= p < order@.push(i).len() && 0 <= k < deps[order@.push(i)[p] as int].len() implies
                    order@.push(i).take(p).contains(#[trigger] deps[order@.push(i)[p] as int][k]) by {
                    if p < order@.len() {
                        assert(order@.push(i).take(p) =~= order@.take(p));
                    }
                }
                assert forall|x: usize| #![trigger order@.push(i).contains(x)] x < n implies (order@.push(i).contains(x) <==> (x < i + 1 && in_degree@[x as int] == 0)) by {
                    if order@.push(i).contains(x) && x != i {
                        let q = choose|q: int| 0 <= q < order@.push(i).len() && order@.push(i)[q] == x;
                        assert(order@[q] == x);
                    }
                    if order@.contains(x) {
                        let q = choose|q: int| 0 <= q < order@.len() && order@[q] == x;
                        assert(order@.push(i)[q] == x);
                    }
                    if x == i {
                        assert(order@.push(i)[order@.len() as int] == i);
                    }
                }
            }
            order.push(i);
        }
    }
    let ghost mut done: Set<usize> = Set::empty();
    let mut head: usize = 0;
    proof {
        assert(order@.take(0).to_set() =~= Set::<usize>::empty());
        lemma_distinct_below(order@, n);
    }
    let ghost kahn = kahn_order(deps, dnts, n as nat);
    while head < order.len()
        invariant
            kahn == kahn_order(deps, dnts, n as nat),
            kahn_run(in_degree@, order@, head as nat, dnts, (n - head) as nat) == kahn,
            deps == edge_views(dependencies@),
            dnts == edge_views(dependents@),
            transposed(deps, dnts, n as nat),
            in_degree@.len() == n,
            order@.len() <= n,
            head <= order@.len(),
            order@.no_duplicates(),
            forall|p: int| 0 <= p < order@.len() ==> (#[trigger] order@[p]) < n,
            forall|x: usize| x < n ==> (order@.contains(x) <==> in_degree@[x as int] == 0),
            forall|x: int| 0 <= x < n ==> #[trigger] in_degree@[x] == remaining(deps[x], done),
            done == order@.take(head as int).to_set(),
            forall|p: int, k: int|
                0 <= p < order@.len() && 0 <= k < deps[order@[p] as int].len() ==> order@.take(
                    p,
                ).contains(#[trigger] deps[order@[p] as int][k]),
        decreases n - head,
    {
        let idx = order[head];
        let ghost old_done = done;
        let ghost degree_s = in_degree@;
        let ghost queue_s = order@;
        assert(kahn_run(degree_s, queue_s, head as nat, dnts, (n - head) as nat) == kahn_run(
            kahn_visit(dnts[idx as int], degree_s, queue_s).0,
            kahn_visit(dnts[idx as int], degree_s, queue_s).1,
            (head + 1) as nat,
            dnts,
            (n - head - 1) as nat,
        ));
        proof {
            assert(!old_done.contains(idx)) by {
                if old_done.contains(idx) {
                    let q = choose|q: int| 0 <= q < head && order@.take(head as int)[q] == idx;
                    assert(order@[q] == order@[head as int]);
                }
            }
            done = done.insert(idx);
            assert(order@.take(head + 1) =~= order@.take(head as int) + seq![idx]);
            Seq::<usize>::lemma_to_set_insert_commutes(order@.take(head as int), idx);
        }
        head = head + 1;
        assert(dnts[idx as int] == dependents@[idx as int]@);
        let m = dependents[idx].len();
        proof {
            assert forall|x: int| 0 <= x < n implies #[trigger] in_degree@[x] == remaining(deps[x], done)
                + occurrences(dnts[idx as int], x as usize) - occurrences(dnts[idx as int].take(0), x as usize) by {
                lemma_remaining_insert(deps[x], old_done, idx);
                assert(dnts[idx as int].take(0) =~= Seq::<usize>::empty());
                assert(occurrences(dnts[idx as int], x as usize) == occurrences(deps[x], idx));
            }
        }
        for j in 0..m
            invariant
                (in_degree@, order@) == kahn_visit(dnts[idx as int].take(j as int), degree_s, queue_s),
                deps == edge_views(dependencies@),
                dnts == edge_views(dependents@),
                transposed(deps, dnts, n as nat),
                idx < n,
                m == dnts[idx as int].len(),
                in_degree@.len() == n,
                head <= order@.len(),
                order@.no_duplicates(),
                forall|p: int| 0 <= p < order@.len() ==> (#[trigger] order@[p]) < n,
                forall|x: usize| x < n ==> (order@.contains(x) <==> in_degree@[x as int] == 0),
                forall|x: int| 0 <= x < n ==> #[trigger] in_degree@[x] == remaining(deps[x], done)
                    + occurrences(dnts[idx as int], x as usize) - occurrences(dnts[idx as int].take(j as int), x as usize),
                done == order@.take(head as int).to_set(),
                forall|p: int, k: int|
                    0 <= p < order@.len() && 0 <= k < deps[order@[p] as int].len() ==> order@.take(
                        p,
                    ).contains(#[trigger] deps[order@[p] as int][k]),
        {
            assert(dnts[idx as int] == dependents@[idx as int]@);
            let dependent = dependents[idx][j];
            proof {
                assert(dependent < n);
                assert forall|x: usize| x < n implies #[trigger] occurrences(dnts[idx as int].take(j + 1), x)
                    == occurrences(dnts[idx as int].take(j as int), x) + (if dnts[idx as int][j as int] == x { 1nat } else { 0nat })
                    && occurrences(dnts[idx as int].take(j + 1), x) <= occurrences(dnts[idx as int], x) by {
                    lemma_occurrences_take(dnts[idx as int], j as int, x);
                }
            }
            proof {
                assert(dependent == dnts[idx as int][j as int]);
                assert(occurrences(dnts[idx as int].take(j + 1), dependent) == occurrences(dnts[idx as int].take(j as int), dependent) + 1);
                assert(occurrences(dnts[idx as int].take(j + 1), dependent) <= occurrences(dnts[idx as int], dependent));
                assert(in_degree@[dependent as int] == remaining(deps[dependent as int], done)
                    + occurrences(dnts[idx as int], dependent) - occurrences(dnts[idx as int].take(j as int), dependent));
            }
            assert(in_degree@[dependent as int] >= 1);
            assert(!order@.contains(dependent));
            let ghost before = order@;
            let ghost deg_before = in_degree@;
            assert(dnts[idx as int].take(j + 1).drop_last() =~= dnts[idx as int].take(j as int));
            in_degree.set(dependent, in_degree[dependent] - 1);
            if in_degree[dependent] == 0 {
                proof {
                    assert(remaining(deps[dependent as int], done) == 0);
                    lemma_remaining_zero(deps[dependent as int], done);
                    let p_new = order@.len() as int;
                    assert forall|p: int, k: int|
                        0 <= p < order@.push(dependent).len() && 0 <= k < deps[order@.push(dependent)[p] as int].len() implies
                        order@.push(dependent).take(p).contains(#[trigger] deps[order@.push(dependent)[p] as int][k]) by {
                        if p < order@.len() {
                            assert(order@.push(dependent).take(p) =~= order@.take(p));
                        } else {
                            let d = deps[dependent as int][k];
                            assert(done.contains(d));
                            let q = choose|q: int| 0 <= q < head && order@.take(head as int)[q] == d;
                            assert(order@.push(dependent).take(p)[q] == d);
                        }
                    }
                    assert(order@.push(dependent).take(head as int) =~= order@.take(head as int));
                }
                order.push(dependent);
            }
            proof {
                assert forall|x: usize| #![trigger order@.contains(x)] x < n implies (order@.contains(x) <==> in_degree@[x as int] == 0) by {
                    if x != dependent {
                        assert(in_degree@[x as int] == deg_before[x as int]);
                        if before.contains(x) {
                            let q = choose|q: int| 0 <= q < before.len() && before[q] == x;
                            assert(order@[q] == x);
                        }
                        if order@.contains(x) {
                            let q = choose|q: int| 0 <= q < order@.len() && order@[q] == x;
                            assert(q < before.len());
                            assert(before[q] == x);
                        }
                    } else if in_degree@[x as int] == 0 {
                        assert(order@[before.len() as int] == x);
                    } else {
                        assert(order@ == before);
                    }
                }
            }
        }
        proof {
            assert(dnts[idx as int].take(m as int) =~= dnts[idx as int]);
            lemma_distinct_below(order@, n);
        }
    }
    assert(order@ == kahn);
    if order.len() == n {
        assert(order@.len() == n);
        assert(order@.no_duplicates());
        assert(forall|p: int| 0 <= p < order@.len() ==> (#[trigger] order@[p]) < n);
        return Ok(order);
    }
    let mut stuck: Vec<usize> = Vec::new();
    for i in 0..n
        invariant
            deps == edge_views(dependencies@),
            deps.len() == n,
            in_degree@.len() == n,
            forall|x: int| 0 <= x < n ==> #[trigger] in_degree@[x] == remaining(deps[x], done),
            forall|x: usize| x < n ==> (order@.contains(x) <==> in_degree@[x as int] == 0),
            forall|p: int| 0 <= p < stuck@.len() ==> (#[trigger] stuck@[p]) < i,
            forall|p: int, q: int| 0 <= p < q < stuck@.len() ==> stuck@[p] < stuck@[q],
            forall|x: usize| x < n ==> (stuck@.contains(x) <==> (x < i && in_degree@[x as int] > 0)),
            stuck@ == left_out(order@, i as int),
    {
        if in_degree[i] > 0 {
            proof {
                assert forall|x: usize| #![trigger stuck@.push(i).contains(x)] x < n implies (stuck@.push(i).contains(x) <==> (x < i + 1 && in_degree@[x as int] > 0)) by {
                    if stuck@.push(i).contains(x) && x != i {
                        let q = choose|q: int| 0 <= q < stuck@.push(i).len() && stuck@.push(i)[q] == x;
                        assert(stuck@[q] == x);
                    }
                    if stuck@.contains(x) {
                        let q = choose|q: int| 0 <= q < stuck@.len() && stuck@[q] == x;
                        assert(stuck@.push(i)[q] == x);
                    }
                    if x == i {
                        assert(stuck@.push(i)[stuck@.len() as int] == i);
                    }
                }
            }
            stuck.push(i);
        }
    }
    proof {
        assert(order@.take(head as int) =~= order@);
        lemma_stuck_set(stuck@, order@, in_degree@, deps, done, n);
    }
    Err(stuck)
}

} // verus!

verus! {

/// `set` holds every dependency of its members.
pub open spec fn closed_under(set: Set<usize>, dependencies: Seq<Seq<usize>>, n: nat) -> bool {
    forall|i: usize, k: int|
        i < n && set.contains(i) && 0 <= k < dependencies[i as int].len() ==> set.contains(
            #[trigger] dependencies[i as int][k],
        )
}

/// `set` holds every start node and every dependency of its members.
pub open spec fn covers(set: Set<usize>, start: Seq<usize>, dependencies: Seq<Seq<usize>>, n: nat) -> bool {
    &&& forall|p: int| 0 <= p < start.len() ==> set.contains(#[trigger] start[p])
    &&& closed_under(set, dependencies, n)
}

/// The members of a flag table.
pub open spec fn flagged(flags: Seq<bool>) -> Set<usize> {
    Set::new(|i: usize| i < flags.len() && flags[i as int])
}

/// `flags` marks exactly the nodes the start nodes need: the start nodes and,
/// transitively, their dependencies, and nothing else.
pub open spec fn is_closure(flags: Seq<bool>, start: Seq<usize>, dependencies: Seq<Seq<usize>>, n: nat) -> bool {
    &&& flags.len() == n
    &&& covers(flagged(flags), start, dependencies, n)
    &&& forall|set: Set<usize>| #[trigger] covers(set, start, dependencies, n) ==> flagged(flags).subset_of(set)
}

/// How many flags are set.
pub open spec fn count_set(flags: Seq<bool>) -> nat
    decreases flags.len(),
{
    if flags.len() == 0 {
        0
    } else {
        count_set(flags.drop_last()) + if flags.last() { 1nat } else { 0nat }
    }
}

pub proof fn lemma_count_set_update(flags: Seq<bool>, i: int)
    requires
        0 <= i < flags.len(),
        !flags[i],
    ensures
        count_set(flags.update(i, true)) == count_set(flags) + 1,
        count_set(flags) < flags.len(),
    decreases flags.len(),
{
    if i < flags.len() - 1 {
        lemma_count_set_update(flags.drop_last(), i);
        assert(flags.update(i, true).drop_last() =~= flags.drop_last().update(i, true));
    } else {
        assert(flags.update(i, true).drop_last() =~= flags.drop_last());
        lemma_count_set_bound(flags.drop_last());
    }
}

pub proof fn lemma_count_set_bound(flags: Seq<bool>)
    ensures
        count_set(flags) <= flags.len(),
    decreases flags.len(),
{
    if flags.len() > 0 {
        lemma_count_set_bound(flags.drop_last());
    }
}

/// The nodes the start nodes need, directly or through dependencies.
pub fn dependency_closure(n: usize, dependencies: &Vec<Vec<usize>>, start: &Vec<usize>) -> (r: Vec<bool>)
    requires
        edges_in_range(edge_views(dependencies@), n as nat),
        forall|p: int| 0 <= p < start@.len() ==> (#[trigger] start@[p]) < n,
    ensures
        is_closure(r@, start@, edge_views(dependencies@), n as nat),
{
    let ghost deps = edge_views(dependencies@);
    let mut desired: Vec<bool> = Vec::new();
    for i in 0..n
        invariant
            desired@.len() == i,
            forall|x: int| 0 <= x < i ==> !desired@[x],
    {
        desired.push(false);
    }
    let mut stack: Vec<usize> = start.clone();
    proof {
        lemma_count_set_bound(desired@);
        assert forall|set: Set<usize>| #[trigger] covers(set, start@, deps, n as nat) implies
            flagged(desired@).subset_of(set) && forall|p: int| 0 <= p < stack@.len() ==> set.contains(#[trigger] stack@[p]) by {
        }
    }
    while stack.len() > 0
        invariant
            deps == edge_views(dependencies@),
            edges_in_range(deps, n as nat),
            desired@.len() == n,
            forall|p: int| 0 <= p < stack@.len() ==> (#[trigger] stack@[p]) < n,
            forall|p: int| 0 <= p < start@.len() ==> (#[trigger] start@[p]) < n,
            forall|p: int| 0 <= p < start@.len() ==> desired@[#[trigger] start@[p] as int] || stack@.contains(start@[p]),
            forall|i: usize, k: int|
                i < n && desired@[i as int] && 0 <= k < deps[i as int].len() ==> desired@[#[trigger] deps[i as int][k] as int]
                    || stack@.contains(deps[i as int][k]),
            forall|set: Set<usize>| #[trigger] covers(set, start@, deps, n as nat) ==>
                flagged(desired@).subset_of(set) && forall|p: int| 0 <= p < stack@.len() ==> set.contains(#[trigger] stack@[p]),
            count_set(desired@) <= n,
        decreases n - count_set(desired@), stack@.len(),
    {
        let ghost before = stack@;
        let idx = stack.pop().unwrap();
        assert(before == stack@.push(idx));
        assert(before[before.len() - 1] == idx);
        if !desired[idx] {
            let ghost old_desired = desired@;
            proof {
                lemma_count_set_update(desired@, idx as int);
            }
            desired.set(idx, true);
            assert(deps[idx as int] == dependencies@[idx as int]@);
            let ghost mid = stack@;
            let m = dependencies[idx].len();
            for k in 0..m
                invariant
                    deps == edge_views(dependencies@),
                    edges_in_range(deps, n as nat),
                    idx < n,
                    m == deps[idx as int].len(),
                    stack@.len() == mid.len() + k,
                    stack@.subrange(0, mid.len() as int) == mid,
                    forall|q: int| 0 <= q < k ==> stack@[mid.len() + q] == #[trigger] deps[idx as int][q],
                    forall|p: int| 0 <= p < stack@.len() ==> (#[trigger] stack@[p]) < n,
            {
                assert(deps[idx as int] == dependencies@[idx as int]@);
                stack.push(dependencies[idx][k]);
                assert(stack@.subrange(0, mid.len() as int) =~= mid);
            }
            proof {
                assert forall|x: usize| #![trigger stack@.contains(x)] mid.contains(x) implies stack@.contains(x) by {
                    let q = choose|q: int| 0 <= q < mid.len() && mid[q] == x;
                    assert(stack@.subrange(0, mid.len() as int)[q] == x);
                }
                assert forall|k: int| 0 <= k < deps[idx as int].len() implies stack@.contains(#[trigger] deps[idx as int][k]) by {
                    assert(stack@[mid.len() + k] == deps[idx as int][k]);
                }
                assert forall|p: int| 0 <= p < start@.len() implies desired@[#[trigger] start@[p] as int] || stack@.contains(start@[p]) by {
                    if before.contains(start@[p]) && start@[p] != idx {
                        let q = choose|q: int| 0 <= q < before.len() && before[q] == start@[p];
                        assert(mid[q] == start@[p]);
                    }
                }
                assert forall|i: usize, k: int|
                    i < n && desired@[i as int] && 0 <= k < deps[i as int].len() implies desired@[#[trigger] deps[i as int][k] as int]
                        || stack@.contains(deps[i as int][k]) by {
                    if i != idx {
                        let d = deps[i as int][k];
                        assert(old_desired[i as int]);
                        if before.contains(d) && d != idx {
                            let q = choose|q: int| 0 <= q < before.len() && before[q] == d;
                            assert(mid[q] == d);
                        }
                    }
                }
                assert forall|set: Set<usize>| #[trigger] covers(set, start@, deps, n as nat) implies
                    flagged(desired@).subset_of(set) && forall|p: int| 0 <= p < stack@.len() ==> set.contains(#[trigger] stack@[p]) by {
                    assert(set.contains(idx));
                    assert(flagged(old_desired).subset_of(set));
                    assert forall|p: int| 0 <= p < stack@.len() implies set.contains(#[trigger] stack@[p]) by {
                        if p < mid.len() {
                            assert(stack@[p] == mid[p]);
                            assert(before[p] == mid[p]);
                        } else {
                            assert(stack@[p] == deps[idx as int][p - mid.len()]);
                        }
                    }
                }
            }
        } else {
            proof {
                assert forall|p: int| 0 <= p < start@.len() implies desired@[#[trigger] start@[p] as int] || stack@.contains(start@[p]) by {
                    if before.contains(start@[p]) && start@[p] != idx {
                        let q = choose|q: int| 0 <= q < before.len() && before[q] == start@[p];
                        assert(stack@[q] == start@[p]);
                    }
                }
                assert forall|i: usize, k: int|
                    i < n && desired@[i as int] && 0 <= k < deps[i as int].len() implies desired@[#[trigger] deps[i as int][k] as int]
                        || stack@.contains(deps[i as int][k]) by {
                    let d = deps[i as int][k];
                    if before.contains(d) && d != idx {
                        let q = choose|q: int| 0 <= q < before.len() && before[q] == d;
                        assert(stack@[q] == d);
                    }
                }
                assert forall|set: Set<usize>| #[trigger] covers(set, start@, deps, n as nat) implies
                    flagged(desired@).subset_of(set) && forall|p: int| 0 <= p < stack@.len() ==> set.contains(#[trigger] stack@[p]) by {
                    assert forall|p: int| 0 <= p < stack@.len() implies set.contains(#[trigger] stack@[p]) by {
                        assert(stack@[p] == before[p]);
                    }
                }
            }
        }
    }
    proof {
        assert forall|p: int| 0 <= p < start@.len() implies flagged(desired@).contains(#[trigger] start@[p]) by {
            assert(desired@[start@[p] as int]);
        }
        assert forall|i: usize, k: int|
            i < n && flagged(desired@).contains(i) && 0 <= k < deps[i as int].len() implies flagged(desired@).contains(
                #[trigger] deps[i as int][k],
            ) by {
            assert(desired@[deps[i as int][k] as int]);
        }
    }
    desired
}


/// `s` never decreases.
pub open spec fn ascending(s: Seq<usize>) -> bool {
    forall|p: int, q: int| 0 <= p < q < s.len() ==> s[p] <= s[q]
}

proof fn lemma_occurrences_zero(s: Seq<usize>, x: usize)
    requires
        forall|p: int| 0 <= p < s.len() ==> s[p] != x,
    ensures
        occurrences(s, x) == 0,
    decreases s.len(),
{
    if s.len() > 0 {
        lemma_occurrences_zero(s.drop_last(), x);
    }
}

/// For each of the `n` nodes, the nodes depending on it, in ascending order
/// and as often as each lists the dependency.
pub fn dependents_of(n: usize, dependencies: &Vec<Vec<usize>>) -> (r: Vec<Vec<usize>>)
    requires
        edges_in_range(edge_views(dependencies@), n as nat),
    ensures
        transposed(edge_views(dependencies@), edge_views(r@), n as nat),
        forall|j: int| 0 <= j < n ==> ascending(#[trigger] r@[j]@),
{
    let ghost deps = edge_views(dependencies@);
    let mut r: Vec<Vec<usize>> = Vec::new();
    for j in 0..n
        invariant
            r@.len() == j,
            forall|x: int| 0 <= x < j ==> (#[trigger] r@[x])@.len() == 0,
    {
        r.push(Vec::new());
    }
    for i in 0..n
        invariant
            deps == edge_views(dependencies@),
            edges_in_range(deps, n as nat),
            r@.len() == n,
            forall|j: int, p: int| 0 <= j < n && 0 <= p < r@[j]@.len() ==> (#[trigger] r@[j]@[p]) < i,
            forall|j: int| 0 <= j < n ==> ascending(#[trigger] r@[j]@),
            forall|j: usize, x: usize|
                #![trigger occurrences(r@[j as int]@, x)]
                j < n && x < n ==> occurrences(r@[j as int]@, x) == if x < i {
                    occurrences(deps[x as int], j)
                } else {
                    0
                },
    {
        let m = dependencies[i].len();
        assert(deps[i as int] == dependencies@[i as int]@);
        assert(deps[i as int].take(0) =~= Seq::<usize>::empty());
        for k in 0..m
            invariant
                deps == edge_views(dependencies@),
                edges_in_range(deps, n as nat),
                i < n,
                m == deps[i as int].len(),
                r@.len() == n,
                forall|j: int, p: int| 0 <= j < n && 0 <= p < r@[j]@.len() ==> (#[trigger] r@[j]@[p]) <= i,
                forall|j: int| 0 <= j < n ==> ascending(#[trigger] r@[j]@),
                forall|j: usize, x: usize|
                    #![trigger occurrences(r@[j as int]@, x)]
                    j < n && x < n ==> occurrences(r@[j as int]@, x) == if x < i {
                        occurrences(deps[x as int], j)
                    } else if x == i {
                        occurrences(deps[i as int].take(k as int), j)
                    } else {
                        0
                    },
        {
            let j = dependencies[i][k];
            assert(j == deps[i as int][k as int]);
            let ghost before = r@;
            r[j].push(i);
            proof {
                assert(r@ == before.update(j as int, r@[j as int]));
                assert(r@[j as int]@ == before[j as int]@.push(i));
                assert forall|jj: usize, x: usize| jj < n && x < n implies #[trigger] occurrences(r@[jj as int]@, x) == if x < i {
                    occurrences(deps[x as int], jj)
                } else if x == i {
                    occurrences(deps[i as int].take(k + 1), jj)
                } else {
                    0
                } by {
                    lemma_occurrences_take(deps[i as int], k as int, jj);
                    assert(occurrences(before[jj as int]@, x) == if x < i {
                        occurrences(deps[x as int], jj)
                    } else if x == i {
                        occurrences(deps[i as int].take(k as int), jj)
                    } else {
                        0
                    });
                    if jj == j {
                        lemma_occurrences_push(before[j as int]@, i, x);
                    } else {
                        assert(r@[jj as int] == before[jj as int]);
                    }
                }
                assert forall|jj: int, p: int| 0 <= jj < n && 0 <= p < r@[jj]@.len() implies (#[trigger] r@[jj]@[p]) <= i by {
                    if jj == j && p < before[jj]@.len() {
                        assert(r@[jj]@[p] == before[jj]@[p]);
                    }
                }
                assert forall|jj: int| 0 <= jj < n implies ascending(#[trigger] r@[jj]@) by {
                    if jj == j {
                        assert forall|p: int, q: int| 0 <= p < q < r@[jj]@.len() implies r@[jj]@[p] <= r@[jj]@[q] by {
                            if q < before[jj]@.len() {
                                assert(r@[jj]@[p] == before[jj]@[p]);
                                assert(r@[jj]@[q] == before[jj]@[q]);
                                assert(before[jj]@[p] <= before[jj]@[q]);
                            } else {
                                assert(r@[jj]@[p] == before[jj]@[p]);
                                assert(before[jj]@[p] <= i);
                            }
                        }
                    }
                }
            }
        }
        proof {
            assert(deps[i as int].take(m as int) =~= deps[i as int]);
            assert forall|j: int, p: int| 0 <= j < n && 0 <= p < r@[j]@.len() implies (#[trigger] r@[j]@[p]) < i + 1 by {
            }
        }
    }
    proof {
        let dn = edge_views(r@);
        assert forall|j: int, p: int| 0 <= j < n && 0 <= p < dn[j].len() implies (#[trigger] dn[j][p]) < n by {
            assert(dn[j] == r@[j]@);
        }
        assert forall|i: usize, j: usize| i < n && j < n implies occurrences(#[trigger] dn[j as int], i) == occurrences(
            #[trigger] deps[i as int],
            j,
        ) by {
            assert(dn[j as int] == r@[j as int]@);
        }
        assert forall|j: int| 0 <= j < n implies ascending(#[trigger] r@[j]@) by {}
    }
    r
}


/// A run order holds every node.
pub proof fn lemma_order_holds_all(order: Seq<usize>, dependencies: Seq<Seq<usize>>, n: usize)
    requires
        is_topological(order, dependencies, n as nat),
    ensures
        forall|x: usize| x < n ==> order.contains(x),
{
    assert forall|x: usize| x < n implies order.contains(x) by {
        if !order.contains(x) {
            let longer = order.push(x);
            assert(longer.no_duplicates()) by {
                assert forall|i: int, j: int| 0 <= i < j < longer.len() implies longer[i] != longer[j] by {
                    if j == order.len() {
                        assert(order.contains(order[i]));
                    }
                }
            }
            lemma_distinct_below(longer, n);
        }
    }
}

/// No node of a stuck set runs among the first `q` entries of a run order.
proof fn lemma_stuck_never_runs(stuck: Seq<usize>, order: Seq<usize>, dependencies: Seq<Seq<usize>>, n: nat, q: int)
    requires
        is_stuck_set(stuck, dependencies, n),
        is_topological(order, dependencies, n),
        0 <= q <= order.len(),
    ensures
        forall|p: int| 0 <= p < q ==> !stuck.contains(#[trigger] order[p]),
    decreases q,
{
    if q > 0 {
        lemma_stuck_never_runs(stuck, order, dependencies, n, q - 1);
        let y = order[q - 1];
        if stuck.contains(y) {
            let i = choose|i: int| 0 <= i < stuck.len() && stuck[i] == y;
            assert(waits_within(stuck, dependencies, stuck[i]));
            let k = choose|k: int|
                0 <= k < dependencies[y as int].len() && stuck.contains(#[trigger] dependencies[y as int][k]);
            let d = dependencies[y as int][k];
            let t = order.take(q - 1);
            assert(t.contains(d));
            let p = choose|p: int| 0 <= p < t.len() && #[trigger] t[p] == d;
            assert(order[p] == d);
        }
    }
}

/// A dependency cycle rules out any run order: when `topological_order`
/// reports the nodes that could never run, no order of all nodes exists.
pub proof fn lemma_stuck_means_no_order(stuck: Seq<usize>, dependencies: Seq<Seq<usize>>, n: usize, order: Seq<usize>)
    requires
        is_stuck_set(stuck, dependencies, n as nat),
    ensures
        !is_topological(order, dependencies, n as nat),
{
    if is_topological(order, dependencies, n as nat) {
        lemma_order_holds_all(order, dependencies, n);
        lemma_stuck_never_runs(stuck, order, dependencies, n as nat, order.len() as int);
        let x = stuck[0];
        assert(order.contains(x));
        let p = choose|p: int| 0 <= p < order.len() && order[p] == x;
        assert(stuck.contains(order[p]));
    }
}

} // verus!
