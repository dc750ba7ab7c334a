//! The dependency graph of one bundle's patches, identified by their IDs.

use vstd::prelude::*;
use crate::error::PatcherError;
use crate::graph::{
    ascending, dependents_of, edge_views, is_stuck_set, is_topological, kahn_order, left_out, topological_order,
    transposed,
};
use crate::patch::PatchSpec;
use crate::text::{chars_eq, chars_of};

verus! {

/// The ID of patch `i`.
pub open spec fn id_of(ps: Seq<PatchSpec>, i: int) -> Seq<char> {
    ps[i].id.0@
}

/// The IDs patch `i` depends on.
pub open spec fn dependency_ids(ps: Seq<PatchSpec>, i: int) -> Seq<Seq<char>> {
    ps[i].dependencies@.map_values(|d: crate::patch::PatchId| d.0@)
}

/// No two patches share an ID.
pub open spec fn ids_distinct(ps: Seq<PatchSpec>) -> bool {
    forall|i: int, j: int| 0 <= i < ps.len() && 0 <= j < ps.len() && i != j ==> id_of(ps, i) != id_of(ps, j)
}

/// The patch with ID `id`.
pub open spec fn find_id(ps: Seq<PatchSpec>, id: Seq<char>) -> Option<int> {
    if exists|i: int| 0 <= i < ps.len() && #[trigger] id_of(ps, i) == id {
        Some(choose|i: int| 0 <= i < ps.len() && #[trigger] id_of(ps, i) == id)
    } else {
        None
    }
}

/// Dependency `k` of patch `i` names no patch.
pub open spec fn missing(ps: Seq<PatchSpec>, i: int, k: int) -> bool {
    find_id(ps, dependency_ids(ps, i)[k]) is None
}

/// Every dependency names a patch.
pub open spec fn dependencies_found(ps: Seq<PatchSpec>) -> bool {
    forall|i: int, k: int| 0 <= i < ps.len() && 0 <= k < dependency_ids(ps, i).len() ==> !#[trigger] missing(ps, i, k)
}

/// The dependency edges, by index.
pub open spec fn graph_edges(ps: Seq<PatchSpec>) -> Seq<Seq<usize>> {
    Seq::new(
        ps.len(),
        |i: int| dependency_ids(ps, i).map_values(|d: Seq<char>| find_id(ps, d)->0 as usize),
    )
}

/// The error for the first dependency, in patch order then declaration
/// order, that names no patch.
pub open spec fn missing_failure(e: PatcherError, ps: Seq<PatchSpec>) -> bool {
    exists|i: int, k: int|
        0 <= i < ps.len() && 0 <= k < dependency_ids(ps, i).len() && #[trigger] missing(ps, i, k) && (forall|a: int, b: int|
            0 <= a < i && 0 <= b < dependency_ids(ps, a).len() ==> !#[trigger] missing(ps, a, b)) && (forall|b: int|
            0 <= b < k ==> !#[trigger] missing(ps, i, b)) && (e matches PatcherError::MissingDependency {
            patch,
            dependency,
        } && patch@ == id_of(ps, i) && dependency@ == dependency_ids(ps, i)[k])
}

/// The dependency graph of a bundle's patches.
pub struct PatchGraph {
    ids: Vec<Vec<char>>,
    dependencies: Vec<Vec<usize>>,
    dependents: Vec<Vec<usize>>,
    order: Vec<usize>,
}

/// What a graph holds: IDs, edges in both directions, and the run order.
pub struct GraphView {
    pub ids: Seq<Seq<char>>,
    pub dependencies: Seq<Seq<usize>>,
    pub dependents: Seq<Seq<usize>>,
    pub order: Seq<usize>,
}

impl View for PatchGraph {
    type V = GraphView;

    closed spec fn view(&self) -> GraphView {
        GraphView {
            ids: crate::text::views(self.ids@),
            dependencies: edge_views(self.dependencies@),
            dependents: edge_views(self.dependents@),
            order: self.order@,
        }
    }
}

/// `g` is the graph of `ps`.
pub open spec fn graph_of(g: GraphView, ps: Seq<PatchSpec>) -> bool {
    &&& ids_distinct(ps)
    &&& dependencies_found(ps)
    &&& g.ids == Seq::new(ps.len(), |i: int| id_of(ps, i))
    &&& g.dependencies == graph_edges(ps)
    &&& transposed(g.dependencies, g.dependents, ps.len())
    &&& forall|j: int| 0 <= j < ps.len() ==> ascending(#[trigger] g.dependents[j])
    &&& is_topological(g.order, g.dependencies, ps.len())
    &&& g.order == kahn_order(g.dependencies, g.dependents, ps.len())
}

/// The error `PatchGraph::build` reports: a repeated ID first, then a
/// dependency naming no patch, then a cycle.
pub open spec fn build_failure(e: PatcherError, ps: Seq<PatchSpec>) -> bool {
    ||| !ids_distinct(ps) && (e matches PatcherError::InvalidSelection(m) && m@
        == "patch names must be unique within a bundle"@)
    ||| ids_distinct(ps) && !dependencies_found(ps) && missing_failure(e, ps)
    ||| ids_distinct(ps) && dependencies_found(ps) && !(exists|order: Seq<usize>| is_topological(order, graph_edges(ps), ps.len()))
        && (e matches PatcherError::DependencyCycle(names) && exists|dependents: Seq<Seq<usize>>|
        transposed(graph_edges(ps), dependents, ps.len()) && (forall|j: int|
            0 <= j < ps.len() ==> ascending(#[trigger] dependents[j])) && is_stuck_set(
            left_out(kahn_order(graph_edges(ps), dependents, ps.len()), ps.len() as int),
            graph_edges(ps),
            ps.len(),
        ) && crate::patch::string_views(names@) == left_out(kahn_order(graph_edges(ps), dependents, ps.len()), ps.len() as int).map_values(
            |i: usize| id_of(ps, i as int),
        ))
}

fn find_id_in(ids: &Vec<Vec<char>>, id: &[char], Ghost(ps): Ghost<Seq<PatchSpec>>) -> (r: Option<usize>)
    requires
        ids_distinct(ps),
        ids@.len() == ps.len(),
        forall|k: int| 0 <= k < ids@.len() ==> #[trigger] ids@[k]@ == id_of(ps, k),
    ensures
        match r {
            Some(i) => find_id(ps, id@) == Some(i as int) && i < ps.len(),
            None => find_id(ps, id@) is None,
        },
{
    let n = ids.len();
    for i in 0..n
        invariant
            n == ids@.len(),
            n == ps.len(),
            ids_distinct(ps),
            forall|k: int| 0 <= k < ids@.len() ==> #[trigger] ids@[k]@ == id_of(ps, k),
            forall|k: int| 0 <= k < i ==> #[trigger] id_of(ps, k) != id@,
    {
        if chars_eq(&ids[i], id) {
            proof {
                let c = choose|c: int| 0 <= c < ps.len() && #[trigger] id_of(ps, c) == id@;
                if c != i {
                    assert(id_of(ps, c) != id_of(ps, i as int));
                }
            }
            return Some(i);
        }
    }
    None
}

impl PatchGraph {
    /// The graph of `patches`, ordered so that every patch follows its
    /// dependencies.
    pub fn build(patches: &[PatchSpec]) -> (r: Result<PatchGraph, PatcherError>)
        ensures
            match r {
                Ok(g) => graph_of(g@, patches@),
                Err(e) => build_failure(e, patches@),
            },
    {
        let ghost ps = patches@;
        let n = patches.len();
        let mut ids: Vec<Vec<char>> = Vec::new();
        for i in 0..n
            invariant
                n == ps.len(),
                ps == patches@,
                ids@.len() == i,
                forall|k: int| 0 <= k < i ==> #[trigger] ids@[k]@ == id_of(ps, k),
                forall|a: int, b: int| 0 <= a < i && 0 <= b < i && a != b ==> id_of(ps, a) != id_of(ps, b),
        {
            let id = chars_of(patches[i].id.0.as_str());
            for j in 0..i
                invariant
                    n == ps.len(),
                    ps == patches@,
                    i < n,
                    ids@.len() == i,
                    id@ == id_of(ps, i as int),
                    forall|k: int| 0 <= k < i ==> #[trigger] ids@[k]@ == id_of(ps, k),
                    forall|q: int| 0 <= q < j ==> id_of(ps, q) != id_of(ps, i as int),
                    forall|a: int, b: int| 0 <= a < i && 0 <= b < i && a != b ==> id_of(ps, a) != id_of(ps, b),
            {
                if chars_eq(&ids[j], &id) {
                    assert(!ids_distinct(ps)) by {
                        assert(id_of(ps, j as int) == id_of(ps, i as int));
                    }
                    return Err(PatcherError::InvalidSelection(String::from_str("patch names must be unique within a bundle")));
                }
                assert(id_of(ps, j as int) != id_of(ps, i as int));
            }
            assert forall|a: int, b: int| 0 <= a < i + 1 && 0 <= b < i + 1 && a != b implies id_of(ps, a) != id_of(ps, b) by {
                if a == i {
                    assert(id_of(ps, b) != id_of(ps, i as int));
                } else if b == i {
                    assert(id_of(ps, a) != id_of(ps, i as int));
                }
            }
            ids.push(id);
        }
        let mut dependencies: Vec<Vec<usize>> = Vec::new();
        for i in 0..n
            invariant
                n == ps.len(),
                ps == patches@,
                ids_distinct(ps),
                ids@.len() == n,
                forall|k: int| 0 <= k < n ==> #[trigger] ids@[k]@ == id_of(ps, k),
                dependencies@.len() == i,
                forall|a: int, b: int| 0 <= a < i && 0 <= b < dependency_ids(ps, a).len() ==> !#[trigger] missing(ps, a, b),
                forall|a: int| 0 <= a < i ==> (#[trigger] dependencies@[a])@ == graph_edges(ps)[a],
                forall|a: int, b: int| 0 <= a < i && 0 <= b < dependencies@[a]@.len() ==> (#[trigger] dependencies@[a]@[b]) < n,
        {
            let ghost dv = dependency_ids(ps, i as int);
            let m = patches[i].dependencies.len();
            let mut row: Vec<usize> = Vec::new();
            for k in 0..m
                invariant
                    n == ps.len(),
                    ps == patches@,
                    i < n,
                    ids_distinct(ps),
                    ids@.len() == n,
                    forall|q: int| 0 <= q < n ==> #[trigger] ids@[q]@ == id_of(ps, q),
                    dv == dependency_ids(ps, i as int),
                    m == dv.len(),
                    row@.len() == k,
                    forall|b: int| 0 <= b < k ==> !#[trigger] missing(ps, i as int, b),
                    forall|b: int| 0 <= b < k ==> #[trigger] row@[b] == find_id(ps, dv[b])->0 as usize,
                    forall|b: int| 0 <= b < k ==> (#[trigger] row@[b]) < n,
                    forall|a: int, b: int| 0 <= a < i && 0 <= b < dependency_ids(ps, a).len() ==> !#[trigger] missing(ps, a, b),
            {
                let d = chars_of(patches[i].dependencies[k].0.as_str());
                assert(d@ == dv[k as int]);
                match find_id_in(&ids, &d, Ghost(ps)) {
                    Some(j) => {
                        row.push(j);
                    },
                    None => {
                        let e = PatcherError::MissingDependency {
                            patch: patches[i].id.0.clone(),
                            dependency: patches[i].dependencies[k].0.clone(),
                        };
                        assert(missing(ps, i as int, k as int));
                        assert(!dependencies_found(ps));
                        assert(missing_failure(e, ps));
                        return Err(e);
                    },
                }
            }
            proof {
                assert(row@ =~= graph_edges(ps)[i as int]);
            }
            dependencies.push(row);
        }
        assert(dependencies_found(ps));
        assert(edge_views(dependencies@) =~= graph_edges(ps));
        let dependents = dependents_of(n, &dependencies);
        let order = match topological_order(n, &dependencies, &dependents) {
            Ok(order) => order,
            Err(stuck) => {
                let mut names: Vec<String> = Vec::new();
                let m = stuck.len();
                for k in 0..m
                    invariant
                        m == stuck@.len(),
                        n == ps.len(),
                        ps == patches@,
                        forall|p: int| 0 <= p < stuck@.len() ==> (#[trigger] stuck@[p]) < n,
                        names@.len() == k,
                        forall|q: int| 0 <= q < k ==> #[trigger] names@[q]@ == id_of(ps, stuck@[q] as int),
                {
                    names.push(patches[stuck[k]].id.0.clone());
                }
                assert(crate::patch::string_views(names@) =~= stuck@.map_values(|i: usize| id_of(ps, i as int)));
                assert(transposed(graph_edges(ps), edge_views(dependents@), n as nat));
                assert(forall|j: int| 0 <= j < n ==> ascending(#[trigger] edge_views(dependents@)[j]));
                proof {
                    assert forall|o: Seq<usize>| !is_topological(o, graph_edges(ps), n as nat) by {
                        crate::graph::lemma_stuck_means_no_order(stuck@, graph_edges(ps), n, o);
                    }
                }
                return Err(PatcherError::DependencyCycle(names));
            },
        };
        let g = PatchGraph { ids, dependencies, dependents, order };
        assert(g@.ids =~= Seq::new(ps.len(), |i: int| id_of(ps, i)));
        Ok(g)
    }

    /// The index of the patch with ID `patch_id`.
    pub fn index_of(&self, patch_id: &str) -> (r: Option<usize>)
        ensures
            match r {
                Some(i) => i < self@.ids.len() && self@.ids[i as int] == patch_id@ && forall|j: int|
                    0 <= j < i ==> self@.ids[j] != patch_id@,
                None => forall|j: int| 0 <= j < self@.ids.len() ==> self@.ids[j] != patch_id@,
            },
    {
        let id = chars_of(patch_id);
        let n = self.ids.len();
        for i in 0..n
            invariant
                n == self.ids@.len(),
                self@.ids == crate::text::views(self.ids@),
                forall|j: int| 0 <= j < i ==> self@.ids[j] != patch_id@,
                id@ == patch_id@,
        {
            if chars_eq(&self.ids[i], &id) {
                return Some(i);
            }
        }
        None
    }

    /// Patch indices, each after its dependencies.
    pub fn order(&self) -> (r: &Vec<usize>)
        ensures
            r@ == self@.order,
    {
        &self.order
    }

    /// The patches `idx` depends on.
    pub fn dependencies(&self, idx: usize) -> (r: &Vec<usize>)
        requires
            idx < self@.dependencies.len(),
        ensures
            r@ == self@.dependencies[idx as int],
    {
        &self.dependencies[idx]
    }

    /// The patches depending on `idx`.
    pub fn dependents(&self, idx: usize) -> (r: &Vec<usize>)
        requires
            idx < self@.dependents.len(),
        ensures
            r@ == self@.dependents[idx as int],
    {
        &self.dependents[idx]
    }
}

/// The order the patches run in.
pub fn sort_patches(patches: &[PatchSpec]) -> (r: Result<Vec<usize>, PatcherError>)
    ensures
        match r {
            Ok(order) => ids_distinct(patches@) && dependencies_found(patches@) && is_topological(
                order@,
                graph_edges(patches@),
                patches@.len() as nat,
            ) && exists|dependents: Seq<Seq<usize>>|
                transposed(graph_edges(patches@), dependents, patches@.len() as nat) && (forall|j: int|
                    0 <= j < patches@.len() ==> ascending(#[trigger] dependents[j])) && order@ == kahn_order(
                    graph_edges(patches@),
                    dependents,
                    patches@.len() as nat,
                ),
            Err(e) => build_failure(e, patches@),
        },
{
    match PatchGraph::build(patches) {
        Ok(g) => {
            let order = g.order().clone();
            assert(transposed(graph_edges(patches@), g@.dependents, patches@.len() as nat));
            Ok(order)
        },
        Err(e) => Err(e),
    }
}

/// For each patch, the patches depending on it.
pub fn find_dependents(patches: &[PatchSpec]) -> (r: Result<Vec<Vec<usize>>, PatcherError>)
    ensures
        match r {
            Ok(d) => ids_distinct(patches@) && dependencies_found(patches@) && transposed(
                graph_edges(patches@),
                edge_views(d@),
                patches@.len() as nat,
            ) && forall|j: int| 0 <= j < patches@.len() ==> ascending(#[trigger] d@[j]@),
            Err(e) => build_failure(e, patches@),
        },
{
    match PatchGraph::build(patches) {
        Ok(g) => {
            let n = patches.len();
            let mut out: Vec<Vec<usize>> = Vec::new();
            for i in 0..n
                invariant
                    n == patches@.len(),
                    graph_of(g@, patches@),
                    out@.len() == i,
                    forall|k: int| 0 <= k < i ==> (#[trigger] out@[k])@ == g@.dependents[k],
            {
                out.push(g.dependents(i).clone());
            }
            assert(edge_views(out@) =~= g@.dependents);
            Ok(out)
        },
        Err(e) => Err(e),
    }
}

} // verus!
