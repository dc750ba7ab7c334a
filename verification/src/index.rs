//! Finding a patch among the loaded bundles by reference, identifier or
//! display name.

use vstd::prelude::*;
use crate::error::{push_lit, PatcherError};
use crate::model::{package_text, reference_of, PatchSpec};
use crate::order::{lex_le_fn, sort_texts};
use crate::patch::opt_view;
use crate::text::{chars_eq, chars_of, extend, join, join_chars, string_of, views};

verus! {

/// Patch `i` carries the same reference as an earlier one.
pub open spec fn repeats_earlier(ps: Seq<PatchSpec>, i: int) -> bool {
    exists|j: int| 0 <= j < i && reference_of(#[trigger] ps[j]) == reference_of(ps[i])
}

/// No two patches share a reference.
pub open spec fn references_distinct(ps: Seq<PatchSpec>) -> bool {
    forall|i: int, j: int|
        0 <= i < ps.len() && 0 <= j < ps.len() && i != j ==> reference_of(#[trigger] ps[i])
            != reference_of(#[trigger] ps[j])
}

/// The message for a bundle that declares a patch twice.
pub open spec fn duplicate_text(p: PatchSpec) -> Seq<char> {
    "bundle '"@ + p.bundle@ + "' declares patch '"@ + p.id@ + "' more than once"@
}

/// The patch whose reference is `sel`.
pub open spec fn find_reference(ps: Seq<PatchSpec>, sel: Seq<char>) -> Option<int> {
    if exists|i: int| 0 <= i < ps.len() && reference_of(#[trigger] ps[i]) == sel {
        Some(choose|i: int| 0 <= i < ps.len() && reference_of(#[trigger] ps[i]) == sel)
    } else {
        None
    }
}

/// The patches among the first `n` whose identifier is `sel`, ascending.
pub open spec fn with_id(ps: Seq<PatchSpec>, sel: Seq<char>, n: int) -> Seq<usize>
    decreases n,
{
    if n <= 0 {
        Seq::empty()
    } else if ps[n - 1].id@ == sel {
        with_id(ps, sel, n - 1).push((n - 1) as usize)
    } else {
        with_id(ps, sel, n - 1)
    }
}

/// The visible patches among the first `n` whose display name is `sel`.
pub open spec fn with_name(ps: Seq<PatchSpec>, sel: Seq<char>, n: int) -> Seq<usize>
    decreases n,
{
    if n <= 0 {
        Seq::empty()
    } else if !ps[n - 1].hidden && ps[n - 1].name@ == sel {
        with_name(ps, sel, n - 1).push((n - 1) as usize)
    } else {
        with_name(ps, sel, n - 1)
    }
}

/// The patches `sel` names: those with that identifier, else the visible
/// ones with that display name.
pub open spec fn named(ps: Seq<PatchSpec>, sel: Seq<char>) -> Seq<usize> {
    if with_id(ps, sel, ps.len() as int).len() > 0 {
        with_id(ps, sel, ps.len() as int)
    } else {
        with_name(ps, sel, ps.len() as int)
    }
}

/// The members of `idx` whose patch supports `package`.
pub open spec fn supporting(ps: Seq<PatchSpec>, idx: Seq<usize>, package: Option<Seq<char>>) -> Seq<usize>
    decreases idx.len(),
{
    if idx.len() == 0 {
        idx
    } else if package_text(ps[idx.last() as int], package) is None {
        supporting(ps, idx.drop_last(), package).push(idx.last())
    } else {
        supporting(ps, idx.drop_last(), package)
    }
}

/// The patches a bare name may mean: the named ones supporting the target
/// package or, when none does, all of them.
pub open spec fn candidates(ps: Seq<PatchSpec>, sel: Seq<char>, package: Option<Seq<char>>) -> Seq<usize> {
    if supporting(ps, named(ps, sel), package).len() > 0 {
        supporting(ps, named(ps, sel), package)
    } else {
        named(ps, sel)
    }
}

/// The references of the patches at `idx`.
pub open spec fn references_at(ps: Seq<PatchSpec>, idx: Seq<usize>) -> Seq<Seq<char>> {
    idx.map_values(|i: usize| reference_of(ps[i as int]))
}

/// The message for a name that several patches answer to.
pub open spec fn ambiguity_text(ps: Seq<PatchSpec>, sel: Seq<char>, idx: Seq<usize>) -> Seq<char> {
    "patch '"@ + sel + "' is ambiguous; select one of: "@ + join(
        references_at(ps, idx).sort_by(lex_le_fn()),
        ", "@,
    )
}

/// The patch `sel` selects: the one with that reference, else the only
/// candidate.
pub open spec fn resolution(ps: Seq<PatchSpec>, sel: Seq<char>, package: Option<Seq<char>>) -> Option<usize> {
    match find_reference(ps, sel) {
        Some(i) => Some(i as usize),
        None => if candidates(ps, sel, package).len() == 1 {
            Some(candidates(ps, sel, package)[0])
        } else {
            None
        },
    }
}

/// The error for a selector that selects no single patch.
pub open spec fn resolution_failure(e: PatcherError, ps: Seq<PatchSpec>, sel: Seq<char>, package: Option<Seq<char>>) -> bool {
    if named(ps, sel).len() == 0 {
        e matches PatcherError::UnknownPatch(s) && s@ == sel
    } else {
        e matches PatcherError::InvalidSelection(m) && m@ == ambiguity_text(
            ps,
            sel,
            candidates(ps, sel, package),
        )
    }
}

proof fn lemma_with_id_bounded(ps: Seq<PatchSpec>, sel: Seq<char>, n: int)
    requires
        n <= ps.len(),
        n <= usize::MAX,
    ensures
        forall|k: int| 0 <= k < with_id(ps, sel, n).len() ==> (#[trigger] with_id(ps, sel, n)[k]) < n,
    decreases n,
{
    if n > 0 {
        lemma_with_id_bounded(ps, sel, n - 1);
        let prev = with_id(ps, sel, n - 1);
        assert forall|k: int| 0 <= k < with_id(ps, sel, n).len() implies (#[trigger] with_id(ps, sel, n)[k]) < n by {
            if k < prev.len() {
                assert(with_id(ps, sel, n)[k] == prev[k]);
            }
        }
    }
}

proof fn lemma_with_name_bounded(ps: Seq<PatchSpec>, sel: Seq<char>, n: int)
    requires
        n <= ps.len(),
        n <= usize::MAX,
    ensures
        forall|k: int| 0 <= k < with_name(ps, sel, n).len() ==> (#[trigger] with_name(ps, sel, n)[k]) < n,
    decreases n,
{
    if n > 0 {
        lemma_with_name_bounded(ps, sel, n - 1);
        let prev = with_name(ps, sel, n - 1);
        assert forall|k: int| 0 <= k < with_name(ps, sel, n).len() implies (#[trigger] with_name(ps, sel, n)[k]) < n by {
            if k < prev.len() {
                assert(with_name(ps, sel, n)[k] == prev[k]);
            }
        }
    }
}

proof fn lemma_supporting_subset(ps: Seq<PatchSpec>, idx: Seq<usize>, package: Option<Seq<char>>, bound: int)
    requires
        forall|k: int| 0 <= k < idx.len() ==> (#[trigger] idx[k]) < bound,
    ensures
        forall|k: int| 0 <= k < supporting(ps, idx, package).len() ==> (#[trigger] supporting(ps, idx, package)[k]) < bound,
    decreases idx.len(),
{
    if idx.len() > 0 {
        lemma_supporting_subset(ps, idx.drop_last(), package, bound);
        let prev = supporting(ps, idx.drop_last(), package);
        assert forall|k: int| 0 <= k < supporting(ps, idx, package).len() implies (#[trigger] supporting(ps, idx, package)[k]) < bound by {
            if k < prev.len() {
                assert(supporting(ps, idx, package)[k] == prev[k]);
            } else {
                assert(idx[idx.len() - 1] < bound);
            }
        }
    }
}

/// Every candidate is a patch index.
pub proof fn lemma_candidates_in_range(ps: Seq<PatchSpec>, sel: Seq<char>, package: Option<Seq<char>>)
    requires
        ps.len() <= usize::MAX,
    ensures
        forall|k: int| 0 <= k < candidates(ps, sel, package).len() ==> (#[trigger] candidates(ps, sel, package)[k]) < ps.len(),
{
    lemma_with_id_bounded(ps, sel, ps.len() as int);
    lemma_with_name_bounded(ps, sel, ps.len() as int);
    lemma_supporting_subset(ps, named(ps, sel), package, ps.len() as int);
}

/// A selector only ever selects one of the patches.
pub proof fn lemma_resolution_in_range(ps: Seq<PatchSpec>, sel: Seq<char>, package: Option<Seq<char>>)
    requires
        ps.len() <= usize::MAX,
    ensures
        resolution(ps, sel, package) is Some ==> resolution(ps, sel, package)->0 < ps.len(),
{
    lemma_candidates_in_range(ps, sel, package);
}

/// A patch's reference always selects that patch, whatever the package.
pub proof fn lemma_reference_selects(ps: Seq<PatchSpec>, i: int, package: Option<Seq<char>>)
    requires
        references_distinct(ps),
        0 <= i < ps.len(),
        ps.len() <= usize::MAX,
    ensures
        resolution(ps, reference_of(ps[i]), package) == Some(i as usize),
{
    let sel = reference_of(ps[i]);
    assert(exists|j: int| 0 <= j < ps.len() && reference_of(#[trigger] ps[j]) == sel);
    let c = choose|j: int| 0 <= j < ps.len() && reference_of(#[trigger] ps[j]) == sel;
    if c != i {
        assert(reference_of(ps[c]) != reference_of(ps[i]));
    }
}

/// A bare selector names patch `i`: by identifier when some patch has that
/// identifier, else by display name when the patch is visible.
pub open spec fn names_patch(ps: Seq<PatchSpec>, sel: Seq<char>, i: int) -> bool {
    if exists|j: int| 0 <= j < ps.len() && (#[trigger] ps[j]).id@ == sel {
        ps[i].id@ == sel
    } else {
        !ps[i].hidden && ps[i].name@ == sel
    }
}

/// The members of `s` come in increasing order.
spec fn ascending(s: Seq<usize>) -> bool {
    forall|a: int, b: int| 0 <= a < b < s.len() ==> s[a] < s[b]
}

proof fn lemma_with_id_members(ps: Seq<PatchSpec>, sel: Seq<char>, n: int)
    requires
        0 <= n <= ps.len(),
        n <= usize::MAX,
    ensures
        ascending(with_id(ps, sel, n)),
        forall|k: int| 0 <= k < with_id(ps, sel, n).len() ==> (#[trigger] with_id(ps, sel, n)[k]) < n
            && ps[with_id(ps, sel, n)[k] as int].id@ == sel,
        forall|j: int| 0 <= j < n && ps[j].id@ == sel ==> #[trigger] with_id(ps, sel, n).contains(j as usize),
    decreases n,
{
    if n > 0 {
        lemma_with_id_members(ps, sel, n - 1);
        let prev = with_id(ps, sel, n - 1);
        let cur = with_id(ps, sel, n);
        assert forall|k: int| 0 <= k < cur.len() implies (#[trigger] cur[k]) < n && ps[cur[k] as int].id@ == sel by {
            if k < prev.len() {
                assert(cur[k] == prev[k]);
            }
        }
        assert forall|j: int| 0 <= j < n && ps[j].id@ == sel implies #[trigger] cur.contains(j as usize) by {
            if j < n - 1 {
                assert(prev.contains(j as usize));
                let k = choose|k: int| 0 <= k < prev.len() && prev[k] == j as usize;
                assert(cur[k] == prev[k]);
            } else {
                assert(cur[cur.len() - 1] == j as usize);
            }
        }
        assert forall|a: int, b: int| 0 <= a < b < cur.len() implies cur[a] < cur[b] by {
            if b < prev.len() {
                assert(cur[a] == prev[a] && cur[b] == prev[b]);
            } else {
                assert(cur[a] == prev[a]);
                assert(prev[a] < n - 1);
            }
        }
    }
}

proof fn lemma_with_name_members(ps: Seq<PatchSpec>, sel: Seq<char>, n: int)
    requires
        0 <= n <= ps.len(),
        n <= usize::MAX,
    ensures
        ascending(with_name(ps, sel, n)),
        forall|k: int| 0 <= k < with_name(ps, sel, n).len() ==> (#[trigger] with_name(ps, sel, n)[k]) < n
            && !ps[with_name(ps, sel, n)[k] as int].hidden && ps[with_name(ps, sel, n)[k] as int].name@ == sel,
        forall|j: int| 0 <= j < n && !ps[j].hidden && ps[j].name@ == sel ==> #[trigger] with_name(ps, sel, n).contains(j as usize),
    decreases n,
{
    if n > 0 {
        lemma_with_name_members(ps, sel, n - 1);
        let prev = with_name(ps, sel, n - 1);
        let cur = with_name(ps, sel, n);
        assert forall|k: int| 0 <= k < cur.len() implies (#[trigger] cur[k]) < n && !ps[cur[k] as int].hidden
            && ps[cur[k] as int].name@ == sel by {
            if k < prev.len() {
                assert(cur[k] == prev[k]);
            }
        }
        assert forall|j: int| 0 <= j < n && !ps[j].hidden && ps[j].name@ == sel implies #[trigger] cur.contains(j as usize) by {
            if j < n - 1 {
                assert(prev.contains(j as usize));
                let k = choose|k: int| 0 <= k < prev.len() && prev[k] == j as usize;
                assert(cur[k] == prev[k]);
            } else {
                assert(cur[cur.len() - 1] == j as usize);
            }
        }
        assert forall|a: int, b: int| 0 <= a < b < cur.len() implies cur[a] < cur[b] by {
            if b < prev.len() {
                assert(cur[a] == prev[a] && cur[b] == prev[b]);
            } else {
                assert(cur[a] == prev[a]);
                assert(prev[a] < n - 1);
            }
        }
    }
}

proof fn lemma_supporting_members(ps: Seq<PatchSpec>, idx: Seq<usize>, package: Option<Seq<char>>)
    ensures
        ascending(idx) ==> ascending(supporting(ps, idx, package)),
        forall|k: int| 0 <= k < supporting(ps, idx, package).len() ==> idx.contains(#[trigger] supporting(ps, idx, package)[k])
            && package_text(ps[supporting(ps, idx, package)[k] as int], package) is None,
        forall|x: usize| idx.contains(x) && package_text(ps[x as int], package) is None ==> #[trigger] supporting(ps, idx, package).contains(x),
    decreases idx.len(),
{
    if idx.len() > 0 {
        let init = idx.drop_last();
        lemma_supporting_members(ps, init, package);
        let prev = supporting(ps, init, package);
        let cur = supporting(ps, idx, package);
        assert forall|k: int| 0 <= k < cur.len() implies idx.contains(#[trigger] cur[k])
            && package_text(ps[cur[k] as int], package) is None by {
            if k < prev.len() {
                assert(cur[k] == prev[k]);
                let q = choose|q: int| 0 <= q < init.len() && init[q] == prev[k];
                assert(idx[q] == init[q]);
            } else {
                assert(cur[k] == idx.last());
                assert(idx[idx.len() - 1] == idx.last());
            }
        }
        assert forall|x: usize| idx.contains(x) && package_text(ps[x as int], package) is None implies #[trigger] cur.contains(x) by {
            let q = choose|q: int| 0 <= q < idx.len() && idx[q] == x;
            if q < idx.len() - 1 {
                assert(init[q] == x);
                assert(init.contains(x));
                assert(prev.contains(x));
                let k = choose|k: int| 0 <= k < prev.len() && prev[k] == x;
                assert(cur[k] == prev[k]);
            } else {
                assert(cur[cur.len() - 1] == x);
            }
        }
        if ascending(idx) {
            assert forall|a: int, b: int| 0 <= a < b < cur.len() implies cur[a] < cur[b] by {
                if b < prev.len() {
                    assert(cur[a] == prev[a] && cur[b] == prev[b]);
                } else {
                    assert(cur[a] == prev[a]);
                    assert(init.contains(prev[a]));
                    let q = choose|q: int| 0 <= q < init.len() && init[q] == prev[a];
                    assert(idx[q] == init[q]);
                    assert(cur[b] == idx[idx.len() - 1]);
                }
            }
        }
    }
}

/// The patches `named` lists are those the selector names, in order.
proof fn lemma_named_members(ps: Seq<PatchSpec>, sel: Seq<char>)
    requires
        ps.len() <= usize::MAX,
    ensures
        ascending(named(ps, sel)),
        forall|k: int| 0 <= k < named(ps, sel).len() ==> (#[trigger] named(ps, sel)[k]) < ps.len()
            && names_patch(ps, sel, named(ps, sel)[k] as int),
        forall|j: int| 0 <= j < ps.len() && names_patch(ps, sel, j) ==> #[trigger] named(ps, sel).contains(j as usize),
{
    let n = ps.len() as int;
    lemma_with_id_members(ps, sel, n);
    lemma_with_name_members(ps, sel, n);
    let ids = with_id(ps, sel, n);
    if exists|j: int| 0 <= j < ps.len() && (#[trigger] ps[j]).id@ == sel {
        let j = choose|j: int| 0 <= j < ps.len() && (#[trigger] ps[j]).id@ == sel;
        assert(ids.contains(j as usize));
        assert(ids.len() > 0);
    } else {
        if ids.len() > 0 {
            assert(ps[ids[0] as int].id@ == sel);
        }
    }
}

/// For a selector that is no patch's reference, when exactly one of the
/// patches it names supports the target package, that patch is selected,
/// whatever the other named patches are.
pub proof fn lemma_single_supporting_selected(ps: Seq<PatchSpec>, sel: Seq<char>, package: Option<Seq<char>>, i: int)
    requires
        ps.len() <= usize::MAX,
        0 <= i < ps.len(),
        forall|j: int| 0 <= j < ps.len() ==> reference_of(#[trigger] ps[j]) != sel,
        names_patch(ps, sel, i),
        package_text(ps[i], package) is None,
        forall|j: int| 0 <= j < ps.len() && j != i && names_patch(ps, sel, j) ==> package_text(#[trigger] ps[j], package) is Some,
    ensures
        resolution(ps, sel, package) == Some(i as usize),
{
    lemma_named_members(ps, sel);
    let nm = named(ps, sel);
    lemma_supporting_members(ps, nm, package);
    let sup = supporting(ps, nm, package);
    assert(nm.contains(i as usize));
    assert(sup.contains(i as usize));
    assert forall|k: int| 0 <= k < sup.len() implies #[trigger] sup[k] == i as usize by {
        let q = choose|q: int| 0 <= q < nm.len() && nm[q] == sup[k];
        assert(nm[q] < ps.len() && names_patch(ps, sel, nm[q] as int));
        if sup[k] as int != i {
            assert(package_text(ps[sup[k] as int], package) is Some);
        }
    }
    if sup.len() > 1 {
        assert(sup[0] < sup[1]);
    }
    assert(sup.len() == 1);
    assert(candidates(ps, sel, package) == sup);
}

/// When two distinct patches a non-reference selector names both support
/// the target package, the selector selects nothing.
pub proof fn lemma_two_supporting_ambiguous(ps: Seq<PatchSpec>, sel: Seq<char>, package: Option<Seq<char>>, i: int, j: int)
    requires
        ps.len() <= usize::MAX,
        0 <= i < ps.len(),
        0 <= j < ps.len(),
        i != j,
        forall|q: int| 0 <= q < ps.len() ==> reference_of(#[trigger] ps[q]) != sel,
        names_patch(ps, sel, i),
        names_patch(ps, sel, j),
        package_text(ps[i], package) is None,
        package_text(ps[j], package) is None,
    ensures
        resolution(ps, sel, package) is None,
{
    lemma_named_members(ps, sel);
    let nm = named(ps, sel);
    lemma_supporting_members(ps, nm, package);
    let sup = supporting(ps, nm, package);
    assert(nm.contains(i as usize));
    assert(nm.contains(j as usize));
    assert(sup.contains(i as usize));
    assert(sup.contains(j as usize));
    let a = choose|a: int| 0 <= a < sup.len() && sup[a] == i as usize;
    let b = choose|b: int| 0 <= b < sup.len() && sup[b] == j as usize;
    assert(a != b);
    assert(sup.len() > 1);
    assert(candidates(ps, sel, package) == sup);
}

/// A non-reference selector that names exactly one patch selects it,
/// whether or not that patch supports the target package.
pub proof fn lemma_sole_named_selected(ps: Seq<PatchSpec>, sel: Seq<char>, package: Option<Seq<char>>, i: int)
    requires
        ps.len() <= usize::MAX,
        0 <= i < ps.len(),
        forall|j: int| 0 <= j < ps.len() ==> reference_of(#[trigger] ps[j]) != sel,
        names_patch(ps, sel, i),
        forall|j: int| 0 <= j < ps.len() && j != i ==> !names_patch(ps, sel, j),
    ensures
        resolution(ps, sel, package) == Some(i as usize),
{
    lemma_named_members(ps, sel);
    let nm = named(ps, sel);
    lemma_supporting_members(ps, nm, package);
    let sup = supporting(ps, nm, package);
    assert(nm.contains(i as usize));
    assert forall|k: int| 0 <= k < nm.len() implies #[trigger] nm[k] == i as usize by {
        assert(names_patch(ps, sel, nm[k] as int));
    }
    if nm.len() > 1 {
        assert(nm[0] < nm[1]);
    }
    assert forall|k: int| 0 <= k < sup.len() implies #[trigger] sup[k] == i as usize by {
        let q = choose|q: int| 0 <= q < nm.len() && nm[q] == sup[k];
        assert(nm[q] == i as usize);
    }
    if sup.len() > 1 {
        assert(sup[0] < sup[1]);
    }
    if sup.len() == 1 {
        assert(candidates(ps, sel, package) == sup);
    } else {
        assert(candidates(ps, sel, package) == nm);
    }
}

/// When none of the patches a non-reference selector names supports the
/// target package, every named patch stays a candidate: naming two of them
/// selects nothing.
pub proof fn lemma_unsupported_named_ambiguous(ps: Seq<PatchSpec>, sel: Seq<char>, package: Option<Seq<char>>, i: int, j: int)
    requires
        ps.len() <= usize::MAX,
        0 <= i < ps.len(),
        0 <= j < ps.len(),
        i != j,
        forall|q: int| 0 <= q < ps.len() ==> reference_of(#[trigger] ps[q]) != sel,
        names_patch(ps, sel, i),
        names_patch(ps, sel, j),
        forall|q: int| 0 <= q < ps.len() && names_patch(ps, sel, q) ==> package_text(#[trigger] ps[q], package) is Some,
    ensures
        resolution(ps, sel, package) is None,
{
    lemma_named_members(ps, sel);
    let nm = named(ps, sel);
    lemma_supporting_members(ps, nm, package);
    let sup = supporting(ps, nm, package);
    if sup.len() > 0 {
        let q = choose|q: int| 0 <= q < nm.len() && nm[q] == sup[0];
        assert(names_patch(ps, sel, nm[q] as int));
        assert(package_text(ps[sup[0] as int], package) is None);
    }
    assert(candidates(ps, sel, package) == nm);
    assert(nm.contains(i as usize));
    assert(nm.contains(j as usize));
    let a = choose|a: int| 0 <= a < nm.len() && nm[a] == i as usize;
    let b = choose|b: int| 0 <= b < nm.len() && nm[b] == j as usize;
    assert(a != b);
}

/// The patches of the loaded bundles, looked up by what a user may type.
/// A reference (`<bundle>/<id>`) selects exactly; a bare identifier or a
/// display name must single out one patch for the target package.
pub struct PatchIndex<'a> {
    patches: &'a [PatchSpec],
}

impl<'a> PatchIndex<'a> {
    /// The indexed patches.
    pub closed spec fn specs(&self) -> Seq<PatchSpec> {
        self.patches@
    }

    /// The indexed patch at `i`.
    pub fn patch(&self, i: usize) -> (r: &PatchSpec)
        requires
            i < self.specs().len(),
        ensures
            *r == self.specs()[i as int],
    {
        &self.patches[i]
    }

    /// Indexes `patches`, refusing a bundle that declares a patch twice.
    pub fn new(patches: &'a [PatchSpec]) -> (r: Result<PatchIndex<'a>, PatcherError>)
        ensures
            match r {
                Ok(index) => index.specs() == patches@ && references_distinct(patches@),
                Err(e) => exists|i: int|
                    0 <= i < patches@.len() && repeats_earlier(patches@, i) && (forall|k: int|
                        0 <= k < i ==> !repeats_earlier(patches@, k)) && (e matches PatcherError::Bundle(m)
                        && m@ == duplicate_text(patches@[i])),
            },
    {
        let n = patches.len();
        let mut refs: Vec<Vec<char>> = Vec::new();
        for i in 0..n
            invariant
                n == patches@.len(),
                refs@.len() == i,
                forall|k: int| 0 <= k < i ==> #[trigger] refs@[k]@ == reference_of(patches@[k]),
                forall|k: int| 0 <= k < i ==> !repeats_earlier(patches@, k),
        {
            let r = patches[i].reference_chars();
            for j in 0..i
                invariant
                    n == patches@.len(),
                    i < n,
                    refs@.len() == i,
                    r@ == reference_of(patches@[i as int]),
                    forall|k: int| 0 <= k < i ==> #[trigger] refs@[k]@ == reference_of(patches@[k]),
                    forall|k: int| 0 <= k < j ==> reference_of(#[trigger] patches@[k]) != reference_of(patches@[i as int]),
                    forall|k: int| 0 <= k < i ==> !repeats_earlier(patches@, k),
            {
                if chars_eq(&refs[j], &r) {
                    let mut m: Vec<char> = Vec::new();
                    push_lit(&mut m, "bundle '");
                    crate::error::push_str(&mut m, &patches[i].bundle);
                    push_lit(&mut m, "' declares patch '");
                    crate::error::push_str(&mut m, &patches[i].id);
                    push_lit(&mut m, "' more than once");
                    let e = PatcherError::Bundle(string_of(&m));
                    assert(reference_of(patches@[j as int]) == reference_of(patches@[i as int]));
                    assert(repeats_earlier(patches@, i as int));
                    assert(m@ =~= duplicate_text(patches@[i as int]));
                    assert(e matches PatcherError::Bundle(t) && t@ == duplicate_text(patches@[i as int]));
                    return Err(e);
                }
            }
            refs.push(r);
        }
        assert forall|i: int, j: int|
            0 <= i < patches@.len() && 0 <= j < patches@.len() && i != j implies reference_of(#[trigger] patches@[i])
                != reference_of(#[trigger] patches@[j]) by {
            if i < j {
                assert(!repeats_earlier(patches@, j));
            } else {
                assert(!repeats_earlier(patches@, i));
            }
        }
        Ok(PatchIndex { patches })
    }

    /// The patch `selector` stands for on an APK with `package`.
    pub fn resolve(&self, selector: &str, package: Option<&str>) -> (r: Result<usize, PatcherError>)
        requires
            references_distinct(self.specs()),
        ensures
            match r {
                Ok(i) => resolution(self.specs(), selector@, opt_view(package)) == Some(i) && i < self.specs().len(),
                Err(e) => resolution(self.specs(), selector@, opt_view(package)) is None
                    && resolution_failure(e, self.specs(), selector@, opt_view(package)),
            },
    {
        let ghost ps = self.specs();
        let ghost pkg = opt_view(package);
        let sel = chars_of(selector);
        let n = self.patches.len();
        for i in 0..n
            invariant
                ps == self.patches@,
                n == ps.len(),
                sel@ == selector@,
                references_distinct(ps),
                forall|k: int| 0 <= k < i ==> reference_of(#[trigger] ps[k]) != sel@,
        {
            let rc = self.patches[i].reference_chars();
            if chars_eq(&rc, &sel) {
                proof {
                    assert(reference_of(ps[i as int]) == sel@);
                    let c = choose|c: int| 0 <= c < ps.len() && reference_of(#[trigger] ps[c]) == sel@;
                    if c != i {
                        assert(reference_of(ps[c]) != reference_of(ps[i as int]));
                    }
                }
                return Ok(i);
            }
        }
        assert(find_reference(ps, sel@) is None);
        let mut named_idx: Vec<usize> = Vec::new();
        for i in 0..n
            invariant
                ps == self.patches@,
                n == ps.len(),
                sel@ == selector@,
                named_idx@ == with_id(ps, sel@, i as int),
        {
            let idc = chars_of(self.patches[i].id.as_str());
            if chars_eq(&idc, &sel) {
                named_idx.push(i);
            }
        }
        if named_idx.len() == 0 {
            for i in 0..n
                invariant
                    ps == self.patches@,
                    n == ps.len(),
                    sel@ == selector@,
                    named_idx@ == with_name(ps, sel@, i as int),
            {
                if !self.patches[i].hidden {
                    let nc = chars_of(self.patches[i].name.as_str());
                    if chars_eq(&nc, &sel) {
                        named_idx.push(i);
                    }
                }
            }
        }
        assert(named_idx@ == named(ps, sel@));
        if named_idx.len() == 0 {
            return Err(PatcherError::UnknownPatch(String::from_str(selector)));
        }
        proof {
            lemma_with_id_bounded(ps, sel@, ps.len() as int);
            lemma_with_name_bounded(ps, sel@, ps.len() as int);
        }
        let mut compatible: Vec<usize> = Vec::new();
        let m = named_idx.len();
        for j in 0..m
            invariant
                ps == self.patches@,
                n == ps.len(),
                m == named_idx@.len(),
                pkg == opt_view(package),
                forall|k: int| 0 <= k < m ==> (#[trigger] named_idx@[k]) < n,
                compatible@ == supporting(ps, named_idx@.take(j as int), pkg),
        {
            let idx = named_idx[j];
            assert(named_idx@.take(j + 1).drop_last() =~= named_idx@.take(j as int));
            if self.patches[idx].package_incompatibility(package).is_none() {
                compatible.push(idx);
            }
        }
        assert(named_idx@.take(m as int) =~= named_idx@);
        let chosen = if compatible.len() > 0 {
            compatible
        } else {
            named_idx
        };
        assert(chosen@ == candidates(ps, sel@, pkg));
        proof {
            lemma_candidates_in_range(ps, sel@, pkg);
        }
        if chosen.len() == 1 {
            assert(chosen@[0] < n);
            return Ok(chosen[0]);
        }
        let mut refs: Vec<Vec<char>> = Vec::new();
        let c = chosen.len();
        for j in 0..c
            invariant
                ps == self.patches@,
                n == ps.len(),
                c == chosen@.len(),
                forall|k: int| 0 <= k < c ==> (#[trigger] chosen@[k]) < n,
                refs@.len() == j,
                forall|k: int| 0 <= k < j ==> #[trigger] refs@[k]@ == reference_of(ps[chosen@[k] as int]),
        {
            refs.push(self.patches[chosen[j]].reference_chars());
        }
        assert(views(refs@) =~= references_at(ps, chosen@));
        let sorted = sort_texts(refs);
        let mut msg: Vec<char> = Vec::new();
        push_lit(&mut msg, "patch '");
        extend(&mut msg, &sel);
        push_lit(&mut msg, "' is ambiguous; select one of: ");
        let sep = chars_of(", ");
        let joined = join_chars(&sorted, &sep);
        extend(&mut msg, &joined);
        Err(PatcherError::InvalidSelection(string_of(&msg)))
    }
}

} // verus!
