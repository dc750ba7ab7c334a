//! A selection checked against the loaded patches: the order patches run
//! in, which of them the caller wants, and the options each runs with.

use vstd::prelude::*;
use crate::error::{push_lit, push_str, PatcherError};
use crate::graph::{
    dependency_closure, dependents_of, edge_views, edges_in_range, is_closure, is_stuck_set,
    is_topological, kahn_order, left_out, topological_order, transposed, ascending,
};
use crate::index::{
    find_reference, references_distinct, resolution, resolution_failure, PatchIndex,
};
use crate::model::{reference_of, PatchSpec};
use crate::options::{
    declaration_passes, first_undeclared, keys_distinct, lookup, resolve_failure, resolved_value, validator_deterministic,
    verdict_of, OptionDeclaration, OptionValue, PatchOptions, ValueView,
};
use crate::patch::{opt_view, string_views};
use crate::text::{chars_eq, chars_of, string_of};

verus! {

/// What the caller asks for. An empty `enable` means every patch that is
/// enabled by default.
pub struct PatchSelection {
    pub enable: Vec<String>,
    pub disable: Vec<String>,
    /// Options per selector.
    pub options: Vec<(String, PatchOptions)>,
    /// Run patches on app versions they were not declared for. The package
    /// check still applies.
    pub ignore_versions: bool,
}

impl PatchSelection {
    /// Every patch that is enabled by default, with default options.
    pub fn new() -> (r: Self)
        ensures
            r.enable@.len() == 0,
            r.disable@.len() == 0,
            r.options@.len() == 0,
            !r.ignore_versions,
    {
        PatchSelection { enable: Vec::new(), disable: Vec::new(), options: Vec::new(), ignore_versions: false }
    }
}

impl Default for PatchSelection {
    fn default() -> (r: Self)
        ensures
            r.enable@.len() == 0,
            r.disable@.len() == 0,
            r.options@.len() == 0,
            !r.ignore_versions,
    {
        PatchSelection::new()
    }
}

/// The selectors that carry options.
pub open spec fn option_selectors(s: PatchSelection) -> Seq<Seq<char>> {
    s.options@.map_values(|e: (String, PatchOptions)| e.0@)
}

/// Every option set of the selection stores each key once.
pub open spec fn selection_well_formed(s: PatchSelection) -> bool {
    forall|k: int| 0 <= k < s.options@.len() ==> keys_distinct((#[trigger] s.options@[k]).1@)
}

/// Whether every option set of the selection stores each key once.
pub fn selection_is_well_formed(s: &PatchSelection) -> (r: bool)
    ensures
        r == selection_well_formed(*s),
{
    let n = s.options.len();
    for k in 0..n
        invariant
            n == s.options@.len(),
            forall|q: int| 0 <= q < k ==> keys_distinct((#[trigger] s.options@[q]).1@),
    {
        if !s.options[k].1.has_distinct_keys() {
            return false;
        }
    }
    true
}

/// The bundle a reference points into: what precedes its first `/`.
pub open spec fn bundle_part(r: Seq<char>) -> Seq<char>
    decreases r.len(),
{
    if r.len() == 0 {
        r
    } else if r[0] == '/' {
        Seq::empty()
    } else {
        seq![r[0]] + bundle_part(r.drop_first())
    }
}

/// Some loaded patch comes from bundle `b`.
pub open spec fn has_bundle(ps: Seq<PatchSpec>, b: Seq<char>) -> bool {
    exists|i: int| 0 <= i < ps.len() && (#[trigger] ps[i]).bundle@ == b
}

/// Why a dependency on reference `d` cannot be met.
pub open spec fn unmet_text(ps: Seq<PatchSpec>, d: Seq<char>) -> Seq<char> {
    if has_bundle(ps, bundle_part(d)) {
        "depends on "@ + d + ", which bundle '"@ + bundle_part(d) + "' does not declare"@
    } else {
        "depends on "@ + d + "; load bundle '"@ + bundle_part(d) + "' alongside"@
    }
}

/// The first of `deps` that names no loaded patch.
pub open spec fn first_unmet(ps: Seq<PatchSpec>, deps: Seq<Seq<char>>) -> Option<int>
    decreases deps.len(),
{
    if deps.len() == 0 {
        None
    } else if first_unmet(ps, deps.drop_last()) is Some {
        first_unmet(ps, deps.drop_last())
    } else if find_reference(ps, deps.last()) is None {
        Some(deps.len() - 1)
    } else {
        None
    }
}

/// Why patch `i` cannot run whatever the selection: its first dependency
/// that no loaded bundle declares.
pub open spec fn unavailable_reason(ps: Seq<PatchSpec>, i: int) -> Option<Seq<char>> {
    let deps = string_views(ps[i].dependencies@);
    match first_unmet(ps, deps) {
        Some(k) => Some(unmet_text(ps, deps[k])),
        None => None,
    }
}

/// The error for an explicitly enabled patch that cannot run.
pub open spec fn unmet_error(e: PatcherError, ps: Seq<PatchSpec>, i: int) -> bool {
    let deps = string_views(ps[i].dependencies@);
    let d = deps[first_unmet(ps, deps)->0];
    if has_bundle(ps, bundle_part(d)) {
        e matches PatcherError::UndeclaredDependency { patch, dependency, bundle } && patch@
            == reference_of(ps[i]) && dependency@ == d && bundle@ == bundle_part(d)
    } else {
        e matches PatcherError::MissingBundle { patch, dependency, bundle } && patch@ == reference_of(
            ps[i],
        ) && dependency@ == d && bundle@ == bundle_part(d)
    }
}

/// The patches `deps` name, skipping those no bundle declares.
pub open spec fn met_dependencies(ps: Seq<PatchSpec>, deps: Seq<Seq<char>>) -> Seq<usize>
    decreases deps.len(),
{
    if deps.len() == 0 {
        Seq::empty()
    } else {
        match find_reference(ps, deps.last()) {
            Some(j) => met_dependencies(ps, deps.drop_last()).push(j as usize),
            None => met_dependencies(ps, deps.drop_last()),
        }
    }
}

/// The dependency edges between the loaded patches.
pub open spec fn edges_of(ps: Seq<PatchSpec>) -> Seq<Seq<usize>> {
    Seq::new(ps.len(), |i: int| met_dependencies(ps, string_views(ps[i].dependencies@)))
}

/// The patches enabled by default among the first `n`.
pub open spec fn defaults(ps: Seq<PatchSpec>, n: int) -> Seq<usize>
    decreases n,
{
    if n <= 0 {
        Seq::empty()
    } else if ps[n - 1].enabled_by_default {
        defaults(ps, n - 1).push((n - 1) as usize)
    } else {
        defaults(ps, n - 1)
    }
}

/// Every selector in `sels` selects a patch.
pub open spec fn all_resolve(ps: Seq<PatchSpec>, sels: Seq<Seq<char>>, package: Option<Seq<char>>) -> bool {
    forall|k: int| 0 <= k < sels.len() ==> resolution(ps, #[trigger] sels[k], package) is Some
}

/// The patches the selectors select.
pub open spec fn resolved(ps: Seq<PatchSpec>, sels: Seq<Seq<char>>, package: Option<Seq<char>>) -> Seq<usize> {
    sels.map_values(|s: Seq<char>| resolution(ps, s, package)->0)
}

/// The error for the first selector of `sels` that selects nothing.
pub open spec fn first_resolve_failure(e: PatcherError, ps: Seq<PatchSpec>, sels: Seq<Seq<char>>, package: Option<Seq<char>>) -> bool {
    exists|k: int|
        0 <= k < sels.len() && (forall|j: int| 0 <= j < k ==> resolution(ps, #[trigger] sels[j], package) is Some)
            && resolution(ps, sels[k], package) is None && resolution_failure(e, ps, sels[k], package)
}

/// The patches asked for explicitly.
pub open spec fn enabled_indices(ps: Seq<PatchSpec>, s: PatchSelection, package: Option<Seq<char>>) -> Seq<usize> {
    resolved(ps, string_views(s.enable@), package)
}

/// No explicitly enabled patch lacks a dependency.
pub open spec fn enabled_available(ps: Seq<PatchSpec>, s: PatchSelection, package: Option<Seq<char>>) -> bool {
    forall|k: int|
        0 <= k < s.enable@.len() ==> unavailable_reason(ps, (#[trigger] enabled_indices(ps, s, package)[k]) as int) is None
}

/// The error for the first explicitly enabled patch lacking a dependency.
pub open spec fn first_unavailable_failure(e: PatcherError, ps: Seq<PatchSpec>, s: PatchSelection, package: Option<Seq<char>>) -> bool {
    exists|k: int|
        0 <= k < s.enable@.len() && (forall|j: int|
            0 <= j < k ==> unavailable_reason(ps, (#[trigger] enabled_indices(ps, s, package)[j]) as int) is None)
            && unavailable_reason(ps, enabled_indices(ps, s, package)[k] as int) is Some && unmet_error(
            e,
            ps,
            enabled_indices(ps, s, package)[k] as int,
        )
}

/// Where the walk over dependencies starts: the patches asked for, or the
/// default ones when none is.
pub open spec fn start_of(ps: Seq<PatchSpec>, s: PatchSelection, package: Option<Seq<char>>) -> Seq<usize> {
    if s.enable@.len() == 0 {
        defaults(ps, ps.len() as int)
    } else {
        enabled_indices(ps, s, package)
    }
}

/// Disable selector `k` selects a patch that is not also asked for.
pub open spec fn disable_ok(ps: Seq<PatchSpec>, s: PatchSelection, package: Option<Seq<char>>, k: int) -> bool {
    let sel = string_views(s.disable@)[k];
    resolution(ps, sel, package) is Some && !enabled_indices(ps, s, package).contains(resolution(ps, sel, package)->0)
}

/// The error for disable selector `k`.
pub open spec fn disable_failure(e: PatcherError, ps: Seq<PatchSpec>, s: PatchSelection, package: Option<Seq<char>>, k: int) -> bool {
    let sel = string_views(s.disable@)[k];
    if resolution(ps, sel, package) is None {
        resolution_failure(e, ps, sel, package)
    } else {
        e matches PatcherError::InvalidSelection(m) && m@ == "patch '"@ + sel
            + "' cannot be both selected and disabled"@
    }
}

/// The patches switched off explicitly.
pub open spec fn disabled_set(ps: Seq<PatchSpec>, s: PatchSelection, package: Option<Seq<char>>) -> Set<usize> {
    Set::new(
        |i: usize|
            exists|k: int|
                0 <= k < s.disable@.len() && resolution(ps, #[trigger] string_views(s.disable@)[k], package)
                    == Some(i),
    )
}

/// Option selector `k` selects a running patch no earlier option selector
/// selects.
pub open spec fn option_ok(ps: Seq<PatchSpec>, s: PatchSelection, package: Option<Seq<char>>, desired: Seq<bool>, k: int) -> bool {
    let sels = option_selectors(s);
    let target = resolution(ps, sels[k], package);
    &&& target is Some
    &&& forall|j: int| 0 <= j < k ==> resolution(ps, #[trigger] sels[j], package) != target
    &&& desired[target->0 as int]
    &&& !disabled_set(ps, s, package).contains(target->0)
}

/// The error for option selector `k`.
pub open spec fn option_failure(e: PatcherError, ps: Seq<PatchSpec>, s: PatchSelection, package: Option<Seq<char>>, desired: Seq<bool>, k: int) -> bool {
    let sels = option_selectors(s);
    let target = resolution(ps, sels[k], package);
    if target is None {
        resolution_failure(e, ps, sels[k], package)
    } else if exists|j: int| 0 <= j < k && resolution(ps, #[trigger] sels[j], package) == target {
        e matches PatcherError::InvalidSelection(m) && m@ == "options for patch '"@ + ps[target->0 as int].id@
            + "' were supplied under multiple selectors"@
    } else {
        e matches PatcherError::InvalidSelection(m) && m@ == "patch '"@ + sels[k]
            + "' has options configured but is not enabled by the selection"@
    }
}

/// The options supplied for patch `i`.
pub open spec fn supplied(ps: Seq<PatchSpec>, s: PatchSelection, package: Option<Seq<char>>, i: int) -> Seq<(Seq<char>, ValueView)> {
    if exists|k: int| 0 <= k < s.options@.len() && resolution(ps, #[trigger] option_selectors(s)[k], package) == Some(i as usize) {
        s.options@[choose|k: int|
            0 <= k < s.options@.len() && resolution(ps, #[trigger] option_selectors(s)[k], package) == Some(i as usize)].1@
    } else {
        Seq::empty()
    }
}

/// Patch `i` runs unless something goes wrong: it is wanted and not switched off.
pub open spec fn runs(desired: Seq<bool>, disabled: Set<usize>, i: int) -> bool {
    desired[i] && !disabled.contains(i as usize)
}

/// The options of running patch `i` are accepted.
pub open spec fn options_accepted(
    ps: Seq<PatchSpec>,
    s: PatchSelection,
    package: Option<Seq<char>>,
    i: int,
    verdict: spec_fn(OptionDeclaration, ValueView) -> Option<Seq<char>>,
) -> bool {
    let pv = supplied(ps, s, package, i);
    first_undeclared(pv, ps[i].options@, 0) is None && forall|k: int|
        0 <= k < ps[i].options@.len() ==> declaration_passes(#[trigger] ps[i].options@[k], pv, verdict)
}

/// A plan: the fields of a [`ResolvedPlan`].
pub struct PlanView {
    pub order: Seq<usize>,
    pub dependencies: Seq<Seq<usize>>,
    pub dependents: Seq<Seq<usize>>,
    pub selected: Seq<bool>,
    pub desired: Seq<bool>,
    pub disabled: Seq<bool>,
    pub options: Seq<Seq<(Seq<char>, ValueView)>>,
    pub unavailable: Seq<Option<Seq<char>>>,
    pub ignore_versions: bool,
}

/// `plan` is what the selection asks of the loaded patches, every check
/// having passed.
pub open spec fn plan_for(
    plan: PlanView,
    ps: Seq<PatchSpec>,
    s: PatchSelection,
    package: Option<Seq<char>>,
    verdict: spec_fn(OptionDeclaration, ValueView) -> Option<Seq<char>>,
) -> bool {
    let n = ps.len();
    let start = start_of(ps, s, package);
    &&& ps.len() <= usize::MAX
    &&& references_distinct(ps)
    &&& plan.dependencies == edges_of(ps)
    &&& transposed(plan.dependencies, plan.dependents, n)
    &&& forall|j: int| 0 <= j < n ==> ascending(#[trigger] plan.dependents[j])
    &&& is_topological(plan.order, plan.dependencies, n)
    &&& plan.order == kahn_order(plan.dependencies, plan.dependents, n)
    &&& all_resolve(ps, string_views(s.enable@), package)
    &&& enabled_available(ps, s, package)
    &&& plan.selected.len() == n
    &&& forall|i: int| 0 <= i < n ==> (#[trigger] plan.selected[i] <==> start.contains(i as usize))
    &&& is_closure(plan.desired, start, plan.dependencies, n)
    &&& forall|k: int| 0 <= k < s.disable@.len() ==> #[trigger] disable_ok(ps, s, package, k)
    &&& plan.disabled.len() == n
    &&& forall|i: int| 0 <= i < n ==> (#[trigger] plan.disabled[i] <==> disabled_set(ps, s, package).contains(i as usize))
    &&& forall|k: int| 0 <= k < s.options@.len() ==> #[trigger] option_ok(ps, s, package, plan.desired, k)
    &&& forall|i: int| 0 <= i < n && runs(plan.desired, disabled_set(ps, s, package), i) ==> #[trigger] options_accepted(ps, s, package, i, verdict)
    &&& plan.options.len() == n
    &&& forall|i: int| 0 <= i < n ==> keys_distinct(#[trigger] plan.options[i])
    &&& forall|i: int, key: Seq<char>|
        0 <= i < n ==> #[trigger] lookup(plan.options[i], key) == if runs(plan.desired, disabled_set(ps, s, package), i) {
            resolved_value(ps[i].options@, supplied(ps, s, package, i), key, ps[i].options@.len() as int)
        } else {
            None
        }
    &&& plan.unavailable.len() == n
    &&& forall|i: int| 0 <= i < n ==> #[trigger] plan.unavailable[i] == unavailable_reason(ps, i)
    &&& plan.ignore_versions == s.ignore_versions
}

/// A selection checked against a patch list. Indices are into that list.
pub struct ResolvedPlan {
    order: Vec<usize>,
    dependencies: Vec<Vec<usize>>,
    dependents: Vec<Vec<usize>>,
    /// Asked for directly, rather than pulled in as a dependency.
    selected: Vec<bool>,
    desired: Vec<bool>,
    disabled: Vec<bool>,
    options: Vec<PatchOptions>,
    unavailable: Vec<Option<String>>,
    ignore_versions: bool,
}

impl View for ResolvedPlan {
    type V = PlanView;

    closed spec fn view(&self) -> PlanView {
        PlanView {
            order: self.order@,
            dependencies: edge_views(self.dependencies@),
            dependents: edge_views(self.dependents@),
            selected: self.selected@,
            desired: self.desired@,
            disabled: self.disabled@,
            options: self.options@.map_values(|o: PatchOptions| o@),
            unavailable: self.unavailable@.map_values(|u: Option<String>| opt_string_view(u)),
            ignore_versions: self.ignore_versions,
        }
    }
}

/// The view of an optional string.
pub open spec fn opt_string_view(u: Option<String>) -> Option<Seq<char>> {
    match u {
        Some(s) => Some(s@),
        None => None,
    }
}

/// The characters before the first `/` of `r`.
pub fn bundle_of(r: &[char]) -> (b: Vec<char>)
    ensures
        b@ == bundle_part(r@),
{
    let mut out: Vec<char> = Vec::new();
    let n = r.len();
    let mut i: usize = 0;
    assert(r@.skip(0) =~= r@);
    assert(out@ + r@ =~= r@);
    while i < n
        invariant
            n == r@.len(),
            i <= n,
            bundle_part(r@) == out@ + bundle_part(r@.skip(i as int)),
        decreases n - i,
    {
        if r[i] == '/' {
            assert(bundle_part(r@.skip(i as int)) == Seq::<char>::empty());
            assert(out@ + Seq::<char>::empty() =~= out@);
            return out;
        }
        assert(r@.skip(i as int).drop_first() =~= r@.skip(i + 1));
        assert(bundle_part(r@.skip(i as int)) == seq![r@[i as int]] + bundle_part(r@.skip(i + 1)));
        assert(out@.push(r@[i as int]) + bundle_part(r@.skip(i + 1)) =~= out@ + (seq![r@[i as int]] + bundle_part(r@.skip(i + 1))));
        out.push(r[i]);
        i = i + 1;
    }
    assert(r@.skip(n as int) =~= Seq::<char>::empty());
    assert(out@ + Seq::<char>::empty() =~= out@);
    out
}

fn declares_bundle(ps: &[PatchSpec], b: &[char]) -> (r: bool)
    ensures
        r == has_bundle(ps@, b@),
{
    let n = ps.len();
    for i in 0..n
        invariant
            n == ps@.len(),
            forall|k: int| 0 <= k < i ==> (#[trigger] ps@[k]).bundle@ != b@,
    {
        let c = chars_of(ps[i].bundle.as_str());
        if chars_eq(&c, b) {
            return true;
        }
    }
    false
}

proof fn lemma_find_reference_unique(ps: Seq<PatchSpec>, sel: Seq<char>, i: int)
    requires
        references_distinct(ps),
        0 <= i < ps.len(),
        reference_of(ps[i]) == sel,
    ensures
        find_reference(ps, sel) == Some(i),
{
    let c = choose|c: int| 0 <= c < ps.len() && reference_of(#[trigger] ps[c]) == sel;
    if c != i {
        assert(reference_of(ps[c]) != reference_of(ps[i]));
    }
}

fn find_in(refs: &Vec<Vec<char>>, d: &[char], Ghost(ps): Ghost<Seq<PatchSpec>>) -> (r: Option<usize>)
    requires
        references_distinct(ps),
        refs@.len() == ps.len(),
        forall|k: int| 0 <= k < refs@.len() ==> #[trigger] refs@[k]@ == reference_of(ps[k]),
    ensures
        match r {
            Some(i) => find_reference(ps, d@) == Some(i as int),
            None => find_reference(ps, d@) is None,
        },
{
    let n = refs.len();
    for i in 0..n
        invariant
            n == refs@.len(),
            n == ps.len(),
            references_distinct(ps),
            forall|k: int| 0 <= k < refs@.len() ==> #[trigger] refs@[k]@ == reference_of(ps[k]),
            forall|k: int| 0 <= k < i ==> reference_of(#[trigger] ps[k]) != d@,
    {
        if chars_eq(&refs[i], d) {
            proof {
                lemma_find_reference_unique(ps, d@, i as int);
            }
            return Some(i);
        }
    }
    None
}

/// The dependency edges between the loaded patches and, for each patch, why
/// it cannot run when some dependency names no loaded patch.
pub fn dependency_edges(patches: &[PatchSpec]) -> (r: (Vec<Vec<usize>>, Vec<Option<String>>))
    requires
        references_distinct(patches@),
    ensures
        edge_views(r.0@) == edges_of(patches@),
        r.1@.len() == patches@.len(),
        forall|i: int| 0 <= i < patches@.len() ==> opt_string_view(#[trigger] r.1@[i]) == unavailable_reason(patches@, i),
{
    let ghost ps = patches@;
    let n = patches.len();
    let mut refs: Vec<Vec<char>> = Vec::new();
    for i in 0..n
        invariant
            n == ps.len(),
            ps == patches@,
            refs@.len() == i,
            forall|k: int| 0 <= k < i ==> #[trigger] refs@[k]@ == reference_of(ps[k]),
    {
        refs.push(patches[i].reference_chars());
    }
    let mut deps: Vec<Vec<usize>> = Vec::new();
    let mut unavailable: Vec<Option<String>> = Vec::new();
    for i in 0..n
        invariant
            n == ps.len(),
            ps == patches@,
            references_distinct(ps),
            refs@.len() == n,
            forall|k: int| 0 <= k < n ==> #[trigger] refs@[k]@ == reference_of(ps[k]),
            deps@.len() == i,
            unavailable@.len() == i,
            forall|k: int| 0 <= k < i ==> (#[trigger] deps@[k])@ == met_dependencies(ps, string_views(ps[k].dependencies@)),
            forall|k: int| 0 <= k < i ==> opt_string_view(#[trigger] unavailable@[k]) == unavailable_reason(ps, k),
    {
        let ghost dv = string_views(ps[i as int].dependencies@);
        let m = patches[i].dependencies.len();
        let mut row: Vec<usize> = Vec::new();
        let mut reason: Option<String> = None;
        for k in 0..m
            invariant
                n == ps.len(),
                ps == patches@,
                i < n,
                references_distinct(ps),
                refs@.len() == n,
                forall|q: int| 0 <= q < n ==> #[trigger] refs@[q]@ == reference_of(ps[q]),
                dv == string_views(ps[i as int].dependencies@),
                m == dv.len(),
                row@ == met_dependencies(ps, dv.take(k as int)),
                match first_unmet(ps, dv.take(k as int)) {
                    Some(q) => opt_string_view(reason) == Some(unmet_text(ps, dv[q])),
                    None => reason is None,
                },
        {
            let d = chars_of(patches[i].dependencies[k].as_str());
            assert(d@ == dv[k as int]);
            assert(dv.take(k + 1).drop_last() =~= dv.take(k as int));
            assert(dv.take(k + 1).last() == dv[k as int]);
            match find_in(&refs, &d, Ghost(ps)) {
                Some(j) => {
                    row.push(j);
                },
                None => {
                    if reason.is_none() {
                        let b = bundle_of(&d);
                        let mut msg: Vec<char> = Vec::new();
                        push_lit(&mut msg, "depends on ");
                        crate::text::extend(&mut msg, &d);
                        if declares_bundle(patches, &b) {
                            push_lit(&mut msg, ", which bundle '");
                            crate::text::extend(&mut msg, &b);
                            push_lit(&mut msg, "' does not declare");
                        } else {
                            push_lit(&mut msg, "; load bundle '");
                            crate::text::extend(&mut msg, &b);
                            push_lit(&mut msg, "' alongside");
                        }
                        assert(msg@ =~= unmet_text(ps, dv[k as int]));
                        reason = Some(string_of(&msg));
                    }
                },
            }
        }
        assert(dv.take(m as int) =~= dv);
        deps.push(row);
        unavailable.push(reason);
    }
    assert(edge_views(deps@) =~= edges_of(ps));
    (deps, unavailable)
}


/// Some order runs every patch after its dependencies.
pub open spec fn has_order(ps: Seq<PatchSpec>) -> bool {
    exists|order: Seq<usize>| is_topological(order, edges_of(ps), ps.len() as nat)
}

/// The identifiers of the patches at `idx`.
pub open spec fn ids_at(ps: Seq<PatchSpec>, idx: Seq<usize>) -> Seq<Seq<char>> {
    idx.map_values(|i: usize| ps[i as int].id@)
}

/// Disable selectors before `k` pass.
pub open spec fn disables_ok_upto(ps: Seq<PatchSpec>, s: PatchSelection, package: Option<Seq<char>>, k: int) -> bool {
    forall|j: int| 0 <= j < k ==> #[trigger] disable_ok(ps, s, package, j)
}

/// Option selectors before `k` pass.
pub open spec fn options_ok_upto(ps: Seq<PatchSpec>, s: PatchSelection, package: Option<Seq<char>>, desired: Seq<bool>, k: int) -> bool {
    forall|j: int| 0 <= j < k ==> #[trigger] option_ok(ps, s, package, desired, j)
}

/// The error `ResolvedPlan::resolve` reports: that of the first check the
/// selection fails, the checks running in this order: every reference
/// distinct, the dependencies acyclic, every selector to enable resolving,
/// every explicitly enabled patch having its dependencies, every selector
/// to disable resolving to a patch not also enabled, every option selector
/// resolving to a distinct running patch, and every running patch's options
/// being accepted.
pub open spec fn plan_failure(
    e: PatcherError,
    ps: Seq<PatchSpec>,
    s: PatchSelection,
    package: Option<Seq<char>>,
    verdict: spec_fn(OptionDeclaration, ValueView) -> Option<Seq<char>>,
) -> bool {
    let n = ps.len();
    let en = string_views(s.enable@);
    let start = start_of(ps, s, package);
    ||| !references_distinct(ps) && exists|i: int|
        0 <= i < n && crate::index::repeats_earlier(ps, i) && (forall|k: int|
            0 <= k < i ==> !crate::index::repeats_earlier(ps, k)) && (e matches PatcherError::Bundle(m) && m@
            == crate::index::duplicate_text(ps[i]))
    ||| references_distinct(ps) && !has_order(ps) && (e matches PatcherError::DependencyCycle(names) && exists|dependents: Seq<Seq<usize>>|
        transposed(edges_of(ps), dependents, n) && (forall|j: int| 0 <= j < n ==> ascending(#[trigger] dependents[j]))
            && is_stuck_set(left_out(kahn_order(edges_of(ps), dependents, n), n as int), edges_of(ps), n)
            && string_views(names@) == ids_at(ps, left_out(kahn_order(edges_of(ps), dependents, n), n as int)))
    ||| references_distinct(ps) && has_order(ps) && first_resolve_failure(e, ps, en, package)
    ||| references_distinct(ps) && has_order(ps) && all_resolve(ps, en, package) && first_unavailable_failure(
        e,
        ps,
        s,
        package,
    )
    ||| references_distinct(ps) && has_order(ps) && all_resolve(ps, en, package) && enabled_available(ps, s, package)
        && exists|k: int|
        0 <= k < s.disable@.len() && disables_ok_upto(ps, s, package, k) && !disable_ok(ps, s, package, k)
            && disable_failure(e, ps, s, package, k)
    ||| references_distinct(ps) && has_order(ps) && all_resolve(ps, en, package) && enabled_available(ps, s, package)
        && disables_ok_upto(ps, s, package, s.disable@.len() as int) && exists|desired: Seq<bool>, k: int|
        is_closure(desired, start, edges_of(ps), n) && 0 <= k < s.options@.len() && options_ok_upto(
            ps,
            s,
            package,
            desired,
            k,
        ) && !option_ok(ps, s, package, desired, k) && option_failure(e, ps, s, package, desired, k)
    ||| references_distinct(ps) && has_order(ps) && all_resolve(ps, en, package) && enabled_available(ps, s, package)
        && disables_ok_upto(ps, s, package, s.disable@.len() as int) && exists|desired: Seq<bool>, i: int|
        is_closure(desired, start, edges_of(ps), n) && options_ok_upto(ps, s, package, desired, s.options@.len() as int)
            && 0 <= i < n && runs(desired, disabled_set(ps, s, package), i) && !options_accepted(ps, s, package, i, verdict)
            && (forall|j: int|
            0 <= j < i && runs(desired, disabled_set(ps, s, package), j) ==> #[trigger] options_accepted(ps, s, package, j, verdict))
            && resolve_failure(e, ps[i].id@, ps[i].options@, supplied(ps, s, package, i), verdict)
}

fn resolve_selectors(index: &PatchIndex, sels: &Vec<String>, package: Option<&str>) -> (r: Result<Vec<usize>, PatcherError>)
    requires
        references_distinct(index.specs()),
    ensures
        match r {
            Ok(v) => all_resolve(index.specs(), string_views(sels@), opt_view(package)) && v@ == resolved(
                index.specs(),
                string_views(sels@),
                opt_view(package),
            ),
            Err(e) => first_resolve_failure(e, index.specs(), string_views(sels@), opt_view(package)),
        },
{
    let ghost ps = index.specs();
    let ghost sv = string_views(sels@);
    let ghost pkg = opt_view(package);
    let mut out: Vec<usize> = Vec::new();
    let m = sels.len();
    for k in 0..m
        invariant
            m == sv.len(),
            sv == string_views(sels@),
            ps == index.specs(),
            pkg == opt_view(package),
            references_distinct(ps),
            out@.len() == k,
            forall|j: int| 0 <= j < k ==> resolution(ps, #[trigger] sv[j], pkg) == Some(out@[j]),
    {
        match index.resolve(sels[k].as_str(), package) {
            Ok(i) => {
                out.push(i);
            },
            Err(e) => {
                assert(sv[k as int] == sels@[k as int]@);
                assert forall|j: int| 0 <= j < k implies resolution(ps, #[trigger] sv[j], pkg) is Some by {}
                return Err(e);
            },
        }
    }
    assert(out@ =~= resolved(ps, sv, pkg));
    Ok(out)
}

fn default_start(patches: &[PatchSpec]) -> (r: Vec<usize>)
    ensures
        r@ == defaults(patches@, patches@.len() as int),
{
    let mut out: Vec<usize> = Vec::new();
    let n = patches.len();
    for i in 0..n
        invariant
            n == patches@.len(),
            out@ == defaults(patches@, i as int),
    {
        if patches[i].enabled_by_default {
            out.push(i);
        }
    }
    out
}

fn contains_index(v: &Vec<usize>, x: usize) -> (r: bool)
    ensures
        r == v@.contains(x),
{
    let n = v.len();
    for k in 0..n
        invariant
            n == v@.len(),
            forall|j: int| 0 <= j < k ==> v@[j] != x,
    {
        if v[k] == x {
            return true;
        }
    }
    false
}

/// The error for patch `i`, asked for explicitly though it lacks a dependency.
fn unmet_failure(patches: &[PatchSpec], i: usize) -> (e: PatcherError)
    requires
        references_distinct(patches@),
        i < patches@.len(),
        unavailable_reason(patches@, i as int) is Some,
    ensures
        unmet_error(e, patches@, i as int),
{
    let ghost ps = patches@;
    let ghost dv = string_views(ps[i as int].dependencies@);
    let n = patches.len();
    let mut refs: Vec<Vec<char>> = Vec::new();
    for q in 0..n
        invariant
            n == ps.len(),
            ps == patches@,
            refs@.len() == q,
            forall|k: int| 0 <= k < q ==> #[trigger] refs@[k]@ == reference_of(ps[k]),
    {
        refs.push(patches[q].reference_chars());
    }
    let m = patches[i].dependencies.len();
    let mut k: usize = 0;
    while k < m
        invariant
            ps == patches@,
            i < ps.len(),
            references_distinct(ps),
            refs@.len() == ps.len(),
            forall|q: int| 0 <= q < ps.len() ==> #[trigger] refs@[q]@ == reference_of(ps[q]),
            dv == string_views(ps[i as int].dependencies@),
            m == dv.len(),
            k <= m,
            first_unmet(ps, dv.take(k as int)) is None,
            first_unmet(ps, dv) is Some,
        decreases m - k,
    {
        let d = chars_of(patches[i].dependencies[k].as_str());
        assert(dv.take(k + 1).drop_last() =~= dv.take(k as int));
        assert(d@ == dv[k as int]);
        if find_in(&refs, &d, Ghost(ps)).is_none() {
            proof {
                lemma_first_unmet_prefix(ps, dv, k as int + 1);
            }
            let b = bundle_of(&d);
            let patch = patches[i].reference();
            let dependency = String::from_str(patches[i].dependencies[k].as_str());
            if declares_bundle(patches, &b) {
                return PatcherError::UndeclaredDependency { patch, dependency, bundle: string_of(&b) };
            } else {
                return PatcherError::MissingBundle { patch, dependency, bundle: string_of(&b) };
            }
        }
        k = k + 1;
    }
    assert(dv.take(m as int) =~= dv);
    proof {
        assert(false);
    }
    PatcherError::NotFound(String::new())
}

/// The first unmet dependency of a list is that of any prefix holding one.
proof fn lemma_first_unmet_prefix(ps: Seq<PatchSpec>, deps: Seq<Seq<char>>, k: int)
    requires
        0 <= k <= deps.len(),
        first_unmet(ps, deps.take(k)) is Some,
    ensures
        first_unmet(ps, deps) == first_unmet(ps, deps.take(k)),
    decreases deps.len() - k,
{
    if k < deps.len() {
        assert(deps.drop_last().take(k) =~= deps.take(k));
        lemma_first_unmet_prefix(ps, deps.drop_last(), k);
    } else {
        assert(deps.take(k) =~= deps);
    }
}


proof fn lemma_met_in_range(ps: Seq<PatchSpec>, deps: Seq<Seq<char>>)
    requires
        ps.len() <= usize::MAX,
    ensures
        forall|k: int| 0 <= k < met_dependencies(ps, deps).len() ==> (#[trigger] met_dependencies(ps, deps)[k]) < ps.len(),
    decreases deps.len(),
{
    if deps.len() > 0 {
        lemma_met_in_range(ps, deps.drop_last());
        let prev = met_dependencies(ps, deps.drop_last());
        assert forall|k: int| 0 <= k < met_dependencies(ps, deps).len() implies (#[trigger] met_dependencies(ps, deps)[k]) < ps.len() by {
            if k < prev.len() {
                assert(met_dependencies(ps, deps)[k] == prev[k]);
            }
        }
    }
}

/// Every edge between the loaded patches names one of them.
pub proof fn lemma_edges_in_range(ps: Seq<PatchSpec>)
    requires
        ps.len() <= usize::MAX,
    ensures
        edges_in_range(edges_of(ps), ps.len() as nat),
{
    assert forall|i: int, k: int| 0 <= i < ps.len() && 0 <= k < edges_of(ps)[i].len() implies (#[trigger] edges_of(ps)[i][k]) < ps.len() by {
        lemma_met_in_range(ps, string_views(ps[i].dependencies@));
    }
}

fn disabled_flags(index: &PatchIndex, s: &PatchSelection, package: Option<&str>, enabled: &Vec<usize>, n: usize) -> (r: Result<Vec<bool>, PatcherError>)
    requires
        references_distinct(index.specs()),
        n == index.specs().len(),
        all_resolve(index.specs(), string_views(s.enable@), opt_view(package)),
        enabled@ == enabled_indices(index.specs(), *s, opt_view(package)),
    ensures
        match r {
            Ok(d) => disables_ok_upto(index.specs(), *s, opt_view(package), s.disable@.len() as int) && d@.len() == n
                && forall|i: int| 0 <= i < n ==> (#[trigger] d@[i] <==> disabled_set(index.specs(), *s, opt_view(package)).contains(i as usize)),
            Err(e) => exists|k: int|
                0 <= k < s.disable@.len() && disables_ok_upto(index.specs(), *s, opt_view(package), k)
                    && !disable_ok(index.specs(), *s, opt_view(package), k) && disable_failure(e, index.specs(), *s, opt_view(package), k),
        },
{
    let ghost ps = index.specs();
    let ghost pkg = opt_view(package);
    let ghost dv = string_views(s.disable@);
    let mut flags: Vec<bool> = Vec::new();
    for i in 0..n
        invariant
            flags@.len() == i,
            forall|j: int| 0 <= j < i ==> !flags@[j],
    {
        flags.push(false);
    }
    let m = s.disable.len();
    for k in 0..m
        invariant
            ps == index.specs(),
            pkg == opt_view(package),
            dv == string_views(s.disable@),
            m == dv.len(),
            n == ps.len(),
            references_distinct(ps),
            enabled@ == enabled_indices(ps, *s, pkg),
            flags@.len() == n,
            disables_ok_upto(ps, *s, pkg, k as int),
            forall|i: int| 0 <= i < n ==> (#[trigger] flags@[i] <==> exists|j: int|
                0 <= j < k && resolution(ps, #[trigger] dv[j], pkg) == Some(i as usize)),
    {
        assert(dv[k as int] == s.disable@[k as int]@);
        match index.resolve(s.disable[k].as_str(), package) {
            Err(e) => {
                assert(!disable_ok(ps, *s, pkg, k as int));
                assert(disable_failure(e, ps, *s, pkg, k as int));
                return Err(e);
            },
            Ok(idx) => {
                if contains_index(enabled, idx) {
                    let mut msg: Vec<char> = Vec::new();
                    push_lit(&mut msg, "patch '");
                    push_str(&mut msg, &s.disable[k]);
                    push_lit(&mut msg, "' cannot be both selected and disabled");
                    let e = PatcherError::InvalidSelection(string_of(&msg));
                    assert(!disable_ok(ps, *s, pkg, k as int));
                    assert(msg@ =~= "patch '"@ + dv[k as int] + "' cannot be both selected and disabled"@);
                    assert(disable_failure(e, ps, *s, pkg, k as int));
                    return Err(e);
                }
                assert(disable_ok(ps, *s, pkg, k as int));
                flags.set(idx, true);
                assert forall|i: int| 0 <= i < n implies (#[trigger] flags@[i] <==> exists|j: int|
                    0 <= j < k + 1 && resolution(ps, #[trigger] dv[j], pkg) == Some(i as usize)) by {
                    if i == idx {
                        assert(resolution(ps, dv[k as int], pkg) == Some(i as usize));
                    }
                }
                assert forall|j: int| 0 <= j < k + 1 implies #[trigger] disable_ok(ps, *s, pkg, j) by {
                    if j < k {
                        assert(disables_ok_upto(ps, *s, pkg, k as int));
                    }
                }
            },
        }
    }
    assert forall|i: int| 0 <= i < n implies (#[trigger] flags@[i] <==> disabled_set(ps, *s, pkg).contains(i as usize)) by {
        if flags@[i] {
            let j = choose|j: int| 0 <= j < m && resolution(ps, #[trigger] dv[j], pkg) == Some(i as usize);
            assert(disabled_set(ps, *s, pkg).contains(i as usize));
        }
    }
    Ok(flags)
}


/// Where each patch's options come from: the option selector naming it.
pub open spec fn targets_match(ps: Seq<PatchSpec>, s: PatchSelection, package: Option<Seq<char>>, c: Seq<Option<usize>>) -> bool {
    &&& c.len() == ps.len()
    &&& forall|i: int|
        0 <= i < ps.len() ==> match #[trigger] c[i] {
            Some(k) => k < s.options@.len() && resolution(ps, option_selectors(s)[k as int], package) == Some(i as usize)
                && supplied(ps, s, package, i) == s.options@[k as int].1@,
            None => supplied(ps, s, package, i) == Seq::<(Seq<char>, ValueView)>::empty(),
        }
}

fn option_targets(
    index: &PatchIndex,
    s: &PatchSelection,
    package: Option<&str>,
    desired: &Vec<bool>,
    disabled: &Vec<bool>,
    n: usize,
) -> (r: Result<Vec<Option<usize>>, PatcherError>)
    requires
        references_distinct(index.specs()),
        n == index.specs().len(),
        desired@.len() == n,
        disabled@.len() == n,
        forall|i: int| 0 <= i < n ==> (#[trigger] disabled@[i] <==> disabled_set(index.specs(), *s, opt_view(package)).contains(i as usize)),
    ensures
        match r {
            Ok(c) => options_ok_upto(index.specs(), *s, opt_view(package), desired@, s.options@.len() as int)
                && targets_match(index.specs(), *s, opt_view(package), c@),
            Err(e) => exists|k: int|
                0 <= k < s.options@.len() && options_ok_upto(index.specs(), *s, opt_view(package), desired@, k)
                    && !option_ok(index.specs(), *s, opt_view(package), desired@, k) && option_failure(
                    e,
                    index.specs(),
                    *s,
                    opt_view(package),
                    desired@,
                    k,
                ),
        },
{
    let ghost ps = index.specs();
    let ghost pkg = opt_view(package);
    let ghost sels = option_selectors(*s);
    let mut c: Vec<Option<usize>> = Vec::new();
    for i in 0..n
        invariant
            c@.len() == i,
            forall|j: int| 0 <= j < i ==> c@[j] is None,
    {
        c.push(None);
    }
    let m = s.options.len();
    for k in 0..m
        invariant
            ps == index.specs(),
            pkg == opt_view(package),
            sels == option_selectors(*s),
            m == s.options@.len(),
            n == ps.len(),
            references_distinct(ps),
            desired@.len() == n,
            disabled@.len() == n,
            forall|i: int| 0 <= i < n ==> (#[trigger] disabled@[i] <==> disabled_set(ps, *s, pkg).contains(i as usize)),
            c@.len() == n,
            options_ok_upto(ps, *s, pkg, desired@, k as int),
            forall|i: int|
                0 <= i < n ==> match #[trigger] c@[i] {
                    Some(j) => j < k && resolution(ps, sels[j as int], pkg) == Some(i as usize),
                    None => forall|j: int| #![trigger option_selectors(*s)[j]] 0 <= j < k ==> resolution(ps, option_selectors(*s)[j], pkg) != Some(i as usize),
                },
    {
        assert(sels[k as int] == s.options@[k as int].0@);
        match index.resolve(s.options[k].0.as_str(), package) {
            Err(e) => {
                assert(!option_ok(ps, *s, pkg, desired@, k as int));
                return Err(e);
            },
            Ok(idx) => {
                if c[idx].is_some() {
                    let j = c[idx].unwrap();
                    let mut msg: Vec<char> = Vec::new();
                    push_lit(&mut msg, "options for patch '");
                    push_str(&mut msg, &index.patch(idx).id);
                    push_lit(&mut msg, "' were supplied under multiple selectors");
                    let e = PatcherError::InvalidSelection(string_of(&msg));
                    assert(resolution(ps, sels[j as int], pkg) == resolution(ps, sels[k as int], pkg));
                    assert(!option_ok(ps, *s, pkg, desired@, k as int));
                    assert(option_failure(e, ps, *s, pkg, desired@, k as int));
                    return Err(e);
                }
                if !desired[idx] || disabled[idx] {
                    let mut msg: Vec<char> = Vec::new();
                    push_lit(&mut msg, "patch '");
                    push_str(&mut msg, &s.options[k].0);
                    push_lit(&mut msg, "' has options configured but is not enabled by the selection");
                    let e = PatcherError::InvalidSelection(string_of(&msg));
                    assert(!option_ok(ps, *s, pkg, desired@, k as int));
                    assert(!exists|j: int| #![trigger option_selectors(*s)[j]] 0 <= j < k && resolution(ps, option_selectors(*s)[j], pkg) == resolution(ps, sels[k as int], pkg));
                    assert(option_failure(e, ps, *s, pkg, desired@, k as int));
                    return Err(e);
                }
                assert(option_ok(ps, *s, pkg, desired@, k as int));
                let ghost before = c@;
                c.set(idx, Some(k));
                assert forall|j: int| 0 <= j < k + 1 implies #[trigger] option_ok(ps, *s, pkg, desired@, j) by {
                    if j < k {
                        assert(options_ok_upto(ps, *s, pkg, desired@, k as int));
                    }
                }
                assert forall|i: int| 0 <= i < n implies match #[trigger] c@[i] {
                    Some(j) => j < k + 1 && resolution(ps, sels[j as int], pkg) == Some(i as usize),
                    None => forall|j: int| #![trigger option_selectors(*s)[j]] 0 <= j < k + 1 ==> resolution(ps, option_selectors(*s)[j], pkg) != Some(i as usize),
                } by {
                    if i != idx {
                        assert(c@[i] == before[i]);
                    }
                }
            },
        }
    }
    assert forall|i: int| 0 <= i < n implies match #[trigger] c@[i] {
        Some(k) => k < s.options@.len() && resolution(ps, option_selectors(*s)[k as int], pkg) == Some(i as usize)
            && supplied(ps, *s, pkg, i) == s.options@[k as int].1@,
        None => supplied(ps, *s, pkg, i) == Seq::<(Seq<char>, ValueView)>::empty(),
    } by {
        match c@[i] {
            Some(k) => {
                assert(resolution(ps, sels[k as int], pkg) == Some(i as usize));
                let q = choose|q: int| 0 <= q < s.options@.len() && resolution(ps, #[trigger] option_selectors(*s)[q], pkg) == Some(i as usize);
                if q < k {
                    assert(option_ok(ps, *s, pkg, desired@, k as int));
                } else if q > k {
                    assert(option_ok(ps, *s, pkg, desired@, q));
                    assert(resolution(ps, sels[k as int], pkg) != resolution(ps, sels[q], pkg));
                }
            },
            None => {},
        }
    }
    Ok(c)
}

/// The options every patch runs with: those of a running patch checked
/// against its declarations, none for the others.
fn run_options<F: Fn(&OptionDeclaration, &OptionValue) -> Result<(), String>>(
    patches: &[PatchSpec],
    s: &PatchSelection,
    package: Option<&str>,
    configured: &Vec<Option<usize>>,
    desired: &Vec<bool>,
    disabled: &Vec<bool>,
    validate: &F,
) -> (r: Result<Vec<PatchOptions>, PatcherError>)
    requires
        validator_deterministic(*validate),
        selection_well_formed(*s),
        targets_match(patches@, *s, opt_view(package), configured@),
        desired@.len() == patches@.len(),
        disabled@.len() == patches@.len(),
        forall|i: int| 0 <= i < patches@.len() ==> (#[trigger] disabled@[i] <==> disabled_set(patches@, *s, opt_view(package)).contains(i as usize)),
    ensures
        match r {
            Ok(o) => o@.len() == patches@.len() && (forall|i: int|
                0 <= i < patches@.len() && runs(desired@, disabled_set(patches@, *s, opt_view(package)), i) ==> #[trigger] options_accepted(patches@, *s, opt_view(package), i, verdict_of(*validate)))
                && (forall|i: int| 0 <= i < patches@.len() ==> keys_distinct(#[trigger] o@[i]@))
                && forall|i: int, key: Seq<char>|
                0 <= i < patches@.len() ==> #[trigger] lookup(o@[i]@, key) == if runs(desired@, disabled_set(patches@, *s, opt_view(package)), i) {
                    resolved_value(patches@[i].options@, supplied(patches@, *s, opt_view(package), i), key, patches@[i].options@.len() as int)
                } else {
                    None
                },
            Err(e) => exists|i: int|
                0 <= i < patches@.len() && runs(desired@, disabled_set(patches@, *s, opt_view(package)), i)
                    && !options_accepted(patches@, *s, opt_view(package), i, verdict_of(*validate)) && (forall|j: int|
                    0 <= j < i && runs(desired@, disabled_set(patches@, *s, opt_view(package)), j) ==> #[trigger] options_accepted(patches@, *s, opt_view(package), j, verdict_of(*validate)))
                    && resolve_failure(
                    e,
                    patches@[i].id@,
                    patches@[i].options@,
                    supplied(patches@, *s, opt_view(package), i),
                    verdict_of(*validate),
                ),
        },
{
    let ghost ps = patches@;
    let ghost pkg = opt_view(package);
    let ghost dis = disabled_set(ps, *s, pkg);
    let n = patches.len();
    let mut out: Vec<PatchOptions> = Vec::new();
    for i in 0..n
        invariant
            n == ps.len(),
            ps == patches@,
            pkg == opt_view(package),
            dis == disabled_set(ps, *s, pkg),
            selection_well_formed(*s),
            targets_match(ps, *s, pkg, configured@),
            desired@.len() == n,
            disabled@.len() == n,
            forall|q: int| 0 <= q < n ==> (#[trigger] disabled@[q] <==> dis.contains(q as usize)),
            out@.len() == i,
            validator_deterministic(*validate),
            forall|j: int| 0 <= j < i && runs(desired@, dis, j) ==> #[trigger] options_accepted(ps, *s, pkg, j, verdict_of(*validate)),
            forall|j: int| 0 <= j < i ==> keys_distinct(#[trigger] out@[j]@),
            forall|j: int, key: Seq<char>|
                0 <= j < i ==> #[trigger] lookup(out@[j]@, key) == if runs(desired@, dis, j) {
                    resolved_value(ps[j].options@, supplied(ps, *s, pkg, j), key, ps[j].options@.len() as int)
                } else {
                    None
                },
    {
        assert(disabled@[i as int] <==> dis.contains(i));
        if !desired[i] || disabled[i] {
            let empty = PatchOptions::new();
            proof {
                assert forall|key: Seq<char>| lookup(empty@, key) is None by {
                    assert(empty@.len() == 0);
                }
            }
            out.push(empty);
        } else {
            let provided: Option<&PatchOptions> = match configured[i] {
                Some(k) => Some(&s.options[k].1),
                None => None,
            };
            let ghost pv = supplied(ps, *s, pkg, i as int);
            assert(pv == match provided { Some(p) => p@, None => Seq::<(Seq<char>, ValueView)>::empty() });
            match PatchOptions::resolve(patches[i].id.as_str(), &patches[i].options, provided, validate) {
                Ok(res) => {
                    assert(options_accepted(ps, *s, pkg, i as int, verdict_of(*validate)));
                    out.push(res);
                },
                Err(e) => {
                    assert(!options_accepted(ps, *s, pkg, i as int, verdict_of(*validate))) by {
                        assert(resolve_failure(e, ps[i as int].id@, ps[i as int].options@, pv, verdict_of(*validate)));
                        lemma_failure_refuses(e, ps[i as int].id@, ps[i as int].options@, pv, verdict_of(*validate));
                    }
                    return Err(e);
                },
            }
        }
    }
    Ok(out)
}

/// A reported option failure means the options were not accepted.
proof fn lemma_failure_refuses(
    e: PatcherError,
    patch: Seq<char>,
    decls: Seq<OptionDeclaration>,
    pv: Seq<(Seq<char>, ValueView)>,
    verdict: spec_fn(OptionDeclaration, ValueView) -> Option<Seq<char>>,
)
    requires
        resolve_failure(e, patch, decls, pv, verdict),
    ensures
        !(first_undeclared(pv, decls, 0) is None && forall|k: int|
            0 <= k < decls.len() ==> declaration_passes(#[trigger] decls[k], pv, verdict)),
{
}


/// The members of `s` flagged in `flags`, in order.
pub open spec fn flagged_members(s: Seq<usize>, flags: Seq<bool>) -> Seq<usize>
    decreases s.len(),
{
    if s.len() == 0 {
        s
    } else if flags[s.last() as int] {
        flagged_members(s.drop_last(), flags).push(s.last())
    } else {
        flagged_members(s.drop_last(), flags)
    }
}

/// The running patches that pulled patch `i` in: none when it was asked for
/// directly, else its direct dependents that are wanted.
pub open spec fn required_by_spec(plan: PlanView, i: int) -> Seq<usize> {
    if plan.selected[i] {
        Seq::empty()
    } else {
        flagged_members(plan.dependents[i], plan.desired)
    }
}

impl ResolvedPlan {
    /// Checks `selection` against `patches` on an APK with `package`; the
    /// values options get are checked with `validate`.
    #[verifier::rlimit(50)]
    pub fn resolve<F: Fn(&OptionDeclaration, &OptionValue) -> Result<(), String>>(
        patches: &[PatchSpec],
        selection: &PatchSelection,
        package: Option<&str>,
        validate: &F,
    ) -> (r: Result<ResolvedPlan, PatcherError>)
        requires
            selection_well_formed(*selection),
            validator_deterministic(*validate),
        ensures
            match r {
                Ok(plan) => plan_for(plan@, patches@, *selection, opt_view(package), verdict_of(*validate)),
                Err(e) => plan_failure(e, patches@, *selection, opt_view(package), verdict_of(*validate)),
            },
    {
        let ghost ps = patches@;
        let ghost pkg = opt_view(package);
        let index = match PatchIndex::new(patches) {
            Ok(index) => index,
            Err(e) => return Err(e),
        };
        let n = patches.len();
        let (dependencies, unavailable) = dependency_edges(patches);
        proof {
            lemma_edges_in_range(ps);
        }
        let dependents = dependents_of(n, &dependencies);
        let order = match topological_order(n, &dependencies, &dependents) {
            Ok(order) => order,
            Err(stuck) => {
                let mut names: Vec<String> = Vec::new();
                let m = stuck.len();
                for k in 0..m
                    invariant
                        m == stuck@.len(),
                        n == ps.len(),
                        ps == patches@,
                        forall|p: int| 0 <= p < stuck@.len() ==> (#[trigger] stuck@[p]) < n,
                        names@.len() == k,
                        forall|q: int| 0 <= q < k ==> #[trigger] names@[q]@ == ps[stuck@[q] as int].id@,
                {
                    names.push(patches[stuck[k]].id.clone());
                }
                assert(string_views(names@) =~= ids_at(ps, stuck@));
                assert(edge_views(dependencies@) == edges_of(ps));
                assert(transposed(edges_of(ps), edge_views(dependents@), n as nat));
                assert(forall|j: int| 0 <= j < n ==> ascending(#[trigger] edge_views(dependents@)[j]));
                proof {
                    assert forall|o: Seq<usize>| !is_topological(o, edges_of(ps), n as nat) by {
                        crate::graph::lemma_stuck_means_no_order(stuck@, edges_of(ps), n, o);
                    }
                }
                return Err(PatcherError::DependencyCycle(names));
            },
        };
        assert(has_order(ps));
        let enabled = match resolve_selectors(&index, &selection.enable, package) {
            Ok(v) => v,
            Err(e) => {
                assert(first_resolve_failure(e, ps, string_views(selection.enable@), pkg));
                return Err(e);
            },
        };
        proof {
            assert forall|k: int| 0 <= k < enabled@.len() implies (#[trigger] enabled@[k]) < n by {
                crate::index::lemma_resolution_in_range(ps, string_views(selection.enable@)[k], pkg);
            }
        }
        let ne = enabled.len();
        for k in 0..ne
            invariant
                ne == enabled@.len(),
                n == ps.len(),
                ps == patches@,
                references_distinct(ps),
                enabled@ == enabled_indices(ps, *selection, pkg),
                enabled@.len() == selection.enable@.len(),
                forall|q: int| 0 <= q < ne ==> (#[trigger] enabled@[q]) < n,
                unavailable@.len() == n,
                forall|i: int| 0 <= i < n ==> opt_string_view(#[trigger] unavailable@[i]) == unavailable_reason(ps, i),
                forall|j: int| 0 <= j < k ==> unavailable_reason(ps, (#[trigger] enabled_indices(ps, *selection, pkg)[j]) as int) is None,
                has_order(ps),
                pkg == opt_view(package),
                all_resolve(ps, string_views(selection.enable@), pkg),
        {
            let i = enabled[k];
            assert(opt_string_view(unavailable@[i as int]) == unavailable_reason(ps, i as int));
            if unavailable[i].is_some() {
                let e = unmet_failure(patches, i);
                assert(first_unavailable_failure(e, ps, *selection, pkg));
                return Err(e);
            }
        }
        let start = if selection.enable.len() == 0 {
            default_start(patches)
        } else {
            enabled.clone()
        };
        assert(start@ == start_of(ps, *selection, pkg));
        proof {
            assert forall|p: int| 0 <= p < start@.len() implies (#[trigger] start@[p]) < n by {
                if selection.enable@.len() == 0 {
                    lemma_defaults_in_range(ps, n as int);
                }
            }
        }
        let desired = dependency_closure(n, &dependencies, &start);
        let mut selected: Vec<bool> = Vec::new();
        for i in 0..n
            invariant
                selected@.len() == i,
                forall|j: int| 0 <= j < i ==> !selected@[j],
        {
            selected.push(false);
        }
        let ns = start.len();
        for k in 0..ns
            invariant
                ns == start@.len(),
                n == ps.len(),
                forall|p: int| 0 <= p < ns ==> (#[trigger] start@[p]) < n,
                selected@.len() == n,
                forall|i: int| 0 <= i < n ==> (#[trigger] selected@[i] <==> start@.take(k as int).contains(i as usize)),
        {
            let x = start[k];
            selected.set(x, true);
            assert forall|i: int| 0 <= i < n implies (#[trigger] selected@[i] <==> start@.take(k + 1).contains(i as usize)) by {
                let t0 = start@.take(k as int);
                let t1 = start@.take(k + 1);
                assert(t1 =~= t0.push(x));
                if i == x {
                    assert(t1[k as int] == x);
                } else {
                    if t1.contains(i as usize) {
                        let j = choose|j: int| 0 <= j < t1.len() && t1[j] == i as usize;
                        assert(j < k);
                        assert(t0[j] == i as usize);
                    }
                    if t0.contains(i as usize) {
                        let j = choose|j: int| 0 <= j < t0.len() && t0[j] == i as usize;
                        assert(t1[j] == i as usize);
                    }
                }
            }
        }
        assert(start@.take(ns as int) =~= start@);
        let disabled = match disabled_flags(&index, selection, package, &enabled, n) {
            Ok(d) => d,
            Err(e) => return Err(e),
        };
        let configured = match option_targets(&index, selection, package, &desired, &disabled, n) {
            Ok(c) => c,
            Err(e) => {
                assert(is_closure(desired@, start_of(ps, *selection, pkg), edges_of(ps), n as nat));
                return Err(e);
            },
        };
        let options = match run_options(patches, selection, package, &configured, &desired, &disabled, validate) {
            Ok(o) => o,
            Err(e) => {
                assert(is_closure(desired@, start_of(ps, *selection, pkg), edges_of(ps), n as nat));
                return Err(e);
            },
        };
        let plan = ResolvedPlan {
            order,
            dependencies,
            dependents,
            selected,
            desired,
            disabled,
            options,
            unavailable,
            ignore_versions: selection.ignore_versions,
        };
        proof {
            let v = plan@;
            assert(v.options.len() == n);
            assert forall|i: int| 0 <= i < n implies keys_distinct(#[trigger] v.options[i]) by {
                assert(v.options[i] == plan.options@[i]@);
            }
            assert forall|i: int, key: Seq<char>| 0 <= i < n implies #[trigger] lookup(v.options[i], key) == if runs(v.desired, disabled_set(ps, *selection, pkg), i) {
                resolved_value(ps[i].options@, supplied(ps, *selection, pkg, i), key, ps[i].options@.len() as int)
            } else {
                None
            } by {
                assert(v.options[i] == plan.options@[i]@);
            }
            assert forall|i: int| 0 <= i < n implies #[trigger] v.unavailable[i] == unavailable_reason(ps, i) by {
                assert(v.unavailable[i] == opt_string_view(plan.unavailable@[i]));
            }
        }
        Ok(plan)
    }

    /// Patch indices in the order they run.
    pub fn order(&self) -> (r: &Vec<usize>)
        ensures
            r@ == self@.order,
    {
        &self.order
    }

    /// The patches `idx` depends on.
    pub fn dependencies(&self, idx: usize) -> (r: &Vec<usize>)
        requires
            idx < self@.dependencies.len(),
        ensures
            r@ == self@.dependencies[idx as int],
    {
        &self.dependencies[idx]
    }

    /// The patches depending on `idx`.
    pub fn dependents(&self, idx: usize) -> (r: &Vec<usize>)
        requires
            idx < self@.dependents.len(),
        ensures
            r@ == self@.dependents[idx as int],
    {
        &self.dependents[idx]
    }

    /// Whether `idx` is wanted: asked for, or needed by a wanted patch.
    pub fn is_desired(&self, idx: usize) -> (r: bool)
        requires
            idx < self@.desired.len(),
        ensures
            r == self@.desired[idx as int],
    {
        self.desired[idx]
    }

    /// The wanted patches that pulled `idx` in, empty when it was asked for
    /// directly. Only direct dependents: a longer chain is noise to a reader.
    pub fn required_by(&self, idx: usize) -> (r: Vec<usize>)
        requires
            idx < self@.selected.len(),
            idx < self@.dependents.len(),
            forall|k: int| 0 <= k < self@.dependents[idx as int].len() ==> (#[trigger] self@.dependents[idx as int][k]) < self@.desired.len(),
        ensures
            r@ == required_by_spec(self@, idx as int),
    {
        let mut out: Vec<usize> = Vec::new();
        if self.selected[idx] {
            return out;
        }
        let row = &self.dependents[idx];
        let m = row.len();
        assert(row@ == self@.dependents[idx as int]);
        for k in 0..m
            invariant
                m == row@.len(),
                row@ == self@.dependents[idx as int],
                self@.desired == self.desired@,
                forall|q: int| 0 <= q < m ==> (#[trigger] row@[q]) < self.desired@.len(),
                out@ == flagged_members(row@.take(k as int), self.desired@),
        {
            assert(row@.take(k + 1).drop_last() =~= row@.take(k as int));
            if self.desired[row[k]] {
                out.push(row[k]);
            }
        }
        assert(row@.take(m as int) =~= row@);
        out
    }

    /// Whether `idx` was switched off explicitly.
    pub fn is_disabled(&self, idx: usize) -> (r: bool)
        requires
            idx < self@.disabled.len(),
        ensures
            r == self@.disabled[idx as int],
    {
        self.disabled[idx]
    }

    /// The options `idx` runs with.
    pub fn options(&self, idx: usize) -> (r: &PatchOptions)
        requires
            idx < self@.options.len(),
        ensures
            r@ == self@.options[idx as int],
    {
        &self.options[idx]
    }

    /// Whether patches run on app versions they were not declared for.
    pub fn ignores_versions(&self) -> (r: bool)
        ensures
            r == self@.ignore_versions,
    {
        self.ignore_versions
    }

    /// Why `idx` cannot run whatever the selection, if it lacks a dependency.
    pub fn unavailable(&self, idx: usize) -> (r: Option<&String>)
        requires
            idx < self@.unavailable.len(),
        ensures
            match r {
                Some(s) => self@.unavailable[idx as int] == Some(s@),
                None => self@.unavailable[idx as int] is None,
            },
    {
        self.unavailable[idx].as_ref()
    }
}

proof fn lemma_defaults_in_range(ps: Seq<PatchSpec>, n: int)
    requires
        n <= ps.len(),
        n <= usize::MAX,
    ensures
        forall|k: int| 0 <= k < defaults(ps, n).len() ==> (#[trigger] defaults(ps, n)[k]) < n,
    decreases n,
{
    if n > 0 {
        lemma_defaults_in_range(ps, n - 1);
        let prev = defaults(ps, n - 1);
        assert forall|k: int| 0 <= k < defaults(ps, n).len() implies (#[trigger] defaults(ps, n)[k]) < n by {
            if k < prev.len() {
                assert(defaults(ps, n)[k] == prev[k]);
            }
        }
    }
}


proof fn lemma_flagged_members_within(s: Seq<usize>, flags: Seq<bool>, bound: int)
    requires
        forall|k: int| 0 <= k < s.len() ==> (#[trigger] s[k]) < bound,
    ensures
        forall|k: int| 0 <= k < flagged_members(s, flags).len() ==> (#[trigger] flagged_members(s, flags)[k]) < bound,
    decreases s.len(),
{
    if s.len() > 0 {
        lemma_flagged_members_within(s.drop_last(), flags, bound);
        let prev = flagged_members(s.drop_last(), flags);
        assert forall|k: int| 0 <= k < flagged_members(s, flags).len() implies (#[trigger] flagged_members(s, flags)[k]) < bound by {
            if k < prev.len() {
                assert(flagged_members(s, flags)[k] == prev[k]);
            } else {
                assert(s[s.len() - 1] < bound);
            }
        }
    }
}

/// The patches that pulled a patch in are patches of the plan.
pub proof fn lemma_required_by_in_range(plan: PlanView, i: int)
    requires
        edges_in_range(plan.dependents, plan.desired.len()),
        0 <= i < plan.desired.len(),
    ensures
        forall|k: int| 0 <= k < required_by_spec(plan, i).len() ==> (#[trigger] required_by_spec(plan, i)[k]) < plan.desired.len(),
{
    lemma_flagged_members_within(plan.dependents[i], plan.desired, plan.desired.len() as int);
}

} // verus!
