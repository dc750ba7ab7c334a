//! Running a plan: deciding, patch by patch in run order, whether it runs
//! or why it is skipped, and collecting what happened to each.

use vstd::prelude::*;
use crate::error::{push_lit, push_str, PatcherError};
use crate::graph::edges_in_range;
use crate::index::references_at;
use crate::log::{entry_views, EntryView, LogEntry};
use crate::model::{package_text, reference_of, version_text, PatchSpec};
use crate::options::{validator_deterministic, verdict_of, OptionDeclaration, OptionValue, ValueView};
use crate::patch::opt_view;
use crate::plan::{plan_failure, plan_for, required_by_spec, selection_well_formed, PatchSelection, PlanView, ResolvedPlan};
use crate::text::{chars_of, extend, string_of};

verus! {

/// What became of a patch.
#[derive(PartialEq, Eq, Debug)]
pub enum PatchStatus {
    Applied,
    Skipped { reason: String },
    Failed { reason: String },
}

/// What a status holds.
pub enum StatusView {
    Applied,
    Skipped(Seq<char>),
    Failed(Seq<char>),
}

impl View for PatchStatus {
    type V = StatusView;

    open spec fn view(&self) -> StatusView {
        match self {
            PatchStatus::Applied => StatusView::Applied,
            PatchStatus::Skipped { reason } => StatusView::Skipped(reason@),
            PatchStatus::Failed { reason } => StatusView::Failed(reason@),
        }
    }
}

impl PatchStatus {
    /// An equal copy.
    pub fn duplicate(&self) -> (r: PatchStatus)
        ensures
            r@ == self@,
    {
        match self {
            PatchStatus::Applied => PatchStatus::Applied,
            PatchStatus::Skipped { reason } => PatchStatus::Skipped { reason: reason.clone() },
            PatchStatus::Failed { reason } => PatchStatus::Failed { reason: reason.clone() },
        }
    }
}

/// The outcome of one patch.
#[derive(Debug)]
pub struct PatchResult {
    /// The patch's reference.
    pub patch: String,
    pub hidden: bool,
    /// The running patches that pulled this one in.
    pub required_by: Vec<String>,
    pub status: PatchStatus,
    pub logs: Vec<LogEntry>,
}

/// What a result holds.
pub struct ResultView {
    pub patch: Seq<char>,
    pub hidden: bool,
    pub required_by: Seq<Seq<char>>,
    pub status: StatusView,
    pub logs: Seq<EntryView>,
}

impl View for PatchResult {
    type V = ResultView;

    open spec fn view(&self) -> ResultView {
        ResultView {
            patch: self.patch@,
            hidden: self.hidden,
            required_by: crate::patch::string_views(self.required_by@),
            status: self.status@,
            logs: entry_views(self.logs@),
        }
    }
}

/// The views of a list of results.
pub open spec fn result_views(rs: Seq<PatchResult>) -> Seq<ResultView> {
    rs.map_values(|r: PatchResult| r@)
}

/// The views of the per-patch result slots.
pub open spec fn slot_views(rs: Seq<Option<PatchResult>>) -> Seq<Option<ResultView>> {
    rs.map_values(
        |r: Option<PatchResult>|
            match r {
                Some(v) => Some(v@),
                None => None,
            },
    )
}

/// What the engine reports while it runs.
#[derive(Debug)]
pub enum ProgressEvent {
    PatchStarted { patch: String },
    PatchLog(LogEntry),
    PatchFinished { patch: String, status: PatchStatus },
}

/// The slot holds a result whose patch applied.
pub open spec fn is_applied(r: Option<ResultView>) -> bool {
    r matches Some(v) && v.status is Applied
}

/// How a dependency that did not apply is described.
pub open spec fn dependency_detail(r: Option<ResultView>) -> Seq<char> {
    match r {
        Some(v) => match v.status {
            StatusView::Applied => Seq::empty(),
            StatusView::Skipped(reason) => "skipped: "@ + reason,
            StatusView::Failed(reason) => "failed: "@ + reason,
        },
        None => "was not executed"@,
    }
}

/// The first of `deps` that has not applied.
pub open spec fn first_blocker(deps: Seq<usize>, results: Seq<Option<ResultView>>) -> Option<int>
    decreases deps.len(),
{
    if deps.len() == 0 {
        None
    } else if first_blocker(deps.drop_last(), results) is Some {
        first_blocker(deps.drop_last(), results)
    } else if !is_applied(results[deps.last() as int]) {
        Some(deps.len() - 1)
    } else {
        None
    }
}

/// Why patch `i` does not run, given what happened to the patches before
/// it: not wanted, switched off, lacking a dependency, a dependency that did
/// not apply, or an APK it does not support (versions aside when the plan
/// ignores them).
pub open spec fn skip_text(
    ps: Seq<PatchSpec>,
    plan: PlanView,
    results: Seq<Option<ResultView>>,
    i: int,
    package: Option<Seq<char>>,
    version: Option<Seq<char>>,
) -> Option<Seq<char>> {
    if !plan.desired[i] {
        Some("not selected"@)
    } else if plan.disabled[i] {
        Some("disabled explicitly"@)
    } else if plan.unavailable[i] is Some {
        plan.unavailable[i]
    } else if first_blocker(plan.dependencies[i], results) is Some {
        let d = plan.dependencies[i][first_blocker(plan.dependencies[i], results)->0];
        Some("dependency '"@ + reference_of(ps[d as int]) + "' "@ + dependency_detail(results[d as int]))
    } else if plan.ignore_versions {
        package_text(ps[i], package)
    } else {
        version_text(ps[i], package, version)
    }
}

/// The result recorded for patch `i`.
pub open spec fn result_for(ps: Seq<PatchSpec>, plan: PlanView, i: int, status: StatusView, logs: Seq<EntryView>) -> ResultView {
    ResultView {
        patch: reference_of(ps[i]),
        hidden: ps[i].hidden,
        required_by: references_at(ps, required_by_spec(plan, i)),
        status,
        logs,
    }
}

/// A plan's tables all cover the `n` patches.
pub open spec fn plan_shape(plan: PlanView, n: nat) -> bool {
    &&& n <= usize::MAX
    &&& edges_in_range(plan.dependencies, n)
    &&& edges_in_range(plan.dependents, n)
    &&& plan.selected.len() == n
    &&& plan.desired.len() == n
    &&& plan.disabled.len() == n
    &&& plan.options.len() == n
    &&& plan.unavailable.len() == n
    &&& plan.order.no_duplicates()
    &&& forall|p: int| 0 <= p < plan.order.len() ==> (#[trigger] plan.order[p]) < n
}

/// Every plan the engine accepts has the shape of its patch list.
pub proof fn lemma_plan_shape(
    plan: PlanView,
    ps: Seq<PatchSpec>,
    s: PatchSelection,
    package: Option<Seq<char>>,
    verdict: spec_fn(OptionDeclaration, ValueView) -> Option<Seq<char>>,
)
    requires
        plan_for(plan, ps, s, package, verdict),
    ensures
        plan_shape(plan, ps.len()),
{
}

/// The results of the patches, in run order, skipping those without one.
pub open spec fn collected(order: Seq<usize>, results: Seq<Option<ResultView>>) -> Seq<ResultView>
    decreases order.len(),
{
    if order.len() == 0 {
        Seq::empty()
    } else {
        match results[order.last() as int] {
            Some(v) => collected(order.drop_last(), results).push(v),
            None => collected(order.drop_last(), results),
        }
    }
}

/// A run over a plan: the results recorded so far, one slot per patch.
pub struct Run<'a> {
    patches: &'a [PatchSpec],
    plan: &'a ResolvedPlan,
    results: Vec<Option<PatchResult>>,
}

impl<'a> Run<'a> {
    /// The patches the run is over.
    pub closed spec fn specs(&self) -> Seq<PatchSpec> {
        self.patches@
    }

    /// The plan the run follows.
    pub closed spec fn plan_view(&self) -> PlanView {
        self.plan@
    }

    /// The results recorded so far.
    pub closed spec fn outcomes(&self) -> Seq<Option<ResultView>> {
        slot_views(self.results@)
    }

    /// The run's tables agree.
    pub open spec fn wf(&self) -> bool {
        &&& plan_shape(self.plan_view(), self.specs().len())
        &&& self.outcomes().len() == self.specs().len()
    }

    /// A run with nothing recorded yet.
    pub fn new(patches: &'a [PatchSpec], plan: &'a ResolvedPlan) -> (r: Self)
        requires
            plan_shape(plan@, patches@.len()),
        ensures
            r.wf(),
            r.specs() == patches@,
            r.plan_view() == plan@,
            forall|i: int| 0 <= i < patches@.len() ==> r.outcomes()[i] is None,
    {
        let mut results: Vec<Option<PatchResult>> = Vec::new();
        let n = patches.len();
        for i in 0..n
            invariant
                results@.len() == i,
                forall|j: int| 0 <= j < i ==> results@[j] is None,
        {
            results.push(None);
        }
        Run { patches, plan, results }
    }

    /// Why patch `idx` does not run, or `None` when it does.
    pub fn skip_reason(&self, idx: usize, package: Option<&str>, version: Option<&str>) -> (r: Option<String>)
        requires
            self.wf(),
            idx < self.specs().len(),
        ensures
            match r {
                Some(s) => skip_text(self.specs(), self.plan_view(), self.outcomes(), idx as int, opt_view(package), opt_view(version)) == Some(s@),
                None => skip_text(self.specs(), self.plan_view(), self.outcomes(), idx as int, opt_view(package), opt_view(version)) is None,
            },
    {
        if !self.plan.is_desired(idx) {
            return Some(String::from_str("not selected"));
        }
        if self.plan.is_disabled(idx) {
            return Some(String::from_str("disabled explicitly"));
        }
        match self.plan.unavailable(idx) {
            Some(reason) => {
                return Some(reason.clone());
            },
            None => {},
        }
        let deps = self.plan.dependencies(idx);
        let ghost dv = self.plan_view().dependencies[idx as int];
        let ghost res = self.outcomes();
        let m = deps.len();
        for k in 0..m
            invariant
                self.wf(),
                idx < self.specs().len(),
                deps@ == dv,
                dv == self.plan_view().dependencies[idx as int],
                res == self.outcomes(),
                m == dv.len(),
                first_blocker(dv.take(k as int), res) is None,
                self.plan_view().desired[idx as int],
                !self.plan_view().disabled[idx as int],
                self.plan_view().unavailable[idx as int] is None,
        {
            let d = deps[k];
            assert(d < self.specs().len());
            assert(dv.take(k + 1).drop_last() =~= dv.take(k as int));
            let slot = &self.results[d];
            let done = match slot {
                Some(result) => match &result.status {
                    PatchStatus::Applied => true,
                    _ => false,
                },
                None => false,
            };
            if !done {
                let detail: Vec<char> = match slot {
                    Some(result) => match &result.status {
                        PatchStatus::Skipped { reason } => {
                            let mut t = chars_of("skipped: ");
                            push_str(&mut t, reason);
                            t
                        },
                        PatchStatus::Failed { reason } => {
                            let mut t = chars_of("failed: ");
                            push_str(&mut t, reason);
                            t
                        },
                        PatchStatus::Applied => Vec::new(),
                    },
                    None => chars_of("was not executed"),
                };
                proof {
                    lemma_first_blocker_prefix(dv, res, k + 1);
                    assert(first_blocker(dv.take(k + 1), res) == Some(k as int));
                    assert(detail@ == dependency_detail(res[d as int]));
                }
                let mut msg: Vec<char> = Vec::new();
                push_lit(&mut msg, "dependency '");
                let r = self.patches[d].reference_chars();
                extend(&mut msg, &r);
                push_lit(&mut msg, "' ");
                extend(&mut msg, &detail);
                assert(msg@ =~= "dependency '"@ + reference_of(self.specs()[d as int]) + "' "@ + dependency_detail(res[d as int]));
                return Some(string_of(&msg));
            }
        }
        assert(dv.take(m as int) =~= dv);
        let spec = &self.patches[idx];
        if self.plan.ignores_versions() {
            spec.package_incompatibility(package)
        } else {
            spec.incompatibility(package, version)
        }
    }

    /// Whether patch `idx` has applied.
    pub fn applied(&self, idx: usize) -> (r: bool)
        requires
            self.wf(),
            idx < self.specs().len(),
        ensures
            r == is_applied(self.outcomes()[idx as int]),
    {
        match &self.results[idx] {
            Some(result) => match result.status {
                PatchStatus::Applied => true,
                _ => false,
            },
            None => false,
        }
    }

    /// Whether patch `idx` gets its `after_dependents` hook once every patch
    /// has run: every patch that applied does.
    pub fn after_dependents_due(&self, idx: usize) -> (r: bool)
        requires
            self.wf(),
            idx < self.specs().len(),
        ensures
            r == is_applied(self.outcomes()[idx as int]),
    {
        self.applied(idx)
    }

    /// Records `status` and `logs` for patch `idx`; the event announcing it
    /// is returned for the caller to deliver.
    pub fn finish(&mut self, idx: usize, status: PatchStatus, logs: Vec<LogEntry>) -> (r: ProgressEvent)
        requires
            old(self).wf(),
            idx < old(self).specs().len(),
        ensures
            final(self).wf(),
            final(self).specs() == old(self).specs(),
            final(self).plan_view() == old(self).plan_view(),
            final(self).outcomes() == old(self).outcomes().update(
                idx as int,
                Some(result_for(old(self).specs(), old(self).plan_view(), idx as int, status@, entry_views(logs@))),
            ),
            r matches ProgressEvent::PatchFinished { patch, status: s } && patch@ == reference_of(
                old(self).specs()[idx as int],
            ) && s@ == status@,
    {
        let patch = self.patches[idx].reference();
        let event = ProgressEvent::PatchFinished { patch: patch.clone(), status: status.duplicate() };
        let dependents = self.plan.required_by(idx);
        let mut required_by: Vec<String> = Vec::new();
        let m = dependents.len();
        proof {
            crate::plan::lemma_required_by_in_range(self.plan_view(), idx as int);
        }
        for k in 0..m
            invariant
                m == dependents@.len(),
                dependents@ == required_by_spec(self.plan_view(), idx as int),
                forall|q: int| 0 <= q < m ==> (#[trigger] dependents@[q]) < self.specs().len(),
                self.specs() == self.patches@,
                required_by@.len() == k,
                forall|q: int| 0 <= q < k ==> #[trigger] required_by@[q]@ == reference_of(self.specs()[dependents@[q] as int]),
        {
            required_by.push(self.patches[dependents[k]].reference());
        }
        assert(crate::patch::string_views(required_by@) =~= references_at(self.specs(), dependents@));
        let result = PatchResult { patch, hidden: self.patches[idx].hidden, required_by, status, logs };
        self.results.set(idx, Some(result));
        assert(slot_views(self.results@) =~= slot_views(old(self).results@).update(idx as int, Some(result@)));
        event
    }

    /// Appends `logs` to what patch `idx` has recorded.
    pub fn append_logs(&mut self, idx: usize, logs: Vec<LogEntry>)
        requires
            old(self).wf(),
            idx < old(self).specs().len(),
        ensures
            final(self).wf(),
            final(self).specs() == old(self).specs(),
            final(self).plan_view() == old(self).plan_view(),
            final(self).outcomes() == match old(self).outcomes()[idx as int] {
                Some(v) => old(self).outcomes().update(idx as int, Some(ResultView { logs: v.logs + entry_views(logs@), ..v })),
                None => old(self).outcomes(),
            },
    {
        let mut slot: Option<PatchResult> = None;
        std::mem::swap(&mut slot, &mut self.results[idx]);
        match slot {
            Some(mut result) => {
                let ghost before = entry_views(result.logs@);
                let mut extra = logs;
                result.logs.append(&mut extra);
                assert(entry_views(result.logs@) =~= before + entry_views(logs@));
                self.results.set(idx, Some(result));
                assert(slot_views(self.results@) =~= old(self).outcomes().update(idx as int, Some(result@)));
            },
            None => {
                self.results.set(idx, None);
                assert(slot_views(self.results@) =~= old(self).outcomes());
            },
        }
    }

    /// Marks patch `idx` failed for `reason`, if it has a result; the event
    /// announcing it is returned for the caller to deliver.
    pub fn fail(&mut self, idx: usize, reason: String) -> (r: Option<ProgressEvent>)
        requires
            old(self).wf(),
            idx < old(self).specs().len(),
        ensures
            final(self).wf(),
            final(self).specs() == old(self).specs(),
            final(self).plan_view() == old(self).plan_view(),
            match old(self).outcomes()[idx as int] {
                Some(v) => final(self).outcomes() == old(self).outcomes().update(
                    idx as int,
                    Some(ResultView { status: StatusView::Failed(reason@), ..v }),
                ) && (r matches Some(ProgressEvent::PatchFinished { patch, status: s }) && patch@ == v.patch
                    && s@ == StatusView::Failed(reason@)),
                None => final(self).outcomes() == old(self).outcomes() && r is None,
            },
    {
        let mut slot: Option<PatchResult> = None;
        std::mem::swap(&mut slot, &mut self.results[idx]);
        match slot {
            Some(mut result) => {
                result.status = PatchStatus::Failed { reason };
                let event = ProgressEvent::PatchFinished { patch: result.patch.clone(), status: result.status.duplicate() };
                self.results.set(idx, Some(result));
                assert(slot_views(self.results@) =~= old(self).outcomes().update(idx as int, Some(result@)));
                Some(event)
            },
            None => {
                self.results.set(idx, None);
                assert(slot_views(self.results@) =~= old(self).outcomes());
                None
            },
        }
    }

    /// The recorded results, in run order.
    pub fn into_results(self) -> (r: Vec<PatchResult>)
        requires
            self.wf(),
        ensures
            result_views(r@) == collected(self.plan_view().order, self.outcomes()),
    {
        let ghost start = self.outcomes();
        let ghost order = self.plan_view().order;
        let mut results = self.results;
        let plan = self.plan;
        let ord = plan.order();
        let mut out: Vec<PatchResult> = Vec::new();
        let m = ord.len();
        for k in 0..m
            invariant
                ord@ == order,
                m == order.len(),
                order.no_duplicates(),
                forall|p: int| 0 <= p < m ==> (#[trigger] order[p]) < start.len(),
                results@.len() == start.len(),
                forall|i: int| 0 <= i < start.len() && !order.take(k as int).contains(i as usize) ==> #[trigger] slot_views(results@)[i] == start[i],
                result_views(out@) == collected(order.take(k as int), start),
        {
            let idx = ord[k];
            assert(order.take(k + 1).drop_last() =~= order.take(k as int));
            assert(!order.take(k as int).contains(idx)) by {
                if order.take(k as int).contains(idx) {
                    let j = choose|j: int| 0 <= j < k && order.take(k as int)[j] == idx;
                    assert(order[j] == order[k as int]);
                }
            }
            assert(slot_views(results@)[idx as int] == start[idx as int]);
            let ghost before = results@;
            let mut slot: Option<PatchResult> = None;
            std::mem::swap(&mut slot, &mut results[idx]);
            let ghost taken = slot;
            assert(results@ == before.update(idx as int, None));
            match slot {
                Some(result) => {
                    out.push(result);
                    assert(result_views(out@) =~= collected(order.take(k as int), start).push(taken->0@));
                },
                None => {},
            }
            assert forall|i: int| 0 <= i < start.len() && !order.take(k + 1).contains(i as usize) implies #[trigger] slot_views(results@)[i] == start[i] by {
                assert(order.take(k + 1)[k as int] == idx);
                if i != idx {
                    assert(results@[i] == before[i]);
                    assert(slot_views(results@)[i] == slot_views(before)[i]);
                    if order.take(k as int).contains(i as usize) {
                        let j = choose|j: int| 0 <= j < k && order.take(k as int)[j] == i as usize;
                        assert(order.take(k + 1)[j] == i as usize);
                    }
                }
            }
        }
        assert(order.take(m as int) =~= order);
        out
    }
}

proof fn lemma_first_blocker_prefix(deps: Seq<usize>, results: Seq<Option<ResultView>>, k: int)
    requires
        0 <= k <= deps.len(),
        first_blocker(deps.take(k), results) is Some,
    ensures
        first_blocker(deps, results) == first_blocker(deps.take(k), results),
    decreases deps.len() - k,
{
    if k < deps.len() {
        assert(deps.drop_last().take(k) =~= deps.take(k));
        lemma_first_blocker_prefix(deps.drop_last(), results, k);
    } else {
        assert(deps.take(k) =~= deps);
    }
}


/// The status a patch gets when nothing is run: skipped for a reason, or
/// would apply.
pub open spec fn status_of(text: Option<Seq<char>>) -> StatusView {
    match text {
        Some(reason) => StatusView::Skipped(reason),
        None => StatusView::Applied,
    }
}

/// The results after deciding the first `k` patches of the run order
/// without touching an APK.
pub open spec fn validated_after(
    ps: Seq<PatchSpec>,
    plan: PlanView,
    package: Option<Seq<char>>,
    version: Option<Seq<char>>,
    k: int,
) -> Seq<Option<ResultView>>
    decreases k,
{
    if k <= 0 {
        Seq::new(ps.len(), |i: int| None)
    } else {
        let prev = validated_after(ps, plan, package, version, k - 1);
        let i = plan.order[k - 1] as int;
        prev.update(
            i,
            Some(result_for(ps, plan, i, status_of(skip_text(ps, plan, prev, i, package, version)), Seq::empty())),
        )
    }
}

/// The results after applying the first `k` patches of the run order: a
/// patch `skip_text` gives a reason for is skipped with it, and one that
/// runs ends with the status and logs `outcome` gives it.
pub open spec fn applied_after(
    ps: Seq<PatchSpec>,
    plan: PlanView,
    package: Option<Seq<char>>,
    version: Option<Seq<char>>,
    outcome: spec_fn(int) -> (StatusView, Seq<EntryView>),
    k: int,
) -> Seq<Option<ResultView>>
    decreases k,
{
    if k <= 0 {
        Seq::new(ps.len(), |i: int| None)
    } else {
        let prev = applied_after(ps, plan, package, version, outcome, k - 1);
        let i = plan.order[k - 1] as int;
        match skip_text(ps, plan, prev, i, package, version) {
            Some(reason) => prev.update(i, Some(result_for(ps, plan, i, StatusView::Skipped(reason), Seq::empty()))),
            None => prev.update(i, Some(result_for(ps, plan, i, outcome(i).0, outcome(i).1))),
        }
    }
}

/// What the result slots say of each patch's status.
pub open spec fn status_views(rs: Seq<Option<ResultView>>) -> Seq<Option<StatusView>> {
    rs.map_values(
        |r: Option<ResultView>|
            match r {
                Some(v) => Some(v.status),
                None => None,
            },
    )
}

proof fn lemma_first_blocker_in_range(deps: Seq<usize>, results: Seq<Option<ResultView>>)
    ensures
        first_blocker(deps, results) matches Some(j) ==> 0 <= j < deps.len(),
    decreases deps.len(),
{
    if deps.len() > 0 {
        lemma_first_blocker_in_range(deps.drop_last(), results);
    }
}

/// Which dependency blocks a patch depends only on the statuses recorded.
proof fn lemma_first_blocker_statuses(deps: Seq<usize>, r1: Seq<Option<ResultView>>, r2: Seq<Option<ResultView>>)
    requires
        r1.len() == r2.len(),
        status_views(r1) == status_views(r2),
        forall|k: int| 0 <= k < deps.len() ==> (#[trigger] deps[k]) < r1.len(),
    ensures
        first_blocker(deps, r1) == first_blocker(deps, r2),
    decreases deps.len(),
{
    if deps.len() > 0 {
        lemma_first_blocker_statuses(deps.drop_last(), r1, r2);
        let d = deps.last() as int;
        assert(deps[deps.len() - 1] < r1.len());
        assert(status_views(r1)[d] == status_views(r2)[d]);
    }
}

/// Why a patch is skipped depends only on the statuses recorded before it.
proof fn lemma_skip_text_statuses(
    ps: Seq<PatchSpec>,
    plan: PlanView,
    r1: Seq<Option<ResultView>>,
    r2: Seq<Option<ResultView>>,
    i: int,
    package: Option<Seq<char>>,
    version: Option<Seq<char>>,
)
    requires
        plan_shape(plan, ps.len()),
        0 <= i < ps.len(),
        r1.len() == ps.len(),
        r2.len() == ps.len(),
        status_views(r1) == status_views(r2),
    ensures
        skip_text(ps, plan, r1, i, package, version) == skip_text(ps, plan, r2, i, package, version),
{
    let deps = plan.dependencies[i];
    assert forall|k: int| 0 <= k < deps.len() implies (#[trigger] deps[k]) < r1.len() by {
        assert(plan.dependencies[i][k] < ps.len());
    }
    lemma_first_blocker_statuses(deps, r1, r2);
    if first_blocker(deps, r1) is Some {
        let d = deps[first_blocker(deps, r1)->0] as int;
        lemma_first_blocker_in_range(deps, r1);
        assert(status_views(r1)[d] == status_views(r2)[d]);
    }
}

/// Validation reports what applying reports when every patch that runs
/// applies: the same patches have results, with the same statuses, logs
/// aside.
pub proof fn lemma_applying_agrees_with_validation(
    ps: Seq<PatchSpec>,
    plan: PlanView,
    package: Option<Seq<char>>,
    version: Option<Seq<char>>,
    outcome: spec_fn(int) -> (StatusView, Seq<EntryView>),
    k: int,
)
    requires
        plan_shape(plan, ps.len()),
        0 <= k <= plan.order.len(),
        forall|i: int| 0 <= i < ps.len() ==> (#[trigger] outcome(i)).0 == StatusView::Applied,
    ensures
        applied_after(ps, plan, package, version, outcome, k).len() == ps.len(),
        validated_after(ps, plan, package, version, k).len() == ps.len(),
        status_views(applied_after(ps, plan, package, version, outcome, k)) == status_views(
            validated_after(ps, plan, package, version, k),
        ),
    decreases k,
{
    if k == 0 {
        assert(status_views(applied_after(ps, plan, package, version, outcome, 0)) =~= status_views(
            validated_after(ps, plan, package, version, 0),
        ));
    } else {
        lemma_applying_agrees_with_validation(ps, plan, package, version, outcome, k - 1);
        let a = applied_after(ps, plan, package, version, outcome, k - 1);
        let v = validated_after(ps, plan, package, version, k - 1);
        let i = plan.order[k - 1] as int;
        assert(plan.order[k - 1] < ps.len());
        lemma_skip_text_statuses(ps, plan, a, v, i, package, version);
        let a2 = applied_after(ps, plan, package, version, outcome, k);
        let v2 = validated_after(ps, plan, package, version, k);
        assert(status_views(a2) =~= status_views(v2)) by {
            assert forall|j: int| 0 <= j < ps.len() implies status_views(a2)[j] == status_views(v2)[j] by {
                if j != i {
                    assert(status_views(a)[j] == status_views(v)[j]);
                }
            }
        }
    }
}

/// What validation reports for a plan: every patch's result, in run order.
pub open spec fn validation(ps: Seq<PatchSpec>, plan: PlanView, package: Option<Seq<char>>, version: Option<Seq<char>>) -> Seq<ResultView> {
    collected(plan.order, validated_after(ps, plan, package, version, plan.order.len() as int))
}

/// The outcome of applying the selection without touching the APK: which
/// patches would run and which would be skipped, given the app's package
/// and version. Option values are checked with `validate`.
pub fn validate_patches<F: Fn(&OptionDeclaration, &OptionValue) -> Result<(), String>>(
    patches: &[PatchSpec],
    selection: &PatchSelection,
    package: Option<&str>,
    version: Option<&str>,
    validate: &F,
) -> (r: Result<Vec<PatchResult>, PatcherError>)
    requires
        selection_well_formed(*selection),
        validator_deterministic(*validate),
    ensures
        match r {
            Ok(results) => exists|plan: PlanView|
                plan_for(plan, patches@, *selection, opt_view(package), verdict_of(*validate)) && result_views(results@)
                    == validation(
                    patches@,
                    plan,
                    opt_view(package),
                    opt_view(version),
                ),
            Err(e) => plan_failure(e, patches@, *selection, opt_view(package), verdict_of(*validate)),
        },
{
    let ghost ps = patches@;
    let ghost pkg = opt_view(package);
    let ghost ver = opt_view(version);
    let plan = match ResolvedPlan::resolve(patches, selection, package, validate) {
        Ok(plan) => plan,
        Err(e) => return Err(e),
    };
    proof {
        lemma_plan_shape(plan@, ps, *selection, pkg, verdict_of(*validate));
    }
    let mut run = Run::new(patches, &plan);
    assert(run.outcomes() =~= validated_after(ps, plan@, pkg, ver, 0));
    let order = plan.order();
    let m = order.len();
    for k in 0..m
        invariant
            m == order@.len(),
            order@ == plan@.order,
            run.wf(),
            run.specs() == ps,
            run.plan_view() == plan@,
            plan_shape(plan@, ps.len()),
            pkg == opt_view(package),
            ver == opt_view(version),
            run.outcomes() == validated_after(ps, plan@, pkg, ver, k as int),
    {
        let idx = order[k];
        let status = match run.skip_reason(idx, package, version) {
            Some(reason) => PatchStatus::Skipped { reason },
            None => PatchStatus::Applied,
        };
        let logs: Vec<LogEntry> = Vec::new();
        assert(entry_views(logs@) =~= Seq::<EntryView>::empty());
        let _ = run.finish(idx, status, logs);
    }
    let results = run.into_results();
    assert(plan_for(plan@, ps, *selection, pkg, verdict_of(*validate)) && result_views(results@) == validation(
        ps,
        plan@,
        pkg,
        ver,
    ));
    Ok(results)
}


/// The results once every patch of the run order has been decided.
pub open spec fn validated(ps: Seq<PatchSpec>, plan: PlanView, package: Option<Seq<char>>, version: Option<Seq<char>>) -> Seq<Option<ResultView>> {
    validated_after(ps, plan, package, version, plan.order.len() as int)
}

proof fn lemma_validated_len(ps: Seq<PatchSpec>, plan: PlanView, package: Option<Seq<char>>, version: Option<Seq<char>>, k: int)
    requires
        plan_shape(plan, ps.len()),
        0 <= k <= plan.order.len(),
    ensures
        validated_after(ps, plan, package, version, k).len() == ps.len(),
    decreases k,
{
    if k > 0 {
        lemma_validated_len(ps, plan, package, version, k - 1);
    }
}

/// Only patches already decided have a result.
proof fn lemma_validated_decided(ps: Seq<PatchSpec>, plan: PlanView, package: Option<Seq<char>>, version: Option<Seq<char>>, k: int, x: int)
    requires
        plan_shape(plan, ps.len()),
        0 <= k <= plan.order.len(),
        0 <= x < ps.len(),
        validated_after(ps, plan, package, version, k)[x] is Some,
    ensures
        plan.order.take(k).contains(x as usize),
    decreases k,
{
    lemma_validated_len(ps, plan, package, version, k);
    if k > 0 {
        let i = plan.order[k - 1] as int;
        if x == i {
            assert(plan.order.take(k)[k - 1] == x as usize);
        } else {
            lemma_validated_len(ps, plan, package, version, k - 1);
            lemma_validated_decided(ps, plan, package, version, k - 1, x);
            let t = plan.order.take(k - 1);
            let p = choose|p: int| 0 <= p < t.len() && #[trigger] t[p] == x as usize;
            assert(plan.order.take(k)[p] == x as usize);
        }
    }
}

/// A result, once recorded, stays as it is while later patches are decided.
proof fn lemma_validated_stable(ps: Seq<PatchSpec>, plan: PlanView, package: Option<Seq<char>>, version: Option<Seq<char>>, k: int, j: int, x: int)
    requires
        plan_shape(plan, ps.len()),
        0 <= k <= j <= plan.order.len(),
        0 <= x < ps.len(),
        forall|p: int| k <= p < j ==> plan.order[p] != x as usize,
    ensures
        validated_after(ps, plan, package, version, j)[x] == validated_after(ps, plan, package, version, k)[x],
    decreases j - k,
{
    if j > k {
        lemma_validated_stable(ps, plan, package, version, k, j - 1, x);
        lemma_validated_len(ps, plan, package, version, j - 1);
    }
}

/// Every patch of the run order has a result once all are decided.
proof fn lemma_validated_all(ps: Seq<PatchSpec>, plan: PlanView, package: Option<Seq<char>>, version: Option<Seq<char>>, q: int)
    requires
        plan_shape(plan, ps.len()),
        0 <= q < plan.order.len(),
    ensures
        validated(ps, plan, package, version)[plan.order[q] as int] == validated_after(ps, plan, package, version, q + 1)[plan.order[q] as int],
        validated(ps, plan, package, version)[plan.order[q] as int] is Some,
{
    let x = plan.order[q] as int;
    lemma_validated_len(ps, plan, package, version, q);
    assert forall|p: int| q + 1 <= p < plan.order.len() implies plan.order[p] != x as usize by {
        assert(plan.order[p] != plan.order[q]);
    }
    lemma_validated_stable(ps, plan, package, version, q + 1, plan.order.len() as int, x);
}

proof fn lemma_no_blocker(deps: Seq<usize>, results: Seq<Option<ResultView>>)
    requires
        first_blocker(deps, results) is None,
    ensures
        forall|k: int| 0 <= k < deps.len() ==> is_applied(#[trigger] results[deps[k] as int]),
    decreases deps.len(),
{
    if deps.len() > 0 {
        lemma_no_blocker(deps.drop_last(), results);
        assert forall|k: int| 0 <= k < deps.len() implies is_applied(#[trigger] results[deps[k] as int]) by {
            if k < deps.len() - 1 {
                assert(deps[k] == deps.drop_last()[k]);
            }
        }
    }
}

proof fn lemma_collected_all(order: Seq<usize>, results: Seq<Option<ResultView>>)
    requires
        forall|p: int| 0 <= p < order.len() ==> (#[trigger] results[order[p] as int]) is Some,
    ensures
        collected(order, results).len() == order.len(),
        forall|p: int| 0 <= p < order.len() ==> Some(#[trigger] collected(order, results)[p]) == results[order[p] as int],
    decreases order.len(),
{
    if order.len() > 0 {
        assert forall|p: int| 0 <= p < order.drop_last().len() implies (#[trigger] results[order.drop_last()[p] as int]) is Some by {
            assert(order.drop_last()[p] == order[p]);
        }
        lemma_collected_all(order.drop_last(), results);
        assert(results[order[order.len() - 1] as int] is Some);
        assert forall|p: int| 0 <= p < order.len() implies Some(#[trigger] collected(order, results)[p]) == results[order[p] as int] by {
            if p < order.len() - 1 {
                assert(order.drop_last()[p] == order[p]);
            }
        }
    }
}

/// Validation reports every patch of the plan exactly once, in run order.
pub proof fn lemma_validation_reports_each_patch(ps: Seq<PatchSpec>, plan: PlanView, package: Option<Seq<char>>, version: Option<Seq<char>>)
    requires
        plan_shape(plan, ps.len()),
    ensures
        validation(ps, plan, package, version).len() == plan.order.len(),
        forall|k: int|
            0 <= k < plan.order.len() ==> (#[trigger] validation(ps, plan, package, version)[k]).patch == reference_of(
                ps[plan.order[k] as int],
            ),
{
    let f = validated(ps, plan, package, version);
    assert forall|p: int| 0 <= p < plan.order.len() implies (#[trigger] f[plan.order[p] as int]) is Some by {
        lemma_validated_all(ps, plan, package, version, p);
    }
    lemma_collected_all(plan.order, f);
    assert forall|k: int|
        0 <= k < plan.order.len() implies (#[trigger] validation(ps, plan, package, version)[k]).patch == reference_of(
            ps[plan.order[k] as int],
        ) by {
        lemma_validated_all(ps, plan, package, version, k);
        lemma_validated_len(ps, plan, package, version, k);
    }
}

/// A patch validation reports as applying is wanted, not switched off, has
/// its dependencies, and every one of them applies too.
pub proof fn lemma_applied_needs_dependencies(
    ps: Seq<PatchSpec>,
    plan: PlanView,
    package: Option<Seq<char>>,
    version: Option<Seq<char>>,
    i: int,
)
    requires
        plan_shape(plan, ps.len()),
        0 <= i < ps.len(),
        is_applied(validated(ps, plan, package, version)[i]),
    ensures
        plan.desired[i],
        !plan.disabled[i],
        plan.unavailable[i] is None,
        forall|k: int|
            0 <= k < plan.dependencies[i].len() ==> is_applied(
                #[trigger] validated(ps, plan, package, version)[plan.dependencies[i][k] as int],
            ),
{
    let n = plan.order.len() as int;
    let f = validated(ps, plan, package, version);
    lemma_validated_len(ps, plan, package, version, n);
    lemma_validated_decided(ps, plan, package, version, n, i);
    let tn = plan.order.take(n);
    let q = choose|q: int| 0 <= q < tn.len() && #[trigger] tn[q] == i as usize;
    assert(plan.order[q] == i as usize);
    lemma_validated_all(ps, plan, package, version, q);
    let prev = validated_after(ps, plan, package, version, q);
    lemma_validated_len(ps, plan, package, version, q);
    assert(plan.order[q] as int == i);
    let next = validated_after(ps, plan, package, version, q + 1);
    assert(next == prev.update(i, Some(result_for(ps, plan, i, status_of(skip_text(ps, plan, prev, i, package, version)), Seq::empty()))));
    assert(next[i] == Some(result_for(ps, plan, i, status_of(skip_text(ps, plan, prev, i, package, version)), Seq::empty())));
    assert(f[i] == next[i]);
    assert(skip_text(ps, plan, prev, i, package, version) is None);
    lemma_no_blocker(plan.dependencies[i], prev);
    assert forall|k: int| 0 <= k < plan.dependencies[i].len() implies is_applied(#[trigger] f[plan.dependencies[i][k] as int]) by {
        let d = plan.dependencies[i][k] as int;
        assert(is_applied(prev[d]));
        lemma_validated_decided(ps, plan, package, version, q, d);
        let tq = plan.order.take(q);
        let r = choose|r: int| 0 <= r < tq.len() && #[trigger] tq[r] == d as usize;
        assert(plan.order[r] == d as usize);
        assert forall|p: int| q <= p < n implies plan.order[p] != d as usize by {
            assert(plan.order[p] != plan.order[r]);
        }
        lemma_validated_stable(ps, plan, package, version, q, n, d);
    }
}

} // verus!
