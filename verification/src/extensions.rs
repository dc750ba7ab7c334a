//! Extension DEX files a bundle ships, linked into the app on demand: the
//! first reference a patch makes to a class one of them defines merges that
//! file, plus every other extension file it references, into the APK. The
//! files themselves stay with the host; this table decides which to merge.

use vstd::prelude::*;
use crate::descriptor::{class_of, class_of_spec, is_platform, platform_prefixes};
use crate::error::{push_lit, push_str, PatcherError};
use crate::text::{chars_eq, chars_of, has_prefix, string_of};
use crate::graph::{count_set, lemma_count_set_bound, lemma_count_set_update};

verus! {

/// `set` holds every start not yet done, and every not-done target of an
/// edge leaving one of its members.
pub open spec fn covers_from(set: Set<usize>, starts: Set<usize>, edges: Seq<Seq<usize>>, done: Set<usize>) -> bool {
    &&& forall|s: usize| #[trigger] starts.contains(s) && !done.contains(s) ==> set.contains(s)
    &&& forall|i: usize, k: int|
        set.contains(i) && 0 <= k < edges[i as int].len() && !done.contains(#[trigger] edges[i as int][k]) ==> set.contains(
            edges[i as int][k],
        )
}

/// `v` is the least such set: what merging from `starts` takes when the
/// files in `done` are merged already.
pub open spec fn least_cover(v: Set<usize>, starts: Set<usize>, edges: Seq<Seq<usize>>, done: Set<usize>) -> bool {
    &&& covers_from(v, starts, edges, done)
    &&& v.disjoint(done)
    &&& forall|s: Set<usize>| #[trigger] covers_from(s, starts, edges, done) ==> v.subset_of(s)
}

/// Merging from more starts takes the union of what each merge takes.
pub proof fn lemma_least_cover_union(
    v1: Set<usize>,
    s1: Set<usize>,
    v2: Set<usize>,
    p: usize,
    edges: Seq<Seq<usize>>,
    done: Set<usize>,
)
    requires
        least_cover(v1, s1, edges, done),
        least_cover(v2, set![p], edges, done + v1),
    ensures
        least_cover(v1 + v2, s1.insert(p), edges, done),
{
    let u = v1 + v2;
    assert forall|s: usize| #[trigger] s1.insert(p).contains(s) && !done.contains(s) implies u.contains(s) by {
        if s == p {
            if !v1.contains(p) {
                assert(set![p].contains(p));
            }
        } else {
            assert(s1.contains(s));
        }
    }
    assert forall|i: usize, k: int|
        u.contains(i) && 0 <= k < edges[i as int].len() && !done.contains(#[trigger] edges[i as int][k]) implies u.contains(
        edges[i as int][k],
    ) by {
        let t = edges[i as int][k];
        if v1.contains(i) {
            assert(v1.contains(t));
        } else if !v1.contains(t) {
            assert(!(done + v1).contains(t));
        }
    }
    assert forall|s: Set<usize>| #[trigger] covers_from(s, s1.insert(p), edges, done) implies u.subset_of(s) by {
        assert(covers_from(s, s1, edges, done)) by {
            assert forall|x: usize| #[trigger] s1.contains(x) && !done.contains(x) implies s.contains(x) by {
                assert(s1.insert(p).contains(x));
            }
        }
        assert(v1.subset_of(s));
        assert(covers_from(s, set![p], edges, done + v1)) by {
            assert forall|x: usize| #[trigger] set![p].contains(x) && !(done + v1).contains(x) implies s.contains(x) by {
                assert(s1.insert(p).contains(x));
            }
        }
    }
    assert(u.disjoint(done));
}

/// A file merges once: merging from a file already merged takes nothing.
pub proof fn lemma_merged_file_takes_nothing(v: Set<usize>, p: usize, edges: Seq<Seq<usize>>, done: Set<usize>)
    requires
        least_cover(v, set![p], edges, done),
        done.contains(p),
    ensures
        v == Set::<usize>::empty(),
{
    assert(covers_from(Set::<usize>::empty(), set![p], edges, done));
    assert(v =~= Set::<usize>::empty());
}

/// The extension files, the class each defines, and the classes linking
/// has warned about.
pub struct ExtensionSet {
    /// Per file: its name, whether it was merged, and the types it refers to.
    names: Vec<String>,
    merged: Vec<bool>,
    references: Vec<Vec<String>>,
    /// Which file defines each class.
    providers: Vec<(String, usize)>,
    warned: Vec<String>,
}

impl Default for ExtensionSet {
    fn default() -> (r: Self)
        ensures
            r.wf(),
            r.file_count() == 0,
            r.merged_set() == Set::<usize>::empty(),
            r.warned_set() == Set::<Seq<char>>::empty(),
    {
        ExtensionSet::new()
    }
}

/// The file `providers` says defines `class`.
pub open spec fn provider_of(providers: Seq<(Seq<char>, usize)>, class: Seq<char>) -> Option<usize>
    decreases providers.len(),
{
    if providers.len() == 0 {
        None
    } else if providers[0].0 == class {
        Some(providers[0].1)
    } else {
        provider_of(providers.drop_first(), class)
    }
}

/// The files the references of file `i` lead to, itself aside.
pub open spec fn reference_edges(providers: Seq<(Seq<char>, usize)>, refs: Seq<Seq<char>>, i: usize) -> Seq<usize>
    decreases refs.len(),
{
    if refs.len() == 0 {
        Seq::empty()
    } else {
        let rest = reference_edges(providers, refs.drop_last(), i);
        match provider_of(providers, refs.last()) {
            Some(p) => if p != i { rest.push(p) } else { rest },
            None => rest,
        }
    }
}

/// The views of a table of strings.
pub open spec fn name_views(v: Seq<String>) -> Seq<Seq<char>> {
    v.map_values(|s: String| s@)
}

impl ExtensionSet {
    /// The class-to-file table.
    pub closed spec fn providers_view(&self) -> Seq<(Seq<char>, usize)> {
        self.providers@.map_values(|e: (String, usize)| (e.0@, e.1))
    }

    /// Per file, whether it was merged.
    pub closed spec fn merged_flags(&self) -> Seq<bool> {
        self.merged@
    }

    /// The files merged so far.
    pub closed spec fn merged_set(&self) -> Set<usize> {
        Set::new(|i: usize| i < self.merged@.len() && self.merged@[i as int])
    }

    /// How many files there are.
    pub closed spec fn file_count(&self) -> nat {
        self.names@.len()
    }

    /// The classes warned about so far.
    pub closed spec fn warned_set(&self) -> Set<Seq<char>> {
        name_views(self.warned@).to_set()
    }

    /// The edges merging follows between files.
    pub closed spec fn edges(&self) -> Seq<Seq<usize>> {
        Seq::new(
            self.names@.len(),
            |i: int| reference_edges(self.providers_view(), name_views(self.references@[i]@), i as usize),
        )
    }

    /// The tables agree in length, and every class points at a file.
    pub closed spec fn wf(&self) -> bool {
        &&& self.merged@.len() == self.names@.len()
        &&& self.references@.len() == self.names@.len()
        &&& forall|k: int| 0 <= k < self.providers@.len() ==> (#[trigger] self.providers@[k]).1 < self.names@.len()
    }

    /// No extension files.
    pub fn new() -> (r: Self)
        ensures
            r.wf(),
            r.file_count() == 0,
            r.file_names() == Seq::<Seq<char>>::empty(),
            r.references_view() == Seq::<Seq<Seq<char>>>::empty(),
            r.providers_view() == Seq::<(Seq<char>, usize)>::empty(),
            r.merged_set() == Set::<usize>::empty(),
            r.warned_set() == Set::<Seq<char>>::empty(),
    {
        let r = ExtensionSet {
            names: Vec::new(),
            merged: Vec::new(),
            references: Vec::new(),
            providers: Vec::new(),
            warned: Vec::new(),
        };
        assert(name_views(r.warned@).to_set() =~= Set::<Seq<char>>::empty());
        assert(r.file_names() =~= Seq::<Seq<char>>::empty());
        assert(r.references_view() =~= Seq::<Seq<Seq<char>>>::empty());
        assert(r.providers_view() =~= Seq::<(Seq<char>, usize)>::empty());
        assert(r.merged_set() =~= Set::<usize>::empty());
        r
    }

    /// Whether there are no extension files.
    pub fn is_empty(&self) -> (r: bool)
        ensures
            r == (self.file_count() == 0),
    {
        self.names.len() == 0
    }

    /// The file defining `descriptor`.
    pub fn provider(&self, descriptor: &str) -> (r: Option<usize>)
        requires
            self.wf(),
        ensures
            r == provider_of(self.providers_view(), descriptor@),
            r matches Some(i) ==> i < self.file_count(),
    {
        let d = chars_of(descriptor);
        self.provider_chars(&d)
    }

    fn provider_chars(&self, d: &Vec<char>) -> (r: Option<usize>)
        requires
            self.wf(),
        ensures
            r == provider_of(self.providers_view(), d@),
            r matches Some(i) ==> i < self.file_count(),
    {
        let ghost pv = self.providers_view();
        let n = self.providers.len();
        assert(pv.skip(0) =~= pv);
        for k in 0..n
            invariant
                n == self.providers@.len(),
                pv == self.providers_view(),
                self.wf(),
                provider_of(pv, d@) == provider_of(pv.skip(k as int), d@),
        {
            assert(pv.skip(k as int).drop_first() =~= pv.skip(k + 1));
            assert(pv.skip(k as int)[0] == pv[k as int]);
            let c = chars_of(self.providers[k].0.as_str());
            if chars_eq(&c, d) {
                return Some(self.providers[k].1);
            }
        }
        assert(pv.skip(n as int) =~= Seq::<(Seq<char>, usize)>::empty());
        None
    }
}


/// Whether `class` lies in a package the platform provides.
pub open spec fn platform_class(class: Seq<char>) -> bool {
    exists|k: int| 0 <= k < platform_prefixes().len() && has_prefix(class, #[trigger] platform_prefixes()[k])
}

/// The class a descriptor needs linked: it names a class the app does not
/// define and the platform does not provide.
pub open spec fn class_to_link(d: Seq<char>, app_defines: bool) -> Option<Seq<char>> {
    match class_of_spec(d) {
        Some(c) => if app_defines || platform_class(c) {
            None
        } else {
            Some(c)
        },
        None => None,
    }
}

/// The files linking the first `k` descriptors starts merges from.
pub open spec fn link_starts(descs: Seq<Seq<char>>, app: Seq<bool>, providers: Seq<(Seq<char>, usize)>, k: int) -> Set<usize>
    decreases k,
{
    if k <= 0 {
        Set::empty()
    } else {
        let before = link_starts(descs, app, providers, k - 1);
        match class_to_link(descs[k - 1], app[k - 1]) {
            Some(c) => match provider_of(providers, c) {
                Some(p) => before.insert(p),
                None => before,
            },
            None => before,
        }
    }
}

/// The classes linking the first `k` descriptors warns about, in order, and
/// the warned set after them: a class nothing defines, once.
pub open spec fn link_warnings(
    descs: Seq<Seq<char>>,
    app: Seq<bool>,
    providers: Seq<(Seq<char>, usize)>,
    warned: Set<Seq<char>>,
    k: int,
) -> (Seq<Seq<char>>, Set<Seq<char>>)
    decreases k,
{
    if k <= 0 {
        (Seq::empty(), warned)
    } else {
        let (msgs, w) = link_warnings(descs, app, providers, warned, k - 1);
        match class_to_link(descs[k - 1], app[k - 1]) {
            Some(c) => if provider_of(providers, c) is None && !w.contains(c) {
                (msgs.push(c), w.insert(c))
            } else {
                (msgs, w)
            },
            None => (msgs, w),
        }
    }
}

/// The files linking the first `k` descriptors merges, in the order it
/// merges them, and the merged flags after them.
pub open spec fn link_merge_order(
    descs: Seq<Seq<char>>,
    app: Seq<bool>,
    providers: Seq<(Seq<char>, usize)>,
    edges: Seq<Seq<usize>>,
    flags: Seq<bool>,
    k: int,
) -> (Seq<usize>, Seq<bool>)
    decreases k,
{
    if k <= 0 {
        (Seq::empty(), flags)
    } else {
        let (order, f) = link_merge_order(descs, app, providers, edges, flags, k - 1);
        match class_to_link(descs[k - 1], app[k - 1]) {
            Some(c) => match provider_of(providers, c) {
                Some(p) => {
                    let t = merge_order(seq![p], f, edges);
                    (order + t, mark(f, t))
                },
                None => (order, f),
            },
            None => (order, f),
        }
    }
}

/// The warning for a class nothing defines.
pub open spec fn undefined_text(class: Seq<char>) -> Seq<char> {
    class + " is not defined by the app or any extension in the bundle"@
}

/// `flags` with the files of `taken` set.
pub open spec fn mark(flags: Seq<bool>, taken: Seq<usize>) -> Seq<bool> {
    Seq::new(flags.len(), |j: int| flags[j] || taken.contains(j as usize))
}

/// The files merging takes, in the order it takes them: the last file on
/// `stack` is taken next unless merged already, and what it refers to goes
/// on the stack in reference order.
pub open spec fn merge_order(stack: Seq<usize>, merged: Seq<bool>, edges: Seq<Seq<usize>>) -> Seq<usize>
    decreases merged.len() - count_set(merged), stack.len(),
{
    if stack.len() == 0 {
        Seq::empty()
    } else {
        let i = stack.last();
        if i >= merged.len() || merged[i as int] {
            merge_order(stack.drop_last(), merged, edges)
        } else {
            proof {
                lemma_count_set_update(merged, i as int);
            }
            seq![i] + merge_order(stack.drop_last() + edges[i as int], merged.update(i as int, true), edges)
        }
    }
}

proof fn lemma_least_cover_empty(starts: Set<usize>, edges: Seq<Seq<usize>>, done: Set<usize>)
    requires
        forall|s: usize| starts.contains(s) ==> done.contains(s),
    ensures
        least_cover(Set::empty(), starts, edges, done),
{
    assert(Set::<usize>::empty().disjoint(done));
}

impl ExtensionSet {
    /// Takes file `index`, and every file its references lead to over files
    /// not yet merged; returns the files taken, each once.
    pub fn merge_extension(&mut self, index: usize) -> (r: Vec<usize>)
        requires
            old(self).wf(),
            index < old(self).file_count(),
        ensures
            final(self).wf(),
            final(self).file_count() == old(self).file_count(),
            final(self).file_names() == old(self).file_names(),
            final(self).providers_view() == old(self).providers_view(),
            final(self).edges() == old(self).edges(),
            final(self).warned_set() == old(self).warned_set(),
            r@.no_duplicates(),
            r@ == merge_order(seq![index], old(self).merged_flags(), old(self).edges()),
            least_cover(r@.to_set(), set![index], old(self).edges(), old(self).merged_set()),
            final(self).merged_set() == old(self).merged_set() + r@.to_set(),
            final(self).merged_flags() == mark(old(self).merged_flags(), r@),
    {
        let n = self.names.len();
        let ghost pv = self.providers_view();
        let ghost e = self.edges();
        let mut edges: Vec<Vec<usize>> = Vec::new();
        for i in 0..n
            invariant
                n == self.names@.len(),
                self.wf(),
                pv == self.providers_view(),
                e == self.edges(),
                edges@.len() == i,
                forall|j: int| 0 <= j < i ==> (#[trigger] edges@[j])@ == e[j],
                forall|j: int, q: int| 0 <= j < i && 0 <= q < edges@[j]@.len() ==> (#[trigger] edges@[j]@[q]) < n,
        {
            let ghost refs = name_views(self.references@[i as int]@);
            let m = self.references[i].len();
            let mut row: Vec<usize> = Vec::new();
            for k in 0..m
                invariant
                    n == self.names@.len(),
                    self.wf(),
                    pv == self.providers_view(),
                    i < n,
                    refs == name_views(self.references@[i as int]@),
                    m == refs.len(),
                    row@ == reference_edges(pv, refs.take(k as int), i),
                    forall|q: int| 0 <= q < row@.len() ==> (#[trigger] row@[q]) < n,
            {
                let d = chars_of(self.references[i][k].as_str());
                assert(d@ == refs[k as int]);
                assert(refs.take(k + 1).drop_last() =~= refs.take(k as int));
                match self.provider_chars(&d) {
                    Some(p) => {
                        if p != i {
                            row.push(p);
                        }
                    },
                    None => {},
                }
            }
            assert(refs.take(m as int) =~= refs);
            edges.push(row);
        }
        assert forall|j: int, q: int| 0 <= j < n && 0 <= q < e[j].len() implies (#[trigger] e[j][q]) < n by {
            assert(edges@[j]@ == e[j]);
            assert(edges@[j]@[q] < n);
        }
        let ghost done0 = self.merged_set();
        let ghost flags0 = self.merged@;
        let ghost names0 = self.names@;
        let ghost refs0 = self.references@;
        let ghost providers0 = self.providers@;
        let ghost warned0 = self.warned@;
        let mut stack: Vec<usize> = Vec::new();
        stack.push(index);
        let mut taken: Vec<usize> = Vec::new();
        proof {
            lemma_count_set_bound(self.merged@);
            assert(taken@.to_set() =~= Set::<usize>::empty());
            assert(self.merged_set() =~= done0 + taken@.to_set());
            assert(self.merged@ =~= mark(flags0, taken@));
            assert(stack@ =~= seq![index]);
            assert(taken@ + merge_order(stack@, self.merged@, e) =~= merge_order(seq![index], flags0, e));
            assert(stack@[0] == index);
            assert forall|set: Set<usize>| #[trigger] covers_from(set, set![index], e, done0) implies taken@.to_set().subset_of(set)
                && forall|p: int| 0 <= p < stack@.len() ==> set.contains(#[trigger] stack@[p]) || done0.contains(stack@[p]) by {
                assert(set![index].contains(index));
            }
        }
        while stack.len() > 0
            invariant
                n == self.names@.len(),
                self.wf(),
                self.names@ == names0,
                self.references@ == refs0,
                self.providers@ == providers0,
                self.warned@ == warned0,
                e == self.edges(),
                index < n,
                edges@.len() == n,
                forall|j: int| 0 <= j < n ==> (#[trigger] edges@[j])@ == e[j],
                forall|j: int, q: int| 0 <= j < n && 0 <= q < e[j].len() ==> (#[trigger] e[j][q]) < n,
                forall|p: int| 0 <= p < stack@.len() ==> (#[trigger] stack@[p]) < n,
                taken@.no_duplicates(),
                forall|p: int| 0 <= p < taken@.len() ==> (#[trigger] taken@[p]) < n,
                self.merged_set() == done0 + taken@.to_set(),
                self.merged@ == mark(flags0, taken@),
                taken@ + merge_order(stack@, self.merged@, e) == merge_order(seq![index], flags0, e),
                taken@.to_set().disjoint(done0),
                self.merged_set().contains(index) || stack@.contains(index),
                forall|v: usize, k: int|
                    taken@.to_set().contains(v) && 0 <= k < e[v as int].len() ==> self.merged_set().contains(#[trigger] e[v as int][k])
                        || stack@.contains(e[v as int][k]),
                forall|set: Set<usize>| #[trigger] covers_from(set, set![index], e, done0) ==> taken@.to_set().subset_of(set)
                    && forall|p: int| 0 <= p < stack@.len() ==> set.contains(#[trigger] stack@[p]) || done0.contains(stack@[p]),
                count_set(self.merged@) <= n,
            decreases n - count_set(self.merged@), stack@.len(),
        {
            let ghost before = stack@;
            let i = stack.pop().unwrap();
            assert(before == stack@.push(i));
            assert(before[before.len() - 1] == i);
            if !self.merged[i] {
                let ghost old_merged = self.merged@;
                let ghost old_set = self.merged_set();
                let ghost old_taken = taken@;
                proof {
                    lemma_count_set_update(self.merged@, i as int);
                }
                self.merged.set(i, true);
                taken.push(i);
                proof {
                    assert(self.merged_set() =~= old_set.insert(i));
                    assert(taken@ == old_taken.push(i));
                    assert forall|x: usize| #[trigger] taken@.to_set().contains(x) <==> old_taken.to_set().insert(i).contains(x) by {
                        if taken@.contains(x) {
                            let q = choose|q: int| 0 <= q < taken@.len() && taken@[q] == x;
                            if q < old_taken.len() {
                                assert(old_taken[q] == x);
                            }
                        }
                        if old_taken.contains(x) {
                            let q = choose|q: int| 0 <= q < old_taken.len() && old_taken[q] == x;
                            assert(taken@[q] == x);
                        }
                        if x == i {
                            assert(taken@[old_taken.len() as int] == i);
                        }
                    }
                    assert(taken@.to_set() =~= old_taken.to_set().insert(i));
                    assert(!old_set.contains(i));
                    assert(!done0.contains(i));
                    assert(!old_taken.contains(i));
                    assert(taken@.no_duplicates()) by {
                        assert forall|a: int, b: int| 0 <= a < b < taken@.len() implies taken@[a] != taken@[b] by {
                            if b == taken@.len() - 1 {
                                assert(old_taken.contains(taken@[a]));
                            }
                        }
                    }
                }
                let ghost mid = stack@;
                let m = edges[i].len();
                for k in 0..m
                    invariant
                        i < n,
                        edges@.len() == n,
                        forall|j: int| 0 <= j < n ==> (#[trigger] edges@[j])@ == e[j],
                        forall|j: int, q: int| 0 <= j < n && 0 <= q < e[j].len() ==> (#[trigger] e[j][q]) < n,
                        m == e[i as int].len(),
                        stack@.len() == mid.len() + k,
                        stack@.subrange(0, mid.len() as int) == mid,
                        forall|q: int| 0 <= q < k ==> stack@[mid.len() + q] == #[trigger] e[i as int][q],
                        forall|p: int| 0 <= p < stack@.len() ==> (#[trigger] stack@[p]) < n,
                {
                    assert(edges@[i as int]@ == e[i as int]);
                    stack.push(edges[i][k]);
                    assert(stack@.subrange(0, mid.len() as int) =~= mid);
                }
                proof {
                    assert(stack@ =~= mid + e[i as int]) by {
                        assert forall|q: int| 0 <= q < stack@.len() implies stack@[q] == (mid + e[i as int])[q] by {
                            if q < mid.len() {
                                assert(stack@.subrange(0, mid.len() as int)[q] == stack@[q]);
                            } else {
                                assert(stack@[mid.len() + (q - mid.len())] == e[i as int][q - mid.len()]);
                            }
                        }
                    }
                    assert(before.drop_last() =~= mid);
                    assert(merge_order(before, old_merged, e) == seq![i] + merge_order(
                        mid + e[i as int],
                        old_merged.update(i as int, true),
                        e,
                    ));
                    assert(self.merged@ =~= old_merged.update(i as int, true));
                    assert(taken@ + merge_order(stack@, self.merged@, e) =~= old_taken + (seq![i] + merge_order(
                        mid + e[i as int],
                        old_merged.update(i as int, true),
                        e,
                    )));
                    assert(self.merged@ =~= mark(flags0, taken@)) by {
                        assert forall|j: int| 0 <= j < self.merged@.len() implies self.merged@[j] == mark(flags0, taken@)[j] by {
                            if taken@.contains(j as usize) && j != i {
                                let q = choose|q: int| 0 <= q < taken@.len() && taken@[q] == j as usize;
                                assert(old_taken[q] == j as usize);
                            }
                            if old_taken.contains(j as usize) {
                                let q = choose|q: int| 0 <= q < old_taken.len() && old_taken[q] == j as usize;
                                assert(taken@[q] == j as usize);
                            }
                            if j == i {
                                assert(taken@[old_taken.len() as int] == i);
                            }
                        }
                    }
                    assert forall|x: usize| #![trigger stack@.contains(x)] mid.contains(x) implies stack@.contains(x) by {
                        let q = choose|q: int| 0 <= q < mid.len() && mid[q] == x;
                        assert(stack@.subrange(0, mid.len() as int)[q] == x);
                    }
                    assert forall|k: int| 0 <= k < e[i as int].len() implies stack@.contains(#[trigger] e[i as int][k]) by {
                        assert(stack@[mid.len() + k] == e[i as int][k]);
                    }
                    if before.contains(index) && index != i {
                        let q = choose|q: int| 0 <= q < before.len() && before[q] == index;
                        assert(mid[q] == index);
                    }
                    assert forall|v: usize, k: int|
                        taken@.to_set().contains(v) && 0 <= k < e[v as int].len() implies self.merged_set().contains(#[trigger] e[v as int][k])
                            || stack@.contains(e[v as int][k]) by {
                        if v != i {
                            assert(old_taken.to_set().contains(v));
                            let d = e[v as int][k];
                            if before.contains(d) && d != i {
                                let q = choose|q: int| 0 <= q < before.len() && before[q] == d;
                                assert(mid[q] == d);
                            }
                        }
                    }
                    assert forall|set: Set<usize>| #[trigger] covers_from(set, set![index], e, done0) implies taken@.to_set().subset_of(set)
                        && forall|p: int| 0 <= p < stack@.len() ==> set.contains(#[trigger] stack@[p]) || done0.contains(stack@[p]) by {
                        assert(set.contains(i) || done0.contains(i));
                        assert(old_taken.to_set().subset_of(set));
                        assert forall|p: int| 0 <= p < stack@.len() implies set.contains(#[trigger] stack@[p]) || done0.contains(stack@[p]) by {
                            if p < mid.len() {
                                assert(stack@[p] == mid[p]);
                                assert(before[p] == mid[p]);
                            } else {
                                assert(stack@[p] == e[i as int][p - mid.len()]);
                            }
                        }
                    }
                }
            } else {
                proof {
                    assert(before.drop_last() =~= stack@);
                    assert(merge_order(before, self.merged@, e) == merge_order(stack@, self.merged@, e));
                    if before.contains(index) && index != i {
                        let q = choose|q: int| 0 <= q < before.len() && before[q] == index;
                        assert(stack@[q] == index);
                    }
                    assert(self.merged_set().contains(i));
                    assert forall|v: usize, k: int|
                        taken@.to_set().contains(v) && 0 <= k < e[v as int].len() implies self.merged_set().contains(#[trigger] e[v as int][k])
                            || stack@.contains(e[v as int][k]) by {
                        let d = e[v as int][k];
                        if before.contains(d) && d != i {
                            let q = choose|q: int| 0 <= q < before.len() && before[q] == d;
                            assert(stack@[q] == d);
                        }
                    }
                    assert forall|set: Set<usize>| #[trigger] covers_from(set, set![index], e, done0) implies taken@.to_set().subset_of(set)
                        && forall|p: int| 0 <= p < stack@.len() ==> set.contains(#[trigger] stack@[p]) || done0.contains(stack@[p]) by {
                        assert forall|p: int| 0 <= p < stack@.len() implies set.contains(#[trigger] stack@[p]) || done0.contains(stack@[p]) by {
                            assert(stack@[p] == before[p]);
                        }
                    }
                }
            }
        }
        proof {
            let v = taken@.to_set();
            assert forall|s: usize| #[trigger] set![index].contains(s) && !done0.contains(s) implies v.contains(s) by {
                assert(s == index);
            }
            assert forall|i: usize, k: int|
                v.contains(i) && 0 <= k < e[i as int].len() && !done0.contains(#[trigger] e[i as int][k]) implies v.contains(
                e[i as int][k],
            ) by {}
        }
        taken
    }
}


impl ExtensionSet {
    /// The path of each file.
    pub closed spec fn file_names(&self) -> Seq<Seq<char>> {
        name_views(self.names@)
    }

    /// The types each file refers to.
    pub closed spec fn references_view(&self) -> Seq<Seq<Seq<char>>> {
        self.references@.map_values(|r: Vec<String>| name_views(r@))
    }

    /// Whether linking has warned about `class` already.
    fn warned_contains(&self, class: &Vec<char>) -> (r: bool)
        ensures
            r == self.warned_set().contains(class@),
    {
        let n = self.warned.len();
        for k in 0..n
            invariant
                n == self.warned@.len(),
                forall|q: int| 0 <= q < k ==> self.warned@[q]@ != class@,
        {
            let w = chars_of(self.warned[k].as_str());
            if chars_eq(&w, class) {
                assert(name_views(self.warned@)[k as int] == class@);
                return true;
            }
        }
        assert forall|x: Seq<char>| name_views(self.warned@).contains(x) implies x != class@ by {
            let q = choose|q: int| 0 <= q < name_views(self.warned@).len() && name_views(self.warned@)[q] == x;
            assert(self.warned@[q]@ == x);
        }
        false
    }

    /// Makes sure every class the descriptors refer to is defined: one the
    /// app does not define (`app_defines`, per descriptor) and the platform
    /// does not provide is linked by merging the extension file defining it,
    /// with what that file leads to. Returns the files merged, and a warning
    /// for each class nothing defines, once per class.
    pub fn link_types(&mut self, descriptors: &Vec<String>, app_defines: &Vec<bool>) -> (r: (Vec<usize>, Vec<String>))
        requires
            old(self).wf(),
            descriptors@.len() == app_defines@.len(),
        ensures
            final(self).wf(),
            final(self).file_count() == old(self).file_count(),
            final(self).file_names() == old(self).file_names(),
            final(self).providers_view() == old(self).providers_view(),
            final(self).edges() == old(self).edges(),
            r.0@.no_duplicates(),
            r.0@ == link_merge_order(
                name_views(descriptors@),
                app_defines@,
                old(self).providers_view(),
                old(self).edges(),
                old(self).merged_flags(),
                descriptors@.len() as int,
            ).0,
            final(self).merged_flags() == link_merge_order(
                name_views(descriptors@),
                app_defines@,
                old(self).providers_view(),
                old(self).edges(),
                old(self).merged_flags(),
                descriptors@.len() as int,
            ).1,
            least_cover(
                r.0@.to_set(),
                link_starts(name_views(descriptors@), app_defines@, old(self).providers_view(), descriptors@.len() as int),
                old(self).edges(),
                old(self).merged_set(),
            ),
            final(self).merged_set() == old(self).merged_set() + r.0@.to_set(),
            name_views(r.1@) == link_warnings(
                name_views(descriptors@),
                app_defines@,
                old(self).providers_view(),
                old(self).warned_set(),
                descriptors@.len() as int,
            ).0.map_values(|c: Seq<char>| undefined_text(c)),
            final(self).warned_set() == link_warnings(
                name_views(descriptors@),
                app_defines@,
                old(self).providers_view(),
                old(self).warned_set(),
                descriptors@.len() as int,
            ).1,
    {
        let n = descriptors.len();
        let ghost pv = self.providers_view();
        let ghost e = self.edges();
        let ghost done0 = self.merged_set();
        let ghost w0 = self.warned_set();
        let ghost flags0 = self.merged_flags();
        let ghost names0 = self.file_names();
        let ghost dv = name_views(descriptors@);
        let mut merged: Vec<usize> = Vec::new();
        let mut warnings: Vec<String> = Vec::new();
        proof {
            lemma_least_cover_empty(Set::empty(), e, done0);
            assert(merged@.to_set() =~= Set::<usize>::empty());
            assert(self.merged_set() =~= done0 + merged@.to_set());
            assert(name_views(warnings@) =~= Seq::<Seq<char>>::empty());
        }
        for k in 0..n
            invariant
                n == descriptors@.len(),
                n == app_defines@.len(),
                dv == name_views(descriptors@),
                self.wf(),
                self.file_names() == names0,
                self.providers_view() == pv,
                self.edges() == e,
                merged@.no_duplicates(),
                least_cover(merged@.to_set(), link_starts(dv, app_defines@, pv, k as int), e, done0),
                self.merged_set() == done0 + merged@.to_set(),
                merged@ == link_merge_order(dv, app_defines@, pv, e, flags0, k as int).0,
                self.merged_flags() == link_merge_order(dv, app_defines@, pv, e, flags0, k as int).1,
                name_views(warnings@) == link_warnings(dv, app_defines@, pv, w0, k as int).0.map_values(
                    |c: Seq<char>| undefined_text(c),
                ),
                self.warned_set() == link_warnings(dv, app_defines@, pv, w0, k as int).1,
        {
            let ghost lw = link_warnings(dv, app_defines@, pv, w0, k as int);
            assert(dv[k as int] == descriptors@[k as int]@);
            match class_of(descriptors[k].as_str()) {
                None => {
                    assert(name_views(warnings@) == link_warnings(dv, app_defines@, pv, w0, k + 1).0.map_values(
                        |c: Seq<char>| undefined_text(c),
                    ));
                },
                Some(class) => {
                    let platform = is_platform(class.as_str());
                    if app_defines[k] || platform {
                        assert(class_to_link(dv[k as int], app_defines@[k as int]) is None);
                        assert(name_views(warnings@) == link_warnings(dv, app_defines@, pv, w0, k + 1).0.map_values(
                            |c: Seq<char>| undefined_text(c),
                        ));
                    } else {
                        let c = chars_of(class.as_str());
                        assert(class_to_link(dv[k as int], app_defines@[k as int]) == Some(c@));
                        match self.provider_chars(&c) {
                            Some(p) => {
                                let ghost before = merged@;
                                let mut taken = self.merge_extension(p);
                                proof {
                                    lemma_least_cover_union(
                                        before.to_set(),
                                        link_starts(dv, app_defines@, pv, k as int),
                                        taken@.to_set(),
                                        p,
                                        e,
                                        done0,
                                    );
                                    assert(link_starts(dv, app_defines@, pv, k + 1) == link_starts(
                                        dv,
                                        app_defines@,
                                        pv,
                                        k as int,
                                    ).insert(p));
                                    assert forall|a: int, b: int| 0 <= a < before.len() && 0 <= b < taken@.len() implies before[a]
                                        != taken@[b] by {
                                        assert(before.to_set().contains(before[a]));
                                        assert(taken@.to_set().contains(taken@[b]));
                                    }
                                    vstd::seq_lib::lemma_no_dup_in_concat(before, taken@);
                                    vstd::seq_lib::seq_to_set_distributes_over_add(before, taken@);
                                }
                                merged.append(&mut taken);
                                assert(merged@ =~= before + link_merge_order(dv, app_defines@, pv, e, flags0, k + 1).0.skip(
                                    before.len() as int,
                                ));
                                assert(name_views(warnings@) == link_warnings(dv, app_defines@, pv, w0, k + 1).0.map_values(
                                    |c: Seq<char>| undefined_text(c),
                                ));
                            },
                            None => {
                                if !self.warned_contains(&c) {
                                    let ghost wv = self.warned@;
                                    self.warned.push(class);
                                    let mut out = c.clone();
                                    push_lit(&mut out, " is not defined by the app or any extension in the bundle");
                                    let ghost wn = warnings@;
                                    warnings.push(string_of(&out));
                                    proof {
                                        assert(name_views(self.warned@) =~= name_views(wv).push(c@));
                                        name_views(wv).lemma_push_to_set_commute(c@);
                                        assert(name_views(warnings@) =~= name_views(wn).push(undefined_text(c@)));
                                        assert(lw.0.push(c@).map_values(|c: Seq<char>| undefined_text(c)) =~= lw.0.map_values(
                                            |c: Seq<char>| undefined_text(c),
                                        ).push(undefined_text(c@)));
                                    }
                                } else {
                                    assert(name_views(warnings@) == link_warnings(dv, app_defines@, pv, w0, k + 1).0.map_values(
                                        |c: Seq<char>| undefined_text(c),
                                    ));
                                }
                            },
                        }
                    }
                },
            }
        }
        (merged, warnings)
    }
}


/// An extension file as read from the bundle: its path, the classes it
/// defines, and every type it refers to.
pub struct ExtensionFile {
    pub path: String,
    pub classes: Vec<String>,
    pub references: Vec<String>,
}

/// The class table after the first `j` files: each class with its file.
pub open spec fn providers_upto(files: Seq<ExtensionFile>, j: int) -> Seq<(Seq<char>, usize)>
    decreases j,
{
    if j <= 0 {
        Seq::empty()
    } else {
        providers_upto(files, j - 1) + name_views(files[j - 1].classes@).map_values(
            |c: Seq<char>| (c, (j - 1) as usize),
        )
    }
}

/// The first of `classes` the table has already, with the file defining it.
pub open spec fn first_clash(providers: Seq<(Seq<char>, usize)>, classes: Seq<Seq<char>>) -> Option<(Seq<char>, usize)>
    decreases classes.len(),
{
    if classes.len() == 0 {
        None
    } else {
        match provider_of(providers, classes[0]) {
            Some(o) => Some((classes[0], o)),
            None => first_clash(providers, classes.drop_first()),
        }
    }
}

/// The first class two of the first `j` files both define: the class, the
/// earlier file and the later one.
pub open spec fn load_failure(files: Seq<ExtensionFile>, j: int) -> Option<(Seq<char>, usize, usize)>
    decreases j,
{
    if j <= 0 {
        None
    } else {
        match load_failure(files, j - 1) {
            Some(f) => Some(f),
            None => match first_clash(providers_upto(files, j - 1), name_views(files[j - 1].classes@)) {
                Some((c, o)) => Some((c, o, (j - 1) as usize)),
                None => None,
            },
        }
    }
}

/// The error text for a class two files define.
pub open spec fn clash_text(class: Seq<char>, first: Seq<char>, second: Seq<char>) -> Seq<char> {
    "class "@ + class + " is defined by both "@ + first + " and "@ + second
}

proof fn lemma_load_failure_stays(files: Seq<ExtensionFile>, j: int, k: int)
    requires
        0 <= j <= k,
        load_failure(files, j) is Some,
    ensures
        load_failure(files, k) == load_failure(files, j),
    decreases k - j,
{
    if j < k {
        lemma_load_failure_stays(files, j, k - 1);
    }
}

impl ExtensionSet {
    /// The first of `classes` the table has already: its position and file.
    fn find_clash(&self, classes: &Vec<String>) -> (r: Option<(usize, usize)>)
        requires
            self.wf(),
        ensures
            match r {
                Some((k, o)) => k < classes@.len() && o < self.file_count() && first_clash(
                    self.providers_view(),
                    name_views(classes@),
                ) == Some((classes@[k as int]@, o)),
                None => first_clash(self.providers_view(), name_views(classes@)) is None,
            },
    {
        let ghost cv = name_views(classes@);
        let n = classes.len();
        assert(cv.skip(0) =~= cv);
        for k in 0..n
            invariant
                n == classes@.len(),
                cv == name_views(classes@),
                self.wf(),
                first_clash(self.providers_view(), cv) == first_clash(self.providers_view(), cv.skip(k as int)),
        {
            assert(cv.skip(k as int).drop_first() =~= cv.skip(k + 1));
            assert(cv.skip(k as int)[0] == classes@[k as int]@);
            let d = chars_of(classes[k].as_str());
            match self.provider_chars(&d) {
                Some(o) => {
                    return Some((k, o));
                },
                None => {},
            }
        }
        assert(cv.skip(n as int) =~= Seq::<Seq<char>>::empty());
        None
    }

    /// Adds one file, unless it defines a class an earlier file defines.
    fn add(&mut self, file: &ExtensionFile) -> (r: Result<(), PatcherError>)
        requires
            old(self).wf(),
        ensures
            match first_clash(old(self).providers_view(), name_views(file.classes@)) {
                Some((c, o)) => o < old(self).file_count() && (r matches Err(PatcherError::Bundle(msg)) && msg@ == clash_text(
                    c,
                    old(self).file_names()[o as int],
                    file.path@,
                )),
                None => {
                    &&& r is Ok
                    &&& final(self).wf()
                    &&& final(self).file_names() == old(self).file_names().push(file.path@)
                    &&& final(self).references_view() == old(self).references_view().push(name_views(file.references@))
                    &&& final(self).providers_view() == old(self).providers_view() + name_views(file.classes@).map_values(
                        |c: Seq<char>| (c, old(self).file_count() as usize),
                    )
                    &&& final(self).merged_set() == old(self).merged_set()
                    &&& final(self).warned_set() == old(self).warned_set()
                },
            },
    {
        match self.find_clash(&file.classes) {
            Some((k, o)) => {
                let mut out: Vec<char> = Vec::new();
                push_lit(&mut out, "class ");
                push_str(&mut out, &file.classes[k]);
                push_lit(&mut out, " is defined by both ");
                push_str(&mut out, &self.names[o]);
                push_lit(&mut out, " and ");
                push_str(&mut out, &file.path);
                assert(name_views(self.names@)[o as int] == self.names@[o as int]@);
                return Err(PatcherError::Bundle(string_of(&out)));
            },
            None => {},
        }
        let index = self.names.len();
        let ghost names0 = self.names@;
        let ghost merged0 = self.merged@;
        let ghost refs0 = self.references@;
        let ghost pv0 = self.providers_view();
        let ghost done0 = self.merged_set();
        let mut refs: Vec<String> = Vec::new();
        let m = file.references.len();
        for q in 0..m
            invariant
                m == file.references@.len(),
                refs@.len() == q,
                forall|t: int| 0 <= t < q ==> #[trigger] refs@[t]@ == file.references@[t]@,
        {
            refs.push(file.references[q].clone());
        }
        assert(name_views(refs@) =~= name_views(file.references@));
        self.names.push(file.path.clone());
        self.merged.push(false);
        self.references.push(refs);
        assert(self.merged_set() =~= done0);
        assert(name_views(self.names@) =~= name_views(names0).push(file.path@));
        assert(self.references_view() =~= refs0.map_values(|r: Vec<String>| name_views(r@)).push(
            name_views(file.references@),
        ));
        let ghost cv = name_views(file.classes@);
        let ghost names1 = self.names@;
        let ghost merged1 = self.merged@;
        let ghost refs1 = self.references@;
        let nc = file.classes.len();
        for k in 0..nc
            invariant
                nc == file.classes@.len(),
                cv == name_views(file.classes@),
                index == names0.len(),
                self.names@ == names1,
                self.merged@ == merged1,
                self.references@ == refs1,
                names1.len() == index + 1,
                name_views(names1) == name_views(names0).push(file.path@),
                refs1.map_values(|r: Vec<String>| name_views(r@)) == refs0.map_values(|r: Vec<String>| name_views(r@)).push(
                    name_views(file.references@),
                ),
                Set::new(|i: usize| i < merged1.len() && merged1[i as int]) == done0,
                self.warned@ == old(self).warned@,
                self.merged@.len() == self.names@.len(),
                self.references@.len() == self.names@.len(),
                forall|t: int| 0 <= t < self.providers@.len() ==> (#[trigger] self.providers@[t]).1 < self.names@.len(),
                self.providers_view() == pv0 + cv.take(k as int).map_values(|c: Seq<char>| (c, index)),
        {
            let ghost before = self.providers_view();
            self.providers.push((file.classes[k].clone(), index));
            assert(self.providers_view() =~= before.push((cv[k as int], index)));
            assert(cv.take(k + 1).map_values(|c: Seq<char>| (c, index)) =~= cv.take(k as int).map_values(
                |c: Seq<char>| (c, index),
            ).push((cv[k as int], index)));
            assert(self.providers_view() =~= pv0 + cv.take(k + 1).map_values(|c: Seq<char>| (c, index)));
        }
        assert(cv.take(nc as int) =~= cv);
        assert(self.merged_set() =~= done0);
        Ok(())
    }

    /// The extension files of a bundle, in order, with the class table
    /// built from them. Two files defining one class are refused.
    pub fn load(files: &Vec<ExtensionFile>) -> (r: Result<ExtensionSet, PatcherError>)
        requires
            forall|j: int| 0 <= j < files@.len() ==> (#[trigger] name_views(files@[j].classes@)).no_duplicates(),
        ensures
            match r {
                Ok(set) => {
                    &&& load_failure(files@, files@.len() as int) is None
                    &&& set.wf()
                    &&& set.file_names() == files@.map_values(|f: ExtensionFile| f.path@)
                    &&& set.providers_view() == providers_upto(files@, files@.len() as int)
                    &&& set.edges() == Seq::new(
                        files@.len(),
                        |i: int| reference_edges(
                            providers_upto(files@, files@.len() as int),
                            name_views(files@[i].references@),
                            i as usize,
                        ),
                    )
                    &&& set.merged_set() == Set::<usize>::empty()
                    &&& set.warned_set() == Set::<Seq<char>>::empty()
                },
                Err(e) => match load_failure(files@, files@.len() as int) {
                    Some((c, o, j)) => o < j < files@.len() && (e matches PatcherError::Bundle(msg) && msg@ == clash_text(
                        c,
                        files@[o as int].path@,
                        files@[j as int].path@,
                    )),
                    None => false,
                },
            },
    {
        let mut set = ExtensionSet::new();
        let n = files.len();
        let ghost fv = files@;
        proof {
            assert(set.merged_set() =~= Set::<usize>::empty());
            assert(set.file_names() =~= fv.take(0).map_values(|f: ExtensionFile| f.path@));
            assert(set.references_view() =~= fv.take(0).map_values(|f: ExtensionFile| name_views(f.references@)));
            assert(set.providers_view() =~= providers_upto(fv, 0));
        }
        for i in 0..n
            invariant
                n == fv.len(),
                fv == files@,
                set.wf(),
                set.file_count() == i,
                load_failure(fv, i as int) is None,
                set.file_names() == fv.take(i as int).map_values(|f: ExtensionFile| f.path@),
                set.references_view() == fv.take(i as int).map_values(|f: ExtensionFile| name_views(f.references@)),
                set.providers_view() == providers_upto(fv, i as int),
                set.merged_set() == Set::<usize>::empty(),
                set.warned_set() == Set::<Seq<char>>::empty(),
        {
            let ghost names_before = set.file_names();
            match set.add(&files[i]) {
                Ok(()) => {
                    proof {
                        assert(fv.take(i + 1).map_values(|f: ExtensionFile| f.path@) =~= fv.take(i as int).map_values(
                            |f: ExtensionFile| f.path@,
                        ).push(fv[i as int].path@));
                        assert(fv.take(i + 1).map_values(|f: ExtensionFile| name_views(f.references@)) =~= fv.take(
                            i as int,
                        ).map_values(|f: ExtensionFile| name_views(f.references@)).push(name_views(fv[i as int].references@)));
                    }
                },
                Err(e) => {
                    proof {
                        lemma_load_failure_stays(fv, i + 1, n as int);
                        let (c, o) = first_clash(providers_upto(fv, i as int), name_views(fv[i as int].classes@))->Some_0;
                        assert(names_before[o as int] == fv[o as int].path@);
                    }
                    return Err(e);
                },
            }
        }
        proof {
            assert(fv.take(n as int) =~= fv);
            assert forall|i: int| 0 <= i < n implies name_views(set.references@[i]@) == name_views(
                fv[i].references@,
            ) by {
                assert(set.references_view()[i] == name_views(set.references@[i]@));
            }
            assert(set.edges() =~= Seq::new(
                fv.len(),
                |i: int| reference_edges(providers_upto(fv, fv.len() as int), name_views(fv[i].references@), i as usize),
            ));
        }
        Ok(set)
    }
}


impl ExtensionSet {
    /// Links the class `descriptor` names: merges the extension file that
    /// defines it, with what that file leads to, and returns the files
    /// merged; `None` where no extension file defines it.
    pub fn link_class(&mut self, descriptor: &str) -> (r: Option<Vec<usize>>)
        requires
            old(self).wf(),
        ensures
            final(self).wf(),
            final(self).file_names() == old(self).file_names(),
            final(self).providers_view() == old(self).providers_view(),
            final(self).edges() == old(self).edges(),
            final(self).warned_set() == old(self).warned_set(),
            match provider_of(old(self).providers_view(), descriptor@) {
                Some(p) => r matches Some(t) && t@.no_duplicates() && t@ == merge_order(
                    seq![p],
                    old(self).merged_flags(),
                    old(self).edges(),
                ) && least_cover(
                    t@.to_set(),
                    set![p],
                    old(self).edges(),
                    old(self).merged_set(),
                ) && final(self).merged_set() == old(self).merged_set() + t@.to_set(),
                None => r is None && final(self).merged_set() == old(self).merged_set(),
            },
    {
        match self.provider(descriptor) {
            Some(p) => Some(self.merge_extension(p)),
            None => None,
        }
    }
}

} // verus!
