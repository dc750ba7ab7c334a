//! Option declarations and the values one patch runs with.

use vstd::prelude::*;
use crate::error::PatcherError;
use crate::patch::string_views;
use crate::text::{chars_eq, chars_of};

verus! {

/// The kind of value an option takes.
#[derive(PartialEq, Eq, Structural, Clone, Copy, Debug)]
pub enum OptionType {
    String,
    Bool,
    Int,
    /// A floating-point number, carried as its IEEE-754 bit pattern.
    Float,
    StringList,
    Path,
}

/// An option value. Floating-point values are carried as their IEEE-754 bit
/// pattern: the engine only checks and forwards them.
pub enum OptionValue {
    String(String),
    Bool(bool),
    Int(i64),
    Float(u64),
    StringList(Vec<String>),
    Path(String),
}

/// What an option value holds.
pub enum ValueView {
    String(Seq<char>),
    Bool(bool),
    Int(i64),
    Float(u64),
    StringList(Seq<Seq<char>>),
    Path(Seq<char>),
}

impl View for OptionValue {
    type V = ValueView;

    open spec fn view(&self) -> ValueView {
        match self {
            OptionValue::String(s) => ValueView::String(s@),
            OptionValue::Bool(b) => ValueView::Bool(*b),
            OptionValue::Int(i) => ValueView::Int(*i),
            OptionValue::Float(f) => ValueView::Float(*f),
            OptionValue::StringList(l) => ValueView::StringList(string_views(l@)),
            OptionValue::Path(p) => ValueView::Path(p@),
        }
    }
}

impl OptionValue {
    /// An equal copy of this value.
    pub fn duplicate(&self) -> (r: OptionValue)
        ensures
            r@ == self@,
    {
        match self {
            OptionValue::String(s) => OptionValue::String(s.clone()),
            OptionValue::Bool(b) => OptionValue::Bool(*b),
            OptionValue::Int(i) => OptionValue::Int(*i),
            OptionValue::Float(f) => OptionValue::Float(*f),
            OptionValue::StringList(l) => {
                let mut out: Vec<String> = Vec::new();
                let n = l.len();
                for i in 0..n
                    invariant
                        n == l@.len(),
                        out@ == l@.take(i as int),
                {
                    out.push(l[i].clone());
                    assert(l@.take(i + 1) == l@.take(i as int).push(l@[i as int]));
                }
                assert(l@.take(n as int) == l@);
                OptionValue::StringList(out)
            },
            OptionValue::Path(p) => OptionValue::Path(p.clone()),
        }
    }
}

/// An option a patch declares.
pub struct OptionDeclaration {
    pub key: String,
    pub title: String,
    pub description: String,
    pub option_type: OptionType,
    pub default_value: Option<OptionValue>,
    /// For string options, the values the patch offers.
    pub valid_values: Option<Vec<String>>,
    pub required: bool,
}

/// How a validation outcome reads in contracts: `None` for a value that
/// is accepted, else the reason it is refused.
pub open spec fn verdict_view(r: Result<(), String>) -> Option<Seq<char>> {
    match r {
        Ok(()) => None,
        Err(reason) => Some(reason@),
    }
}

/// `validate` can be called on any declaration and value, and its verdict
/// depends on the declaration and the value's contents alone.
pub open spec fn validator_deterministic<F: Fn(&OptionDeclaration, &OptionValue) -> Result<(), String>>(validate: F) -> bool {
    &&& forall|d: &OptionDeclaration, v: &OptionValue| #[trigger] call_requires(validate, (d, v))
    &&& forall|d: &OptionDeclaration, v1: &OptionValue, v2: &OptionValue, r1: Result<(), String>, r2: Result<(), String>|
        v1@ == v2@ && #[trigger] call_ensures(validate, (d, v1), r1) && #[trigger] call_ensures(validate, (d, v2), r2)
            ==> verdict_view(r1) == verdict_view(r2)
}

/// The verdict `validate` gives on a declaration and a value.
pub open spec fn verdict_of<F: Fn(&OptionDeclaration, &OptionValue) -> Result<(), String>>(validate: F) -> spec_fn(
    OptionDeclaration,
    ValueView,
) -> Option<Seq<char>> {
    |d: OptionDeclaration, v: ValueView|
        verdict_view(
            (choose|p: (OptionValue, Result<(), String>)| p.0@ == v && #[trigger] call_ensures(validate, (&d, &p.0), p.1)).1,
        )
}

/// Checks `value` against `decl` with `validate`.
fn check_value<F: Fn(&OptionDeclaration, &OptionValue) -> Result<(), String>>(
    validate: &F,
    decl: &OptionDeclaration,
    value: &OptionValue,
) -> (r: Result<(), String>)
    requires
        validator_deterministic(*validate),
    ensures
        verdict_view(r) == verdict_of(*validate)(*decl, value@),
{
    let r = validate(decl, value);
    proof {
        let w = (*value, r);
        assert(w.0@ == value@ && call_ensures(*validate, (decl, &w.0), w.1));
        let p = choose|p: (OptionValue, Result<(), String>)|
            p.0@ == value@ && #[trigger] call_ensures(*validate, (decl, &p.0), p.1);
        assert(call_ensures(*validate, (decl, &p.0), p.1));
    }
    r
}

/// The value stored under `key`, the first entry naming it.
pub open spec fn lookup(values: Seq<(Seq<char>, ValueView)>, key: Seq<char>) -> Option<ValueView>
    decreases values.len(),
{
    if values.len() == 0 {
        None
    } else if values[0].0 == key {
        Some(values[0].1)
    } else {
        lookup(values.drop_first(), key)
    }
}

/// No key is stored twice.
pub open spec fn keys_distinct(values: Seq<(Seq<char>, ValueView)>) -> bool {
    forall|i: int, j: int| 0 <= i < j < values.len() ==> values[i].0 != values[j].0
}

/// The option values one patch runs with.
pub struct PatchOptions {
    values: Vec<(String, OptionValue)>,
}

pub open spec fn entry_views(values: Seq<(String, OptionValue)>) -> Seq<(Seq<char>, ValueView)> {
    values.map_values(|e: (String, OptionValue)| (e.0@, e.1@))
}

impl View for PatchOptions {
    type V = Seq<(Seq<char>, ValueView)>;

    closed spec fn view(&self) -> Seq<(Seq<char>, ValueView)> {
        entry_views(self.values@)
    }
}

impl PatchOptions {
    /// No values.
    pub fn new() -> (r: Self)
        ensures
            r@.len() == 0,
    {
        PatchOptions { values: Vec::new() }
    }

    fn position(&self, key: &[char]) -> (r: Option<usize>)
        ensures
            match r {
                Some(i) => i < self@.len() && self@[i as int].0 == key@ && forall|j: int| 0 <= j < i ==> self@[j].0 != key@,
                None => forall|j: int| 0 <= j < self@.len() ==> self@[j].0 != key@,
            },
    {
        let n = self.values.len();
        for i in 0..n
            invariant
                n == self.values@.len(),
                self@ == entry_views(self.values@),
                forall|j: int| 0 <= j < i ==> self@[j].0 != key@,
        {
            let k = chars_of(self.values[i].0.as_str());
            if chars_eq(&k, key) {
                return Some(i);
            }
        }
        None
    }

    /// Stores `value` under `key`, replacing what was there.
    pub fn set(&mut self, key: String, value: OptionValue)
        requires
            keys_distinct(old(self)@),
        ensures
            keys_distinct(final(self)@),
            lookup(final(self)@, key@) == Some(value@),
            forall|k: Seq<char>| k != key@ ==> lookup(final(self)@, k) == lookup(old(self)@, k),
    {
        let kc = chars_of(key.as_str());
        let ghost before = self@;
        let ghost vv = value@;
        match self.position(&kc) {
            Some(i) => {
                self.values.set(i, (key, value));
                proof {
                    assert(self@ =~= before.update(i as int, (kc@, vv)));
                    assert forall|k: Seq<char>| k != kc@ implies lookup(self@, k) == lookup(before, k) by {
                        lemma_lookup_update(before, i as int, vv, k);
                    }
                    lemma_lookup_update(before, i as int, vv, kc@);
                }
            },
            None => {
                self.values.push((key, value));
                proof {
                    assert(self@ =~= before.push((kc@, vv)));
                    assert forall|k: Seq<char>| k != kc@ implies lookup(self@, k) == lookup(before, k) by {
                        lemma_lookup_push(before, kc@, vv, k);
                    }
                    lemma_lookup_push(before, kc@, vv, kc@);
                }
            },
        }
    }

    /// The value stored under `key`.
    pub fn get(&self, key: &str) -> (r: Option<&OptionValue>)
        ensures
            match r {
                Some(v) => lookup(self@, key@) == Some(v@),
                None => lookup(self@, key@) is None,
            },
    {
        let kc = chars_of(key);
        match self.position(&kc) {
            Some(i) => {
                proof { lemma_lookup_at(self@, i as int, key@); }
                Some(&self.values[i].1)
            },
            None => {
                proof { lemma_lookup_absent(self@, key@); }
                None
            },
        }
    }

    pub fn is_empty(&self) -> (r: bool)
        ensures
            r == (self@.len() == 0),
    {
        self.values.len() == 0
    }

    /// Whether no key is stored twice.
    pub fn has_distinct_keys(&self) -> (r: bool)
        ensures
            r == keys_distinct(self@),
    {
        let keys = self.keys();
        let n = keys.len();
        for i in 0..n
            invariant
                n == keys@.len(),
                n == self@.len(),
                forall|q: int| 0 <= q < n ==> #[trigger] keys@[q]@ == self@[q].0,
                forall|a: int, b: int| 0 <= a < b < n && a < i ==> self@[a].0 != self@[b].0,
        {
            let ki = chars_of(keys[i].as_str());
            for j in (i + 1)..n
                invariant
                    n == keys@.len(),
                    n == self@.len(),
                    i < n,
                    ki@ == self@[i as int].0,
                    forall|q: int| 0 <= q < n ==> #[trigger] keys@[q]@ == self@[q].0,
                    forall|a: int, b: int| 0 <= a < b < n && a < i ==> self@[a].0 != self@[b].0,
                    forall|b: int| i < b < j ==> self@[i as int].0 != self@[b].0,
            {
                let kj = chars_of(keys[j].as_str());
                if chars_eq(&ki, &kj) {
                    return false;
                }
            }
        }
        true
    }

    /// The stored keys, in the order they were first set.
    pub fn keys(&self) -> (r: Vec<String>)
        ensures
            r@.len() == self@.len(),
            forall|i: int| 0 <= i < r@.len() ==> #[trigger] r@[i]@ == self@[i].0,
    {
        let mut out: Vec<String> = Vec::new();
        let n = self.values.len();
        for i in 0..n
            invariant
                n == self.values@.len(),
                self@ == entry_views(self.values@),
                out@.len() == i,
                forall|k: int| 0 <= k < i ==> #[trigger] out@[k]@ == self@[k].0,
        {
            out.push(self.values[i].0.clone());
        }
        out
    }

    /// An equal copy.
    pub fn duplicate(&self) -> (r: PatchOptions)
        ensures
            r@ == self@,
    {
        let mut out: Vec<(String, OptionValue)> = Vec::new();
        let n = self.values.len();
        for i in 0..n
            invariant
                n == self.values@.len(),
                out@.len() == i,
                forall|j: int| 0 <= j < i ==> (#[trigger] out@[j]).0@ == self.values@[j].0@ && out@[j].1@ == self.values@[j].1@,
        {
            let k = self.values[i].0.clone();
            let v = self.values[i].1.duplicate();
            out.push((k, v));
        }
        assert(entry_views(out@) =~= entry_views(self.values@));
        PatchOptions { values: out }
    }
}

/// Some declaration names `key`.
pub open spec fn is_declared(decls: Seq<OptionDeclaration>, key: Seq<char>) -> bool {
    exists|k: int| 0 <= k < decls.len() && (#[trigger] decls[k]).key@ == key
}

/// The first provided entry, at or after `start`, that no declaration names.
pub open spec fn first_undeclared(provided: Seq<(Seq<char>, ValueView)>, decls: Seq<OptionDeclaration>, start: int) -> Option<int>
    decreases provided.len() - start,
{
    if start < 0 || start >= provided.len() {
        None
    } else if !is_declared(decls, provided[start].0) {
        Some(start)
    } else {
        first_undeclared(provided, decls, start + 1)
    }
}

/// The value an option runs with: the one provided, else the default.
pub open spec fn chosen_value(decl: OptionDeclaration, provided: Seq<(Seq<char>, ValueView)>) -> Option<ValueView> {
    match lookup(provided, decl.key@) {
        Some(v) => Some(v),
        None => match decl.default_value {
            Some(d) => Some(d@),
            None => None,
        },
    }
}

/// A declaration is satisfied: a required option has a value, and the value
/// it gets is one `verdict` accepts.
pub open spec fn declaration_passes(
    decl: OptionDeclaration,
    provided: Seq<(Seq<char>, ValueView)>,
    verdict: spec_fn(OptionDeclaration, ValueView) -> Option<Seq<char>>,
) -> bool {
    match chosen_value(decl, provided) {
        None => !decl.required,
        Some(v) => verdict(decl, v) is None,
    }
}

/// The value `key` resolves to after the first `k` declarations: that of
/// the last of them naming `key` and getting a value.
pub open spec fn resolved_value(decls: Seq<OptionDeclaration>, provided: Seq<(Seq<char>, ValueView)>, key: Seq<char>, k: int) -> Option<ValueView>
    decreases k,
{
    if k <= 0 {
        None
    } else if decls[k - 1].key@ == key && chosen_value(decls[k - 1], provided) is Some {
        chosen_value(decls[k - 1], provided)
    } else {
        resolved_value(decls, provided, key, k - 1)
    }
}

/// The error `resolve` reports for `patch`: an undeclared provided key
/// first, else the first declaration that fails.
pub open spec fn resolve_failure(
    e: PatcherError,
    patch: Seq<char>,
    decls: Seq<OptionDeclaration>,
    provided: Seq<(Seq<char>, ValueView)>,
    verdict: spec_fn(OptionDeclaration, ValueView) -> Option<Seq<char>>,
) -> bool {
    match first_undeclared(provided, decls, 0) {
        Some(j) => e matches PatcherError::UnknownOption { patch: p, key } && p@ == patch && key@ == provided[j].0,
        None => exists|j: int|
            0 <= j < decls.len() && (forall|k: int| 0 <= k < j ==> declaration_passes(#[trigger] decls[k], provided, verdict))
                && !declaration_passes(#[trigger] decls[j], provided, verdict) && match chosen_value(decls[j], provided) {
                None => e matches PatcherError::MissingRequiredOption { patch: p, key } && p@ == patch && key@ == decls[j].key@,
                Some(v) => e matches PatcherError::InvalidOptionValue { patch: p, key, reason } && p@ == patch
                    && key@ == decls[j].key@ && Some(reason@) == verdict(decls[j], v),
            },
    }
}

fn declared(decls: &[OptionDeclaration], key: &[char]) -> (r: bool)
    ensures
        r == is_declared(decls@, key@),
{
    let n = decls.len();
    for k in 0..n
        invariant
            n == decls@.len(),
            forall|j: int| 0 <= j < k ==> decls@[j].key@ != key@,
    {
        let kc = chars_of(decls[k].key.as_str());
        if chars_eq(&kc, key) {
            assert(decls@[k as int].key@ == key@);
            return true;
        }
    }
    false
}

impl PatchOptions {
    /// Checks `provided` against `declarations` and fills in defaults. Each
    /// value an option gets is checked with `validate`, the rule of the
    /// patch model the declarations come from.
    pub fn resolve<F: Fn(&OptionDeclaration, &OptionValue) -> Result<(), String>>(
        patch: &str,
        declarations: &[OptionDeclaration],
        provided: Option<&PatchOptions>,
        validate: &F,
    ) -> (r: Result<PatchOptions, PatcherError>)
        requires
            match provided {
                Some(p) => keys_distinct(p@),
                None => true,
            },
            validator_deterministic(*validate),
        ensures
            ({
                let pv = match provided {
                    Some(p) => p@,
                    None => Seq::empty(),
                };
                match r {
                    Ok(res) => first_undeclared(pv, declarations@, 0) is None
                        && (forall|k: int|
                        0 <= k < declarations@.len() ==> declaration_passes(#[trigger] declarations@[k], pv, verdict_of(*validate)))
                        && keys_distinct(res@)
                        && forall|key: Seq<char>| lookup(res@, key) == resolved_value(declarations@, pv, key, declarations@.len() as int),
                    Err(e) => resolve_failure(e, patch@, declarations@, pv, verdict_of(*validate)),
                }
            }),
    {
        let empty = PatchOptions::new();
        let prov: &PatchOptions = match provided {
            Some(p) => p,
            None => &empty,
        };
        let ghost pv = prov@;
        assert(pv == match provided { Some(p) => p@, None => Seq::empty() }) by {
            if provided is None {
                assert(prov@ =~= Seq::<(Seq<char>, ValueView)>::empty());
            }
        }
        let keys = prov.keys();
        let nk = keys.len();
        for j in 0..nk
            invariant
                nk == keys@.len(),
                keys@.len() == pv.len(),
                forall|i: int| 0 <= i < keys@.len() ==> #[trigger] keys@[i]@ == pv[i].0,
                first_undeclared(pv, declarations@, 0) == first_undeclared(pv, declarations@, j as int),
                pv == (match provided { Some(p) => p@, None => Seq::empty() }),
        {
            let kc = chars_of(keys[j].as_str());
            if !declared(declarations, &kc) {
                let e = PatcherError::UnknownOption { patch: String::from_str(patch), key: keys[j].clone() };
                assert(first_undeclared(pv, declarations@, j as int) == Some(j as int));
                assert(resolve_failure(e, patch@, declarations@, pv, verdict_of(*validate)));
                return Err(e);
            }
        }
        let mut resolved = PatchOptions::new();
        let n = declarations.len();
        for k in 0..n
            invariant
                n == declarations@.len(),
                pv == prov@,
                pv == (match provided { Some(p) => p@, None => Seq::empty() }),
                first_undeclared(pv, declarations@, 0) is None,
                validator_deterministic(*validate),
                forall|i: int| 0 <= i < k ==> declaration_passes(#[trigger] declarations@[i], pv, verdict_of(*validate)),
                keys_distinct(resolved@),
                forall|key: Seq<char>| lookup(resolved@, key) == resolved_value(declarations@, pv, key, k as int),
        {
            let decl = &declarations[k];
            let value: Option<&OptionValue> = match prov.get(decl.key.as_str()) {
                Some(v) => Some(v),
                None => decl.default_value.as_ref(),
            };
            assert(match value { Some(v) => chosen_value(*decl, pv) == Some(v@), None => chosen_value(*decl, pv) is None });
            match value {
                None => {
                    if decl.required {
                        let e = PatcherError::MissingRequiredOption { patch: String::from_str(patch), key: decl.key.clone() };
                        assert(!declaration_passes(declarations@[k as int], pv, verdict_of(*validate)));
                        assert(resolve_failure(e, patch@, declarations@, pv, verdict_of(*validate)));
                        return Err(e);
                    }
                    assert(forall|key: Seq<char>| resolved_value(declarations@, pv, key, k + 1) == resolved_value(declarations@, pv, key, k as int));
                },
                Some(v) => {
                    match check_value(validate, decl, v) {
                        Err(reason) => {
                            let e = PatcherError::InvalidOptionValue {
                                patch: String::from_str(patch),
                                key: decl.key.clone(),
                                reason,
                            };
                            assert(!declaration_passes(declarations@[k as int], pv, verdict_of(*validate)));
                            assert(resolve_failure(e, patch@, declarations@, pv, verdict_of(*validate)));
                            return Err(e);
                        },
                        Ok(()) => {},
                    }
                    let ghost before = resolved@;
                    resolved.set(decl.key.clone(), v.duplicate());
                    assert forall|key: Seq<char>| lookup(resolved@, key) == resolved_value(declarations@, pv, key, k + 1) by {
                        if key != decl.key@ {
                            assert(lookup(resolved@, key) == lookup(before, key));
                        }
                    }
                },
            }
        }
        Ok(resolved)
    }
}

proof fn lemma_lookup_at(values: Seq<(Seq<char>, ValueView)>, i: int, key: Seq<char>)
    requires
        0 <= i < values.len(),
        values[i].0 == key,
        forall|j: int| 0 <= j < i ==> values[j].0 != key,
    ensures
        lookup(values, key) == Some(values[i].1),
    decreases i,
{
    if i > 0 {
        lemma_lookup_at(values.drop_first(), i - 1, key);
    }
}

proof fn lemma_lookup_absent(values: Seq<(Seq<char>, ValueView)>, key: Seq<char>)
    requires
        forall|j: int| 0 <= j < values.len() ==> values[j].0 != key,
    ensures
        lookup(values, key) is None,
    decreases values.len(),
{
    if values.len() > 0 {
        lemma_lookup_absent(values.drop_first(), key);
    }
}

proof fn lemma_lookup_update(values: Seq<(Seq<char>, ValueView)>, i: int, value: ValueView, k: Seq<char>)
    requires
        0 <= i < values.len(),
        keys_distinct(values),
    ensures
        k != values[i].0 ==> lookup(values.update(i, (values[i].0, value)), k) == lookup(values, k),
        k == values[i].0 ==> lookup(values.update(i, (values[i].0, value)), k) == Some(value),
        keys_distinct(values.update(i, (values[i].0, value))),
    decreases values.len(),
{
    let upd = values.update(i, (values[i].0, value));
    if i == 0 {
        assert(upd.drop_first() =~= values.drop_first());
    } else {
        assert(upd.drop_first() =~= values.drop_first().update(i - 1, (values[i].0, value)));
        lemma_lookup_update(values.drop_first(), i - 1, value, k);
    }
}

proof fn lemma_lookup_push(values: Seq<(Seq<char>, ValueView)>, key: Seq<char>, value: ValueView, k: Seq<char>)
    requires
        forall|j: int| 0 <= j < values.len() ==> values[j].0 != key,
    ensures
        k != key ==> lookup(values.push((key, value)), k) == lookup(values, k),
        k == key ==> lookup(values.push((key, value)), k) == Some(value),
    decreases values.len(),
{
    if values.len() > 0 {
        lemma_lookup_push(values.drop_first(), key, value, k);
        assert(values.push((key, value)).drop_first() =~= values.drop_first().push((key, value)));
    } else {
        assert(values.push((key, value)).drop_first() =~= values);
    }
}

} // verus!
