//! Patch identities and the package/version compatibility a patch declares.

use vstd::prelude::*;
use crate::options::OptionDeclaration;
use crate::text::{chars_eq, chars_of, extend, join, join_chars, string_of};

verus! {

/// The views of a list of strings.
pub open spec fn string_views(v: Seq<String>) -> Seq<Seq<char>> {
    v.map_values(|s: String| s@)
}

/// A patch's identifier.
pub struct PatchId(pub String);

impl PatchId {
    pub fn new(value: String) -> (r: Self)
        ensures
            r.0@ == value@,
    {
        PatchId(value)
    }

    pub fn as_str(&self) -> (r: &str)
        ensures
            r@ == self.0@,
    {
        self.0.as_str()
    }
}

/// A package a patch supports, optionally limited to some version names.
pub struct CompatibilitySpec {
    pub package: String,
    pub versions: Vec<String>,
}

/// Whether `entry` admits `package` at `version`: the package must match and,
/// when versions are listed, the version must be one of them.
pub open spec fn spec_matches(
    entry: CompatibilitySpec,
    package: Seq<char>,
    version: Option<Seq<char>>,
) -> bool {
    &&& entry.package@ == package
    &&& (entry.versions@.len() == 0 || (version is Some && string_views(
        entry.versions@,
    ).contains(version->0)))
}

/// Whether `v` holds a string equal to `s`.
pub fn contains_string(v: &[String], s: &[char]) -> (r: bool)
    ensures
        r == string_views(v@).contains(s@),
{
    let n = v.len();
    for i in 0..n
        invariant
            n == v@.len(),
            forall|k: int| 0 <= k < i ==> v@[k]@ != s@,
    {
        let c = chars_of(v[i].as_str());
        if chars_eq(&c, s) {
            assert(string_views(v@)[i as int] == s@);
            return true;
        }
    }
    assert forall|k: int| 0 <= k < string_views(v@).len() implies string_views(v@)[k] != s@ by {
        assert(string_views(v@)[k] == v@[k]@);
    }
    false
}

impl CompatibilitySpec {
    pub fn package(package: String) -> (r: Self)
        ensures
            r.package@ == package@,
            r.versions@.len() == 0,
    {
        CompatibilitySpec { package, versions: Vec::new() }
    }

    pub fn with_versions(package: String, versions: Vec<String>) -> (r: Self)
        ensures
            r.package@ == package@,
            string_views(r.versions@) == string_views(versions@),
    {
        CompatibilitySpec { package, versions }
    }

    pub fn matches(&self, package: &str, version: Option<&str>) -> (r: bool)
        ensures
            r == spec_matches(
                *self,
                package@,
                match version {
                    Some(v) => Some(v@),
                    None => None,
                },
            ),
    {
        let mine = chars_of(self.package.as_str());
        let theirs = chars_of(package);
        if !chars_eq(&mine, &theirs) {
            return false;
        }
        if self.versions.len() == 0 {
            return true;
        }
        match version {
            Some(v) => {
                let vc = chars_of(v);
                contains_string(&self.versions, &vc)
            },
            None => false,
        }
    }
}

/// The first entry at or after `start` declaring `package`.
pub open spec fn find_package(entries: Seq<CompatibilitySpec>, package: Seq<char>, start: int) -> Option<int>
    decreases entries.len() - start,
{
    if start < 0 || start >= entries.len() {
        None
    } else if entries[start].package@ == package {
        Some(start)
    } else {
        find_package(entries, package, start + 1)
    }
}

/// What `find_package` reports holds of the entry it names, and of those before it.
pub proof fn lemma_find_package(entries: Seq<CompatibilitySpec>, package: Seq<char>, start: int)
    requires
        0 <= start,
    ensures
        match find_package(entries, package, start) {
            Some(i) => start <= i < entries.len() && entries[i].package@ == package
                && forall|j: int| start <= j < i ==> entries[j].package@ != package,
            None => forall|j: int| start <= j < entries.len() ==> entries[j].package@ != package,
        },
    decreases entries.len() - start,
{
    if start < entries.len() && entries[start].package@ != package {
        lemma_find_package(entries, package, start + 1);
    }
}

/// Why a patch declaring `entries` does not run on an APK with `package` and
/// `version`, or `None` when it does. Without declarations a patch runs
/// everywhere; otherwise the first entry for the package decides.
pub open spec fn compatibility_text(
    entries: Seq<CompatibilitySpec>,
    package: Option<Seq<char>>,
    version: Option<Seq<char>>,
    check_versions: bool,
) -> Option<Seq<char>> {
    if entries.len() == 0 {
        None
    } else if package is None {
        Some("APK has no package name"@)
    } else if find_package(entries, package->0, 0) is None {
        Some("incompatible package: "@ + package->0)
    } else {
        let entry = entries[find_package(entries, package->0, 0)->0];
        if !check_versions || entry.versions@.len() == 0 {
            None
        } else if version is None {
            Some("APK has no version name"@)
        } else if string_views(entry.versions@).contains(version->0) {
            None
        } else {
            Some(
                "expected one of ["@ + join(string_views(entry.versions@), ", "@) + "], got "@
                    + version->0,
            )
        }
    }
}

/// With check_versions on, a patch declaring versions for the APK's package
/// runs exactly when the APK's version equals one of the versions listed by
/// the first entry for that package; that is, exactly when that entry
/// matches the package and version.
pub proof fn lemma_listed_version_compatible(
    entries: Seq<CompatibilitySpec>,
    package: Seq<char>,
    version: Option<Seq<char>>,
    i: int,
)
    requires
        0 <= i < entries.len(),
        entries[i].package@ == package,
        forall|j: int| 0 <= j < i ==> entries[j].package@ != package,
    ensures
        entries[i].versions@.len() > 0 ==> ((compatibility_text(entries, Some(package), version, true) is None) <==> (
        version is Some && exists|k: int| 0 <= k < entries[i].versions@.len() && #[trigger] entries[i].versions@[k]@ == version->0)),
        (compatibility_text(entries, Some(package), version, true) is None) <==> spec_matches(entries[i], package, version),
{
    lemma_find_package(entries, package, 0);
    let f = find_package(entries, package, 0);
    assert(f == Some(i)) by {
        if f is None {
            assert(entries[i].package@ != package);
        } else {
            let c = f->0;
            if c < i {
                assert(entries[c].package@ != package);
            } else if c > i {
                assert(entries[i].package@ != package);
            }
        }
    }
    let vs = entries[i].versions@;
    if version is Some {
        let v = version->0;
        if string_views(vs).contains(v) {
            let k = choose|k: int| 0 <= k < string_views(vs).len() && string_views(vs)[k] == v;
            assert(vs[k]@ == v);
        }
        if exists|k: int| 0 <= k < vs.len() && #[trigger] vs[k]@ == v {
            let k = choose|k: int| 0 <= k < vs.len() && #[trigger] vs[k]@ == v;
            assert(string_views(vs)[k] == v);
        }
    }
}

/// The view of an optional string.
pub open spec fn opt_view(s: Option<&str>) -> Option<Seq<char>> {
    match s {
        Some(v) => Some(v@),
        None => None,
    }
}

/// The index of the first entry declaring `package`.
pub fn find_entry(entries: &[CompatibilitySpec], package: &[char]) -> (r: Option<usize>)
    ensures
        match r {
            Some(i) => find_package(entries@, package@, 0) == Some(i as int),
            None => find_package(entries@, package@, 0) is None,
        },
{
    let n = entries.len();
    for i in 0..n
        invariant
            n == entries@.len(),
            find_package(entries@, package@, 0) == find_package(entries@, package@, i as int),
    {
        let p = chars_of(entries[i].package.as_str());
        if chars_eq(&p, package) {
            return Some(i);
        }
    }
    None
}

fn versions_chars(versions: &[String]) -> (r: Vec<Vec<char>>)
    ensures
        crate::text::views(r@) == string_views(versions@),
{
    let mut out: Vec<Vec<char>> = Vec::new();
    let n = versions.len();
    for i in 0..n
        invariant
            n == versions@.len(),
            out@.len() == i,
            forall|k: int| 0 <= k < i ==> #[trigger] out@[k]@ == versions@[k]@,
    {
        out.push(chars_of(versions[i].as_str()));
    }
    assert(crate::text::views(out@) =~= string_views(versions@));
    out
}

/// Why `entries` exclude an APK with `package` and `version`; versions are
/// only consulted when `check_versions` holds.
pub fn compatibility_reason_of(
    entries: &[CompatibilitySpec],
    package: Option<&str>,
    version: Option<&str>,
    check_versions: bool,
) -> (r: Option<String>)
    ensures
        match r {
            Some(s) => compatibility_text(entries@, opt_view(package), opt_view(version), check_versions) == Some(s@),
            None => compatibility_text(entries@, opt_view(package), opt_view(version), check_versions) is None,
        },
{
    if entries.len() == 0 {
        return None;
    }
    let package = match package {
        Some(p) => p,
        None => return Some(String::from_str("APK has no package name")),
    };
    let pc = chars_of(package);
    let idx = match find_entry(entries, &pc) {
        Some(i) => i,
        None => {
            let mut msg = chars_of("incompatible package: ");
            extend(&mut msg, &pc);
            return Some(string_of(&msg));
        },
    };
    proof {
        lemma_find_package(entries@, pc@, 0);
    }
    let entry = &entries[idx];
    if !check_versions || entry.versions.len() == 0 {
        return None;
    }
    match version {
        None => Some(String::from_str("APK has no version name")),
        Some(v) => {
            let vc = chars_of(v);
            if contains_string(&entry.versions, &vc) {
                None
            } else {
                let mut msg = chars_of("expected one of [");
                let listed = versions_chars(&entry.versions);
                let sep = chars_of(", ");
                let joined = join_chars(&listed, &sep);
                extend(&mut msg, &joined);
                let tail = chars_of("], got ");
                extend(&mut msg, &tail);
                extend(&mut msg, &vc);
                Some(string_of(&msg))
            }
        },
    }
}

/// A patch as its bundle declares it: identity, dependencies, and the
/// packages it supports.
pub struct PatchSpec {
    pub id: PatchId,
    pub description: String,
    pub enabled_by_default: bool,
    pub dependencies: Vec<PatchId>,
    pub compatibility: Vec<CompatibilitySpec>,
    pub options: Vec<OptionDeclaration>,
    pub extension_dex: Vec<String>,
}

impl PatchSpec {
    pub fn new(id: PatchId) -> (r: Self)
        ensures
            r.id.0@ == id.0@,
            r.description@.len() == 0,
            r.enabled_by_default,
            r.dependencies@.len() == 0,
            r.compatibility@.len() == 0,
            r.options@.len() == 0,
            r.extension_dex@.len() == 0,
    {
        PatchSpec {
            id,
            description: String::new(),
            enabled_by_default: true,
            dependencies: Vec::new(),
            compatibility: Vec::new(),
            options: Vec::new(),
            extension_dex: Vec::new(),
        }
    }

    /// Why this patch does not run on an APK with `package` and `version`.
    pub fn compatibility_reason(&self, package: Option<&str>, version: Option<&str>) -> (r: Option<String>)
        ensures
            match r {
                Some(s) => compatibility_text(self.compatibility@, opt_view(package), opt_view(version), true) == Some(s@),
                None => compatibility_text(self.compatibility@, opt_view(package), opt_view(version), true) is None,
            },
    {
        compatibility_reason_of(&self.compatibility, package, version, true)
    }

    pub fn is_compatible(&self, package: Option<&str>, version: Option<&str>) -> (r: bool)
        ensures
            r == (compatibility_text(self.compatibility@, opt_view(package), opt_view(version), true) is None),
    {
        self.compatibility_reason(package, version).is_none()
    }
}

} // verus!
