//! A patch as the engine sees it once its bundle is loaded.

use vstd::prelude::*;
use crate::options::OptionDeclaration;
use crate::patch::{compatibility_reason_of, compatibility_text, opt_view, CompatibilitySpec};
use crate::text::{chars_of, extend, string_of};

verus! {

/// A package a patch supports, optionally limited to some version names.
pub type CompatiblePackage = CompatibilitySpec;

/// What a bundle declares about one of its patches.
pub struct PatchSpec {
    /// The bundle declaring the patch.
    pub bundle: String,
    /// The patch's identifier, unique within its bundle.
    pub id: String,
    /// The display name.
    pub name: String,
    /// Hidden patches are not selectable by name and never on by default.
    pub hidden: bool,
    pub description: String,
    pub enabled_by_default: bool,
    /// References (`<bundle>/<id>`) of the patches this one needs.
    pub dependencies: Vec<String>,
    pub compatibility: Vec<CompatiblePackage>,
    pub options: Vec<OptionDeclaration>,
}

/// `<bundle>/<id>`: the identity dependencies, selections, and results use.
pub open spec fn reference_of(p: PatchSpec) -> Seq<char> {
    p.bundle@ + "/"@ + p.id@
}

/// Why `p` does not run on an APK with `package`, versions aside.
pub open spec fn package_text(p: PatchSpec, package: Option<Seq<char>>) -> Option<Seq<char>> {
    compatibility_text(p.compatibility@, package, None, false)
}

/// Why `p` does not run on an APK with `package` and `version`.
pub open spec fn version_text(p: PatchSpec, package: Option<Seq<char>>, version: Option<Seq<char>>) -> Option<Seq<char>> {
    compatibility_text(p.compatibility@, package, version, true)
}

impl PatchSpec {
    /// `<bundle>/<id>`.
    pub fn reference(&self) -> (r: String)
        ensures
            r@ == reference_of(*self),
    {
        let r = self.reference_chars();
        string_of(&r)
    }

    /// `<bundle>/<id>`, as characters.
    pub fn reference_chars(&self) -> (r: Vec<char>)
        ensures
            r@ == reference_of(*self),
    {
        let mut out = chars_of(self.bundle.as_str());
        let slash = chars_of("/");
        extend(&mut out, &slash);
        let id = chars_of(self.id.as_str());
        extend(&mut out, &id);
        out
    }

    /// Why this patch does not run on an APK with `package`, whatever its version.
    pub fn package_incompatibility(&self, package: Option<&str>) -> (r: Option<String>)
        ensures
            match r {
                Some(s) => package_text(*self, opt_view(package)) == Some(s@),
                None => package_text(*self, opt_view(package)) is None,
            },
    {
        compatibility_reason_of(&self.compatibility, package, None, false)
    }

    /// Why this patch does not run on an APK with `package` and `version`.
    pub fn incompatibility(&self, package: Option<&str>, version: Option<&str>) -> (r: Option<String>)
        ensures
            match r {
                Some(s) => version_text(*self, opt_view(package), opt_view(version)) == Some(s@),
                None => version_text(*self, opt_view(package), opt_view(version)) is None,
            },
    {
        compatibility_reason_of(&self.compatibility, package, version, true)
    }
}

} // verus!
