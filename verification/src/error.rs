//! The errors the engine reports, and the text each one reads as.

use vstd::prelude::*;
use crate::patch::string_views;
use crate::text::{chars_of, extend, join, join_chars, string_of, views};

verus! {

/// What can go wrong while loading bundles and planning or running patches.
#[derive(Debug)]
pub enum PatcherError {
    PatchFailed { name: String, reason: String },
    Bundle(String),
    Incompatible { patch: String, expected: String, actual: String },
    NotFound(String),
    DependencyCycle(Vec<String>),
    MissingDependency { patch: String, dependency: String },
    UndeclaredDependency { patch: String, dependency: String, bundle: String },
    MissingBundle { patch: String, dependency: String, bundle: String },
    UnknownPatch(String),
    InvalidSelection(String),
    UnknownOption { patch: String, key: String },
    InvalidOptionValue { patch: String, key: String, reason: String },
    MissingRequiredOption { patch: String, key: String },
    Io(String),
    Toml(String),
}

/// The text an error reads as.
pub open spec fn error_text(e: PatcherError) -> Seq<char> {
    match e {
        PatcherError::PatchFailed { name, reason } => "patch failed: "@ + name@ + ": "@ + reason@,
        PatcherError::Bundle(reason) => "bundle error: "@ + reason@,
        PatcherError::Incompatible { patch, expected, actual } => "incompatible: patch "@ + patch@
            + " requires "@ + expected@ + ", got "@ + actual@,
        PatcherError::NotFound(what) => "not found: "@ + what@,
        PatcherError::DependencyCycle(names) => "dependency cycle: "@ + join(
            string_views(names@),
            " -> "@,
        ),
        PatcherError::MissingDependency { patch, dependency } => "missing dependency: patch "@
            + patch@ + " depends on "@ + dependency@,
        PatcherError::UndeclaredDependency { patch, dependency, bundle } => "missing dependency: patch "@
            + patch@ + " depends on "@ + dependency@ + ", which bundle '"@ + bundle@ + "' does not declare"@,
        PatcherError::MissingBundle { patch, dependency, bundle } => "missing bundle: patch "@
            + patch@ + " depends on "@ + dependency@ + "; load bundle '"@ + bundle@ + "' alongside"@,
        PatcherError::UnknownPatch(name) => "unknown patch: "@ + name@,
        PatcherError::InvalidSelection(reason) => "invalid patch selection: "@ + reason@,
        PatcherError::UnknownOption { patch, key } => "unknown option: patch "@ + patch@
            + " has no option '"@ + key@ + "'"@,
        PatcherError::InvalidOptionValue { patch, key, reason } => "invalid option value: "@
            + patch@ + "."@ + key@ + ": "@ + reason@,
        PatcherError::MissingRequiredOption { patch, key } => "missing required option: "@ + patch@
            + "."@ + key@,
        PatcherError::Io(reason) => "IO error: "@ + reason@,
        PatcherError::Toml(reason) => "TOML parse error: "@ + reason@,
    }
}

/// Appends the characters of `lit`.
pub fn push_lit(out: &mut Vec<char>, lit: &str)
    ensures
        final(out)@ == old(out)@ + lit@,
{
    let c = chars_of(lit);
    extend(out, &c);
}

/// Appends the characters of `s`.
pub fn push_str(out: &mut Vec<char>, s: &String)
    ensures
        final(out)@ == old(out)@ + s@,
{
    let c = chars_of(s.as_str());
    extend(out, &c);
}

impl PatcherError {
    /// The text this error reads as.
    pub fn message(&self) -> (r: String)
        ensures
            r@ == error_text(*self),
    {
        let mut out: Vec<char> = Vec::new();
        match self {
            PatcherError::PatchFailed { name, reason } => {
                push_lit(&mut out, "patch failed: ");
                push_str(&mut out, name);
                push_lit(&mut out, ": ");
                push_str(&mut out, reason);
            },
            PatcherError::Bundle(reason) => {
                push_lit(&mut out, "bundle error: ");
                push_str(&mut out, reason);
            },
            PatcherError::Incompatible { patch, expected, actual } => {
                push_lit(&mut out, "incompatible: patch ");
                push_str(&mut out, patch);
                push_lit(&mut out, " requires ");
                push_str(&mut out, expected);
                push_lit(&mut out, ", got ");
                push_str(&mut out, actual);
            },
            PatcherError::NotFound(what) => {
                push_lit(&mut out, "not found: ");
                push_str(&mut out, what);
            },
            PatcherError::DependencyCycle(names) => {
                push_lit(&mut out, "dependency cycle: ");
                let mut parts: Vec<Vec<char>> = Vec::new();
                let n = names.len();
                for i in 0..n
                    invariant
                        n == names@.len(),
                        parts@.len() == i,
                        forall|k: int| 0 <= k < i ==> #[trigger] parts@[k]@ == names@[k]@,
                {
                    parts.push(chars_of(names[i].as_str()));
                }
                assert(views(parts@) =~= string_views(names@));
                let sep = chars_of(" -> ");
                let joined = join_chars(&parts, &sep);
                extend(&mut out, &joined);
            },
            PatcherError::MissingDependency { patch, dependency } => {
                push_lit(&mut out, "missing dependency: patch ");
                push_str(&mut out, patch);
                push_lit(&mut out, " depends on ");
                push_str(&mut out, dependency);
            },
            PatcherError::UndeclaredDependency { patch, dependency, bundle } => {
                push_lit(&mut out, "missing dependency: patch ");
                push_str(&mut out, patch);
                push_lit(&mut out, " depends on ");
                push_str(&mut out, dependency);
                push_lit(&mut out, ", which bundle '");
                push_str(&mut out, bundle);
                push_lit(&mut out, "' does not declare");
            },
            PatcherError::MissingBundle { patch, dependency, bundle } => {
                push_lit(&mut out, "missing bundle: patch ");
                push_str(&mut out, patch);
                push_lit(&mut out, " depends on ");
                push_str(&mut out, dependency);
                push_lit(&mut out, "; load bundle '");
                push_str(&mut out, bundle);
                push_lit(&mut out, "' alongside");
            },
            PatcherError::UnknownPatch(name) => {
                push_lit(&mut out, "unknown patch: ");
                push_str(&mut out, name);
            },
            PatcherError::InvalidSelection(reason) => {
                push_lit(&mut out, "invalid patch selection: ");
                push_str(&mut out, reason);
            },
            PatcherError::UnknownOption { patch, key } => {
                push_lit(&mut out, "unknown option: patch ");
                push_str(&mut out, patch);
                push_lit(&mut out, " has no option '");
                push_str(&mut out, key);
                push_lit(&mut out, "'");
            },
            PatcherError::InvalidOptionValue { patch, key, reason } => {
                push_lit(&mut out, "invalid option value: ");
                push_str(&mut out, patch);
                push_lit(&mut out, ".");
                push_str(&mut out, key);
                push_lit(&mut out, ": ");
                push_str(&mut out, reason);
            },
            PatcherError::MissingRequiredOption { patch, key } => {
                push_lit(&mut out, "missing required option: ");
                push_str(&mut out, patch);
                push_lit(&mut out, ".");
                push_str(&mut out, key);
            },
            PatcherError::Io(reason) => {
                push_lit(&mut out, "IO error: ");
                push_str(&mut out, reason);
            },
            PatcherError::Toml(reason) => {
                push_lit(&mut out, "TOML parse error: ");
                push_str(&mut out, reason);
            },
        }
        string_of(&out)
    }
}

} // verus!
