//! Where things are inside the APK's DEX files, as patches refer to them.

use vstd::prelude::*;

verus! {

/// A method named by class descriptor, name, and prototype.
#[derive(Debug, Clone, Copy, PartialEq, Eq)]
pub struct MethodKey<'a> {
    pub class: &'a str,
    pub name: &'a str,
    pub proto: &'a str,
}

/// A class: which DEX file, and which class definition in it.
#[derive(PartialEq, Eq, Structural, Debug, Clone, Copy)]
pub struct ClassLocation {
    pub dex_idx: usize,
    pub class_idx: usize,
}

/// A method: its class, and its place among the class's direct or virtual
/// methods.
#[derive(PartialEq, Eq, Structural, Debug, Clone, Copy)]
pub struct MethodLocation {
    pub dex_idx: usize,
    pub class_idx: usize,
    pub method_idx: usize,
    pub is_virtual: bool,
}

/// An instruction of a method, by index.
#[derive(Debug, Clone, Copy)]
pub struct InstructionLocation {
    pub method: MethodLocation,
    pub insn_idx: usize,
}

/// An instruction referring to one of the targets a search asked for.
#[derive(Debug, Clone, Copy)]
pub struct SiteHit {
    pub loc: InstructionLocation,
    pub target_index: usize,
}

/// A method a fingerprint matched, with the instructions that matched.
#[derive(Debug, Clone)]
pub struct FingerprintLocation {
    pub method: MethodLocation,
    pub matched_indices: Vec<u32>,
}

} // verus!
