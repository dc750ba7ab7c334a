//! The decision logic of the Reseam patch engine: which patches of the loaded
//! bundles run, in what order, and why the others are skipped; the checks a
//! `.reseam` bundle passes before its payload is trusted; and the small
//! parsers and tables the hosted patch runtime relies on.

pub mod text;
pub mod patch;
pub mod error;
pub mod graph;
pub mod order;
pub mod options;
pub mod model;
pub mod index;
pub mod plan;
pub mod log;
pub mod run;
pub mod digest;
pub mod signing;
pub mod bundle;
pub mod dependency;
pub mod context;
pub mod handles;
pub mod descriptor;
pub mod names;
pub mod invoke;
pub mod search;
pub mod extensions;
pub mod instruction;
pub mod convert;
