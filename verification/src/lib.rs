//! Merge planning between structurally similar record definitions.
//!
//! Given a source record and a target record (each a list of named, typed
//! fields), this library pairs up same-named fields, classifies each field's
//! declared type as plain or optional-wrapped, decides per pair which merge
//! rule applies, and produces an abstract merge operation together with
//! structured diagnostics for the pairs that cannot be merged. The abstract
//! operation can be applied to record values, in strict (overwrite) or soft
//! (fill-if-absent) fashion, consuming or borrowing the source.

pub mod classify;
pub mod diagnostics;
pub mod emit;
pub mod fields;
pub mod interface;
pub mod laws;
pub mod orchestrate;
pub mod rules;
pub mod types;
pub mod values;
