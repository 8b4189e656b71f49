//! Structured diagnostics.
//!
//! Every defect found while generating merge operations is collected, never
//! thrown: a diagnostic carries the offending field's source identity (record
//! and field name), its classification, and the rendered type texts involved,
//! so the host can surface each defect precisely and independently.

use vstd::prelude::*;

use crate::classify::InvalidReason;

verus! {

/// The classification of a diagnostic.
#[derive(Clone, Copy, PartialEq, Eq, Debug)]
pub enum DiagnosticKind {
    TypeMismatch,
    UnsupportedType,
    MalformedWrapper,
    TargetNotFound,
}

/// Ghost model of a diagnostic.
pub enum DiagnosticView {
    TypeMismatch {
        record: Seq<char>,
        field: Seq<char>,
        source_type: Seq<char>,
        target_type: Seq<char>,
    },
    UnsupportedType { record: Seq<char>, field: Seq<char>, type_text: Seq<char> },
    MalformedWrapper {
        record: Seq<char>,
        field: Seq<char>,
        type_text: Seq<char>,
        reason: InvalidReason,
    },
    TargetNotFound { specifier: Seq<char> },
}

/// One defect, attached to the place it was found. All variants are
/// non-fatal: the offending field or target is excluded and the rest of the
/// batch proceeds.
#[derive(Debug, PartialEq, Eq)]
pub enum Diagnostic {
    /// Paired fields' underlying types differ under the equality oracle;
    /// names both sides' rendered types. The field is excluded.
    TypeMismatch { record: String, field: String, source_type: String, target_type: String },
    /// A field's declared type is not a recognized shape (not a simple
    /// path). The field is excluded.
    UnsupportedType { record: String, field: String, type_text: String },
    /// A wrapper-shaped type whose argument slot is malformed. The field is
    /// excluded.
    MalformedWrapper { record: String, field: String, type_text: String, reason: InvalidReason },
    /// A target specifier could not be resolved to a record definition; that
    /// target produces only this diagnostic, other targets proceed.
    TargetNotFound { specifier: String },
}

impl View for Diagnostic {
    type V = DiagnosticView;

    open spec fn view(&self) -> DiagnosticView {
        match self {
            Diagnostic::TypeMismatch { record, field, source_type, target_type } => {
                DiagnosticView::TypeMismatch {
                    record: record@,
                    field: field@,
                    source_type: source_type@,
                    target_type: target_type@,
                }
            },
            Diagnostic::UnsupportedType { record, field, type_text } => {
                DiagnosticView::UnsupportedType {
                    record: record@,
                    field: field@,
                    type_text: type_text@,
                }
            },
            Diagnostic::MalformedWrapper { record, field, type_text, reason } => {
                DiagnosticView::MalformedWrapper {
                    record: record@,
                    field: field@,
                    type_text: type_text@,
                    reason: *reason,
                }
            },
            Diagnostic::TargetNotFound { specifier } => {
                DiagnosticView::TargetNotFound { specifier: specifier@ }
            },
        }
    }
}

impl DeepView for Diagnostic {
    type V = DiagnosticView;

    open spec fn deep_view(&self) -> DiagnosticView {
        self@
    }
}

/// The classification of a diagnostic, as a function of its variant.
pub open spec fn spec_kind(d: DiagnosticView) -> DiagnosticKind {
    match d {
        DiagnosticView::TypeMismatch { .. } => DiagnosticKind::TypeMismatch,
        DiagnosticView::UnsupportedType { .. } => DiagnosticKind::UnsupportedType,
        DiagnosticView::MalformedWrapper { .. } => DiagnosticKind::MalformedWrapper,
        DiagnosticView::TargetNotFound { .. } => DiagnosticKind::TargetNotFound,
    }
}

impl Diagnostic {
    /// This diagnostic's classification.
    pub fn kind(&self) -> (k: DiagnosticKind)
        ensures
            k == spec_kind(self@),
    {
        match self {
            Diagnostic::TypeMismatch { .. } => DiagnosticKind::TypeMismatch,
            Diagnostic::UnsupportedType { .. } => DiagnosticKind::UnsupportedType,
            Diagnostic::MalformedWrapper { .. } => DiagnosticKind::MalformedWrapper,
            Diagnostic::TargetNotFound { .. } => DiagnosticKind::TargetNotFound,
        }
    }
}

} // verus!
