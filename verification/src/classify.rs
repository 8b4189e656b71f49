//! The type classifier and the type equality oracle.
//!
//! A field's declared type classifies as plain, optional-wrapped, or invalid.
//! The test is purely syntactic: a path of exactly one segment whose name is
//! the recognized wrapper marker and whose angle brackets carry a type
//! argument is wrapped; any other path is plain; a wrapper-shaped path with a
//! malformed argument slot, and any non-path type, is invalid. Aliases are
//! not resolved: an alias for the wrapper shape classifies as plain.
//!
//! Type equality compares the canonical rendered texts of two type
//! expressions. This is intentionally coarse: it cannot distinguish
//! identically-named types from different scopes, and it does not recognize
//! differently-spelled aliases of the same type. This is a known limitation
//! of the textual approach, not a defect to be papered over.

use vstd::prelude::*;

use crate::types::{
    GenericArg, GenericArgView, SegmentArgs, SegmentArgsView, TypeExpr, TypeExprView, TypeShape,
    TypeShapeView, dup_string, str_eq,
};

verus! {

/// Why a type expression failed to classify as plain or wrapped.
#[derive(Clone, Copy, PartialEq, Eq, Debug)]
pub enum InvalidReason {
    /// The type is not a path at all (tuple, reference, array, function type).
    NotAPath,
    /// The wrapper marker carries angle brackets with no argument.
    MissingWrapperArgument,
    /// The wrapper marker's first argument is not a type.
    NonTypeWrapperArgument,
    /// The wrapper marker's argument slot is not angle-bracketed.
    UnrecognizedWrapperArguments,
}

/// Ghost model of a classified type. Inner and outer types are carried by
/// their canonical text, which is all the equality oracle consults.
pub enum ClassifiedTypeView {
    Plain { text: Seq<char> },
    Wrapped { inner: Seq<char>, outer: Seq<char> },
    Invalid { reason: InvalidReason },
}

/// A field's declared type, classified for merge purposes.
#[derive(Debug, PartialEq, Eq)]
pub enum ClassifiedType {
    /// Not matching the optional-wrapper shape; carries the full text.
    Plain { text: String },
    /// The optional-wrapper shape: `inner` is the argument's text, `outer`
    /// the full original type's text (kept so it can itself be compared as a
    /// plain type against a doubly-wrapped counterpart).
    Wrapped { inner: String, outer: String },
    /// Not a supported shape; the reason selects the diagnostic.
    Invalid { reason: InvalidReason },
}

impl View for ClassifiedType {
    type V = ClassifiedTypeView;

    open spec fn view(&self) -> ClassifiedTypeView {
        match self {
            ClassifiedType::Plain { text } => ClassifiedTypeView::Plain { text: text@ },
            ClassifiedType::Wrapped { inner, outer } => ClassifiedTypeView::Wrapped {
                inner: inner@,
                outer: outer@,
            },
            ClassifiedType::Invalid { reason } => ClassifiedTypeView::Invalid { reason: *reason },
        }
    }
}

/// The recognized optional-wrapper marker.
pub open spec fn wrapper_marker() -> Seq<char> {
    "Option"@
}

/// How a type expression classifies, as a function of its shape.
///
/// A qualified, rooted, or multi-segment path that fails the wrapper shape
/// test is plain, not an error; only a wrapper-shaped path with a malformed
/// argument slot, or a non-path type, is invalid.
pub open spec fn spec_classify(ty: TypeExprView) -> ClassifiedTypeView {
    match ty.shape {
        TypeShapeView::NonPath => ClassifiedTypeView::Invalid {
            reason: InvalidReason::NotAPath,
        },
        TypeShapeView::Path { rooted, qualified, segments } => {
            if qualified || rooted || segments.len() != 1 {
                ClassifiedTypeView::Plain { text: ty.text }
            } else if segments[0].name != wrapper_marker() {
                ClassifiedTypeView::Plain { text: ty.text }
            } else {
                match segments[0].args {
                    SegmentArgsView::Angle { args } => {
                        if args.len() == 0 {
                            ClassifiedTypeView::Invalid {
                                reason: InvalidReason::MissingWrapperArgument,
                            }
                        } else {
                            match args[0] {
                                GenericArgView::TypeArg { text } => ClassifiedTypeView::Wrapped {
                                    inner: text,
                                    outer: ty.text,
                                },
                                GenericArgView::OtherArg => ClassifiedTypeView::Invalid {
                                    reason: InvalidReason::NonTypeWrapperArgument,
                                },
                            }
                        }
                    },
                    _ => ClassifiedTypeView::Invalid {
                        reason: InvalidReason::UnrecognizedWrapperArguments,
                    },
                }
            }
        },
    }
}

/// Classify a field's declared type as plain, wrapped, or invalid.
pub fn classify(ty: &TypeExpr) -> (c: ClassifiedType)
    ensures
        c@ == spec_classify(ty@),
{
    match &ty.shape {
        TypeShape::NonPath => ClassifiedType::Invalid { reason: InvalidReason::NotAPath },
        TypeShape::Path { rooted, qualified, segments } => {
            if *qualified || *rooted || segments.len() != 1 {
                ClassifiedType::Plain { text: dup_string(&ty.text) }
            } else {
                let segment = &segments[0];
                if !str_eq(segment.name.as_str(), "Option") {
                    ClassifiedType::Plain { text: dup_string(&ty.text) }
                } else {
                    match &segment.args {
                        SegmentArgs::Angle { args } => {
                            if args.len() == 0 {
                                ClassifiedType::Invalid {
                                    reason: InvalidReason::MissingWrapperArgument,
                                }
                            } else {
                                match &args[0] {
                                    GenericArg::TypeArg { text } => ClassifiedType::Wrapped {
                                        inner: dup_string(text),
                                        outer: dup_string(&ty.text),
                                    },
                                    GenericArg::OtherArg => ClassifiedType::Invalid {
                                        reason: InvalidReason::NonTypeWrapperArgument,
                                    },
                                }
                            }
                        },
                        SegmentArgs::NoArgs | SegmentArgs::Paren => ClassifiedType::Invalid {
                            reason: InvalidReason::UnrecognizedWrapperArguments,
                        },
                    }
                }
            }
        },
    }
}

/// Whether two type expressions are "the same type" for merge purposes:
/// their canonical texts agree character for character.
pub open spec fn spec_type_equal(a: Seq<char>, b: Seq<char>) -> bool {
    a == b
}

/// The type equality oracle: exact textual comparison of canonical forms.
pub fn type_equal(a: &String, b: &String) -> (r: bool)
    ensures
        r == spec_type_equal(a@, b@),
{
    a.eq(b)
}

} // verus!
