//! The merge rule engine.
//!
//! For one paired field, given the two classified types and the mode, the
//! engine selects one of five mutually exclusive cases and yields an abstract
//! merge action, a skip, or a type mismatch:
//!
//! 1. plain into plain: compatible iff the texts agree; strict copies
//!    unconditionally, soft never touches two plain fields (there is no
//!    absence state to test) and skips without consulting the oracle;
//! 2. wrapped into plain: compatible iff the source's inner text agrees with
//!    the target's text; strict copies only if the source is present; soft
//!    skips without consulting the oracle, the target having no absence
//!    state;
//! 3. plain into wrapped: compatible iff the source's text agrees with the
//!    target's inner text; strict wraps and assigns unconditionally, soft
//!    wraps and assigns only if the target is currently absent;
//! 4. wrapped into wrapped, three sub-cases tried in order, first match
//!    wins: (a) equal inner texts — same depth; strict copies, soft copies
//!    if the target is absent; (b) the source's inner text equals the
//!    target's whole wrapped text — the source is doubly wrapped relative to
//!    the target; strict copies if the source is present (one unwrap, no
//!    rewrap), soft additionally requires the target absent; (c) the
//!    source's whole wrapped text equals the target's inner text; strict
//!    wraps the source's whole value and assigns, soft only if the target is
//!    absent; otherwise the pair is a mismatch naming the source's whole
//!    text and the target's inner text;
//! 5. either side invalid: skip silently (the classifier already raised its
//!    own diagnostic).
//!
//! The same-depth sub-case is tried first because it is the common case and
//! must win over an incidental lexical match at a different nesting depth.

use vstd::prelude::*;

use crate::classify::{ClassifiedType, ClassifiedTypeView, spec_type_equal, type_equal};
use crate::types::dup_string;

verus! {

/// Strict merging overwrites a compatible target field unconditionally;
/// soft merging only fills a target field that is currently absent.
#[derive(Clone, Copy, PartialEq, Eq, Debug)]
pub enum MergeMode {
    Strict,
    Soft,
}

/// An abstract merge instruction for one paired field.
#[derive(Clone, Copy, PartialEq, Eq, Debug)]
pub enum MergeAction {
    /// Copy the source field unconditionally.
    CopyAlways,
    /// Copy only if the source field is present, unwrapping one level.
    CopyIfSourcePresent,
    /// Wrap the source field in the marker, then assign unconditionally.
    WrapAlways,
    /// Copy the source field only if the target field is currently absent.
    CopyIfTargetAbsent,
    /// Wrap the source field, assign only if the target field is absent.
    WrapIfTargetAbsent,
    /// Copy (one unwrap) only if the source field is present and the target
    /// field is absent.
    CopyIfSourcePresentAndTargetAbsent,
}

/// Ghost model of the engine's verdict on one pair.
pub enum MergeDecisionView {
    Act { action: MergeAction },
    Skip,
    Mismatch { source_type: Seq<char>, target_type: Seq<char> },
}

/// The engine's verdict on one pair: an action, nothing at all, or a type
/// mismatch naming the two compared type texts.
#[derive(Debug, PartialEq, Eq)]
pub enum MergeDecision {
    Act { action: MergeAction },
    Skip,
    Mismatch { source_type: String, target_type: String },
}

impl View for MergeDecision {
    type V = MergeDecisionView;

    open spec fn view(&self) -> MergeDecisionView {
        match self {
            MergeDecision::Act { action } => MergeDecisionView::Act { action: *action },
            MergeDecision::Skip => MergeDecisionView::Skip,
            MergeDecision::Mismatch { source_type, target_type } => MergeDecisionView::Mismatch {
                source_type: source_type@,
                target_type: target_type@,
            },
        }
    }
}

/// The engine's verdict, as a function of the two classified types and the
/// mode. The cases are evaluated in priority order; see the module text.
pub open spec fn spec_decide(
    source: ClassifiedTypeView,
    target: ClassifiedTypeView,
    mode: MergeMode,
) -> MergeDecisionView {
    match (source, target) {
        (ClassifiedTypeView::Invalid { .. }, _) => MergeDecisionView::Skip,
        (_, ClassifiedTypeView::Invalid { .. }) => MergeDecisionView::Skip,
        (
            ClassifiedTypeView::Plain { text: source_text },
            ClassifiedTypeView::Plain { text: target_text },
        ) => match mode {
            MergeMode::Soft => MergeDecisionView::Skip,
            MergeMode::Strict => if spec_type_equal(source_text, target_text) {
                MergeDecisionView::Act { action: MergeAction::CopyAlways }
            } else {
                MergeDecisionView::Mismatch { source_type: source_text, target_type: target_text }
            },
        },
        (
            ClassifiedTypeView::Wrapped { inner: source_inner, .. },
            ClassifiedTypeView::Plain { text: target_text },
        ) => match mode {
            MergeMode::Soft => MergeDecisionView::Skip,
            MergeMode::Strict => if spec_type_equal(source_inner, target_text) {
                MergeDecisionView::Act { action: MergeAction::CopyIfSourcePresent }
            } else {
                MergeDecisionView::Mismatch { source_type: source_inner, target_type: target_text }
            },
        },
        (
            ClassifiedTypeView::Plain { text: source_text },
            ClassifiedTypeView::Wrapped { inner: target_inner, .. },
        ) => if spec_type_equal(source_text, target_inner) {
            MergeDecisionView::Act {
                action: match mode {
                    MergeMode::Strict => MergeAction::WrapAlways,
                    MergeMode::Soft => MergeAction::WrapIfTargetAbsent,
                },
            }
        } else {
            MergeDecisionView::Mismatch { source_type: source_text, target_type: target_inner }
        },
        (
            ClassifiedTypeView::Wrapped { inner: source_inner, outer: source_outer },
            ClassifiedTypeView::Wrapped { inner: target_inner, outer: target_outer },
        ) => if spec_type_equal(source_inner, target_inner) {
            MergeDecisionView::Act {
                action: match mode {
                    MergeMode::Strict => MergeAction::CopyAlways,
                    MergeMode::Soft => MergeAction::CopyIfTargetAbsent,
                },
            }
        } else if spec_type_equal(source_inner, target_outer) {
            MergeDecisionView::Act {
                action: match mode {
                    MergeMode::Strict => MergeAction::CopyIfSourcePresent,
                    MergeMode::Soft => MergeAction::CopyIfSourcePresentAndTargetAbsent,
                },
            }
        } else if spec_type_equal(source_outer, target_inner) {
            MergeDecisionView::Act {
                action: match mode {
                    MergeMode::Strict => MergeAction::WrapAlways,
                    MergeMode::Soft => MergeAction::WrapIfTargetAbsent,
                },
            }
        } else {
            MergeDecisionView::Mismatch { source_type: source_outer, target_type: target_inner }
        },
    }
}

/// Decide which merge action, if any, applies to one paired field.
pub fn decide(source: &ClassifiedType, target: &ClassifiedType, mode: MergeMode) -> (d:
    MergeDecision)
    ensures
        d@ == spec_decide(source@, target@, mode),
{
    match (source, target) {
        (ClassifiedType::Invalid { .. }, _) => MergeDecision::Skip,
        (_, ClassifiedType::Invalid { .. }) => MergeDecision::Skip,
        (
            ClassifiedType::Plain { text: source_text },
            ClassifiedType::Plain { text: target_text },
        ) => match mode {
            MergeMode::Soft => MergeDecision::Skip,
            MergeMode::Strict => if type_equal(source_text, target_text) {
                MergeDecision::Act { action: MergeAction::CopyAlways }
            } else {
                MergeDecision::Mismatch {
                    source_type: dup_string(source_text),
                    target_type: dup_string(target_text),
                }
            },
        },
        (
            ClassifiedType::Wrapped { inner: source_inner, .. },
            ClassifiedType::Plain { text: target_text },
        ) => match mode {
            MergeMode::Soft => MergeDecision::Skip,
            MergeMode::Strict => if type_equal(source_inner, target_text) {
                MergeDecision::Act { action: MergeAction::CopyIfSourcePresent }
            } else {
                MergeDecision::Mismatch {
                    source_type: dup_string(source_inner),
                    target_type: dup_string(target_text),
                }
            },
        },
        (
            ClassifiedType::Plain { text: source_text },
            ClassifiedType::Wrapped { inner: target_inner, .. },
        ) => if type_equal(source_text, target_inner) {
            MergeDecision::Act {
                action: match mode {
                    MergeMode::Strict => MergeAction::WrapAlways,
                    MergeMode::Soft => MergeAction::WrapIfTargetAbsent,
                },
            }
        } else {
            MergeDecision::Mismatch {
                source_type: dup_string(source_text),
                target_type: dup_string(target_inner),
            }
        },
        (
            ClassifiedType::Wrapped { inner: source_inner, outer: source_outer },
            ClassifiedType::Wrapped { inner: target_inner, outer: target_outer },
        ) => if type_equal(source_inner, target_inner) {
            MergeDecision::Act {
                action: match mode {
                    MergeMode::Strict => MergeAction::CopyAlways,
                    MergeMode::Soft => MergeAction::CopyIfTargetAbsent,
                },
            }
        } else if type_equal(source_inner, target_outer) {
            MergeDecision::Act {
                action: match mode {
                    MergeMode::Strict => MergeAction::CopyIfSourcePresent,
                    MergeMode::Soft => MergeAction::CopyIfSourcePresentAndTargetAbsent,
                },
            }
        } else if type_equal(source_outer, target_inner) {
            MergeDecision::Act {
                action: match mode {
                    MergeMode::Strict => MergeAction::WrapAlways,
                    MergeMode::Soft => MergeAction::WrapIfTargetAbsent,
                },
            }
        } else {
            MergeDecision::Mismatch {
                source_type: dup_string(source_outer),
                target_type: dup_string(target_inner),
            }
        },
    }
}

} // verus!
