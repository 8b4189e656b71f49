//! The emitter: from two record definitions to an operation bundle.
//!
//! One emission pass pairs the fields, classifies each paired field's type,
//! and runs the merge rule engine once per pair and mode. The result is a
//! bundle of per-field rules — one list for strict merging, one for soft
//! merging — plus the diagnostics for the pairs that could not be merged.
//! The owned and borrowed variants share the rule lists entirely; they
//! differ only in whether applying them consumes or duplicates the source
//! record, which is the applier's concern (see the values module).
//!
//! Each defect is surfaced once: an invalid field type yields its
//! classifier diagnostic, and an incompatible pair yields one type-mismatch
//! diagnostic, taken from the strict pass (soft merging never reaches the
//! oracle on a pair the strict pass does not also check).

use vstd::prelude::*;

use crate::classify::{ClassifiedType, ClassifiedTypeView, InvalidReason, classify, spec_classify};
use crate::diagnostics::{Diagnostic, DiagnosticView};
use crate::fields::{
    FieldDescriptor, FieldDescriptorView, FieldPairView, RecordDef, RecordDefView,
    pair_fields, spec_pairs,
};
use crate::rules::{MergeAction, MergeDecision, MergeDecisionView, MergeMode, decide, spec_decide};
use crate::types::dup_string;

verus! {

/// Whether a merge operation consumes the source record or reads it through
/// a reference, duplicating the merged values.
#[derive(Clone, Copy, PartialEq, Eq, Debug)]
pub enum Ownership {
    Owned,
    Borrowed,
}

/// Ghost model of one generated per-field merge rule.
pub struct FieldRuleView {
    pub field: Seq<char>,
    pub action: MergeAction,
}

/// One generated merge rule: which field, and what to do with it.
#[derive(Debug, PartialEq, Eq)]
pub struct FieldRule {
    pub field: String,
    pub action: MergeAction,
}

impl View for FieldRule {
    type V = FieldRuleView;

    open spec fn view(&self) -> FieldRuleView {
        FieldRuleView { field: self.field@, action: self.action }
    }
}

impl DeepView for FieldRule {
    type V = FieldRuleView;

    open spec fn deep_view(&self) -> FieldRuleView {
        self@
    }
}

/// The callable merge operation bundle for one source/target pair: the
/// strict rules and the soft rules, derived from the same field pairs.
#[derive(Debug, PartialEq, Eq)]
pub struct MergeBundle {
    pub strict_rules: Vec<FieldRule>,
    pub soft_rules: Vec<FieldRule>,
}

/// The outcome of one emission pass: the requested ownership, the operation
/// bundle, and the emission diagnostics.
#[derive(Debug, PartialEq, Eq)]
pub struct Emission {
    pub ownership: Ownership,
    pub bundle: MergeBundle,
    pub diagnostics: Vec<Diagnostic>,
}

/// The rule one pair contributes under one mode: one rule if the engine
/// yields an action, nothing if it skips or mismatches.
pub open spec fn spec_rule_for(p: FieldPairView, mode: MergeMode) -> Seq<FieldRuleView> {
    match spec_decide(spec_classify(p.source.ty), spec_classify(p.target.ty), mode) {
        MergeDecisionView::Act { action } => seq![FieldRuleView { field: p.source.name, action }],
        _ => Seq::empty(),
    }
}

/// The rules a pair list contributes under one mode, in pairing order.
pub open spec fn spec_rules(pairs: Seq<FieldPairView>, mode: MergeMode) -> Seq<FieldRuleView>
    decreases pairs.len(),
{
    if pairs.len() == 0 {
        Seq::empty()
    } else {
        spec_rules(pairs.drop_last(), mode) + spec_rule_for(pairs.last(), mode)
    }
}

/// The classifier's diagnostic for one field, if its type is invalid.
pub open spec fn spec_classifier_diags(f: FieldDescriptorView, record: Seq<char>) -> Seq<
    DiagnosticView,
> {
    match spec_classify(f.ty) {
        ClassifiedTypeView::Invalid { reason } => if reason == InvalidReason::NotAPath {
            seq![DiagnosticView::UnsupportedType { record, field: f.name, type_text: f.ty.text }]
        } else {
            seq![
                DiagnosticView::MalformedWrapper {
                    record,
                    field: f.name,
                    type_text: f.ty.text,
                    reason,
                },
            ]
        },
        _ => Seq::empty(),
    }
}

/// The type-mismatch diagnostic for one pair, if the strict pass finds its
/// types incompatible; attached to the source field's identity.
pub open spec fn spec_mismatch_diags(p: FieldPairView, source_record: Seq<char>) -> Seq<
    DiagnosticView,
> {
    match spec_decide(spec_classify(p.source.ty), spec_classify(p.target.ty), MergeMode::Strict) {
        MergeDecisionView::Mismatch { source_type, target_type } => seq![
            DiagnosticView::TypeMismatch {
                record: source_record,
                field: p.source.name,
                source_type,
                target_type,
            },
        ],
        _ => Seq::empty(),
    }
}

/// All diagnostics one pair contributes: the two classifier diagnostics,
/// then the mismatch diagnostic.
pub open spec fn spec_pair_diags(
    p: FieldPairView,
    source_record: Seq<char>,
    target_record: Seq<char>,
) -> Seq<DiagnosticView> {
    spec_classifier_diags(p.source, source_record) + spec_classifier_diags(p.target, target_record)
        + spec_mismatch_diags(p, source_record)
}

/// All diagnostics a pair list contributes, in pairing order.
pub open spec fn spec_diags(
    pairs: Seq<FieldPairView>,
    source_record: Seq<char>,
    target_record: Seq<char>,
) -> Seq<DiagnosticView>
    decreases pairs.len(),
{
    if pairs.len() == 0 {
        Seq::empty()
    } else {
        spec_diags(pairs.drop_last(), source_record, target_record) + spec_pair_diags(
            pairs.last(),
            source_record,
            target_record,
        )
    }
}

/// What an emission for the given records and ownership contains: both rule
/// lists and the diagnostics, all derived from the name-based field pairs.
pub open spec fn emission_matches(
    e: Emission,
    source: RecordDefView,
    target: RecordDefView,
    ownership: Ownership,
) -> bool {
    let pairs = spec_pairs(source.fields, target.fields);
    &&& e.ownership == ownership
    &&& e.bundle.strict_rules.deep_view() == spec_rules(pairs, MergeMode::Strict)
    &&& e.bundle.soft_rules.deep_view() == spec_rules(pairs, MergeMode::Soft)
    &&& e.diagnostics.deep_view() == spec_diags(pairs, source.name, target.name)
}

/// Append the classifier's diagnostic for one field, if any.
fn push_classifier_diag(
    diagnostics: &mut Vec<Diagnostic>,
    field: &FieldDescriptor,
    class: &ClassifiedType,
    record: &String,
)
    requires
        class@ == spec_classify(field@.ty),
    ensures
        final(diagnostics).deep_view() == old(diagnostics).deep_view() + spec_classifier_diags(
            field@,
            record@,
        ),
{
    let ghost before = diagnostics.deep_view();
    match class {
        ClassifiedType::Invalid { reason } => {
            let diag = match reason {
                InvalidReason::NotAPath => Diagnostic::UnsupportedType {
                    record: dup_string(record),
                    field: dup_string(&field.name),
                    type_text: dup_string(&field.ty.text),
                },
                _ => Diagnostic::MalformedWrapper {
                    record: dup_string(record),
                    field: dup_string(&field.name),
                    type_text: dup_string(&field.ty.text),
                    reason: *reason,
                },
            };
            let ghost diag_view = diag@;
            diagnostics.push(diag);
            proof {
                assert(diagnostics.deep_view() =~= before + seq![diag_view]);
                assert(seq![diag_view] =~= spec_classifier_diags(field@, record@));
            }
        },
        _ => {
            proof {
                assert(diagnostics.deep_view() =~= before + spec_classifier_diags(
                    field@,
                    record@,
                ));
            }
        },
    }
}

/// Run one emission pass: pair the fields, decide every pair under both
/// modes, and collect the operation bundle and the diagnostics.
pub fn emit(source: &RecordDef, target: &RecordDef, ownership: Ownership) -> (e: Emission)
    ensures
        emission_matches(e, source@, target@, ownership),
{
    let pairs = pair_fields(source, target);
    let ghost pair_views = pairs.deep_view();
    let ghost source_record = source.name@;
    let ghost target_record = target.name@;
    let mut strict_rules: Vec<FieldRule> = Vec::new();
    let mut soft_rules: Vec<FieldRule> = Vec::new();
    let mut diagnostics: Vec<Diagnostic> = Vec::new();
    let mut k: usize = 0;
    while k < pairs.len()
        invariant
            k <= pairs.len(),
            pair_views == pairs.deep_view(),
            pair_views.len() == pairs.len(),
            strict_rules.deep_view() == spec_rules(pair_views.take(k as int), MergeMode::Strict),
            soft_rules.deep_view() == spec_rules(pair_views.take(k as int), MergeMode::Soft),
            diagnostics.deep_view() == spec_diags(
                pair_views.take(k as int),
                source_record,
                target_record,
            ),
            source_record == source.name@,
            target_record == target.name@,
        decreases pairs.len() - k,
    {
        let pair = &pairs[k];
        let ghost p = pair_views[k as int];
        let source_class = classify(&pair.source.ty);
        let target_class = classify(&pair.target.ty);

        push_classifier_diag(&mut diagnostics, &pair.source, &source_class, &source.name);
        push_classifier_diag(&mut diagnostics, &pair.target, &target_class, &target.name);

        let ghost strict_before = strict_rules.deep_view();
        let ghost diags_before = diagnostics.deep_view();
        match decide(&source_class, &target_class, MergeMode::Strict) {
            MergeDecision::Act { action } => {
                let rule = FieldRule { field: dup_string(&pair.source.name), action };
                let ghost rule_view = rule@;
                strict_rules.push(rule);
                proof {
                    assert(strict_rules.deep_view() =~= strict_before + seq![rule_view]);
                    assert(seq![rule_view] =~= spec_rule_for(p, MergeMode::Strict));
                    assert(diagnostics.deep_view() =~= diags_before + spec_mismatch_diags(
                        p,
                        source_record,
                    ));
                }
            },
            MergeDecision::Skip => {
                proof {
                    assert(spec_rule_for(p, MergeMode::Strict) =~= Seq::<FieldRuleView>::empty());
                    assert(strict_rules.deep_view() =~= strict_before + spec_rule_for(
                        p,
                        MergeMode::Strict,
                    ));
                    assert(diagnostics.deep_view() =~= diags_before + spec_mismatch_diags(
                        p,
                        source_record,
                    ));
                }
            },
            MergeDecision::Mismatch { source_type, target_type } => {
                let diag = Diagnostic::TypeMismatch {
                    record: dup_string(&source.name),
                    field: dup_string(&pair.source.name),
                    source_type,
                    target_type,
                };
                let ghost diag_view = diag@;
                diagnostics.push(diag);
                proof {
                    assert(strict_rules.deep_view() =~= strict_before + spec_rule_for(
                        p,
                        MergeMode::Strict,
                    ));
                    assert(diagnostics.deep_view() =~= diags_before + seq![diag_view]);
                    assert(seq![diag_view] =~= spec_mismatch_diags(p, source_record));
                }
            },
        }

        let ghost soft_before = soft_rules.deep_view();
        match decide(&source_class, &target_class, MergeMode::Soft) {
            MergeDecision::Act { action } => {
                let rule = FieldRule { field: dup_string(&pair.source.name), action };
                let ghost rule_view = rule@;
                soft_rules.push(rule);
                proof {
                    assert(soft_rules.deep_view() =~= soft_before + seq![rule_view]);
                    assert(seq![rule_view] =~= spec_rule_for(p, MergeMode::Soft));
                }
            },
            _ => {
                proof {
                    assert(soft_rules.deep_view() =~= soft_before + spec_rule_for(
                        p,
                        MergeMode::Soft,
                    ));
                }
            },
        }

        proof {
            assert(pair_views.take(k + 1).drop_last() =~= pair_views.take(k as int));
            assert(pair_views.take(k + 1).last() == p);
            assert(strict_rules.deep_view() =~= spec_rules(
                pair_views.take(k + 1),
                MergeMode::Strict,
            ));
            assert(soft_rules.deep_view() =~= spec_rules(pair_views.take(k + 1), MergeMode::Soft));
            assert(diagnostics.deep_view() =~= spec_diags(
                pair_views.take(k + 1),
                source_record,
                target_record,
            ));
        }
        k += 1;
    }
    proof {
        assert(pair_views.take(pair_views.len() as int) =~= pair_views);
    }
    Emission {
        ownership,
        bundle: MergeBundle { strict_rules, soft_rules },
        diagnostics,
    }
}

/// Emit the owned variant pair: strict and soft rules for a merge that
/// consumes the source record.
pub fn emit_owned(source: &RecordDef, target: &RecordDef) -> (e: Emission)
    ensures
        emission_matches(e, source@, target@, Ownership::Owned),
{
    emit(source, target, Ownership::Owned)
}

/// Emit the borrowed variant pair: strict and soft rules for a merge that
/// reads the source record through a reference and duplicates merged values.
pub fn emit_borrowed(source: &RecordDef, target: &RecordDef) -> (e: Emission)
    ensures
        emission_matches(e, source@, target@, Ownership::Borrowed),
{
    emit(source, target, Ownership::Borrowed)
}

} // verus!
