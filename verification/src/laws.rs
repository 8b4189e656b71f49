//! Stated laws of the merge engine and applier.
//!
//! These proof functions record, as theorems over the library's spec
//! functions, the behavioral guarantees of the generated operations: the
//! per-case round-trip and gating behavior, the disambiguation of nested
//! wrappers, soft-merge idempotence, and that a type mismatch is reported
//! and excludes exactly the offending field. Pairing's name-based,
//! order-independent behavior is stated beside the pairer itself.

use vstd::prelude::*;

use crate::classify::{ClassifiedTypeView, spec_classify};
use crate::diagnostics::DiagnosticView;
use crate::emit::{
    FieldRuleView, spec_diags, spec_mismatch_diags, spec_pair_diags, spec_rule_for, spec_rules,
};
use crate::fields::FieldPairView;
use crate::rules::{MergeAction, MergeDecisionView, MergeMode, spec_decide};
use crate::values::{
    FieldValueView, PayloadView, ValueFieldView, lemma_lookup_after_store,
    lemma_lookup_after_store_other, lemma_store_of_lookup, spec_absent, spec_apply_action,
    spec_apply_rule, spec_apply_rules, spec_lookup, spec_store,
};

verus! {

/// The actions soft mode can produce: each fires only when the target field
/// is currently absent.
pub open spec fn spec_soft_action(action: MergeAction) -> bool {
    ||| action == MergeAction::CopyIfTargetAbsent
    ||| action == MergeAction::WrapIfTargetAbsent
    ||| action == MergeAction::CopyIfSourcePresentAndTargetAbsent
}

/// Whether every rule of a list carries a soft action.
pub open spec fn spec_soft_rules_only(rules: Seq<FieldRuleView>) -> bool {
    forall|i: int| 0 <= i < rules.len() ==> spec_soft_action(#[trigger] rules[i].action)
}

/// Whatever the engine decides in soft mode, an action it yields is a soft
/// action.
proof fn lemma_soft_decision_is_soft(source: ClassifiedTypeView, target: ClassifiedTypeView)
    ensures
        spec_decide(source, target, MergeMode::Soft) matches MergeDecisionView::Act { action }
            ==> spec_soft_action(action),
{
}

/// The soft rule list of any emission carries soft actions only.
pub proof fn lemma_soft_rules_are_soft(pairs: Seq<FieldPairView>)
    ensures
        spec_soft_rules_only(spec_rules(pairs, MergeMode::Soft)),
    decreases pairs.len(),
{
    if pairs.len() > 0 {
        lemma_soft_rules_are_soft(pairs.drop_last());
        lemma_soft_decision_is_soft(
            spec_classify(pairs.last().source.ty),
            spec_classify(pairs.last().target.ty),
        );
        let prefix = spec_rules(pairs.drop_last(), MergeMode::Soft);
        let added = spec_rule_for(pairs.last(), MergeMode::Soft);
        assert forall|i: int|
            0 <= i < spec_rules(pairs, MergeMode::Soft).len() implies spec_soft_action(
            #[trigger] spec_rules(pairs, MergeMode::Soft)[i].action,
        ) by {
            if i < prefix.len() {
                assert(spec_rules(pairs, MergeMode::Soft)[i] == prefix[i]);
            } else {
                assert(spec_rules(pairs, MergeMode::Soft)[i] == added[i - prefix.len()]);
            }
        }
    }
}

/// A soft action leaves a present target untouched, and applying it twice
/// with the same source is the same as applying it once.
proof fn lemma_soft_action_apply(action: MergeAction, source: FieldValueView, target: FieldValueView)
    requires
        spec_soft_action(action),
    ensures
        !spec_absent(target) ==> spec_apply_action(action, source, target) == target,
        spec_apply_action(action, source, spec_apply_action(action, source, target))
            == spec_apply_action(action, source, target),
{
}

/// If a soft action already has no effect on a target value, it still has
/// none after another soft action with the same source has run on it.
proof fn lemma_soft_actions_preserve_fix(
    first: MergeAction,
    second: MergeAction,
    source: FieldValueView,
    target: FieldValueView,
)
    requires
        spec_soft_action(first),
        spec_soft_action(second),
        spec_apply_action(first, source, target) == target,
    ensures
        spec_apply_action(first, source, spec_apply_action(second, source, target))
            == spec_apply_action(second, source, target),
{
}

/// Whether one rule has no effect on a target record.
pub open spec fn spec_rule_fixed(
    rule: FieldRuleView,
    source: Seq<ValueFieldView>,
    target: Seq<ValueFieldView>,
) -> bool {
    spec_apply_rule(rule, source, target) == target
}

/// Once a soft rule has run, running it again has no effect.
proof fn lemma_soft_rule_fixpoint(
    rule: FieldRuleView,
    source: Seq<ValueFieldView>,
    target: Seq<ValueFieldView>,
)
    requires
        spec_soft_action(rule.action),
    ensures
        spec_rule_fixed(rule, source, spec_apply_rule(rule, source, target)),
{
    match (spec_lookup(source, rule.field), spec_lookup(target, rule.field)) {
        (Some(source_value), Some(target_value)) => {
            let applied = spec_apply_action(rule.action, source_value, target_value);
            let stored = spec_store(target, rule.field, applied);
            lemma_lookup_after_store(target, rule.field, applied);
            lemma_soft_action_apply(rule.action, source_value, target_value);
            lemma_store_of_lookup(stored, rule.field, applied);
        },
        _ => {},
    }
}

/// A soft rule that has no effect on a record still has none after another
/// soft rule with the same source record has run on it.
proof fn lemma_soft_step_preserves_fix(
    first: FieldRuleView,
    second: FieldRuleView,
    source: Seq<ValueFieldView>,
    target: Seq<ValueFieldView>,
)
    requires
        spec_soft_action(first.action),
        spec_soft_action(second.action),
        spec_rule_fixed(first, source, target),
    ensures
        spec_rule_fixed(first, source, spec_apply_rule(second, source, target)),
{
    match (spec_lookup(source, second.field), spec_lookup(target, second.field)) {
        (Some(source_second), Some(target_second)) => {
            let stored_value = spec_apply_action(second.action, source_second, target_second);
            let after = spec_store(target, second.field, stored_value);
            match (spec_lookup(source, first.field), spec_lookup(target, first.field)) {
                (Some(source_first), Some(target_first)) => {
                    let first_value = spec_apply_action(first.action, source_first, target_first);
                    lemma_lookup_after_store(target, first.field, first_value);
                    assert(first_value == target_first);
                    if second.field == first.field {
                        lemma_soft_actions_preserve_fix(
                            first.action,
                            second.action,
                            source_first,
                            target_first,
                        );
                        lemma_lookup_after_store(target, first.field, stored_value);
                        lemma_store_of_lookup(after, first.field, stored_value);
                    } else {
                        lemma_lookup_after_store_other(
                            target,
                            second.field,
                            stored_value,
                            first.field,
                        );
                        lemma_store_of_lookup(after, first.field, target_first);
                    }
                },
                (Some(source_first), None) => {
                    if first.field != second.field {
                        lemma_lookup_after_store_other(
                            target,
                            second.field,
                            stored_value,
                            first.field,
                        );
                    }
                },
                _ => {},
            }
        },
        _ => {},
    }
}

/// A soft rule that has no effect on a record still has none after a whole
/// list of soft rules with the same source record has run on it.
proof fn lemma_soft_list_preserves_fix(
    rule: FieldRuleView,
    rules: Seq<FieldRuleView>,
    source: Seq<ValueFieldView>,
    target: Seq<ValueFieldView>,
)
    requires
        spec_soft_action(rule.action),
        spec_soft_rules_only(rules),
        spec_rule_fixed(rule, source, target),
    ensures
        spec_rule_fixed(rule, source, spec_apply_rules(rules, source, target)),
    decreases rules.len(),
{
    if rules.len() > 0 {
        assert(spec_soft_action(rules[0].action));
        lemma_soft_step_preserves_fix(rule, rules[0], source, target);
        assert forall|i: int|
            0 <= i < rules.drop_first().len() implies spec_soft_action(
            #[trigger] rules.drop_first()[i].action,
        ) by {
            assert(rules.drop_first()[i] == rules[i + 1]);
        }
        lemma_soft_list_preserves_fix(
            rule,
            rules.drop_first(),
            source,
            spec_apply_rule(rules[0], source, target),
        );
    }
}

/// Soft-fill idempotence: applying a soft rule list twice with the same
/// source record yields the same target record as applying it once. Soft
/// actions only fill absent fields, and a field they fill is thereafter
/// either present or already what the rule would make it again.
pub proof fn lemma_soft_apply_idempotent(
    rules: Seq<FieldRuleView>,
    source: Seq<ValueFieldView>,
    target: Seq<ValueFieldView>,
)
    requires
        spec_soft_rules_only(rules),
    ensures
        spec_apply_rules(rules, source, spec_apply_rules(rules, source, target))
            == spec_apply_rules(rules, source, target),
    decreases rules.len(),
{
    if rules.len() > 0 {
        let rest = rules.drop_first();
        let once = spec_apply_rule(rules[0], source, target);
        assert(spec_soft_action(rules[0].action));
        assert forall|i: int|
            0 <= i < rest.len() implies spec_soft_action(#[trigger] rest[i].action) by {
            assert(rest[i] == rules[i + 1]);
        }
        lemma_soft_rule_fixpoint(rules[0], source, target);
        lemma_soft_list_preserves_fix(rules[0], rest, source, once);
        lemma_soft_apply_idempotent(rest, source, once);
    }
}

/// Soft merging of an emission's rule list is idempotent, whatever the
/// records: the soft rules of any pair list are soft actions only.
pub proof fn lemma_soft_merge_idempotent(
    pairs: Seq<FieldPairView>,
    source: Seq<ValueFieldView>,
    target: Seq<ValueFieldView>,
)
    ensures
        spec_apply_rules(
            spec_rules(pairs, MergeMode::Soft),
            source,
            spec_apply_rules(spec_rules(pairs, MergeMode::Soft), source, target),
        ) == spec_apply_rules(spec_rules(pairs, MergeMode::Soft), source, target),
{
    lemma_soft_rules_are_soft(pairs);
    lemma_soft_apply_idempotent(spec_rules(pairs, MergeMode::Soft), source, target);
}

/// The rules and diagnostics a single pair yields, unfolded.
proof fn lemma_rules_single(p: FieldPairView, mode: MergeMode)
    ensures
        spec_rules(seq![p], mode) == spec_rule_for(p, mode),
{
    assert(seq![p].drop_last() =~= Seq::<FieldPairView>::empty());
    assert(spec_rules(Seq::<FieldPairView>::empty(), mode) + spec_rule_for(p, mode)
        =~= spec_rule_for(p, mode));
}

/// Applying a single rule as a list is applying the rule.
proof fn lemma_apply_single(
    rule: FieldRuleView,
    source: Seq<ValueFieldView>,
    target: Seq<ValueFieldView>,
)
    ensures
        spec_apply_rules(seq![rule], source, target) == spec_apply_rule(rule, source, target),
{
    let applied = spec_apply_rule(rule, source, target);
    assert(seq![rule][0] == rule);
    assert(seq![rule].drop_first() =~= Seq::<FieldRuleView>::empty());
    assert(spec_apply_rules(seq![rule].drop_first(), source, applied) == applied);
}

/// Round-trip for two plain fields of one type: strict merging carries the
/// source field's value into the target field, for every value; soft
/// merging, which has no absence state to test on a plain field, leaves the
/// target record entirely unchanged.
pub proof fn lemma_plain_round_trip(
    p: FieldPairView,
    text: Seq<char>,
    source: Seq<ValueFieldView>,
    target: Seq<ValueFieldView>,
)
    requires
        spec_classify(p.source.ty) == (ClassifiedTypeView::Plain { text }),
        spec_classify(p.target.ty) == (ClassifiedTypeView::Plain { text }),
        spec_lookup(source, p.source.name) is Some,
        spec_lookup(target, p.source.name) is Some,
    ensures
        spec_lookup(
            spec_apply_rules(spec_rules(seq![p], MergeMode::Strict), source, target),
            p.source.name,
        ) == spec_lookup(source, p.source.name),
        spec_apply_rules(spec_rules(seq![p], MergeMode::Soft), source, target) == target,
{
    lemma_rules_single(p, MergeMode::Strict);
    lemma_rules_single(p, MergeMode::Soft);
    let rule = FieldRuleView { field: p.source.name, action: MergeAction::CopyAlways };
    assert(spec_rules(seq![p], MergeMode::Strict) =~= seq![rule]);
    assert(spec_rules(seq![p], MergeMode::Soft) =~= Seq::<FieldRuleView>::empty());
    lemma_apply_single(rule, source, target);
    let source_value = spec_lookup(source, p.source.name)->Some_0;
    lemma_lookup_after_store(target, p.source.name, source_value);
}

/// Presence gating for a wrapped source field merged into a plain target
/// field of the inner type: an absent source leaves the target record
/// unchanged; a present source sets the target field to the carried value.
/// Soft mode skips the pair entirely.
pub proof fn lemma_presence_gating(
    p: FieldPairView,
    inner: Seq<char>,
    outer: Seq<char>,
    source: Seq<ValueFieldView>,
    target: Seq<ValueFieldView>,
)
    requires
        spec_classify(p.source.ty) == (ClassifiedTypeView::Wrapped { inner, outer }),
        spec_classify(p.target.ty) == (ClassifiedTypeView::Plain { text: inner }),
        spec_lookup(target, p.source.name) is Some,
    ensures
        spec_lookup(source, p.source.name) == Some(FieldValueView::Wrapped(None)) ==> spec_apply_rules(
            spec_rules(seq![p], MergeMode::Strict),
            source,
            target,
        ) == target,
        forall|v: PayloadView|
            spec_lookup(source, p.source.name) == Some(FieldValueView::Wrapped(Some(v)))
                ==> spec_lookup(
                spec_apply_rules(spec_rules(seq![p], MergeMode::Strict), source, target),
                p.source.name,
            ) == Some(FieldValueView::Plain(v)),
        spec_apply_rules(spec_rules(seq![p], MergeMode::Soft), source, target) == target,
{
    lemma_rules_single(p, MergeMode::Strict);
    lemma_rules_single(p, MergeMode::Soft);
    let rule = FieldRuleView { field: p.source.name, action: MergeAction::CopyIfSourcePresent };
    assert(spec_rules(seq![p], MergeMode::Strict) =~= seq![rule]);
    assert(spec_rules(seq![p], MergeMode::Soft) =~= Seq::<FieldRuleView>::empty());
    lemma_apply_single(rule, source, target);
    let target_value = spec_lookup(target, p.source.name)->Some_0;
    if spec_lookup(source, p.source.name) == Some(FieldValueView::Wrapped(None)) {
        lemma_store_of_lookup(target, p.source.name, target_value);
    }
    assert forall|v: PayloadView|
        spec_lookup(source, p.source.name) == Some(FieldValueView::Wrapped(Some(v)))
            implies spec_lookup(
        spec_apply_rules(spec_rules(seq![p], MergeMode::Strict), source, target),
        p.source.name,
    ) == Some(FieldValueView::Plain(v)) by {
        lemma_lookup_after_store(target, p.source.name, FieldValueView::Plain(v));
    }
}

/// Disambiguation of nested wrappers: when the source is doubly wrapped
/// relative to the target (the source's inner text equals the target's
/// whole wrapped text, and the inner texts differ), the engine picks
/// copy-if-source-present with no rewrap — never the same-depth or
/// wrap-deeper readings. Only the source's outer presence is tested: an
/// absent source changes nothing, and a present source hands its carried
/// wrapper to the target whether or not that wrapper itself holds a value.
pub proof fn lemma_double_wrap_no_rewrap(
    p: FieldPairView,
    source_inner: Seq<char>,
    source_outer: Seq<char>,
    target_inner: Seq<char>,
    source: Seq<ValueFieldView>,
    target: Seq<ValueFieldView>,
)
    requires
        spec_classify(p.source.ty) == (ClassifiedTypeView::Wrapped {
            inner: source_inner,
            outer: source_outer,
        }),
        spec_classify(p.target.ty) == (ClassifiedTypeView::Wrapped {
            inner: target_inner,
            outer: source_inner,
        }),
        source_inner != target_inner,
        spec_lookup(target, p.source.name) is Some,
    ensures
        spec_decide(spec_classify(p.source.ty), spec_classify(p.target.ty), MergeMode::Strict)
            == (MergeDecisionView::Act { action: MergeAction::CopyIfSourcePresent }),
        spec_decide(spec_classify(p.source.ty), spec_classify(p.target.ty), MergeMode::Soft)
            == (MergeDecisionView::Act {
            action: MergeAction::CopyIfSourcePresentAndTargetAbsent,
        }),
        spec_lookup(source, p.source.name) == Some(FieldValueView::DoublyWrapped(None))
            ==> spec_apply_rules(spec_rules(seq![p], MergeMode::Strict), source, target) == target,
        forall|o: Option<PayloadView>|
            spec_lookup(source, p.source.name) == Some(FieldValueView::DoublyWrapped(Some(o)))
                ==> spec_lookup(
                spec_apply_rules(spec_rules(seq![p], MergeMode::Strict), source, target),
                p.source.name,
            ) == Some(FieldValueView::Wrapped(o)),
{
    lemma_rules_single(p, MergeMode::Strict);
    let rule = FieldRuleView { field: p.source.name, action: MergeAction::CopyIfSourcePresent };
    assert(spec_rules(seq![p], MergeMode::Strict) =~= seq![rule]);
    lemma_apply_single(rule, source, target);
    let target_value = spec_lookup(target, p.source.name)->Some_0;
    if spec_lookup(source, p.source.name) == Some(FieldValueView::DoublyWrapped(None)) {
        lemma_store_of_lookup(target, p.source.name, target_value);
    }
    assert forall|o: Option<PayloadView>|
        spec_lookup(source, p.source.name) == Some(FieldValueView::DoublyWrapped(Some(o)))
            implies spec_lookup(
        spec_apply_rules(spec_rules(seq![p], MergeMode::Strict), source, target),
        p.source.name,
    ) == Some(FieldValueView::Wrapped(o)) by {
        lemma_lookup_after_store(target, p.source.name, FieldValueView::Wrapped(o));
    }
}

/// A mismatching pair is reported and excluded, never fatal: it contributes
/// no rule under either mode, and it contributes exactly one type-mismatch
/// diagnostic, naming the pair's field and the two compared type texts. The
/// other pairs' rules and diagnostics are unaffected, emission being
/// pair-by-pair by construction.
pub proof fn lemma_mismatch_reported(
    p: FieldPairView,
    source_type: Seq<char>,
    target_type: Seq<char>,
    source_record: Seq<char>,
    target_record: Seq<char>,
)
    requires
        spec_decide(spec_classify(p.source.ty), spec_classify(p.target.ty), MergeMode::Strict)
            == (MergeDecisionView::Mismatch { source_type, target_type }),
    ensures
        spec_rule_for(p, MergeMode::Strict) == Seq::<FieldRuleView>::empty(),
        spec_rule_for(p, MergeMode::Soft) == Seq::<FieldRuleView>::empty(),
        spec_pair_diags(p, source_record, target_record).contains(
            DiagnosticView::TypeMismatch {
                record: source_record,
                field: p.source.name,
                source_type,
                target_type,
            },
        ),
{
    let source_class = spec_classify(p.source.ty);
    let target_class = spec_classify(p.target.ty);
    let diag = DiagnosticView::TypeMismatch {
        record: source_record,
        field: p.source.name,
        source_type,
        target_type,
    };
    assert(spec_mismatch_diags(p, source_record) =~= seq![diag]);
    let diags = spec_pair_diags(p, source_record, target_record);
    assert(diags[diags.len() - 1] == diag);
}

/// A mismatching pair's diagnostic appears in the emission's diagnostics,
/// wherever the pair stands in the pair list.
pub proof fn lemma_emission_reports_mismatch(
    pairs: Seq<FieldPairView>,
    k: int,
    source_type: Seq<char>,
    target_type: Seq<char>,
    source_record: Seq<char>,
    target_record: Seq<char>,
)
    requires
        0 <= k < pairs.len(),
        spec_decide(
            spec_classify(pairs[k].source.ty),
            spec_classify(pairs[k].target.ty),
            MergeMode::Strict,
        ) == (MergeDecisionView::Mismatch { source_type, target_type }),
    ensures
        spec_diags(pairs, source_record, target_record).contains(
            DiagnosticView::TypeMismatch {
                record: source_record,
                field: pairs[k].source.name,
                source_type,
                target_type,
            },
        ),
    decreases pairs.len(),
{
    let diag = DiagnosticView::TypeMismatch {
        record: source_record,
        field: pairs[k].source.name,
        source_type,
        target_type,
    };
    let prefix = spec_diags(pairs.drop_last(), source_record, target_record);
    let added = spec_pair_diags(pairs.last(), source_record, target_record);
    if k == pairs.len() - 1 {
        lemma_mismatch_reported(pairs[k], source_type, target_type, source_record, target_record);
        let i = choose|i: int| 0 <= i < added.len() && added[i] == diag;
        assert(spec_diags(pairs, source_record, target_record)[prefix.len() + i] == diag);
    } else {
        assert(pairs.drop_last()[k] == pairs[k]);
        lemma_emission_reports_mismatch(
            pairs.drop_last(),
            k,
            source_type,
            target_type,
            source_record,
            target_record,
        );
        let i = choose|i: int| 0 <= i < prefix.len() && prefix[i] == diag;
        assert(spec_diags(pairs, source_record, target_record)[i] == diag);
    }
}

} // verus!
