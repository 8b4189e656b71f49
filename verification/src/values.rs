//! Record values and the merge applier.
//!
//! A generated operation bundle is applied to record values: a record value
//! is a list of named field values, each plain, once-wrapped, or
//! twice-wrapped (the depths the rule engine can produce). Applying a rule
//! list walks the rules in order; each rule reads the named field from the
//! source record and rewrites the first field of that name in the target
//! record according to its action. The four entry points of a bundle differ
//! only in which rule list they apply and in whether the source record is
//! consumed or read through a reference and duplicated.

use vstd::pervasive::VecAdditionalExecFns;
use vstd::prelude::*;

use crate::emit::{FieldRule, FieldRuleView, MergeBundle};
use crate::rules::MergeAction;
use crate::types::{dup_string, str_eq};

verus! {

/// Ghost model of a primitive field payload.
pub enum PayloadView {
    Text(Seq<char>),
    Int(int),
    Flag(bool),
}

/// A primitive field payload.
#[derive(Debug, PartialEq, Eq)]
pub enum Payload {
    Text(String),
    Int(i64),
    Flag(bool),
}

impl View for Payload {
    type V = PayloadView;

    open spec fn view(&self) -> PayloadView {
        match self {
            Payload::Text(s) => PayloadView::Text(s@),
            Payload::Int(v) => PayloadView::Int(*v as int),
            Payload::Flag(b) => PayloadView::Flag(*b),
        }
    }
}

impl Payload {
    /// Duplicate this payload, preserving its model.
    pub fn duplicate(&self) -> (r: Payload)
        ensures
            r@ == self@,
    {
        match self {
            Payload::Text(s) => Payload::Text(dup_string(s)),
            Payload::Int(v) => Payload::Int(*v),
            Payload::Flag(b) => Payload::Flag(*b),
        }
    }
}

/// Ghost model of one field's value.
pub enum FieldValueView {
    Plain(PayloadView),
    Wrapped(Option<PayloadView>),
    DoublyWrapped(Option<Option<PayloadView>>),
}

/// One field's value: plain, once-wrapped, or twice-wrapped.
#[derive(Debug, PartialEq, Eq)]
pub enum FieldValue {
    Plain(Payload),
    Wrapped(Option<Payload>),
    DoublyWrapped(Option<Option<Payload>>),
}

impl View for FieldValue {
    type V = FieldValueView;

    open spec fn view(&self) -> FieldValueView {
        match self {
            FieldValue::Plain(p) => FieldValueView::Plain(p@),
            FieldValue::Wrapped(o) => FieldValueView::Wrapped(
                match o {
                    Some(p) => Some(p@),
                    None => None,
                },
            ),
            FieldValue::DoublyWrapped(o) => FieldValueView::DoublyWrapped(
                match o {
                    Some(Some(p)) => Some(Some(p@)),
                    Some(None) => Some(None),
                    None => None,
                },
            ),
        }
    }
}

impl FieldValue {
    /// Duplicate this value, preserving its model.
    pub fn duplicate(&self) -> (r: FieldValue)
        ensures
            r@ == self@,
    {
        match self {
            FieldValue::Plain(p) => FieldValue::Plain(p.duplicate()),
            FieldValue::Wrapped(o) => FieldValue::Wrapped(
                match o {
                    Some(p) => Some(p.duplicate()),
                    None => None,
                },
            ),
            FieldValue::DoublyWrapped(o) => FieldValue::DoublyWrapped(
                match o {
                    Some(Some(p)) => Some(Some(p.duplicate())),
                    Some(None) => Some(None),
                    None => None,
                },
            ),
        }
    }
}

/// Ghost model of a named field value.
pub struct ValueFieldView {
    pub name: Seq<char>,
    pub value: FieldValueView,
}

/// A named field value of a record value.
#[derive(Debug, PartialEq, Eq)]
pub struct ValueField {
    pub name: String,
    pub value: FieldValue,
}

impl View for ValueField {
    type V = ValueFieldView;

    open spec fn view(&self) -> ValueFieldView {
        ValueFieldView { name: self.name@, value: self.value@ }
    }
}

impl DeepView for ValueField {
    type V = ValueFieldView;

    open spec fn deep_view(&self) -> ValueFieldView {
        self@
    }
}

/// A record value: named field values in declaration order.
#[derive(Debug, PartialEq, Eq)]
pub struct RecordValue {
    pub fields: Vec<ValueField>,
}

impl View for RecordValue {
    type V = Seq<ValueFieldView>;

    open spec fn view(&self) -> Seq<ValueFieldView> {
        self.fields.deep_view()
    }
}

/// Whether a field value is in the absent state: a wrapper with nothing in
/// it. A plain value has no absence state.
pub open spec fn spec_absent(v: FieldValueView) -> bool {
    ||| v matches FieldValueView::Wrapped(None)
    ||| v matches FieldValueView::DoublyWrapped(None)
}

/// Wrap a value one level deeper. The model caps nesting at two wrappers —
/// as deep as the rule engine's actions ever reach — so wrapping a
/// twice-wrapped value leaves it unchanged.
pub open spec fn spec_wrap(v: FieldValueView) -> FieldValueView {
    match v {
        FieldValueView::Plain(p) => FieldValueView::Wrapped(Some(p)),
        FieldValueView::Wrapped(o) => FieldValueView::DoublyWrapped(Some(o)),
        FieldValueView::DoublyWrapped(o) => FieldValueView::DoublyWrapped(o),
    }
}

/// Copy-if-source-present: if the source wrapper holds a value, the target
/// becomes that value (one unwrap, no rewrap); otherwise the target is
/// unchanged. A plain source has no presence test and changes nothing here.
pub open spec fn spec_unwrap_into(source: FieldValueView, target: FieldValueView) -> FieldValueView {
    match source {
        FieldValueView::Wrapped(Some(p)) => FieldValueView::Plain(p),
        FieldValueView::DoublyWrapped(Some(o)) => FieldValueView::Wrapped(o),
        _ => target,
    }
}

/// What one merge action makes of the target field value, given the source
/// field value.
pub open spec fn spec_apply_action(
    action: MergeAction,
    source: FieldValueView,
    target: FieldValueView,
) -> FieldValueView {
    match action {
        MergeAction::CopyAlways => source,
        MergeAction::CopyIfSourcePresent => spec_unwrap_into(source, target),
        MergeAction::WrapAlways => spec_wrap(source),
        MergeAction::CopyIfTargetAbsent => if spec_absent(target) {
            source
        } else {
            target
        },
        MergeAction::WrapIfTargetAbsent => if spec_absent(target) {
            spec_wrap(source)
        } else {
            target
        },
        MergeAction::CopyIfSourcePresentAndTargetAbsent => if spec_absent(target) {
            spec_unwrap_into(source, target)
        } else {
            target
        },
    }
}

/// The value of the first field of the given name, if any.
pub open spec fn spec_lookup(fields: Seq<ValueFieldView>, name: Seq<char>) -> Option<FieldValueView>
    decreases fields.len(),
{
    if fields.len() == 0 {
        None
    } else if fields[0].name == name {
        Some(fields[0].value)
    } else {
        spec_lookup(fields.drop_first(), name)
    }
}

/// Rewrite the first field of the given name to the given value; a record
/// without such a field is unchanged.
pub open spec fn spec_store(
    fields: Seq<ValueFieldView>,
    name: Seq<char>,
    value: FieldValueView,
) -> Seq<ValueFieldView>
    decreases fields.len(),
{
    if fields.len() == 0 {
        Seq::empty()
    } else if fields[0].name == name {
        seq![ValueFieldView { name: fields[0].name, value }] + fields.drop_first()
    } else {
        seq![fields[0]] + spec_store(fields.drop_first(), name, value)
    }
}

/// What one rule makes of the target record: if both records carry the
/// rule's field, the target's first such field is rewritten by the rule's
/// action; otherwise the target is unchanged.
pub open spec fn spec_apply_rule(
    rule: FieldRuleView,
    source: Seq<ValueFieldView>,
    target: Seq<ValueFieldView>,
) -> Seq<ValueFieldView> {
    match (spec_lookup(source, rule.field), spec_lookup(target, rule.field)) {
        (Some(source_value), Some(target_value)) => spec_store(
            target,
            rule.field,
            spec_apply_action(rule.action, source_value, target_value),
        ),
        _ => target,
    }
}

/// What a rule list makes of the target record, applied left to right.
pub open spec fn spec_apply_rules(
    rules: Seq<FieldRuleView>,
    source: Seq<ValueFieldView>,
    target: Seq<ValueFieldView>,
) -> Seq<ValueFieldView>
    decreases rules.len(),
{
    if rules.len() == 0 {
        target
    } else {
        spec_apply_rules(
            rules.drop_first(),
            source,
            spec_apply_rule(rules[0], source, target),
        )
    }
}

/// Find the first field of the given name.
fn find_field(fields: &Vec<ValueField>, name: &str) -> (idx: Option<usize>)
    ensures
        match idx {
            Some(j) => j < fields.len() && fields.deep_view()[j as int].name == name@
                && (forall|m: int| 0 <= m < j ==> fields.deep_view()[m].name != name@),
            None => forall|m: int| 0 <= m < fields.len() ==> fields.deep_view()[m].name != name@,
        },
{
    let mut j: usize = 0;
    while j < fields.len()
        invariant
            j <= fields.len(),
            forall|m: int| 0 <= m < j ==> fields.deep_view()[m].name != name@,
        decreases fields.len() - j,
    {
        if str_eq(fields[j].name.as_str(), name) {
            return Some(j);
        }
        j += 1;
    }
    None
}

proof fn lemma_lookup_at_first(fields: Seq<ValueFieldView>, name: Seq<char>, j: int)
    requires
        0 <= j < fields.len(),
        fields[j].name == name,
        forall|m: int| 0 <= m < j ==> fields[m].name != name,
    ensures
        spec_lookup(fields, name) == Some(fields[j].value),
    decreases j,
{
    if j > 0 {
        lemma_lookup_at_first(fields.drop_first(), name, j - 1);
    }
}

proof fn lemma_lookup_absent(fields: Seq<ValueFieldView>, name: Seq<char>)
    requires
        forall|m: int| 0 <= m < fields.len() ==> fields[m].name != name,
    ensures
        spec_lookup(fields, name) is None,
    decreases fields.len(),
{
    if fields.len() > 0 {
        lemma_lookup_absent(fields.drop_first(), name);
    }
}

proof fn lemma_store_at_first(
    fields: Seq<ValueFieldView>,
    name: Seq<char>,
    value: FieldValueView,
    j: int,
)
    requires
        0 <= j < fields.len(),
        fields[j].name == name,
        forall|m: int| 0 <= m < j ==> fields[m].name != name,
    ensures
        spec_store(fields, name, value) == fields.update(
            j,
            ValueFieldView { name: fields[j].name, value },
        ),
    decreases j,
{
    if j == 0 {
        assert(spec_store(fields, name, value) =~= fields.update(
            0,
            ValueFieldView { name: fields[0].name, value },
        ));
    } else {
        lemma_store_at_first(fields.drop_first(), name, value, j - 1);
        assert(spec_store(fields, name, value) =~= fields.update(
            j,
            ValueFieldView { name: fields[j].name, value },
        ));
    }
}

/// Storing back the value a record already holds leaves it unchanged.
pub proof fn lemma_store_of_lookup(fields: Seq<ValueFieldView>, name: Seq<char>, value: FieldValueView)
    requires
        spec_lookup(fields, name) == Some(value),
    ensures
        spec_store(fields, name, value) == fields,
    decreases fields.len(),
{
    if fields[0].name == name {
        assert(spec_store(fields, name, value) =~= fields);
    } else {
        lemma_store_of_lookup(fields.drop_first(), name, value);
        assert(spec_store(fields, name, value) =~= fields);
    }
}

/// After a store, the stored name reads back the stored value.
pub proof fn lemma_lookup_after_store(fields: Seq<ValueFieldView>, name: Seq<char>, value: FieldValueView)
    requires
        spec_lookup(fields, name) is Some,
    ensures
        spec_lookup(spec_store(fields, name, value), name) == Some(value),
    decreases fields.len(),
{
    if fields[0].name == name {
    } else {
        lemma_lookup_after_store(fields.drop_first(), name, value);
        assert(spec_store(fields, name, value).drop_first() =~= spec_store(
            fields.drop_first(),
            name,
            value,
        ));
    }
}

/// A store leaves every other name's first value unchanged.
pub proof fn lemma_lookup_after_store_other(
    fields: Seq<ValueFieldView>,
    name: Seq<char>,
    value: FieldValueView,
    other: Seq<char>,
)
    requires
        other != name,
    ensures
        spec_lookup(spec_store(fields, name, value), other) == spec_lookup(fields, other),
    decreases fields.len(),
{
    if fields.len() == 0 {
    } else if fields[0].name == name {
        assert(spec_store(fields, name, value).drop_first() =~= fields.drop_first());
    } else {
        lemma_lookup_after_store_other(fields.drop_first(), name, value, other);
        assert(spec_store(fields, name, value).drop_first() =~= spec_store(
            fields.drop_first(),
            name,
            value,
        ));
    }
}

/// The value of this record's first field of the given name, duplicated.
pub fn get_field_value(fields: &Vec<ValueField>, name: &str) -> (v: Option<FieldValue>)
    ensures
        match v {
            Some(value) => spec_lookup(fields.deep_view(), name@) == Some(value@),
            None => spec_lookup(fields.deep_view(), name@) is None,
        },
{
    let idx = find_field(fields, name);
    match idx {
        Some(j) => {
            proof {
                lemma_lookup_at_first(fields.deep_view(), name@, j as int);
            }
            Some(fields[j].value.duplicate())
        },
        None => {
            proof {
                lemma_lookup_absent(fields.deep_view(), name@);
            }
            None
        },
    }
}

/// Whether this field value is in the absent state.
pub fn is_absent(v: &FieldValue) -> (r: bool)
    ensures
        r == spec_absent(v@),
{
    match v {
        FieldValue::Wrapped(None) => true,
        FieldValue::DoublyWrapped(None) => true,
        _ => false,
    }
}

/// Wrap a field value one level deeper.
fn wrap_value(v: FieldValue) -> (r: FieldValue)
    ensures
        r@ == spec_wrap(v@),
{
    match v {
        FieldValue::Plain(p) => FieldValue::Wrapped(Some(p)),
        FieldValue::Wrapped(o) => FieldValue::DoublyWrapped(Some(o)),
        FieldValue::DoublyWrapped(o) => FieldValue::DoublyWrapped(o),
    }
}

/// Copy-if-source-present: unwrap the source one level into the target.
fn unwrap_into(source: FieldValue, target: &FieldValue) -> (r: FieldValue)
    ensures
        r@ == spec_unwrap_into(source@, target@),
{
    match source {
        FieldValue::Wrapped(Some(p)) => FieldValue::Plain(p),
        FieldValue::DoublyWrapped(Some(o)) => FieldValue::Wrapped(o),
        _ => target.duplicate(),
    }
}

/// Apply one merge action to a target field value.
pub fn apply_action(action: MergeAction, source: FieldValue, target: &FieldValue) -> (r:
    FieldValue)
    ensures
        r@ == spec_apply_action(action, source@, target@),
{
    match action {
        MergeAction::CopyAlways => source,
        MergeAction::CopyIfSourcePresent => unwrap_into(source, target),
        MergeAction::WrapAlways => wrap_value(source),
        MergeAction::CopyIfTargetAbsent => if is_absent(target) {
            source
        } else {
            target.duplicate()
        },
        MergeAction::WrapIfTargetAbsent => if is_absent(target) {
            wrap_value(source)
        } else {
            target.duplicate()
        },
        MergeAction::CopyIfSourcePresentAndTargetAbsent => if is_absent(target) {
            unwrap_into(source, target)
        } else {
            target.duplicate()
        },
    }
}

/// Apply one rule: rewrite the target's first field of the rule's name.
fn apply_rule(rule: &FieldRule, source: &RecordValue, target: &mut RecordValue)
    ensures
        final(target)@ == spec_apply_rule(rule@, source@, old(target)@),
{
    let source_value = get_field_value(&source.fields, rule.field.as_str());
    match source_value {
        None => {},
        Some(source_value) => {
            let idx = find_field(&target.fields, rule.field.as_str());
            match idx {
                None => {
                    proof {
                        lemma_lookup_absent(target.fields.deep_view(), rule.field@);
                    }
                },
                Some(j) => {
                    let ghost target_views = target.fields.deep_view();
                    proof {
                        lemma_lookup_at_first(target_views, rule.field@, j as int);
                        lemma_store_at_first(
                            target_views,
                            rule.field@,
                            spec_apply_action(
                                rule.action,
                                source_value@,
                                target_views[j as int].value,
                            ),
                            j as int,
                        );
                    }
                    let new_value = apply_action(rule.action, source_value, &target.fields[j].value);
                    let name_copy = dup_string(&target.fields[j].name);
                    target.fields.set(j, ValueField { name: name_copy, value: new_value });
                    proof {
                        assert(target.fields.deep_view() =~= target_views.update(
                            j as int,
                            ValueFieldView {
                                name: target_views[j as int].name,
                                value: spec_apply_action(
                                    rule.action,
                                    source_value@,
                                    target_views[j as int].value,
                                ),
                            },
                        ));
                    }
                },
            }
        },
    }
}

/// Apply a rule list to a target record, left to right.
pub fn apply_rules(rules: &Vec<FieldRule>, source: &RecordValue, target: &mut RecordValue)
    ensures
        final(target)@ == spec_apply_rules(rules.deep_view(), source@, old(target)@),
{
    let ghost rule_views = rules.deep_view();
    let ghost source_views = source@;
    let ghost original = target@;
    proof {
        assert(rule_views.skip(0) =~= rule_views);
    }
    let mut k: usize = 0;
    while k < rules.len()
        invariant
            k <= rules.len(),
            rule_views == rules.deep_view(),
            rule_views.len() == rules.len(),
            source_views == source@,
            spec_apply_rules(rule_views.skip(k as int), source_views, target@)
                == spec_apply_rules(rule_views, source_views, original),
        decreases rules.len() - k,
    {
        let ghost target_before = target@;
        apply_rule(&rules[k], source, target);
        proof {
            assert(rule_views.skip(k as int).drop_first() =~= rule_views.skip(k + 1));
            assert(rule_views.skip(k as int)[0] == rule_views[k as int]);
            assert(spec_apply_rules(rule_views.skip(k as int), source_views, target_before)
                == spec_apply_rules(rule_views.skip(k + 1), source_views, target@));
        }
        k += 1;
    }
    proof {
        assert(rule_views.skip(rule_views.len() as int) =~= Seq::<FieldRuleView>::empty());
    }
}

impl MergeBundle {
    /// Merge the source record into the target, consuming the source: every
    /// strict rule applies in order.
    pub fn merge(&self, source: RecordValue, target: &mut RecordValue)
        ensures
            final(target)@ == spec_apply_rules(self.strict_rules.deep_view(), source@, old(target)@),
    {
        apply_rules(&self.strict_rules, &source, target)
    }

    /// Merge the source record into the target, consuming the source: every
    /// soft rule applies in order, filling only absent target fields.
    pub fn merge_soft(&self, source: RecordValue, target: &mut RecordValue)
        ensures
            final(target)@ == spec_apply_rules(self.soft_rules.deep_view(), source@, old(target)@),
    {
        apply_rules(&self.soft_rules, &source, target)
    }

    /// Merge the borrowed source record into the target, duplicating merged
    /// values: every strict rule applies in order.
    pub fn merge_ref(&self, source: &RecordValue, target: &mut RecordValue)
        ensures
            final(target)@ == spec_apply_rules(self.strict_rules.deep_view(), source@, old(target)@),
    {
        apply_rules(&self.strict_rules, source, target)
    }

    /// Merge the borrowed source record into the target, duplicating merged
    /// values: every soft rule applies in order, filling only absent target
    /// fields.
    pub fn merge_ref_soft(&self, source: &RecordValue, target: &mut RecordValue)
        ensures
            final(target)@ == spec_apply_rules(self.soft_rules.deep_view(), source@, old(target)@),
    {
        apply_rules(&self.soft_rules, source, target)
    }
}

} // verus!
