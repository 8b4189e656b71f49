//! Field descriptors, record definitions, and the field pairer.
//!
//! Pairing is purely name-based: the pairer walks the source record's fields
//! in declaration order and, for each, walks the target record's fields in
//! declaration order, emitting a pair for every name match. Fields present
//! in only one record are silently excluded from merge generation.

use vstd::prelude::*;

use crate::types::{TypeExpr, TypeExprView, dup_string, str_eq};

verus! {

/// Ghost model of a named, typed field.
pub struct FieldDescriptorView {
    pub name: Seq<char>,
    pub ty: TypeExprView,
}

/// A named, typed field of a record definition. Identity is the name within
/// one record; descriptors are immutable once read from a definition.
#[derive(Debug, PartialEq, Eq)]
pub struct FieldDescriptor {
    pub name: String,
    pub ty: TypeExpr,
}

impl View for FieldDescriptor {
    type V = FieldDescriptorView;

    open spec fn view(&self) -> FieldDescriptorView {
        FieldDescriptorView { name: self.name@, ty: self.ty@ }
    }
}

impl DeepView for FieldDescriptor {
    type V = FieldDescriptorView;

    open spec fn deep_view(&self) -> FieldDescriptorView {
        self@
    }
}

impl FieldDescriptor {
    /// Duplicate this descriptor, preserving its model.
    pub fn dup(&self) -> (r: FieldDescriptor)
        ensures
            r@ == self@,
    {
        FieldDescriptor { name: dup_string(&self.name), ty: self.ty.dup() }
    }
}

/// Ghost model of a source/target pair of same-named fields.
pub struct FieldPairView {
    pub source: FieldDescriptorView,
    pub target: FieldDescriptorView,
}

/// A source field and a target field sharing the same name.
#[derive(Debug, PartialEq, Eq)]
pub struct FieldPair {
    pub source: FieldDescriptor,
    pub target: FieldDescriptor,
}

impl View for FieldPair {
    type V = FieldPairView;

    open spec fn view(&self) -> FieldPairView {
        FieldPairView { source: self.source@, target: self.target@ }
    }
}

impl DeepView for FieldPair {
    type V = FieldPairView;

    open spec fn deep_view(&self) -> FieldPairView {
        self@
    }
}

/// Ghost model of a record definition.
pub struct RecordDefView {
    pub name: Seq<char>,
    pub fields: Seq<FieldDescriptorView>,
}

/// A record definition: a name and a list of named, typed fields.
#[derive(Debug, PartialEq, Eq)]
pub struct RecordDef {
    pub name: String,
    pub fields: Vec<FieldDescriptor>,
}

impl View for RecordDef {
    type V = RecordDefView;

    open spec fn view(&self) -> RecordDefView {
        RecordDefView { name: self.name@, fields: self.fields.deep_view() }
    }
}

/// The pairs a single source field forms with the target fields, in the
/// target's declaration order: one pair per target field of the same name.
pub open spec fn spec_pairs_for(
    source_field: FieldDescriptorView,
    target_fields: Seq<FieldDescriptorView>,
) -> Seq<FieldPairView>
    decreases target_fields.len(),
{
    if target_fields.len() == 0 {
        Seq::empty()
    } else {
        spec_pairs_for(source_field, target_fields.drop_last()) + (
        if target_fields.last().name == source_field.name {
            seq![FieldPairView { source: source_field, target: target_fields.last() }]
        } else {
            Seq::empty()
        })
    }
}

/// All pairs of same-named fields, in source declaration order, each source
/// field's matches in target declaration order.
pub open spec fn spec_pairs(
    source_fields: Seq<FieldDescriptorView>,
    target_fields: Seq<FieldDescriptorView>,
) -> Seq<FieldPairView>
    decreases source_fields.len(),
{
    if source_fields.len() == 0 {
        Seq::empty()
    } else {
        spec_pairs(source_fields.drop_last(), target_fields) + spec_pairs_for(
            source_fields.last(),
            target_fields,
        )
    }
}

/// Produce the source/target pairs of same-named fields between two records.
pub fn pair_fields(source: &RecordDef, target: &RecordDef) -> (pairs: Vec<FieldPair>)
    ensures
        pairs.deep_view() == spec_pairs(source.fields.deep_view(), target.fields.deep_view()),
{
    let ghost source_views = source.fields.deep_view();
    let ghost target_views = target.fields.deep_view();
    let mut pairs: Vec<FieldPair> = Vec::new();
    let mut i: usize = 0;
    while i < source.fields.len()
        invariant
            i <= source.fields.len(),
            source_views == source.fields.deep_view(),
            target_views == target.fields.deep_view(),
            source_views.len() == source.fields.len(),
            target_views.len() == target.fields.len(),
            pairs.deep_view() == spec_pairs(source_views.take(i as int), target_views),
        decreases source.fields.len() - i,
    {
        let source_field = &source.fields[i];
        let mut j: usize = 0;
        while j < target.fields.len()
            invariant
                i < source.fields.len(),
                j <= target.fields.len(),
                source_views == source.fields.deep_view(),
                target_views == target.fields.deep_view(),
                source_views.len() == source.fields.len(),
                target_views.len() == target.fields.len(),
                source_field == &source.fields[i as int],
                pairs.deep_view() == spec_pairs(source_views.take(i as int), target_views)
                    + spec_pairs_for(source_views[i as int], target_views.take(j as int)),
            decreases target.fields.len() - j,
        {
            let target_field = &target.fields[j];
            let ghost pairs_before = pairs.deep_view();
            if str_eq(source_field.name.as_str(), target_field.name.as_str()) {
                pairs.push(FieldPair { source: source_field.dup(), target: target_field.dup() });
                proof {
                    assert(pairs.deep_view() =~= pairs_before.push(
                        FieldPairView { source: source_views[i as int], target: target_views[j as int] },
                    ));
                }
            }
            proof {
                assert(target_views.take(j + 1).drop_last() =~= target_views.take(j as int));
                assert(target_views.take(j + 1).last() == target_views[j as int]);
                if source_views[i as int].name == target_views[j as int].name {
                    assert(pairs.deep_view() =~= spec_pairs(source_views.take(i as int), target_views)
                        + spec_pairs_for(source_views[i as int], target_views.take(j + 1)));
                } else {
                    assert(spec_pairs_for(source_views[i as int], target_views.take(j + 1))
                        =~= spec_pairs_for(source_views[i as int], target_views.take(j as int)));
                }
            }
            j += 1;
        }
        proof {
            assert(target_views.take(target_views.len() as int) =~= target_views);
            assert(source_views.take(i + 1).drop_last() =~= source_views.take(i as int));
            assert(source_views.take(i + 1).last() == source_views[i as int]);
        }
        i += 1;
    }
    proof {
        assert(source_views.take(source_views.len() as int) =~= source_views);
    }
    pairs
}

/// The set of field names a list of descriptors declares.
pub open spec fn field_names(fields: Seq<FieldDescriptorView>) -> Set<Seq<char>>
    decreases fields.len(),
{
    if fields.len() == 0 {
        Set::empty()
    } else {
        field_names(fields.drop_last()).insert(fields.last().name)
    }
}

/// The set of field names a list of pairs touches.
pub open spec fn pair_names(pairs: Seq<FieldPairView>) -> Set<Seq<char>>
    decreases pairs.len(),
{
    if pairs.len() == 0 {
        Set::empty()
    } else {
        pair_names(pairs.drop_last()).insert(pairs.last().source.name)
    }
}

proof fn lemma_field_names_contains(fields: Seq<FieldDescriptorView>, name: Seq<char>)
    ensures
        field_names(fields).contains(name) <==> exists|k: int|
            0 <= k < fields.len() && fields[k].name == name,
    decreases fields.len(),
{
    if fields.len() > 0 {
        lemma_field_names_contains(fields.drop_last(), name);
        if field_names(fields).contains(name) {
            if fields.last().name == name {
                assert(fields[fields.len() - 1].name == name);
            } else {
                let k = choose|k: int|
                    0 <= k < fields.drop_last().len() && fields.drop_last()[k].name == name;
                assert(fields[k].name == name);
            }
        }
        if exists|k: int| 0 <= k < fields.len() && fields[k].name == name {
            let k = choose|k: int| 0 <= k < fields.len() && fields[k].name == name;
            if k < fields.len() - 1 {
                assert(fields.drop_last()[k].name == name);
            }
        }
    }
}

proof fn lemma_pair_names_concat(a: Seq<FieldPairView>, b: Seq<FieldPairView>)
    ensures
        pair_names(a + b) == pair_names(a).union(pair_names(b)),
    decreases b.len(),
{
    if b.len() == 0 {
        assert(a + b =~= a);
        assert(pair_names(a).union(Set::empty()) =~= pair_names(a));
    } else {
        lemma_pair_names_concat(a, b.drop_last());
        assert((a + b).drop_last() =~= a + b.drop_last());
        assert((a + b).last() == b.last());
        assert(pair_names(a).union(pair_names(b.drop_last())).insert(b.last().source.name)
            =~= pair_names(a).union(pair_names(b)));
    }
}

/// Whether a pair joins same-named fields drawn from the two given lists.
pub open spec fn pair_joins(
    p: FieldPairView,
    source_fields: Seq<FieldDescriptorView>,
    target_fields: Seq<FieldDescriptorView>,
) -> bool {
    p.source.name == p.target.name && source_fields.contains(p.source) && target_fields.contains(
        p.target,
    )
}

proof fn lemma_pairs_for_names(source_field: FieldDescriptorView, target_fields: Seq<FieldDescriptorView>)
    ensures
        pair_names(spec_pairs_for(source_field, target_fields)) == (
        if field_names(target_fields).contains(source_field.name) {
            Set::empty().insert(source_field.name)
        } else {
            Set::<Seq<char>>::empty()
        }),
        forall|k: int|
            0 <= k < spec_pairs_for(source_field, target_fields).len()
                ==> (#[trigger] spec_pairs_for(source_field, target_fields)[k]).source
                == source_field && spec_pairs_for(source_field, target_fields)[k].target.name
                == source_field.name && target_fields.contains(
                spec_pairs_for(source_field, target_fields)[k].target,
            ),
    decreases target_fields.len(),
{
    if target_fields.len() == 0 {
    } else {
        lemma_pairs_for_names(source_field, target_fields.drop_last());
        lemma_pair_names_concat(
            spec_pairs_for(source_field, target_fields.drop_last()),
            if target_fields.last().name == source_field.name {
                seq![FieldPairView { source: source_field, target: target_fields.last() }]
            } else {
                Seq::empty()
            },
        );
        if target_fields.last().name == source_field.name {
            let single = seq![FieldPairView { source: source_field, target: target_fields.last() }];
            assert(single.drop_last() =~= Seq::<FieldPairView>::empty());
            assert(pair_names(single.drop_last()) =~= Set::<Seq<char>>::empty());
            assert(single.last().source.name == source_field.name);
            assert(pair_names(single) =~= Set::empty().insert(source_field.name));
        } else {
            assert(pair_names(Seq::<FieldPairView>::empty()) =~= Set::<Seq<char>>::empty());
        }
        assert(pair_names(spec_pairs_for(source_field, target_fields)) =~= (
        if field_names(target_fields).contains(source_field.name) {
            Set::empty().insert(source_field.name)
        } else {
            Set::<Seq<char>>::empty()
        }));
        assert forall|k: int|
            0 <= k < spec_pairs_for(source_field, target_fields).len() implies (
        #[trigger] spec_pairs_for(source_field, target_fields)[k]).source == source_field
            && spec_pairs_for(source_field, target_fields)[k].target.name == source_field.name
            && target_fields.contains(spec_pairs_for(source_field, target_fields)[k].target) by {
            let prefix = spec_pairs_for(source_field, target_fields.drop_last());
            let p = spec_pairs_for(source_field, target_fields)[k];
            if k < prefix.len() {
                assert(target_fields.drop_last().contains(p.target));
                let m = choose|m: int|
                    0 <= m < target_fields.drop_last().len() && target_fields.drop_last()[m]
                        == p.target;
                assert(target_fields[m] == p.target);
            } else {
                assert(p.target == target_fields.last());
                assert(target_fields[target_fields.len() - 1] == p.target);
            }
        }
    }
}

/// Pairing is name-based and order-independent: the names the generated
/// pairs touch are exactly the intersection of the two records' field-name
/// sets, however the fields are ordered; every pair joins a source field and
/// a target field of the same name, drawn from the respective records. A
/// field whose name appears in only one record appears in no pair.
pub proof fn lemma_pairing_name_based(
    source_fields: Seq<FieldDescriptorView>,
    target_fields: Seq<FieldDescriptorView>,
)
    ensures
        pair_names(spec_pairs(source_fields, target_fields)) == field_names(
            source_fields,
        ).intersect(field_names(target_fields)),
        forall|k: int|
            0 <= k < spec_pairs(source_fields, target_fields).len() ==> pair_joins(
                #[trigger] spec_pairs(source_fields, target_fields)[k],
                source_fields,
                target_fields,
            ),
    decreases source_fields.len(),
{
    if source_fields.len() == 0 {
        assert(pair_names(spec_pairs(source_fields, target_fields)) =~= field_names(
            source_fields,
        ).intersect(field_names(target_fields)));
    } else {
        let prefix = source_fields.drop_last();
        let f = source_fields.last();
        lemma_pairing_name_based(prefix, target_fields);
        lemma_pairs_for_names(f, target_fields);
        lemma_pair_names_concat(spec_pairs(prefix, target_fields), spec_pairs_for(f, target_fields));
        lemma_field_names_contains(target_fields, f.name);
        assert(pair_names(spec_pairs(source_fields, target_fields)) =~= field_names(
            source_fields,
        ).intersect(field_names(target_fields)));
        assert forall|k: int|
            0 <= k < spec_pairs(source_fields, target_fields).len() implies pair_joins(
            #[trigger] spec_pairs(source_fields, target_fields)[k],
            source_fields,
            target_fields,
        ) by {
            let left = spec_pairs(prefix, target_fields);
            let p = spec_pairs(source_fields, target_fields)[k];
            if k < left.len() {
                assert(prefix.contains(p.source));
                let m = choose|m: int| 0 <= m < prefix.len() && prefix[m] == p.source;
                assert(source_fields[m] == p.source);
            } else {
                assert(p.source == f);
                assert(source_fields[source_fields.len() - 1] == p.source);
            }
        }
    }
}

} // verus!
