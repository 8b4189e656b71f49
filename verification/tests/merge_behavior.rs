use struct_merge::emit::{emit_borrowed, emit_owned, Ownership};
use struct_merge::rules::MergeAction;
use struct_merge::fields::{FieldDescriptor, RecordDef};
use struct_merge::types::{GenericArg, PathSegment, SegmentArgs, TypeExpr, TypeShape};
use struct_merge::values::{FieldValue, Payload, RecordValue, ValueField};

fn simple_type(name: &str) -> TypeExpr {
    TypeExpr {
        text: name.to_string(),
        shape: TypeShape::Path {
            rooted: false,
            qualified: false,
            segments: vec![PathSegment { name: name.to_string(), args: SegmentArgs::NoArgs }],
        },
    }
}

fn option_type(inner: &str) -> TypeExpr {
    TypeExpr {
        text: format!("Option<{}>", inner),
        shape: TypeShape::Path {
            rooted: false,
            qualified: false,
            segments: vec![PathSegment {
                name: "Option".to_string(),
                args: SegmentArgs::Angle {
                    args: vec![GenericArg::TypeArg { text: inner.to_string() }],
                },
            }],
        },
    }
}

fn record(name: &str, fields: Vec<(&str, TypeExpr)>) -> RecordDef {
    RecordDef {
        name: name.to_string(),
        fields: fields
            .into_iter()
            .map(|(n, ty)| FieldDescriptor { name: n.to_string(), ty })
            .collect(),
    }
}

fn value(fields: Vec<(&str, FieldValue)>) -> RecordValue {
    RecordValue {
        fields: fields
            .into_iter()
            .map(|(n, v)| ValueField { name: n.to_string(), value: v })
            .collect(),
    }
}

fn text(s: &str) -> Payload {
    Payload::Text(s.to_string())
}

#[test]
fn case_one_round_trip() {
    let source_def = record("Source", vec![("x", simple_type("String"))]);
    let target_def = record("Target", vec![("x", simple_type("String"))]);
    let emission = emit_owned(&source_def, &target_def);
    assert!(emission.diagnostics.is_empty());
    assert_eq!(emission.ownership, Ownership::Owned);

    let source = value(vec![("x", FieldValue::Plain(text("s")))]);
    let mut target = value(vec![("x", FieldValue::Plain(text("t")))]);
    emission.bundle.merge(source, &mut target);
    assert_eq!(target.fields[0].value, FieldValue::Plain(text("s")));

    // Soft mode never touches two plain fields.
    let source = value(vec![("x", FieldValue::Plain(text("s")))]);
    let mut target = value(vec![("x", FieldValue::Plain(text("t")))]);
    emission.bundle.merge_soft(source, &mut target);
    assert_eq!(target.fields[0].value, FieldValue::Plain(text("t")));
}

#[test]
fn case_two_presence_gating() {
    let source_def = record("Source", vec![("x", option_type("String"))]);
    let target_def = record("Target", vec![("x", simple_type("String"))]);
    let emission = emit_owned(&source_def, &target_def);
    assert!(emission.diagnostics.is_empty());

    // An empty source leaves the target untouched.
    let source = value(vec![("x", FieldValue::Wrapped(None))]);
    let mut target = value(vec![("x", FieldValue::Plain(text("kept")))]);
    emission.bundle.merge(source, &mut target);
    assert_eq!(target.fields[0].value, FieldValue::Plain(text("kept")));

    // A present source overwrites the target with the carried value.
    let source = value(vec![("x", FieldValue::Wrapped(Some(text("v"))))]);
    let mut target = value(vec![("x", FieldValue::Plain(text("old")))]);
    emission.bundle.merge(source, &mut target);
    assert_eq!(target.fields[0].value, FieldValue::Plain(text("v")));

    // The target has no absence state: soft mode generates nothing here.
    assert!(emission.bundle.soft_rules.is_empty());
}

#[test]
fn case_three_soft_fill_idempotence() {
    let source_def = record("Source", vec![("x", simple_type("String"))]);
    let target_def = record("Target", vec![("x", option_type("String"))]);
    let emission = emit_owned(&source_def, &target_def);
    assert!(emission.diagnostics.is_empty());

    // A present target field is not overwritten by a soft merge.
    let source = value(vec![("x", FieldValue::Plain(text("b")))]);
    let mut target = value(vec![("x", FieldValue::Wrapped(Some(text("a"))))]);
    emission.bundle.merge_soft(source, &mut target);
    assert_eq!(target.fields[0].value, FieldValue::Wrapped(Some(text("a"))));

    // An absent target field is filled, wrapped.
    let mut target = value(vec![("x", FieldValue::Wrapped(None))]);
    let source = value(vec![("x", FieldValue::Plain(text("b")))]);
    emission.bundle.merge_soft(source, &mut target);
    assert_eq!(target.fields[0].value, FieldValue::Wrapped(Some(text("b"))));

    // Applying the soft merge again changes nothing: idempotence.
    let source = value(vec![("x", FieldValue::Plain(text("b")))]);
    emission.bundle.merge_soft(source, &mut target);
    assert_eq!(target.fields[0].value, FieldValue::Wrapped(Some(text("b"))));

    // Strict mode wraps and overwrites unconditionally.
    let source = value(vec![("x", FieldValue::Plain(text("c")))]);
    emission.bundle.merge(source, &mut target);
    assert_eq!(target.fields[0].value, FieldValue::Wrapped(Some(text("c"))));
}

#[test]
fn case_four_no_rewrap_disambiguation() {
    let source_def = record("Source", vec![("x", option_type("Option<String>"))]);
    let target_def = record("Target", vec![("x", option_type("String"))]);
    let emission = emit_owned(&source_def, &target_def);
    assert!(emission.diagnostics.is_empty());

    // The generated action unwraps once and never rewraps.
    assert_eq!(emission.bundle.strict_rules.len(), 1);
    assert_eq!(emission.bundle.strict_rules[0].action, MergeAction::CopyIfSourcePresent);

    // An empty source changes nothing.
    let source = value(vec![("x", FieldValue::DoublyWrapped(None))]);
    let mut target = value(vec![("x", FieldValue::Wrapped(Some(text("kept"))))]);
    emission.bundle.merge(source, &mut target);
    assert_eq!(target.fields[0].value, FieldValue::Wrapped(Some(text("kept"))));

    // Only the source's outer presence is tested: a present source hands its
    // carried wrapper over even when that wrapper is itself empty.
    let source = value(vec![("x", FieldValue::DoublyWrapped(Some(None)))]);
    let mut target = value(vec![("x", FieldValue::Wrapped(Some(text("old"))))]);
    emission.bundle.merge(source, &mut target);
    assert_eq!(target.fields[0].value, FieldValue::Wrapped(None));

    let source = value(vec![("x", FieldValue::DoublyWrapped(Some(Some(text("v")))))]);
    let mut target = value(vec![("x", FieldValue::Wrapped(None))]);
    emission.bundle.merge(source, &mut target);
    assert_eq!(target.fields[0].value, FieldValue::Wrapped(Some(text("v"))));
}

#[test]
fn borrowed_merge_leaves_source_usable() {
    let source_def = record("Source", vec![("x", simple_type("String"))]);
    let target_def = record("Target", vec![("x", simple_type("String"))]);
    let emission = emit_borrowed(&source_def, &target_def);
    assert_eq!(emission.ownership, Ownership::Borrowed);

    let source = value(vec![("x", FieldValue::Plain(text("s")))]);
    let mut first = value(vec![("x", FieldValue::Plain(text("a")))]);
    let mut second = value(vec![("x", FieldValue::Plain(text("b")))]);
    emission.bundle.merge_ref(&source, &mut first);
    emission.bundle.merge_ref(&source, &mut second);
    assert_eq!(first.fields[0].value, FieldValue::Plain(text("s")));
    assert_eq!(second.fields[0].value, FieldValue::Plain(text("s")));
    // The source is untouched.
    assert_eq!(source.fields[0].value, FieldValue::Plain(text("s")));
}

#[test]
fn borrowed_soft_merge_matches_owned_soft_merge() {
    let source_def = record("Source", vec![("x", simple_type("String"))]);
    let target_def = record("Target", vec![("x", option_type("String"))]);
    let emission = emit_borrowed(&source_def, &target_def);

    let source = value(vec![("x", FieldValue::Plain(text("fill")))]);
    let mut target = value(vec![("x", FieldValue::Wrapped(None))]);
    emission.bundle.merge_ref_soft(&source, &mut target);
    assert_eq!(target.fields[0].value, FieldValue::Wrapped(Some(text("fill"))));

    let mut kept = value(vec![("x", FieldValue::Wrapped(Some(text("keep"))))]);
    emission.bundle.merge_ref_soft(&source, &mut kept);
    assert_eq!(kept.fields[0].value, FieldValue::Wrapped(Some(text("keep"))));
}

#[test]
fn unrelated_fields_do_not_move() {
    let source_def = record(
        "Source",
        vec![("x", simple_type("String")), ("n", simple_type("i64"))],
    );
    let target_def = record(
        "Target",
        vec![("n", simple_type("i64")), ("x", simple_type("String")), ("extra", simple_type("bool"))],
    );
    let emission = emit_owned(&source_def, &target_def);
    let source = value(vec![
        ("x", FieldValue::Plain(text("s"))),
        ("n", FieldValue::Plain(Payload::Int(7))),
    ]);
    let mut target = value(vec![
        ("n", FieldValue::Plain(Payload::Int(1))),
        ("x", FieldValue::Plain(text("t"))),
        ("extra", FieldValue::Plain(Payload::Flag(true))),
    ]);
    emission.bundle.merge(source, &mut target);
    assert_eq!(target.fields[0].value, FieldValue::Plain(Payload::Int(7)));
    assert_eq!(target.fields[1].value, FieldValue::Plain(text("s")));
    assert_eq!(target.fields[2].value, FieldValue::Plain(Payload::Flag(true)));
}
