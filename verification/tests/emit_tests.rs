use struct_merge::classify::InvalidReason;
use struct_merge::diagnostics::{Diagnostic, DiagnosticKind};
use struct_merge::emit::emit_owned;
use struct_merge::fields::{FieldDescriptor, RecordDef};
use struct_merge::rules::MergeAction;
use struct_merge::types::{GenericArg, PathSegment, SegmentArgs, TypeExpr, TypeShape};

fn simple_type(name: &str) -> TypeExpr {
    TypeExpr {
        text: name.to_string(),
        shape: TypeShape::Path {
            rooted: false,
            qualified: false,
            segments: vec![PathSegment { name: name.to_string(), args: SegmentArgs::NoArgs }],
        },
    }
}

fn option_type(inner: &str) -> TypeExpr {
    TypeExpr {
        text: format!("Option<{}>", inner),
        shape: TypeShape::Path {
            rooted: false,
            qualified: false,
            segments: vec![PathSegment {
                name: "Option".to_string(),
                args: SegmentArgs::Angle {
                    args: vec![GenericArg::TypeArg { text: inner.to_string() }],
                },
            }],
        },
    }
}

fn record(name: &str, fields: Vec<(&str, TypeExpr)>) -> RecordDef {
    RecordDef {
        name: name.to_string(),
        fields: fields
            .into_iter()
            .map(|(n, ty)| FieldDescriptor { name: n.to_string(), ty })
            .collect(),
    }
}

#[test]
fn mismatch_is_reported_and_field_excluded() {
    let source_def = record(
        "Source",
        vec![("id", simple_type("u32")), ("x", simple_type("i32")), ("note", simple_type("String"))],
    );
    let target_def = record(
        "Target",
        vec![("id", simple_type("u32")), ("x", simple_type("String")), ("note", simple_type("String"))],
    );
    let emission = emit_owned(&source_def, &target_def);

    // The mismatching field generates no rule; the other fields still merge.
    let rule_fields: Vec<&str> =
        emission.bundle.strict_rules.iter().map(|r| r.field.as_str()).collect();
    assert_eq!(rule_fields, vec!["id", "note"]);
    for rule in &emission.bundle.strict_rules {
        assert_eq!(rule.action, MergeAction::CopyAlways);
    }

    // Exactly one diagnostic: a type mismatch naming field x and both types.
    assert_eq!(emission.diagnostics.len(), 1);
    assert_eq!(
        emission.diagnostics[0],
        Diagnostic::TypeMismatch {
            record: "Source".to_string(),
            field: "x".to_string(),
            source_type: "i32".to_string(),
            target_type: "String".to_string(),
        }
    );
    assert_eq!(emission.diagnostics[0].kind(), DiagnosticKind::TypeMismatch);
}

#[test]
fn unsupported_field_type_is_reported_once() {
    let tuple_type = TypeExpr { text: "(u8, u8)".to_string(), shape: TypeShape::NonPath };
    let source_def = record("Source", vec![("x", tuple_type)]);
    let target_def = record("Target", vec![("x", simple_type("String"))]);
    let emission = emit_owned(&source_def, &target_def);

    assert!(emission.bundle.strict_rules.is_empty());
    assert!(emission.bundle.soft_rules.is_empty());
    assert_eq!(emission.diagnostics.len(), 1);
    assert_eq!(
        emission.diagnostics[0],
        Diagnostic::UnsupportedType {
            record: "Source".to_string(),
            field: "x".to_string(),
            type_text: "(u8, u8)".to_string(),
        }
    );
}

#[test]
fn malformed_wrapper_is_reported() {
    let bare_option = simple_type("Option");
    let source_def = record("Source", vec![("x", simple_type("String"))]);
    let target_def = record("Target", vec![("x", bare_option)]);
    let emission = emit_owned(&source_def, &target_def);

    assert!(emission.bundle.strict_rules.is_empty());
    assert_eq!(emission.diagnostics.len(), 1);
    assert_eq!(
        emission.diagnostics[0],
        Diagnostic::MalformedWrapper {
            record: "Target".to_string(),
            field: "x".to_string(),
            type_text: "Option".to_string(),
            reason: InvalidReason::UnrecognizedWrapperArguments,
        }
    );
    assert_eq!(emission.diagnostics[0].kind(), DiagnosticKind::MalformedWrapper);
}

#[test]
fn unpaired_fields_generate_nothing() {
    let source_def = record("Source", vec![("left", simple_type("u8"))]);
    let target_def = record("Target", vec![("right", simple_type("u8"))]);
    let emission = emit_owned(&source_def, &target_def);
    assert!(emission.bundle.strict_rules.is_empty());
    assert!(emission.bundle.soft_rules.is_empty());
    assert!(emission.diagnostics.is_empty());
}

#[test]
fn soft_rules_cover_only_absence_gated_pairs() {
    let source_def = record(
        "Source",
        vec![
            ("plain", simple_type("u8")),
            ("fill", simple_type("String")),
            ("both", option_type("String")),
        ],
    );
    let target_def = record(
        "Target",
        vec![
            ("plain", simple_type("u8")),
            ("fill", option_type("String")),
            ("both", option_type("String")),
        ],
    );
    let emission = emit_owned(&source_def, &target_def);
    let strict_fields: Vec<&str> =
        emission.bundle.strict_rules.iter().map(|r| r.field.as_str()).collect();
    assert_eq!(strict_fields, vec!["plain", "fill", "both"]);
    let soft: Vec<(&str, MergeAction)> = emission
        .bundle
        .soft_rules
        .iter()
        .map(|r| (r.field.as_str(), r.action))
        .collect();
    assert_eq!(
        soft,
        vec![
            ("fill", MergeAction::WrapIfTargetAbsent),
            ("both", MergeAction::CopyIfTargetAbsent),
        ]
    );
}
