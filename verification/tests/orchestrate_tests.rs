use struct_merge::diagnostics::{Diagnostic, DiagnosticKind};
use struct_merge::emit::Ownership;
use struct_merge::fields::{FieldDescriptor, RecordDef};
use struct_merge::orchestrate::{process, TargetOutcome, TargetSpec};
use struct_merge::types::{PathSegment, SegmentArgs, TypeExpr, TypeShape};
use struct_merge::values::{FieldValue, Payload, RecordValue, ValueField};

fn simple_type(name: &str) -> TypeExpr {
    TypeExpr {
        text: name.to_string(),
        shape: TypeShape::Path {
            rooted: false,
            qualified: false,
            segments: vec![PathSegment { name: name.to_string(), args: SegmentArgs::NoArgs }],
        },
    }
}

fn record(name: &str, fields: Vec<(&str, TypeExpr)>) -> RecordDef {
    RecordDef {
        name: name.to_string(),
        fields: fields
            .into_iter()
            .map(|(n, ty)| FieldDescriptor { name: n.to_string(), ty })
            .collect(),
    }
}

#[test]
fn partial_batch_tolerance() {
    let source_def = record("Source", vec![("x", simple_type("String"))]);
    let targets = vec![
        TargetSpec {
            specifier: "crate::structs::Base".to_string(),
            record: Some(record("Base", vec![("x", simple_type("String"))])),
        },
        TargetSpec { specifier: "crate::structs::Gone".to_string(), record: None },
    ];
    let outcomes = process(&source_def, &targets, Ownership::Owned);
    assert_eq!(outcomes.len(), 2);

    // The resolvable target still receives a complete, correct bundle.
    match &outcomes[0] {
        TargetOutcome::Generated(emission) => {
            assert_eq!(emission.ownership, Ownership::Owned);
            assert!(emission.diagnostics.is_empty());
            let source = RecordValue {
                fields: vec![ValueField {
                    name: "x".to_string(),
                    value: FieldValue::Plain(Payload::Text("merged".to_string())),
                }],
            };
            let mut target = RecordValue {
                fields: vec![ValueField {
                    name: "x".to_string(),
                    value: FieldValue::Plain(Payload::Text("old".to_string())),
                }],
            };
            emission.bundle.merge(source, &mut target);
            assert_eq!(
                target.fields[0].value,
                FieldValue::Plain(Payload::Text("merged".to_string()))
            );
        }
        TargetOutcome::Failed(_) => panic!("the resolvable target must generate"),
    }

    // The unresolvable one yields only a target-not-found diagnostic.
    match &outcomes[1] {
        TargetOutcome::Failed(diags) => {
            assert_eq!(diags.len(), 1);
            assert_eq!(
                diags[0],
                Diagnostic::TargetNotFound { specifier: "crate::structs::Gone".to_string() }
            );
            assert_eq!(diags[0].kind(), DiagnosticKind::TargetNotFound);
        }
        TargetOutcome::Generated(_) => panic!("the unresolvable target must fail"),
    }
}

#[test]
fn every_target_gets_exactly_one_outcome() {
    let source_def = record("Source", vec![("a", simple_type("u8"))]);
    let targets = vec![
        TargetSpec { specifier: "crate::a".to_string(), record: None },
        TargetSpec {
            specifier: "crate::b".to_string(),
            record: Some(record("B", vec![("a", simple_type("u8"))])),
        },
        TargetSpec { specifier: "crate::c".to_string(), record: None },
    ];
    let outcomes = process(&source_def, &targets, Ownership::Borrowed);
    assert_eq!(outcomes.len(), 3);
    assert!(matches!(outcomes[0], TargetOutcome::Failed(_)));
    assert!(matches!(outcomes[1], TargetOutcome::Generated(_)));
    assert!(matches!(outcomes[2], TargetOutcome::Failed(_)));
}

#[test]
fn empty_batch_yields_no_outcomes() {
    let source_def = record("Source", vec![("a", simple_type("u8"))]);
    let outcomes = process(&source_def, &vec![], Ownership::Owned);
    assert!(outcomes.is_empty());
}
