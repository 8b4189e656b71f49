use struct_merge::fields::{pair_fields, FieldDescriptor, RecordDef};
use struct_merge::types::{PathSegment, SegmentArgs, TypeExpr, TypeShape};

fn simple_type(name: &str) -> TypeExpr {
    TypeExpr {
        text: name.to_string(),
        shape: TypeShape::Path {
            rooted: false,
            qualified: false,
            segments: vec![PathSegment { name: name.to_string(), args: SegmentArgs::NoArgs }],
        },
    }
}

fn field(name: &str, ty: &str) -> FieldDescriptor {
    FieldDescriptor { name: name.to_string(), ty: simple_type(ty) }
}

fn record(name: &str, fields: Vec<FieldDescriptor>) -> RecordDef {
    RecordDef { name: name.to_string(), fields }
}

#[test]
fn pairing_is_name_intersection() {
    let source = record("Source", vec![field("a", "u32"), field("b", "u32"), field("c", "u32")]);
    let target = record("Target", vec![field("b", "u32"), field("c", "u32"), field("d", "u32")]);
    let pairs = pair_fields(&source, &target);
    let names: Vec<&str> = pairs.iter().map(|p| p.source.name.as_str()).collect();
    assert_eq!(names, vec!["b", "c"]);
    for p in &pairs {
        assert_eq!(p.source.name, p.target.name);
    }
}

#[test]
fn pairing_ignores_declaration_order() {
    let source = record("Source", vec![field("a", "u32"), field("b", "u32"), field("c", "u32")]);
    let shuffled = record("Target", vec![field("c", "u32"), field("a", "u32")]);
    let ordered = record("Target", vec![field("a", "u32"), field("c", "u32")]);
    let pairs_shuffled = pair_fields(&source, &shuffled);
    let pairs_ordered = pair_fields(&source, &ordered);
    let mut names_shuffled: Vec<String> =
        pairs_shuffled.iter().map(|p| p.source.name.clone()).collect();
    let mut names_ordered: Vec<String> =
        pairs_ordered.iter().map(|p| p.source.name.clone()).collect();
    names_shuffled.sort();
    names_ordered.sort();
    assert_eq!(names_shuffled, names_ordered);
    assert_eq!(names_ordered, vec!["a".to_string(), "c".to_string()]);
}

#[test]
fn fields_in_only_one_record_never_pair() {
    let source = record("Source", vec![field("only_source", "u32")]);
    let target = record("Target", vec![field("only_target", "u32")]);
    let pairs = pair_fields(&source, &target);
    assert!(pairs.is_empty());
}

#[test]
fn pairing_keeps_each_sides_type() {
    let source = record("Source", vec![field("x", "i32")]);
    let target = record("Target", vec![field("x", "String")]);
    let pairs = pair_fields(&source, &target);
    assert_eq!(pairs.len(), 1);
    assert_eq!(pairs[0].source.ty.text, "i32");
    assert_eq!(pairs[0].target.ty.text, "String");
}
