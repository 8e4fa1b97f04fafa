use builder_gen::builder_name_of;
use builder_gen::classify::{classify_field, classify_fields, DiagKind, FieldKind};
use builder_gen::generate;
use builder_gen::model::{AttrToken, Declaration, FieldDecl, RecordDecl, Segment, TypeExpr};
use builder_gen::synth::{render_type, render_unit, synthesize};

fn ty(segments: Vec<(&str, Vec<&str>)>) -> TypeExpr {
    TypeExpr {
        segments: segments
            .into_iter()
            .map(|(name, args)| Segment {
                name: name.to_string(),
                args: args.into_iter().map(|a| a.to_string()).collect(),
            })
            .collect(),
    }
}

fn field(name: &str, t: TypeExpr) -> FieldDecl {
    FieldDecl { name: name.to_string(), ty: t, annotation: None }
}

fn each_annotation(method: &str) -> Vec<AttrToken> {
    vec![
        AttrToken::Ident { text: "each".to_string() },
        AttrToken::Punct { ch: '=', alone: true },
        AttrToken::LitStr { value: method.to_string() },
    ]
}

fn task_record() -> RecordDecl {
    let mut tags = field("tags", ty(vec![("Vec", vec!["String"])]));
    tags.annotation = Some(each_annotation("tag"));
    RecordDecl {
        name: "Task".to_string(),
        fields: vec![
            field("name", ty(vec![("String", vec![])])),
            field("value", ty(vec![("Option", vec!["i32"])])),
            tags,
        ],
    }
}

#[test]
fn builder_name_appends_suffix() {
    assert_eq!(builder_name_of(&"Task".to_string()), "TaskBuilder");
}

#[test]
fn bare_field_classifies_required() {
    let f = field("name", ty(vec![("String", vec![])]));
    let c = classify_field(&f).unwrap();
    assert!(matches!(c.kind, FieldKind::Required));
    assert_eq!(c.name, "name");
}

#[test]
fn optional_wrapper_classifies_optional() {
    let f = field("value", ty(vec![("Option", vec!["i32"])]));
    let c = classify_field(&f).unwrap();
    match c.kind {
        FieldKind::Optional { inner } => assert_eq!(inner, "i32"),
        _ => panic!("expected an optional classification"),
    }
}

#[test]
fn qualified_optional_wrapper_classifies_optional() {
    let f = field("value", ty(vec![("std", vec![]), ("option", vec![]), ("Option", vec!["i32"])]));
    let c = classify_field(&f).unwrap();
    match c.kind {
        FieldKind::Optional { inner } => assert_eq!(inner, "i32"),
        _ => panic!("expected an optional classification"),
    }
}

#[test]
fn list_without_annotation_classifies_required() {
    let f = field("tags", ty(vec![("Vec", vec!["String"])]));
    let c = classify_field(&f).unwrap();
    assert!(matches!(c.kind, FieldKind::Required));
}

#[test]
fn each_annotation_classifies_accumulating() {
    let mut f = field("tags", ty(vec![("Vec", vec!["String"])]));
    f.annotation = Some(each_annotation("tag"));
    let c = classify_field(&f).unwrap();
    match c.kind {
        FieldKind::Accumulating { elem, method } => {
            assert_eq!(elem, "String");
            assert_eq!(method, "tag");
        },
        _ => panic!("expected an accumulating classification"),
    }
}

#[test]
fn unsupported_key_is_rejected() {
    let mut f = field("tags", ty(vec![("Vec", vec!["String"])]));
    f.annotation = Some(vec![
        AttrToken::Ident { text: "every".to_string() },
        AttrToken::Punct { ch: '=', alone: true },
        AttrToken::LitStr { value: "tag".to_string() },
    ]);
    let d = classify_field(&f).unwrap_err();
    assert_eq!(d.subject, "tags");
    match &d.kind {
        DiagKind::UnsupportedKey { key } => assert_eq!(key, "every"),
        _ => panic!("expected an unsupported-key diagnostic"),
    }
    assert_eq!(d.message(), "tags: unsupported configuration key `every`");
}

#[test]
fn unquoted_value_is_rejected() {
    let mut f = field("tags", ty(vec![("Vec", vec!["String"])]));
    f.annotation = Some(vec![
        AttrToken::Ident { text: "each".to_string() },
        AttrToken::Punct { ch: '=', alone: true },
        AttrToken::OtherLit { text: "7".to_string() },
    ]);
    let d = classify_field(&f).unwrap_err();
    assert!(matches!(d.kind, DiagKind::MalformedAnnotation));
    assert_eq!(
        d.message(),
        "tags: malformed configuration annotation, expected `each = \"<method>\"`"
    );
}

#[test]
fn truncated_annotation_is_rejected() {
    let mut f = field("tags", ty(vec![("Vec", vec!["String"])]));
    f.annotation = Some(vec![AttrToken::Ident { text: "each".to_string() }]);
    let d = classify_field(&f).unwrap_err();
    assert!(matches!(d.kind, DiagKind::MalformedAnnotation));
}

#[test]
fn joined_punctuation_is_rejected() {
    let mut f = field("tags", ty(vec![("Vec", vec!["String"])]));
    f.annotation = Some(vec![
        AttrToken::Ident { text: "each".to_string() },
        AttrToken::Punct { ch: '=', alone: false },
        AttrToken::LitStr { value: "tag".to_string() },
    ]);
    let d = classify_field(&f).unwrap_err();
    assert!(matches!(d.kind, DiagKind::MalformedAnnotation));
}

#[test]
fn non_identifier_key_is_rejected() {
    let mut f = field("tags", ty(vec![("Vec", vec!["String"])]));
    f.annotation = Some(vec![
        AttrToken::LitStr { value: "each".to_string() },
        AttrToken::Punct { ch: '=', alone: true },
        AttrToken::LitStr { value: "tag".to_string() },
    ]);
    let d = classify_field(&f).unwrap_err();
    assert!(matches!(d.kind, DiagKind::MalformedAnnotation));
}

#[test]
fn qualified_list_classifies_accumulating() {
    let mut f = field("tags", ty(vec![("std", vec![]), ("vec", vec![]), ("Vec", vec!["String"])]));
    f.annotation = Some(each_annotation("tag"));
    let c = classify_field(&f).unwrap();
    match c.kind {
        FieldKind::Accumulating { elem, method } => {
            assert_eq!(elem, "String");
            assert_eq!(method, "tag");
        },
        _ => panic!("expected an accumulating classification"),
    }
}

#[test]
fn each_on_non_list_is_rejected() {
    let mut f = field("tags", ty(vec![("String", vec![])]));
    f.annotation = Some(each_annotation("tag"));
    let d = classify_field(&f).unwrap_err();
    assert!(matches!(d.kind, DiagKind::AnnotationOnNonList));
    assert_eq!(d.message(), "tags: an `each` annotation needs a list-valued field");
}

#[test]
fn first_rejected_field_aborts_classification() {
    let mut bad1 = field("first", ty(vec![("String", vec![])]));
    bad1.annotation = Some(vec![
        AttrToken::Ident { text: "other".to_string() },
        AttrToken::Punct { ch: '=', alone: true },
        AttrToken::LitStr { value: "x".to_string() },
    ]);
    let mut bad2 = field("second", ty(vec![("String", vec![])]));
    bad2.annotation = Some(vec![AttrToken::Other]);
    let d = classify_fields(&vec![bad1, bad2]).unwrap_err();
    assert_eq!(d.subject, "first");
    assert!(matches!(d.kind, DiagKind::UnsupportedKey { .. }));
}

#[test]
fn render_type_joins_segments_and_arguments() {
    assert_eq!(
        render_type(&ty(vec![("std", vec![]), ("option", vec![]), ("Option", vec!["i32"])])),
        "std::option::Option<i32>"
    );
    assert_eq!(render_type(&ty(vec![("HashMap", vec!["String", "i32"])])), "HashMap<String, i32>");
    assert_eq!(render_type(&ty(vec![("String", vec![])])), "String");
}

#[test]
fn non_record_declarations_are_rejected() {
    let d = generate(&Declaration::Enumeration { name: "Shape".to_string() }).unwrap_err();
    assert_eq!(d.message(), "Shape: only a flat record with named fields can have a builder");
    assert!(generate(&Declaration::TupleRecord { name: "Pair".to_string() }).is_err());
    assert!(generate(&Declaration::UnitRecord { name: "Unit".to_string() }).is_err());
    assert!(generate(&Declaration::Union { name: "Raw".to_string() }).is_err());
}

#[test]
fn synthesized_model_lays_out_storage_and_methods() {
    let record = task_record();
    let classified = classify_fields(&record.fields).unwrap();
    let model = synthesize(&record.name, &classified);
    assert_eq!(model.record_name, "Task");
    assert_eq!(model.builder_name, "TaskBuilder");
    assert_eq!(model.slots.len(), 3);
    assert_eq!(model.slots[0].storage_ty, "std::option::Option<String>");
    assert_eq!(model.slots[0].param_ty, "String");
    assert_eq!(model.slots[0].method_name, "name");
    assert_eq!(model.slots[1].storage_ty, "Option<i32>");
    assert_eq!(model.slots[1].param_ty, "i32");
    assert_eq!(model.slots[1].method_name, "value");
    assert_eq!(model.slots[2].storage_ty, "std::option::Option<Vec<String>>");
    assert_eq!(model.slots[2].param_ty, "String");
    assert_eq!(model.slots[2].method_name, "tag");
}

#[test]
fn generated_unit_matches_expected_text() {
    let record = task_record();
    let classified = classify_fields(&record.fields).unwrap();
    let model = synthesize(&record.name, &classified);
    let text = render_unit(&model);
    let mut expected = String::new();
    expected.push_str("pub struct TaskBuilder {\n");
    expected.push_str("    name: std::option::Option<String>,\n");
    expected.push_str("    value: Option<i32>,\n");
    expected.push_str("    tags: std::option::Option<Vec<String>>,\n");
    expected.push_str("}\n");
    expected.push_str("impl TaskBuilder {\n");
    expected.push_str(
        "    pub fn name(&mut self, name: String) -> &mut Self { self.name = std::option::Option::Some(name); self }\n",
    );
    expected.push_str(
        "    pub fn value(&mut self, value: i32) -> &mut Self { self.value = std::option::Option::Some(value); self }\n",
    );
    expected.push_str(
        "    pub fn tag(&mut self, tag: String) -> &mut Self { if self.tags.is_none() { self.tags = std::option::Option::Some(std::vec::Vec::<String>::new()); } if let std::option::Option::Some(items) = self.tags.as_mut() { items.push(tag); } self }\n",
    );
    expected.push_str(
        "    pub fn build(&mut self) -> std::result::Result<Task, std::boxed::Box<dyn std::error::Error>> {\n",
    );
    expected.push_str("        std::result::Result::Ok(Task {\n");
    expected.push_str("            name: self.name.clone().ok_or(\"name parameter is not set\")?,\n");
    expected.push_str("            value: self.value.clone(),\n");
    expected.push_str("            tags: self.tags.clone().unwrap_or_default(),\n");
    expected.push_str("        })\n");
    expected.push_str("    }\n");
    expected.push_str("}\n");
    expected.push_str("impl Task {\n");
    expected.push_str("    pub fn builder() -> TaskBuilder {\n");
    expected.push_str("        TaskBuilder {\n");
    expected.push_str("            name: std::option::Option::None,\n");
    expected.push_str("            value: std::option::Option::None,\n");
    expected.push_str("            tags: std::option::Option::None,\n");
    expected.push_str("        }\n");
    expected.push_str("    }\n");
    expected.push_str("}\n");
    assert_eq!(text, expected);
}

#[test]
fn generate_runs_the_whole_pipeline() {
    let text = generate(&Declaration::Record { decl: task_record() }).unwrap();
    assert!(text.starts_with("pub struct TaskBuilder {"));
    assert!(text.contains("pub fn tag(&mut self, tag: String)"));
    assert!(!text.contains("pub fn tags("));
    assert!(text.contains("\"name parameter is not set\""));
    assert!(text.ends_with("}\n"));
}
