use builder_gen::classify::classify_fields;
use builder_gen::model::{AttrToken, FieldDecl, RecordDecl, Segment, TypeExpr};
use builder_gen::runtime::{BuilderState, Resolved, Value};

fn ty(segments: Vec<(&str, Vec<&str>)>) -> TypeExpr {
    TypeExpr {
        segments: segments
            .into_iter()
            .map(|(name, args)| Segment {
                name: name.to_string(),
                args: args.into_iter().map(|a| a.to_string()).collect(),
            })
            .collect(),
    }
}

fn field(name: &str, t: TypeExpr) -> FieldDecl {
    FieldDecl { name: name.to_string(), ty: t, annotation: None }
}

/// The record {name: String, value: Option<i32>, tags: Vec<String>},
/// with tags filled one element at a time through `tag`.
fn task_record() -> RecordDecl {
    let mut tags = field("tags", ty(vec![("Vec", vec!["String"])]));
    tags.annotation = Some(vec![
        AttrToken::Ident { text: "each".to_string() },
        AttrToken::Punct { ch: '=', alone: true },
        AttrToken::LitStr { value: "tag".to_string() },
    ]);
    RecordDecl {
        name: "Task".to_string(),
        fields: vec![
            field("name", ty(vec![("String", vec![])])),
            field("value", ty(vec![("Option", vec!["i32"])])),
            tags,
        ],
    }
}

fn task_builder() -> BuilderState {
    let record = task_record();
    let classified = classify_fields(&record.fields).unwrap();
    BuilderState::start(&record.name, &classified)
}

fn s(text: &str) -> Value {
    Value::Str { s: text.to_string() }
}

#[test]
fn missing_required_field_fails_with_message() {
    let b = task_builder();
    let e = b.finalize().unwrap_err();
    assert_eq!(e.field, "name");
    assert_eq!(e.message(), "name parameter is not set");
}

#[test]
fn optional_field_unset_resolves_to_no_value() {
    let mut b = task_builder();
    b.assign(0, s("x"));
    let rec = b.finalize().unwrap();
    assert_eq!(rec.fields[1].name, "value");
    assert!(matches!(rec.fields[1].content, Resolved::NoValue));
}

#[test]
fn accumulating_field_untouched_resolves_to_empty_list() {
    let mut b = task_builder();
    b.assign(0, s("x"));
    let rec = b.finalize().unwrap();
    assert_eq!(rec.fields[2].name, "tags");
    match &rec.fields[2].content {
        Resolved::Items { items } => assert!(items.is_empty()),
        _ => panic!("expected a list"),
    }
}

#[test]
fn appends_keep_their_order() {
    let mut b = task_builder();
    b.assign(0, s("x"));
    b.append_item(2, s("a"));
    b.append_item(2, s("b"));
    b.append_item(2, s("c"));
    let rec = b.finalize().unwrap();
    match &rec.fields[2].content {
        Resolved::Items { items } => assert_eq!(*items, vec![s("a"), s("b"), s("c")]),
        _ => panic!("expected a list"),
    }
}

#[test]
fn last_assignment_wins_and_appends_accumulate() {
    let mut b = task_builder();
    b.assign(0, s("first"));
    b.assign(0, s("second"));
    b.assign(1, Value::Int { i: 1 });
    b.assign(1, Value::Int { i: 2 });
    b.append_item(2, s("a"));
    b.append_item(2, s("b"));
    let rec = b.finalize().unwrap();
    match &rec.fields[0].content {
        Resolved::Present { value } => assert_eq!(*value, s("second")),
        _ => panic!("expected a value"),
    }
    match &rec.fields[1].content {
        Resolved::Present { value } => assert_eq!(*value, Value::Int { i: 2 }),
        _ => panic!("expected a value"),
    }
    match &rec.fields[2].content {
        Resolved::Items { items } => assert_eq!(*items, vec![s("a"), s("b")]),
        _ => panic!("expected a list"),
    }
}

#[test]
fn finalize_twice_yields_equal_successes() {
    let mut b = task_builder();
    b.assign(0, s("x"));
    b.append_item(2, s("a"));
    let first = b.finalize().unwrap();
    let second = b.finalize().unwrap();
    assert_eq!(first.name, second.name);
    assert_eq!(first.fields.len(), second.fields.len());
    for (f1, f2) in first.fields.iter().zip(second.fields.iter()) {
        assert_eq!(f1.name, f2.name);
        match (&f1.content, &f2.content) {
            (Resolved::Present { value: v1 }, Resolved::Present { value: v2 }) => {
                assert_eq!(v1, v2)
            },
            (Resolved::NoValue, Resolved::NoValue) => {},
            (Resolved::Items { items: i1 }, Resolved::Items { items: i2 }) => assert_eq!(i1, i2),
            _ => panic!("the two finalizations disagree"),
        }
    }
}

#[test]
fn finalize_twice_yields_equal_failures() {
    let b = task_builder();
    let e1 = b.finalize().unwrap_err();
    let e2 = b.finalize().unwrap_err();
    assert_eq!(e1.field, e2.field);
    assert_eq!(e1.message(), e2.message());
}

#[test]
fn scenario_name_only_then_tags() {
    let mut b = task_builder();
    b.assign(0, s("x"));
    let rec = b.finalize().unwrap();
    assert_eq!(rec.name, "Task");
    match &rec.fields[0].content {
        Resolved::Present { value } => assert_eq!(*value, s("x")),
        _ => panic!("expected a value"),
    }
    assert!(matches!(rec.fields[1].content, Resolved::NoValue));
    match &rec.fields[2].content {
        Resolved::Items { items } => assert!(items.is_empty()),
        _ => panic!("expected a list"),
    }
    b.append_item(2, s("a"));
    b.append_item(2, s("b"));
    let rec = b.finalize().unwrap();
    match &rec.fields[2].content {
        Resolved::Items { items } => assert_eq!(*items, vec![s("a"), s("b")]),
        _ => panic!("expected a list"),
    }
    assert!(matches!(rec.fields[1].content, Resolved::NoValue));
}

#[test]
fn scenario_name_omitted_entirely() {
    let mut b = task_builder();
    b.assign(1, Value::Int { i: 7 });
    b.append_item(2, s("a"));
    let e = b.finalize().unwrap_err();
    assert_eq!(e.message(), "name parameter is not set");
}
