use builder::classify::WrapperKind;
use builder::descriptor::{BuilderDescriptor, FieldDescriptor};
use builder::emit::{emit, Action, BuildRule, GeneratedBuilder, Initial, Method, Slot};
use builder::schema::{AnnotationExpr, AnnotationItem, FieldDecl, Literal, Shape, TypeDecl};
use builder::types::{TypeArg, TypeExpr};

fn simple(name: &str) -> TypeExpr {
    TypeExpr::Named { name: name.to_string(), args: vec![] }
}

fn wrap(name: &str, inner: TypeExpr) -> TypeExpr {
    TypeExpr::Named { name: name.to_string(), args: vec![TypeArg::Type(inner)] }
}

fn each(alias: &str) -> AnnotationExpr {
    AnnotationExpr::Group {
        name: "builder".to_string(),
        items: vec![AnnotationItem::Pair {
            key: "each".to_string(),
            value: Literal::Str(alias.to_string()),
        }],
    }
}

fn field(name: &str, ty: TypeExpr, annotations: Vec<AnnotationExpr>) -> FieldDecl {
    FieldDecl { name: name.to_string(), ty, annotations }
}

fn command() -> TypeDecl {
    TypeDecl {
        name: "Command".to_string(),
        shape: Shape::Record(vec![
            field("executable", simple("String"), vec![]),
            field("args", wrap("Vec", simple("String")), vec![each("arg")]),
            field("env", wrap("Vec", simple("String")), vec![each("env")]),
            field("current_dir", wrap("Option", simple("String")), vec![]),
        ]),
    }
}

fn slot(name: &str, holds: TypeExpr, initial: Initial, on_build: BuildRule) -> Slot {
    Slot { name: name.to_string(), holds, initial, on_build }
}

fn method(name: &str, slot: usize, action: Action, param: TypeExpr) -> Method {
    Method { name: name.to_string(), slot, action, param }
}

fn collection(name: &str, alias: Option<&str>) -> FieldDescriptor {
    FieldDescriptor {
        name: name.to_string(),
        declared_type: wrap("Vec", simple("u8")),
        wrapper_kind: WrapperKind::Collection,
        element_type: Some(simple("u8")),
        accumulator_alias: alias.map(|a| a.to_string()),
    }
}

fn descriptor(fields: Vec<FieldDescriptor>) -> BuilderDescriptor {
    BuilderDescriptor { name: "RBuilder".to_string(), record: "R".to_string(), fields }
}

#[test]
fn command_layout() {
    let generated = builder::derive(&command()).unwrap();
    let strings = wrap("Vec", simple("String"));
    assert_eq!(
        generated,
        GeneratedBuilder {
            name: "CommandBuilder".to_string(),
            record: "Command".to_string(),
            slots: vec![
                slot("executable", simple("String"), Initial::Absent, BuildRule::Require),
                slot("args", strings.clone(), Initial::Empty, BuildRule::OrEmpty),
                slot("env", strings.clone(), Initial::Empty, BuildRule::OrEmpty),
                slot("current_dir", simple("String"), Initial::Absent, BuildRule::PassThrough),
            ],
            methods: vec![
                method("executable", 0, Action::Replace, simple("String")),
                method("arg", 1, Action::Append, simple("String")),
                method("args", 1, Action::Replace, strings.clone()),
                method("env", 2, Action::Append, simple("String")),
                method("current_dir", 3, Action::Replace, simple("String")),
            ],
        }
    );
}

#[test]
fn optional_slot_is_not_wrapped_twice() {
    let inner = wrap("Option", simple("u8"));
    let d = descriptor(vec![FieldDescriptor {
        name: "x".to_string(),
        declared_type: wrap("Option", inner.clone()),
        wrapper_kind: WrapperKind::Optional,
        element_type: Some(inner.clone()),
        accumulator_alias: None,
    }]);
    let generated = emit(&d);
    assert_eq!(
        generated.slots,
        vec![slot("x", inner.clone(), Initial::Absent, BuildRule::PassThrough)]
    );
    assert_eq!(generated.methods, vec![method("x", 0, Action::Replace, inner)]);
}

#[test]
fn collection_without_alias_has_the_setter_only() {
    let generated = emit(&descriptor(vec![collection("items", None)]));
    assert_eq!(
        generated.methods,
        vec![method("items", 0, Action::Replace, wrap("Vec", simple("u8")))]
    );
    assert_eq!(generated.slots[0].initial, Initial::Empty);
    assert_eq!(generated.slots[0].on_build, BuildRule::OrEmpty);
}

#[test]
fn alias_distinct_from_name_gives_accumulator_then_setter() {
    let generated = emit(&descriptor(vec![collection("args", Some("arg"))]));
    assert_eq!(
        generated.methods,
        vec![
            method("arg", 0, Action::Append, simple("u8")),
            method("args", 0, Action::Replace, wrap("Vec", simple("u8"))),
        ]
    );
}

#[test]
fn alias_equal_to_name_gives_the_accumulator_alone() {
    let generated = emit(&descriptor(vec![collection("env", Some("env"))]));
    assert_eq!(generated.methods, vec![method("env", 0, Action::Append, simple("u8"))]);
    assert!(generated.methods.iter().all(|m| m.action != Action::Replace));
}

#[test]
fn methods_follow_the_field_order() {
    let generated = emit(&descriptor(vec![
        collection("b", Some("b")),
        collection("a", Some("one")),
        collection("c", None),
    ]));
    let names: Vec<(&str, usize)> =
        generated.methods.iter().map(|m| (m.name.as_str(), m.slot)).collect();
    assert_eq!(names, vec![("b", 0), ("one", 1), ("a", 1), ("c", 2)]);
    let slots: Vec<&str> = generated.slots.iter().map(|s| s.name.as_str()).collect();
    assert_eq!(slots, vec!["b", "a", "c"]);
}

#[test]
fn record_without_fields_has_an_empty_builder() {
    let generated = emit(&descriptor(vec![]));
    assert_eq!(generated.slots, vec![]);
    assert_eq!(generated.methods, vec![]);
    assert_eq!(generated.name, "RBuilder");
    assert_eq!(generated.record, "R");
}

#[test]
fn layout_clone_is_deep() {
    let generated = builder::derive(&command()).unwrap();
    assert_eq!(generated.clone(), generated);
}
