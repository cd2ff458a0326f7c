use builder::emit::GeneratedBuilder;
use builder::error::{BuildError, CallError};
use builder::runtime::Builder;
use builder::schema::{AnnotationExpr, AnnotationItem, FieldDecl, Literal, Shape, TypeDecl};
use builder::types::{TypeArg, TypeExpr};
use builder::value::{Record, RecordField, Value};

fn simple(name: &str) -> TypeExpr {
    TypeExpr::Named { name: name.to_string(), args: vec![] }
}

fn wrap(name: &str, inner: TypeExpr) -> TypeExpr {
    TypeExpr::Named { name: name.to_string(), args: vec![TypeArg::Type(inner)] }
}

fn each(alias: &str) -> AnnotationExpr {
    AnnotationExpr::Group {
        name: "builder".to_string(),
        items: vec![AnnotationItem::Pair {
            key: "each".to_string(),
            value: Literal::Str(alias.to_string()),
        }],
    }
}

fn field(name: &str, ty: TypeExpr, annotations: Vec<AnnotationExpr>) -> FieldDecl {
    FieldDecl { name: name.to_string(), ty, annotations }
}

fn layout(name: &str, fields: Vec<FieldDecl>) -> GeneratedBuilder {
    builder::derive(&TypeDecl { name: name.to_string(), shape: Shape::Record(fields) }).unwrap()
}

fn command() -> GeneratedBuilder {
    layout(
        "Command",
        vec![
            field("executable", simple("String"), vec![]),
            field("args", wrap("Vec", simple("String")), vec![each("arg")]),
            field("env", wrap("Vec", simple("String")), vec![each("env")]),
            field("current_dir", wrap("Option", simple("String")), vec![]),
        ],
    )
}

fn point() -> GeneratedBuilder {
    layout(
        "Point",
        vec![
            field("x", simple("i32"), vec![]),
            field("y", simple("i32"), vec![]),
            field("label", simple("String"), vec![]),
        ],
    )
}

fn atom(text: &str) -> Value {
    Value::Atom(text.to_string())
}

fn list(items: &[&str]) -> Value {
    Value::List(items.iter().map(|s| atom(s)).collect())
}

fn entry(name: &str, value: Option<Value>) -> RecordField {
    RecordField { name: name.to_string(), value }
}

fn missing(name: &str) -> BuildError {
    BuildError::MissingField(name.to_string())
}

#[test]
fn new_builder_has_empty_collections_and_nothing_else() {
    let b = Builder::new(command());
    assert_eq!(b.slots, vec![None, Some(list(&[])), Some(list(&[])), None]);
    assert_eq!(b.layout, command());
}

#[test]
fn command_end_to_end() {
    let mut b = Builder::new(command());
    assert_eq!(b.call("executable", atom("ls")), Ok(()));
    assert_eq!(b.call("arg", atom("-l")), Ok(()));
    assert_eq!(b.call("arg", atom("-a")), Ok(()));
    assert_eq!(
        b.build(),
        Ok(Record {
            name: "Command".to_string(),
            fields: vec![
                entry("executable", Some(atom("ls"))),
                entry("args", Some(list(&["-l", "-a"]))),
                entry("env", Some(list(&[]))),
                entry("current_dir", None),
            ],
        })
    );
}

#[test]
fn untouched_collections_are_empty() {
    let mut b = Builder::new(command());
    assert_eq!(b.call("executable", atom("x")), Ok(()));
    assert_eq!(b.call("arg", atom("a")), Ok(()));
    let record = b.build().unwrap();
    assert_eq!(record.fields[0], entry("executable", Some(atom("x"))));
    assert_eq!(record.fields[1], entry("args", Some(list(&["a"]))));
    assert_eq!(record.fields[2], entry("env", Some(list(&[]))));
    assert_eq!(record.fields[3], entry("current_dir", None));
}

#[test]
fn collection_alone_builds_empty() {
    let generated = layout("Bag", vec![field("items", wrap("Vec", simple("u8")), vec![])]);
    let b = Builder::new(generated);
    assert_eq!(
        b.build(),
        Ok(Record { name: "Bag".to_string(), fields: vec![entry("items", Some(list(&[])))] })
    );
}

#[test]
fn plain_setters_commute() {
    let expected = Record {
        name: "Point".to_string(),
        fields: vec![
            entry("x", Some(atom("1"))),
            entry("y", Some(atom("2"))),
            entry("label", Some(atom("origin"))),
        ],
    };
    let calls = [("x", "1"), ("y", "2"), ("label", "origin")];
    let orders: [[usize; 3]; 6] =
        [[0, 1, 2], [0, 2, 1], [1, 0, 2], [1, 2, 0], [2, 0, 1], [2, 1, 0]];
    for order in orders {
        let mut b = Builder::new(point());
        for k in order {
            assert_eq!(b.call(calls[k].0, atom(calls[k].1)), Ok(()));
        }
        assert_eq!(b.build(), Ok(expected.clone()));
    }
}

#[test]
fn setter_replaces_an_earlier_value() {
    let mut b = Builder::new(point());
    assert_eq!(b.call("x", atom("1")), Ok(()));
    assert_eq!(b.call("x", atom("7")), Ok(()));
    assert_eq!(b.slots[0], Some(atom("7")));
}

#[test]
fn build_names_the_unset_field() {
    let mut b = Builder::new(point());
    assert_eq!(b.call("x", atom("1")), Ok(()));
    assert_eq!(b.call("label", atom("p")), Ok(()));
    assert_eq!(b.build(), Err(missing("y")));
}

#[test]
fn build_names_the_first_unset_field() {
    let mut b = Builder::new(point());
    assert_eq!(b.build(), Err(missing("x")));
    assert_eq!(b.call("label", atom("p")), Ok(()));
    assert_eq!(b.build(), Err(missing("x")));
    assert_eq!(b.call("x", atom("1")), Ok(()));
    assert_eq!(b.build(), Err(missing("y")));
    assert_eq!(b.call("y", atom("2")), Ok(()));
    assert!(b.build().is_ok());
}

#[test]
fn build_skips_optional_and_collection_when_looking_for_unset_fields() {
    let generated = layout(
        "R",
        vec![
            field("dir", wrap("Option", simple("String")), vec![]),
            field("args", wrap("Vec", simple("String")), vec![]),
            field("name", simple("String"), vec![]),
        ],
    );
    let b = Builder::new(generated);
    assert_eq!(b.build(), Err(missing("name")));
}

#[test]
fn missing_field_message() {
    assert_eq!(missing("executable").message(), "Missing executable argument");
    assert_eq!(missing("").message(), "Missing  argument");
}

#[test]
fn accumulator_keeps_call_order() {
    let mut b = Builder::new(command());
    for item in ["a", "b", "c"] {
        assert_eq!(b.call("arg", atom(item)), Ok(()));
    }
    assert_eq!(b.slots[1], Some(list(&["a", "b", "c"])));
    let mut b = Builder::new(command());
    for item in ["c", "a", "b", "a"] {
        assert_eq!(b.call("arg", atom(item)), Ok(()));
    }
    assert_eq!(b.slots[1], Some(list(&["c", "a", "b", "a"])));
}

#[test]
fn setter_and_accumulator_work_on_the_same_slot() {
    let mut b = Builder::new(command());
    assert_eq!(b.call("arg", atom("dropped")), Ok(()));
    assert_eq!(b.call("args", list(&["x", "y"])), Ok(()));
    assert_eq!(b.slots[1], Some(list(&["x", "y"])));
    assert_eq!(b.call("arg", atom("z")), Ok(()));
    assert_eq!(b.slots[1], Some(list(&["x", "y", "z"])));
    assert_eq!(b.slots[2], Some(list(&[])));
}

#[test]
fn alias_equal_to_name_reaches_the_accumulator() {
    let mut b = Builder::new(command());
    assert_eq!(b.call("env", atom("A=1")), Ok(()));
    assert_eq!(b.call("env", atom("B=2")), Ok(()));
    assert_eq!(b.slots[2], Some(list(&["A=1", "B=2"])));
    assert_eq!(b.call("env", list(&["C=3"])), Ok(()));
    assert_eq!(
        b.slots[2],
        Some(Value::List(vec![atom("A=1"), atom("B=2"), list(&["C=3"])]))
    );
}

#[test]
fn accumulator_starts_a_collection_in_an_unset_slot() {
    let mut b = Builder { layout: command(), slots: vec![None, None, None, None] };
    assert_eq!(b.call("arg", atom("a")), Ok(()));
    assert_eq!(b.slots, vec![None, Some(list(&["a"])), None, None]);
    assert_eq!(b.call("executable", atom("ls")), Ok(()));
    let record = b.build().unwrap();
    assert_eq!(record.fields[1], entry("args", Some(list(&["a"]))));
    assert_eq!(record.fields[2], entry("env", Some(list(&[]))));
}

#[test]
fn accumulator_refuses_a_slot_that_holds_no_collection() {
    let mut b = Builder::new(command());
    assert_eq!(b.call("args", atom("oops")), Ok(()));
    let before = b.clone();
    assert_eq!(b.call("arg", atom("a")), Err(CallError::NotACollection));
    assert_eq!(b, before);
}

#[test]
fn unknown_method_changes_nothing() {
    let mut b = Builder::new(command());
    assert_eq!(b.call("executable", atom("ls")), Ok(()));
    let before = b.clone();
    assert_eq!(b.call("exec", atom("x")), Err(CallError::NoSuchMethod));
    assert_eq!(b.call("", atom("x")), Err(CallError::NoSuchMethod));
    assert_eq!(b.call("Command", atom("x")), Err(CallError::NoSuchMethod));
    assert_eq!(b, before);
}

#[test]
fn optional_field_passes_through() {
    let mut b = Builder::new(command());
    assert_eq!(b.call("executable", atom("ls")), Ok(()));
    assert_eq!(b.build().unwrap().fields[3], entry("current_dir", None));
    assert_eq!(b.call("current_dir", atom("/tmp")), Ok(()));
    assert_eq!(b.build().unwrap().fields[3], entry("current_dir", Some(atom("/tmp"))));
}

#[test]
fn build_leaves_the_builder_usable() {
    let mut b = Builder::new(command());
    assert_eq!(b.call("executable", atom("ls")), Ok(()));
    let first = b.build().unwrap();
    assert_eq!(b.build().unwrap(), first);
    assert_eq!(b.call("arg", atom("-l")), Ok(()));
    let second = b.build().unwrap();
    assert_eq!(first.fields[1], entry("args", Some(list(&[]))));
    assert_eq!(second.fields[1], entry("args", Some(list(&["-l"]))));
}

#[test]
fn earlier_method_of_the_same_name_is_the_one_reached() {
    let generated = layout(
        "Shadow",
        vec![
            field("arg", simple("String"), vec![]),
            field("args", wrap("Vec", simple("String")), vec![each("arg")]),
        ],
    );
    let mut b = Builder::new(generated);
    assert_eq!(b.call("arg", atom("a")), Ok(()));
    assert_eq!(b.slots, vec![Some(atom("a")), Some(list(&[]))]);
}

#[test]
fn record_without_fields_builds() {
    let b = Builder::new(layout("Unit", vec![]));
    assert_eq!(b.build(), Ok(Record { name: "Unit".to_string(), fields: vec![] }));
}

#[test]
fn value_clone_is_deep() {
    let v = Value::List(vec![atom("a"), list(&["b", "c"]), Value::List(vec![])]);
    assert_eq!(v.clone(), v);
    let mut b = Builder::new(command());
    assert_eq!(b.call("arg", v.clone()), Ok(()));
    assert_eq!(b.clone(), b);
    assert_eq!(b.slots[1], Some(Value::List(vec![v])));
}
