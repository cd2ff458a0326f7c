use builder::classify::WrapperKind;
use builder::descriptor::FieldDescriptor;
use builder::error::GenError;
use builder::resolve::{has_attribute, resolve};
use builder::schema::{AnnotationExpr, AnnotationItem, FieldDecl, Literal};
use builder::types::{TypeArg, TypeExpr};

fn simple(name: &str) -> TypeExpr {
    TypeExpr::Named { name: name.to_string(), args: vec![] }
}

fn wrap(name: &str, inner: TypeExpr) -> TypeExpr {
    TypeExpr::Named { name: name.to_string(), args: vec![TypeArg::Type(inner)] }
}

fn pair(key: &str, value: &str) -> AnnotationItem {
    AnnotationItem::Pair { key: key.to_string(), value: Literal::Str(value.to_string()) }
}

fn group(name: &str, items: Vec<AnnotationItem>) -> AnnotationExpr {
    AnnotationExpr::Group { name: name.to_string(), items }
}

fn each(alias: &str) -> AnnotationExpr {
    group("builder", vec![pair("each", alias)])
}

fn field(name: &str, ty: TypeExpr, annotations: Vec<AnnotationExpr>) -> FieldDecl {
    FieldDecl { name: name.to_string(), ty, annotations }
}

fn malformed(name: &str) -> GenError {
    GenError::MalformedAttribute { field: name.to_string() }
}

fn descriptor(
    name: &str,
    ty: TypeExpr,
    kind: WrapperKind,
    element: Option<TypeExpr>,
) -> FieldDescriptor {
    FieldDescriptor {
        name: name.to_string(),
        declared_type: ty,
        wrapper_kind: kind,
        element_type: element,
        accumulator_alias: None,
    }
}

#[test]
fn no_annotation_gives_no_alias() {
    let f = field("args", wrap("Vec", simple("String")), vec![]);
    assert_eq!(has_attribute(&f), Ok(None));
}

#[test]
fn each_gives_the_alias() {
    let f = field("args", wrap("Vec", simple("String")), vec![each("arg")]);
    assert_eq!(has_attribute(&f), Ok(Some("arg".to_string())));
}

#[test]
fn alias_is_read_whatever_the_field_type() {
    let f = field("name", simple("String"), vec![each("n")]);
    assert_eq!(has_attribute(&f), Ok(Some("n".to_string())));
}

#[test]
fn other_group_is_malformed() {
    let f = field("args", simple("T"), vec![group("serde", vec![pair("each", "arg")])]);
    assert_eq!(has_attribute(&f), Err(malformed("args")));
}

#[test]
fn other_key_is_malformed() {
    let f = field("args", simple("T"), vec![group("builder", vec![pair("eac", "arg")])]);
    assert_eq!(has_attribute(&f), Err(malformed("args")));
}

#[test]
fn value_that_is_no_string_is_malformed() {
    let item = AnnotationItem::Pair {
        key: "each".to_string(),
        value: Literal::Other("42".to_string()),
    };
    let f = field("args", simple("T"), vec![group("builder", vec![item])]);
    assert_eq!(has_attribute(&f), Err(malformed("args")));
}

#[test]
fn item_that_is_no_pair_is_malformed() {
    let item = AnnotationItem::Other { text: "each".to_string() };
    let f = field("args", simple("T"), vec![group("builder", vec![item])]);
    assert_eq!(has_attribute(&f), Err(malformed("args")));
}

#[test]
fn empty_group_is_malformed() {
    let f = field("args", simple("T"), vec![group("builder", vec![])]);
    assert_eq!(has_attribute(&f), Err(malformed("args")));
}

#[test]
fn two_pairs_are_malformed() {
    let items = vec![pair("each", "arg"), pair("each", "other")];
    let f = field("args", simple("T"), vec![group("builder", items)]);
    assert_eq!(has_attribute(&f), Err(malformed("args")));
}

#[test]
fn annotation_that_is_no_group_is_malformed() {
    let doc = AnnotationExpr::Other { text: "doc = \"the arguments\"".to_string() };
    let f = field("args", simple("T"), vec![doc]);
    assert_eq!(has_attribute(&f), Err(malformed("args")));
}

#[test]
fn two_annotations_are_malformed() {
    let f = field("args", simple("T"), vec![each("arg"), each("arg")]);
    assert_eq!(has_attribute(&f), Err(malformed("args")));
    let doc = AnnotationExpr::Other { text: "doc = \"x\"".to_string() };
    let f = field("args", simple("T"), vec![each("arg"), doc]);
    assert_eq!(has_attribute(&f), Err(malformed("args")));
}

#[test]
fn resolve_attaches_the_alias_to_a_collection() {
    let ty = wrap("Vec", simple("String"));
    let d = descriptor("args", ty.clone(), WrapperKind::Collection, Some(simple("String")));
    let f = field("args", ty.clone(), vec![each("arg")]);
    let resolved = resolve(&d, &f).unwrap();
    assert_eq!(resolved.accumulator_alias, Some("arg".to_string()));
    assert_eq!(resolved.name, "args");
    assert_eq!(resolved.declared_type, ty);
    assert_eq!(resolved.wrapper_kind, WrapperKind::Collection);
    assert_eq!(resolved.element_type, Some(simple("String")));
}

#[test]
fn resolve_without_annotation_keeps_the_descriptor() {
    let d = descriptor("name", simple("String"), WrapperKind::Plain, None);
    let f = field("name", simple("String"), vec![]);
    assert_eq!(resolve(&d, &f), Ok(descriptor("name", simple("String"), WrapperKind::Plain, None)));
}

#[test]
fn alias_on_plain_field_is_refused() {
    let d = descriptor("name", simple("String"), WrapperKind::Plain, None);
    let f = field("name", simple("String"), vec![each("n")]);
    assert_eq!(
        resolve(&d, &f),
        Err(GenError::AliasOnNonCollection { field: "name".to_string() })
    );
}

#[test]
fn alias_on_optional_field_is_refused() {
    let ty = wrap("Option", simple("String"));
    let d = descriptor("dir", ty.clone(), WrapperKind::Optional, Some(simple("String")));
    let f = field("dir", ty, vec![each("d")]);
    assert_eq!(
        resolve(&d, &f),
        Err(GenError::AliasOnNonCollection { field: "dir".to_string() })
    );
}

#[test]
fn malformed_comes_before_alias_on_non_collection() {
    let d = descriptor("name", simple("String"), WrapperKind::Plain, None);
    let f = field("name", simple("String"), vec![group("builder", vec![pair("all", "n")])]);
    assert_eq!(resolve(&d, &f), Err(malformed("name")));
}
