//! The type classifier: tells a field's wrapper from its declared type.

use vstd::prelude::*;
use crate::descriptor::{FieldDescriptor, FieldDescriptorView};
use crate::types::{TypeArg, TypeArgView, TypeExpr, TypeExprView};

verus! {

/// How a field's declared type wraps its values.
#[derive(Clone, Copy, Debug, PartialEq, Eq, Structural)]
pub enum WrapperKind {
    /// No recognised wrapper: the field is required.
    Plain,
    /// The optional wrapper around one element type.
    Optional,
    /// The collection wrapper around one element type.
    Collection,
}

/// The name of the wrapper that marks a field as optional.
pub open spec fn optional_wrapper() -> Seq<char> {
    "Option"@
}

/// The name of the wrapper that marks a field as a collection.
pub open spec fn collection_wrapper() -> Seq<char> {
    "Vec"@
}

/// Whether `ty` is a named type applied to exactly one argument, itself a type.
pub open spec fn has_sole_type_argument(ty: TypeExprView) -> bool {
    &&& ty is Named
    &&& ty->args.len() == 1
    &&& ty->args[0] is Type
}

/// The wrapper kind of a declared type. Only the outermost name is looked at.
pub open spec fn wrapper_kind(ty: TypeExprView) -> WrapperKind {
    if has_sole_type_argument(ty) && ty->name == optional_wrapper() {
        WrapperKind::Optional
    } else if has_sole_type_argument(ty) && ty->name == collection_wrapper() {
        WrapperKind::Collection
    } else {
        WrapperKind::Plain
    }
}

/// The element type of a declared type: its sole argument when the type is a
/// recognised wrapper, nothing otherwise.
pub open spec fn element_type(ty: TypeExprView) -> Option<TypeExprView> {
    if wrapper_kind(ty) == WrapperKind::Plain {
        None
    } else {
        Some(ty->args[0]->Type_0)
    }
}

/// A type classified as a wrapper is that wrapper around its element type
/// and nothing more; a plain type has no element type.
pub proof fn lemma_wrapper_shape(ty: TypeExprView)
    ensures
        wrapper_kind(ty) == WrapperKind::Optional ==> ty == (TypeExprView::Named {
            name: optional_wrapper(),
            args: seq![TypeArgView::Type(element_type(ty)->0)],
        }),
        wrapper_kind(ty) == WrapperKind::Collection ==> ty == (TypeExprView::Named {
            name: collection_wrapper(),
            args: seq![TypeArgView::Type(element_type(ty)->0)],
        }),
        wrapper_kind(ty) == WrapperKind::Plain <==> element_type(ty) is None,
{
    if wrapper_kind(ty) != WrapperKind::Plain {
        assert(ty->args =~= seq![TypeArgView::Type(element_type(ty)->0)]);
    }
}

/// Classifies a declared type: its wrapper kind and, for a wrapper, the
/// element type inside it.
pub fn get_inner(ty: &TypeExpr) -> (res: (WrapperKind, Option<TypeExpr>))
    ensures
        res.0 == wrapper_kind(ty@),
        res.1.deep_view() == element_type(ty@),
{
    match ty {
        TypeExpr::Named { name, args } => {
            if args.len() != 1 {
                return (WrapperKind::Plain, None);
            }
            match &args[0] {
                TypeArg::Type(inner) => {
                    let optional = String::from_str("Option");
                    let collection = String::from_str("Vec");
                    if *name == optional {
                        (WrapperKind::Optional, Some(inner.clone()))
                    } else if *name == collection {
                        (WrapperKind::Collection, Some(inner.clone()))
                    } else {
                        (WrapperKind::Plain, None)
                    }
                },
                TypeArg::Other(_) => (WrapperKind::Plain, None),
            }
        },
        TypeExpr::Opaque { .. } => (WrapperKind::Plain, None),
    }
}

/// The descriptor `d` with the wrapper kind and element type that its
/// declared type gives it.
pub open spec fn classified(d: FieldDescriptorView) -> FieldDescriptorView {
    FieldDescriptorView {
        wrapper_kind: wrapper_kind(d.declared_type),
        element_type: element_type(d.declared_type),
        ..d
    }
}

/// Attaches to a descriptor the wrapper kind and element type of its
/// declared type.
pub fn classify(d: &FieldDescriptor) -> (res: FieldDescriptor)
    ensures
        res@ == classified(d@),
{
    let (kind, element) = get_inner(&d.declared_type);
    FieldDescriptor {
        name: d.name.clone(),
        declared_type: d.declared_type.clone(),
        wrapper_kind: kind,
        element_type: element,
        accumulator_alias: match &d.accumulator_alias {
            Some(a) => Some(a.clone()),
            None => None,
        },
    }
}

} // verus!
