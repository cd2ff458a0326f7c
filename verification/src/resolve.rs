//! The attribute resolver: reads a field's accumulator alias from its
//! annotations and attaches it to the field's descriptor.

use vstd::prelude::*;
use crate::classify::WrapperKind;
use crate::descriptor::{FieldDescriptor, FieldDescriptorView};
use crate::error::{outcome, GenError, GenErrorView};
use crate::schema::{
    AnnotationExpr, AnnotationExprView, AnnotationItem, FieldDecl, FieldDeclView, Literal,
};

verus! {

/// The name of the one annotation group that the generator reads.
pub open spec fn annotation_group() -> Seq<char> {
    "builder"@
}

/// The key under which that group names a field's accumulator.
pub open spec fn accumulator_key() -> Seq<char> {
    "each"@
}

/// Whether `a` is the group `builder` holding the single pair
/// `each = "..."`, its value a string literal.
pub open spec fn names_accumulator(a: AnnotationExprView) -> bool {
    &&& a is Group
    &&& a->name == annotation_group()
    &&& a->items.len() == 1
    &&& a->items[0] is Pair
    &&& a->items[0]->key == accumulator_key()
    &&& a->items[0]->value is Str
}

/// What a field's annotations say of its accumulator: nothing where there
/// is no annotation, the alias where the only annotation names one, and an
/// error in every other case.
pub open spec fn alias_of(field: FieldDeclView) -> Result<Option<Seq<char>>, GenErrorView> {
    if field.annotations.len() == 0 {
        Ok(None)
    } else if field.annotations.len() == 1 && names_accumulator(field.annotations[0]) {
        Ok(Some(field.annotations[0]->items[0]->value->Str_0))
    } else {
        Err(GenErrorView::MalformedAttribute { field: field.name })
    }
}

/// The descriptor `d` with the alias that `field`'s annotations give it.
/// An alias on a field that is no collection is an error.
pub open spec fn resolved(d: FieldDescriptorView, field: FieldDeclView) -> Result<
    FieldDescriptorView,
    GenErrorView,
> {
    match alias_of(field) {
        Err(e) => Err(e),
        Ok(alias) => if alias is Some && d.wrapper_kind != WrapperKind::Collection {
            Err(GenErrorView::AliasOnNonCollection { field: field.name })
        } else {
            Ok(FieldDescriptorView { accumulator_alias: alias, ..d })
        },
    }
}

/// Reads the accumulator alias that a field's annotations name.
pub fn has_attribute(field: &FieldDecl) -> (res: Result<Option<String>, GenError>)
    ensures
        outcome(res) == alias_of(field@),
{
    if field.annotations.len() == 0 {
        return Ok(None);
    }
    if field.annotations.len() == 1 {
        match &field.annotations[0] {
            AnnotationExpr::Group { name, items } => {
                let group = String::from_str("builder");
                if *name == group && items.len() == 1 {
                    match &items[0] {
                        AnnotationItem::Pair { key, value } => {
                            let each = String::from_str("each");
                            if *key == each {
                                match value {
                                    Literal::Str(alias) => {
                                        return Ok(Some(alias.clone()));
                                    },
                                    Literal::Other(_) => {},
                                }
                            }
                        },
                        AnnotationItem::Other { .. } => {},
                    }
                }
            },
            AnnotationExpr::Other { .. } => {},
        }
    }
    Err(GenError::MalformedAttribute { field: field.name.clone() })
}

/// Attaches to a descriptor the alias that the field's annotations name.
pub fn resolve(d: &FieldDescriptor, field: &FieldDecl) -> (res: Result<FieldDescriptor, GenError>)
    ensures
        outcome(res) == resolved(d@, field@),
{
    match has_attribute(field) {
        Err(e) => Err(e),
        Ok(alias) => {
            let is_collection = match d.wrapper_kind {
                WrapperKind::Collection => true,
                _ => false,
            };
            if alias.is_some() && !is_collection {
                Err(GenError::AliasOnNonCollection { field: field.name.clone() })
            } else {
                Ok(
                    FieldDescriptor {
                        name: d.name.clone(),
                        declared_type: d.declared_type.clone(),
                        wrapper_kind: d.wrapper_kind,
                        element_type: match &d.element_type {
                            Some(t) => Some(t.clone()),
                            None => None,
                        },
                        accumulator_alias: alias,
                    },
                )
            }
        },
    }
}

} // verus!
