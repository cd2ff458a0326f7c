//! What the generator knows of a record once its fields are classified and
//! their annotations resolved.

use vstd::prelude::*;
use crate::classify::WrapperKind;
use crate::types::{TypeExpr, TypeExprView};

verus! {

/// One field of the record, in the generator's terms.
#[derive(Debug, PartialEq, Eq)]
pub struct FieldDescriptor {
    /// The field's name.
    pub name: String,
    /// The field's type as written.
    pub declared_type: TypeExpr,
    /// How the declared type wraps its values.
    pub wrapper_kind: WrapperKind,
    /// The type inside the wrapper; none for a plain field.
    pub element_type: Option<TypeExpr>,
    /// The name of the method that appends one element; only on a collection.
    pub accumulator_alias: Option<String>,
}

/// Mathematical model of a [`FieldDescriptor`].
pub struct FieldDescriptorView {
    pub name: Seq<char>,
    pub declared_type: TypeExprView,
    pub wrapper_kind: WrapperKind,
    pub element_type: Option<TypeExprView>,
    pub accumulator_alias: Option<Seq<char>>,
}

impl FieldDescriptorView {
    /// A plain field has no element type, a wrapped one has; only a
    /// collection has an accumulator alias.
    pub open spec fn wf(self) -> bool {
        &&& self.element_type is Some <==> self.wrapper_kind != WrapperKind::Plain
        &&& self.accumulator_alias is Some ==> self.wrapper_kind == WrapperKind::Collection
    }
}

impl View for FieldDescriptor {
    type V = FieldDescriptorView;

    open spec fn view(&self) -> FieldDescriptorView {
        FieldDescriptorView {
            name: self.name@,
            declared_type: self.declared_type@,
            wrapper_kind: self.wrapper_kind,
            element_type: self.element_type.deep_view(),
            accumulator_alias: self.accumulator_alias.deep_view(),
        }
    }
}

impl DeepView for FieldDescriptor {
    type V = FieldDescriptorView;

    open spec fn deep_view(&self) -> FieldDescriptorView {
        self@
    }
}

impl Clone for FieldDescriptor {
    fn clone(&self) -> (res: Self)
        ensures
            res@ == self@,
    {
        FieldDescriptor {
            name: self.name.clone(),
            declared_type: self.declared_type.clone(),
            wrapper_kind: self.wrapper_kind,
            element_type: match &self.element_type {
                Some(t) => Some(t.clone()),
                None => None,
            },
            accumulator_alias: match &self.accumulator_alias {
                Some(a) => Some(a.clone()),
                None => None,
            },
        }
    }
}

/// The record as the emitter takes it: the builder's name and the fields in
/// declaration order.
#[derive(Debug, PartialEq, Eq)]
pub struct BuilderDescriptor {
    /// The builder's own name: the record's name and the suffix `Builder`.
    pub name: String,
    /// The name of the record that the builder constructs.
    pub record: String,
    /// The fields, in declaration order.
    pub fields: Vec<FieldDescriptor>,
}

/// Mathematical model of a [`BuilderDescriptor`].
pub struct BuilderDescriptorView {
    pub name: Seq<char>,
    pub record: Seq<char>,
    pub fields: Seq<FieldDescriptorView>,
}

impl BuilderDescriptorView {
    /// Every field is well formed.
    pub open spec fn wf(self) -> bool {
        forall|i: int| 0 <= i < self.fields.len() ==> (#[trigger] self.fields[i]).wf()
    }
}

impl View for BuilderDescriptor {
    type V = BuilderDescriptorView;

    open spec fn view(&self) -> BuilderDescriptorView {
        BuilderDescriptorView {
            name: self.name@,
            record: self.record@,
            fields: self.fields.deep_view(),
        }
    }
}

impl DeepView for BuilderDescriptor {
    type V = BuilderDescriptorView;

    open spec fn deep_view(&self) -> BuilderDescriptorView {
        self@
    }
}

impl Clone for BuilderDescriptor {
    fn clone(&self) -> (res: Self)
        ensures
            res@ == self@,
    {
        let fields = self.fields.clone();
        BuilderDescriptor { name: self.name.clone(), record: self.record.clone(), fields }
    }
}

/// What is appended to a record's name to name its builder.
pub open spec fn builder_suffix() -> Seq<char> {
    "Builder"@
}

} // verus!
