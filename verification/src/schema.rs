//! The description of a type declaration, as the parser hands it over.

use vstd::prelude::*;
use crate::types::{TypeExpr, TypeExprView};

verus! {

/// A literal value inside an annotation.
#[derive(Debug, PartialEq, Eq)]
pub enum Literal {
    /// A string literal, by its value.
    Str(String),
    /// Any other literal, kept as written.
    Other(String),
}

/// Mathematical model of a [`Literal`].
pub enum LiteralView {
    Str(Seq<char>),
    Other(Seq<char>),
}

impl View for Literal {
    type V = LiteralView;

    open spec fn view(&self) -> LiteralView {
        match self {
            Literal::Str(value) => LiteralView::Str(value@),
            Literal::Other(text) => LiteralView::Other(text@),
        }
    }
}

impl DeepView for Literal {
    type V = LiteralView;

    open spec fn deep_view(&self) -> LiteralView {
        self@
    }
}

impl Clone for Literal {
    fn clone(&self) -> (res: Self)
        ensures
            res@ == self@,
    {
        match self {
            Literal::Str(value) => Literal::Str(value.clone()),
            Literal::Other(text) => Literal::Other(text.clone()),
        }
    }
}

/// One item between the brackets of an annotation group.
#[derive(Debug, PartialEq, Eq)]
pub enum AnnotationItem {
    /// `key = value`
    Pair { key: String, value: Literal },
    /// Anything else, kept as written.
    Other { text: String },
}

/// Mathematical model of an [`AnnotationItem`].
pub enum AnnotationItemView {
    Pair { key: Seq<char>, value: LiteralView },
    Other { text: Seq<char> },
}

impl View for AnnotationItem {
    type V = AnnotationItemView;

    open spec fn view(&self) -> AnnotationItemView {
        match self {
            AnnotationItem::Pair { key, value } => AnnotationItemView::Pair {
                key: key@,
                value: value@,
            },
            AnnotationItem::Other { text } => AnnotationItemView::Other { text: text@ },
        }
    }
}

impl DeepView for AnnotationItem {
    type V = AnnotationItemView;

    open spec fn deep_view(&self) -> AnnotationItemView {
        self@
    }
}

impl Clone for AnnotationItem {
    fn clone(&self) -> (res: Self)
        ensures
            res@ == self@,
    {
        match self {
            AnnotationItem::Pair { key, value } => AnnotationItem::Pair {
                key: key.clone(),
                value: value.clone(),
            },
            AnnotationItem::Other { text } => AnnotationItem::Other { text: text.clone() },
        }
    }
}

/// One metadata annotation on a field.
#[derive(Debug, PartialEq, Eq)]
pub enum AnnotationExpr {
    /// `name(item, ...)`
    Group { name: String, items: Vec<AnnotationItem> },
    /// Any other form of annotation, kept as written.
    Other { text: String },
}

/// Mathematical model of an [`AnnotationExpr`].
pub enum AnnotationExprView {
    Group { name: Seq<char>, items: Seq<AnnotationItemView> },
    Other { text: Seq<char> },
}

impl View for AnnotationExpr {
    type V = AnnotationExprView;

    open spec fn view(&self) -> AnnotationExprView {
        match self {
            AnnotationExpr::Group { name, items } => AnnotationExprView::Group {
                name: name@,
                items: items.deep_view(),
            },
            AnnotationExpr::Other { text } => AnnotationExprView::Other { text: text@ },
        }
    }
}

impl DeepView for AnnotationExpr {
    type V = AnnotationExprView;

    open spec fn deep_view(&self) -> AnnotationExprView {
        self@
    }
}

impl Clone for AnnotationExpr {
    fn clone(&self) -> (res: Self)
        ensures
            res@ == self@,
    {
        match self {
            AnnotationExpr::Group { name, items } => {
                let copied = items.clone();
                AnnotationExpr::Group { name: name.clone(), items: copied }
            },
            AnnotationExpr::Other { text } => AnnotationExpr::Other { text: text.clone() },
        }
    }
}

/// One declared field: its name, its type as written, its annotations.
#[derive(Debug, PartialEq, Eq)]
pub struct FieldDecl {
    pub name: String,
    pub ty: TypeExpr,
    pub annotations: Vec<AnnotationExpr>,
}

/// Mathematical model of a [`FieldDecl`].
pub struct FieldDeclView {
    pub name: Seq<char>,
    pub ty: TypeExprView,
    pub annotations: Seq<AnnotationExprView>,
}

impl View for FieldDecl {
    type V = FieldDeclView;

    open spec fn view(&self) -> FieldDeclView {
        FieldDeclView {
            name: self.name@,
            ty: self.ty@,
            annotations: self.annotations.deep_view(),
        }
    }
}

impl DeepView for FieldDecl {
    type V = FieldDeclView;

    open spec fn deep_view(&self) -> FieldDeclView {
        self@
    }
}

impl Clone for FieldDecl {
    fn clone(&self) -> (res: Self)
        ensures
            res@ == self@,
    {
        let annotations = self.annotations.clone();
        FieldDecl { name: self.name.clone(), ty: self.ty.clone(), annotations }
    }
}

/// The shape of a declared type.
#[derive(Debug, PartialEq, Eq)]
pub enum Shape {
    /// One variant with named fields, in declaration order.
    Record(Vec<FieldDecl>),
    /// One variant without fields.
    Unit,
    /// One variant with positional fields.
    Tuple,
    /// Several variants.
    Sum,
    /// Overlapping fields.
    Union,
}

/// Mathematical model of a [`Shape`].
pub enum ShapeView {
    Record(Seq<FieldDeclView>),
    Unit,
    Tuple,
    Sum,
    Union,
}

impl View for Shape {
    type V = ShapeView;

    open spec fn view(&self) -> ShapeView {
        match self {
            Shape::Record(fields) => ShapeView::Record(fields.deep_view()),
            Shape::Unit => ShapeView::Unit,
            Shape::Tuple => ShapeView::Tuple,
            Shape::Sum => ShapeView::Sum,
            Shape::Union => ShapeView::Union,
        }
    }
}

impl DeepView for Shape {
    type V = ShapeView;

    open spec fn deep_view(&self) -> ShapeView {
        self@
    }
}

impl Clone for Shape {
    fn clone(&self) -> (res: Self)
        ensures
            res@ == self@,
    {
        match self {
            Shape::Record(fields) => {
                let copied = fields.clone();
                Shape::Record(copied)
            },
            Shape::Unit => Shape::Unit,
            Shape::Tuple => Shape::Tuple,
            Shape::Sum => Shape::Sum,
            Shape::Union => Shape::Union,
        }
    }
}

/// A declared type: its name and its shape.
#[derive(Debug, PartialEq, Eq)]
pub struct TypeDecl {
    pub name: String,
    pub shape: Shape,
}

/// Mathematical model of a [`TypeDecl`].
pub struct TypeDeclView {
    pub name: Seq<char>,
    pub shape: ShapeView,
}

impl View for TypeDecl {
    type V = TypeDeclView;

    open spec fn view(&self) -> TypeDeclView {
        TypeDeclView { name: self.name@, shape: self.shape@ }
    }
}

impl DeepView for TypeDecl {
    type V = TypeDeclView;

    open spec fn deep_view(&self) -> TypeDeclView {
        self@
    }
}

impl Clone for TypeDecl {
    fn clone(&self) -> (res: Self)
        ensures
            res@ == self@,
    {
        TypeDecl { name: self.name.clone(), shape: self.shape.clone() }
    }
}

} // verus!
