//! Type expressions as they are written on a record's fields.

use vstd::prelude::*;

verus! {

/// The type written on a field.
#[derive(Debug, PartialEq, Eq)]
pub enum TypeExpr {
    /// A type named by one identifier, with its generic arguments in the
    /// order written: `Name` or `Name<A, B>`.
    Named { name: String, args: Vec<TypeArg> },
    /// Any other form of type, kept as written.
    Opaque { text: String },
}

/// One generic argument of a named type.
#[derive(Debug, PartialEq, Eq)]
pub enum TypeArg {
    /// A type argument.
    Type(TypeExpr),
    /// An argument that is not a type, kept as written.
    Other(String),
}

/// Mathematical model of a [`TypeExpr`].
pub enum TypeExprView {
    Named { name: Seq<char>, args: Seq<TypeArgView> },
    Opaque { text: Seq<char> },
}

/// Mathematical model of a [`TypeArg`].
pub enum TypeArgView {
    Type(TypeExprView),
    Other(Seq<char>),
}

impl View for TypeExpr {
    type V = TypeExprView;

    open spec fn view(&self) -> TypeExprView
        decreases self,
    {
        match self {
            TypeExpr::Named { name, args } => TypeExprView::Named {
                name: name@,
                args: Seq::new(
                    args@.len(),
                    |i: int|
                        if 0 <= i < args@.len() {
                            args@[i].view()
                        } else {
                            TypeArgView::Other(Seq::empty())
                        },
                ),
            },
            TypeExpr::Opaque { text } => TypeExprView::Opaque { text: text@ },
        }
    }
}

impl View for TypeArg {
    type V = TypeArgView;

    open spec fn view(&self) -> TypeArgView
        decreases self,
    {
        match self {
            TypeArg::Type(t) => TypeArgView::Type(t.view()),
            TypeArg::Other(s) => TypeArgView::Other(s@),
        }
    }
}

impl DeepView for TypeExpr {
    type V = TypeExprView;

    open spec fn deep_view(&self) -> TypeExprView {
        self@
    }
}

impl DeepView for TypeArg {
    type V = TypeArgView;

    open spec fn deep_view(&self) -> TypeArgView {
        self@
    }
}

impl Clone for TypeExpr {
    fn clone(&self) -> (res: Self)
        ensures
            res@ == self@,
        decreases self,
    {
        match self {
            TypeExpr::Named { name, args } => {
                let mut copied: Vec<TypeArg> = Vec::new();
                let mut i: usize = 0;
                while i < args.len()
                    invariant
                        i <= args.len(),
                        copied.len() == i,
                        self is Named,
                        self->args == *args,
                        forall|j: int| 0 <= j < i ==> copied@[j]@ == args@[j]@,
                    decreases args.len() - i,
                {
                    let a = args[i].clone();
                    copied.push(a);
                    i += 1;
                }
                assert(TypeExpr::Named { name: *name, args: copied }@ == self@) by {
                    assert(TypeExpr::Named { name: *name, args: copied }@->args =~= self@->args);
                }
                TypeExpr::Named { name: name.clone(), args: copied }
            },
            TypeExpr::Opaque { text } => TypeExpr::Opaque { text: text.clone() },
        }
    }
}

impl Clone for TypeArg {
    fn clone(&self) -> (res: Self)
        ensures
            res@ == self@,
        decreases self,
    {
        match self {
            TypeArg::Type(t) => TypeArg::Type(t.clone()),
            TypeArg::Other(s) => TypeArg::Other(s.clone()),
        }
    }
}

} // verus!
