//! The errors of generation and of construction, and their messages.

use vstd::prelude::*;

verus! {

/// The model of a result: the model of what it holds, on either side.
pub open spec fn outcome<T: DeepView, E: DeepView>(r: Result<T, E>) -> Result<T::V, E::V> {
    match r {
        Ok(value) => Ok(value.deep_view()),
        Err(error) => Err(error.deep_view()),
    }
}

/// Why no builder can be generated for a type declaration.
#[derive(Debug, PartialEq, Eq)]
pub enum GenError {
    /// The declaration is not a record with named fields.
    UnsupportedShape,
    /// The annotations of `field` are not one `builder(each = "...")`.
    MalformedAttribute { field: String },
    /// `field` names an accumulator but is no collection.
    AliasOnNonCollection { field: String },
}

/// Mathematical model of a [`GenError`].
pub enum GenErrorView {
    UnsupportedShape,
    MalformedAttribute { field: Seq<char> },
    AliasOnNonCollection { field: Seq<char> },
}

impl View for GenError {
    type V = GenErrorView;

    open spec fn view(&self) -> GenErrorView {
        match self {
            GenError::UnsupportedShape => GenErrorView::UnsupportedShape,
            GenError::MalformedAttribute { field } => GenErrorView::MalformedAttribute {
                field: field@,
            },
            GenError::AliasOnNonCollection { field } => GenErrorView::AliasOnNonCollection {
                field: field@,
            },
        }
    }
}

impl DeepView for GenError {
    type V = GenErrorView;

    open spec fn deep_view(&self) -> GenErrorView {
        self@
    }
}

impl Clone for GenError {
    fn clone(&self) -> (res: Self)
        ensures
            res@ == self@,
    {
        match self {
            GenError::UnsupportedShape => GenError::UnsupportedShape,
            GenError::MalformedAttribute { field } => GenError::MalformedAttribute {
                field: field.clone(),
            },
            GenError::AliasOnNonCollection { field } => GenError::AliasOnNonCollection {
                field: field.clone(),
            },
        }
    }
}

/// Why a builder cannot construct its record.
#[derive(Debug, PartialEq, Eq)]
pub enum BuildError {
    /// The required field of this name was never set.
    MissingField(String),
}

/// Mathematical model of a [`BuildError`].
pub enum BuildErrorView {
    MissingField(Seq<char>),
}

impl View for BuildError {
    type V = BuildErrorView;

    open spec fn view(&self) -> BuildErrorView {
        match self {
            BuildError::MissingField(field) => BuildErrorView::MissingField(field@),
        }
    }
}

impl DeepView for BuildError {
    type V = BuildErrorView;

    open spec fn deep_view(&self) -> BuildErrorView {
        self@
    }
}

impl Clone for BuildError {
    fn clone(&self) -> (res: Self)
        ensures
            res@ == self@,
    {
        match self {
            BuildError::MissingField(field) => BuildError::MissingField(field.clone()),
        }
    }
}

/// Why a call on a builder changes nothing.
#[derive(Clone, Copy, Debug, PartialEq, Eq, Structural)]
pub enum CallError {
    /// The builder has no method of that name.
    NoSuchMethod,
    /// An accumulator found its slot holding a value that is no collection.
    NotACollection,
}

/// The text of a generation error.
pub open spec fn gen_message(e: GenErrorView) -> Seq<char> {
    match e {
        GenErrorView::UnsupportedShape => "only a record with named fields can have a builder"@,
        GenErrorView::MalformedAttribute { field } => "field `"@ + field
            + "`: expected exactly one annotation, `builder(each = \"...\")`"@,
        GenErrorView::AliasOnNonCollection { field } => "field `"@ + field
            + "`: `each` is only allowed on a collection"@,
    }
}

/// The text of a construction error.
pub open spec fn build_message(e: BuildErrorView) -> Seq<char> {
    match e {
        BuildErrorView::MissingField(field) => "Missing "@ + field + " argument"@,
    }
}

impl GenError {
    /// The message that reports this error.
    pub fn message(&self) -> (text: String)
        ensures
            text@ == gen_message(self@),
    {
        match self {
            GenError::UnsupportedShape => String::from_str(
                "only a record with named fields can have a builder",
            ),
            GenError::MalformedAttribute { field } => String::from_str("field `").concat(
                field.as_str(),
            ).concat("`: expected exactly one annotation, `builder(each = \"...\")`"),
            GenError::AliasOnNonCollection { field } => String::from_str("field `").concat(
                field.as_str(),
            ).concat("`: `each` is only allowed on a collection"),
        }
    }
}

impl BuildError {
    /// The message that reports this error.
    pub fn message(&self) -> (text: String)
        ensures
            text@ == build_message(self@),
    {
        match self {
            BuildError::MissingField(field) => String::from_str("Missing ").concat(
                field.as_str(),
            ).concat(" argument"),
        }
    }
}

} // verus!
