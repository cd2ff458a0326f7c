//! The schema reader, and the pass that takes a type declaration through
//! reader, classifier and resolver to the descriptor of its builder.

use vstd::prelude::*;
use crate::classify::{classified, classify, WrapperKind};
use crate::descriptor::{
    builder_suffix, BuilderDescriptor, BuilderDescriptorView, FieldDescriptor,
    FieldDescriptorView,
};
use crate::error::{outcome, GenError, GenErrorView};
use crate::resolve::{resolve, resolved};
use crate::schema::{FieldDecl, FieldDeclView, Shape, ShapeView, TypeDecl, TypeDeclView};
use crate::search::{first_true, lemma_first_true, lemma_first_true_is};

verus! {

/// The named fields of a shape that can have a builder: those of a record,
/// none for a unit. Any other shape has no named fields to build from.
pub open spec fn fields_of(shape: ShapeView) -> Option<Seq<FieldDeclView>> {
    match shape {
        ShapeView::Record(fields) => Some(fields),
        ShapeView::Unit => Some(Seq::empty()),
        _ => None,
    }
}

/// The descriptor of a field before anything is known of its type or its
/// annotations: plain, with no element type and no alias.
pub open spec fn bare(f: FieldDeclView) -> FieldDescriptorView {
    FieldDescriptorView {
        name: f.name,
        declared_type: f.ty,
        wrapper_kind: WrapperKind::Plain,
        element_type: None,
        accumulator_alias: None,
    }
}

/// What the reader makes of a declaration: the bare descriptors of its
/// fields in declaration order, an error for a shape without named fields.
pub open spec fn read_spec(decl: TypeDeclView) -> Result<Seq<FieldDescriptorView>, GenErrorView> {
    match fields_of(decl.shape) {
        Some(fields) => Ok(fields.map_values(|f: FieldDeclView| bare(f))),
        None => Err(GenErrorView::UnsupportedShape),
    }
}

/// The finished descriptor of one field, or the error its annotations raise.
pub open spec fn described(f: FieldDeclView) -> Result<FieldDescriptorView, GenErrorView> {
    resolved(classified(bare(f)), f)
}

/// For each field, whether describing it fails.
pub open spec fn failures(fields: Seq<FieldDeclView>) -> Seq<bool> {
    fields.map_values(|f: FieldDeclView| described(f) is Err)
}

/// The descriptors of a declaration's fields: the error of the first field
/// in declaration order that fails, else every field's descriptor, in order.
pub open spec fn described_fields(fields: Seq<FieldDeclView>) -> Result<
    Seq<FieldDescriptorView>,
    GenErrorView,
> {
    match first_true(failures(fields)) {
        Some(i) => Err(described(fields[i])->Err_0),
        None => Ok(fields.map_values(|f: FieldDeclView| described(f)->Ok_0)),
    }
}

/// The descriptor of a declaration's builder. A declaration without named
/// fields is refused; so is one with a field that fails. The builder is
/// named after the record, with the suffix `Builder`.
pub open spec fn describe_spec(decl: TypeDeclView) -> Result<BuilderDescriptorView, GenErrorView> {
    match fields_of(decl.shape) {
        Some(fields) => match described_fields(fields) {
            Ok(described) => Ok(
                BuilderDescriptorView {
                    name: decl.name + builder_suffix(),
                    record: decl.name,
                    fields: described,
                },
            ),
            Err(e) => Err(e),
        },
        None => Err(GenErrorView::UnsupportedShape),
    }
}

/// A field that is described without error has a well-formed descriptor.
pub proof fn lemma_described_wf(f: FieldDeclView)
    requires
        described(f) is Ok,
    ensures
        described(f)->Ok_0.wf(),
{
}

/// The descriptor of a declaration that is accepted is well formed, and has
/// one field for each named field of the declaration.
pub proof fn lemma_describe_wf(decl: TypeDeclView)
    requires
        describe_spec(decl) is Ok,
    ensures
        describe_spec(decl)->Ok_0.wf(),
        fields_of(decl.shape) is Some,
        describe_spec(decl)->Ok_0.fields.len() == fields_of(decl.shape)->0.len(),
{
    let fields = fields_of(decl.shape)->0;
    let d = describe_spec(decl)->Ok_0;
    lemma_first_true(failures(fields));
    assert forall|i: int| 0 <= i < d.fields.len() implies (#[trigger] d.fields[i]).wf() by {
        assert(!failures(fields)[i]);
        lemma_described_wf(fields[i]);
    }
}

/// Reads named fields into bare descriptors.
fn read_named(fields: &Vec<FieldDecl>) -> (res: Vec<FieldDescriptor>)
    ensures
        res.deep_view() == fields.deep_view().map_values(|f: FieldDeclView| bare(f)),
{
    let mut out: Vec<FieldDescriptor> = Vec::new();
    let mut i: usize = 0;
    while i < fields.len()
        invariant
            i <= fields.len(),
            out.len() == i,
            forall|j: int| 0 <= j < i ==> out@[j]@ == bare(fields@[j]@),
        decreases fields.len() - i,
    {
        let field = &fields[i];
        out.push(
            FieldDescriptor {
                name: field.name.clone(),
                declared_type: field.ty.clone(),
                wrapper_kind: WrapperKind::Plain,
                element_type: None,
                accumulator_alias: None,
            },
        );
        i += 1;
    }
    out
}

/// Reads the fields of a declaration into bare descriptors.
pub fn read_fields(decl: &TypeDecl) -> (res: Result<Vec<FieldDescriptor>, GenError>)
    ensures
        outcome(res) == read_spec(decl@),
{
    match &decl.shape {
        Shape::Record(fields) => Ok(read_named(fields)),
        Shape::Unit => {
            let none: Vec<FieldDecl> = Vec::new();
            let out = read_named(&none);
            assert(none.deep_view() =~= Seq::<FieldDeclView>::empty());
            Ok(out)
        },
        _ => Err(GenError::UnsupportedShape),
    }
}

/// Classifies each bare descriptor and resolves its field's annotations,
/// stopping at the first field that fails.
fn describe_named(fields: &Vec<FieldDecl>, bare_fields: &Vec<FieldDescriptor>) -> (res: Result<
    Vec<FieldDescriptor>,
    GenError,
>)
    requires
        bare_fields.deep_view() == fields.deep_view().map_values(|f: FieldDeclView| bare(f)),
    ensures
        outcome(res) == described_fields(fields.deep_view()),
{
    let ghost decls = fields.deep_view();
    assert(bare_fields.deep_view().len() == decls.len());
    let mut out: Vec<FieldDescriptor> = Vec::new();
    let mut i: usize = 0;
    while i < fields.len()
        invariant
            i <= fields.len(),
            out.len() == i,
            decls == fields.deep_view(),
            bare_fields.len() == fields.len(),
            bare_fields.deep_view() == decls.map_values(|f: FieldDeclView| bare(f)),
            forall|j: int| 0 <= j < i ==> described(decls[j]) == Ok::<_, GenErrorView>(out@[j]@),
        decreases fields.len() - i,
    {
        assert(bare_fields.deep_view()[i as int] == bare(decls[i as int]));
        let with_kind = classify(&bare_fields[i]);
        match resolve(&with_kind, &fields[i]) {
            Err(e) => {
                proof {
                    lemma_first_true_is(failures(decls), i as int);
                }
                return Err(e);
            },
            Ok(d) => {
                out.push(d);
            },
        }
        i += 1;
    }
    proof {
        lemma_first_true(failures(decls));
        assert(out.deep_view() =~= decls.map_values(|f: FieldDeclView| described(f)->Ok_0));
    }
    Ok(out)
}

/// Describes the builder of a declaration: reads its fields, classifies
/// each and resolves its annotations, stopping at the first field that fails.
pub fn describe(decl: &TypeDecl) -> (res: Result<BuilderDescriptor, GenError>)
    ensures
        outcome(res) == describe_spec(decl@),
        res matches Ok(d) ==> d@.wf(),
{
    let bare_fields = read_fields(decl)?;
    let fields = match &decl.shape {
        Shape::Record(fields) => describe_named(fields, &bare_fields)?,
        Shape::Unit => {
            let none: Vec<FieldDescriptor> = Vec::new();
            proof {
                lemma_first_true(failures(Seq::<FieldDeclView>::empty()));
                assert(none.deep_view() =~= Seq::<FieldDeclView>::empty().map_values(
                    |f: FieldDeclView| described(f)->Ok_0,
                ));
            }
            none
        },
        _ => {
            return Err(GenError::UnsupportedShape);
        },
    };
    proof {
        lemma_describe_wf(decl@);
    }
    Ok(
        BuilderDescriptor {
            name: decl.name.clone().concat("Builder"),
            record: decl.name.clone(),
            fields,
        },
    )
}

} // verus!
